//! The pixel processing unit: VRAM, OAM, the memory-mapped video registers,
//! and the four-mode scanline state machine that fills a 160x144 buffer of
//! palette indices.
//!
//! Dot budgets per scanline: AccessOAM = 80, AccessVRAM = 172, HBlank = 204,
//! for 456 dots per line; VBlank covers ten further lines of 456 dots, so a
//! frame is 70224 dots. The scanline is composed on the transition from
//! AccessVRAM to HBlank.

use vstd::prelude::*;

verus! {

/// An 8-bit palette register packing four 2-bit palette slots, LSB first.
#[derive(Debug, Clone, Copy, PartialEq, Eq, Structural)]
pub struct Pallete(pub u8);

/// The color a palette maps a 2-bit color index to.
pub open spec fn pal_color(p: u8, idx: u8) -> u8 {
    if idx == 0 {
        p % 4
    } else if idx == 1 {
        p / 4 % 4
    } else if idx == 2 {
        p / 16 % 4
    } else {
        p / 64 % 4
    }
}

impl Pallete {
    pub fn new(value: u8) -> (p: Pallete)
        ensures
            p.0 == value,
    {
        Pallete(value)
    }

    pub fn get_pallete(&self) -> (v: u8)
        ensures
            v == self.0,
    {
        self.0
    }

    pub fn set_pallete(&mut self, value: u8)
        ensures
            final(self).0 == value,
    {
        self.0 = value;
    }

    /// The four palette slots, low slot first; each is in 0..4.
    pub fn extract_pallete(&self) -> (colors: [u8; 4])
        ensures
            colors@ == seq![
                pal_color(self.0, 0),
                pal_color(self.0, 1),
                pal_color(self.0, 2),
                pal_color(self.0, 3),
            ],
    {
        let colors = [self.0 % 4, self.0 / 4 % 4, self.0 / 16 % 4, self.0 / 64 % 4];
        proof {
            assert(colors@ =~= seq![
                pal_color(self.0, 0),
                pal_color(self.0, 1),
                pal_color(self.0, 2),
                pal_color(self.0, 3),
            ]);
        }
        colors
    }
}

/// The LCD-control register at 0xFF40, with one constant per control bit.
#[derive(Debug, Clone, Copy, PartialEq, Eq, Structural)]
pub struct LCDC(pub u8);

impl LCDC {
    pub const BG_ON: u8 = 0x01;

    pub const OBJ_ON: u8 = 0x02;

    pub const OBJ_SIZE: u8 = 0x04;

    pub const BG_MAP: u8 = 0x08;

    pub const BG_ADDR: u8 = 0x10;

    pub const WINDOW_ON: u8 = 0x20;

    pub const WINDOW_MAP: u8 = 0x40;

    pub const LCD_ON: u8 = 0x80;

    pub fn new(value: u8) -> (r: LCDC)
        ensures
            r.0 == value,
    {
        LCDC(value)
    }

    pub fn set_lcdc(&mut self, value: u8)
        ensures
            final(self).0 == value,
    {
        self.0 = value;
    }

    pub fn get_lcdc(&self) -> (v: u8)
        ensures
            v == self.0,
    {
        self.0
    }

    /// Clear the bits of `flag`.
    pub fn clear(&mut self, flag: u8)
        ensures
            final(self).0 == old(self).0 & !flag,
    {
        self.0 = self.0 & !flag;
    }

    /// Set the bits of `flag`.
    pub fn set(&mut self, flag: u8)
        ensures
            final(self).0 == old(self).0 | flag,
    {
        self.0 = self.0 | flag;
    }

    /// Whether any bit of `flag` is set.
    pub fn is_set(&self, flag: u8) -> (r: bool)
        ensures
            r == (self.0 & flag != 0),
    {
        self.0 & flag != 0
    }
}

/// The LCD-status register at 0xFF41, with one constant per field.
#[derive(Debug, Clone, Copy, PartialEq, Eq, Structural)]
pub struct STAT(pub u8);

impl STAT {
    pub const PPU_MODE: u8 = 0x03;

    pub const LYC_EQ_LY: u8 = 0x04;

    pub const HBLANK_INT: u8 = 0x08;

    pub const VBLANK_INT: u8 = 0x10;

    pub const OAM_INT: u8 = 0x20;

    pub const LYC_INT: u8 = 0x40;

    pub fn new(value: u8) -> (r: STAT)
        ensures
            r.0 == value,
    {
        STAT(value)
    }

    pub fn set_stat(&mut self, value: u8)
        ensures
            final(self).0 == value,
    {
        self.0 = value;
    }

    pub fn get_stat(&self) -> (v: u8)
        ensures
            v == self.0,
    {
        self.0
    }

    /// Clear the bits of `flag`.
    pub fn clear(&mut self, flag: u8)
        ensures
            final(self).0 == old(self).0 & !flag,
    {
        self.0 = self.0 & !flag;
    }

    /// Set the bits of `flag`.
    pub fn set(&mut self, flag: u8)
        ensures
            final(self).0 == old(self).0 | flag,
    {
        self.0 = self.0 | flag;
    }

    /// Whether any bit of `flag` is set.
    pub fn is_set(&self, flag: u8) -> (r: bool)
        ensures
            r == (self.0 & flag != 0),
    {
        self.0 & flag != 0
    }
}

/// The PPU's current phase within a scanline or the vertical blank.
#[derive(Debug, Clone, Copy, PartialEq, Eq, Structural)]
pub enum Mode {
    HBlank,
    VBlank,
    AccessOAM,
    AccessVRAM,
}

/// The mode number the guest sees in STAT bits 0..2.
pub open spec fn mode_num(m: Mode) -> u8 {
    match m {
        Mode::HBlank => 0,
        Mode::VBlank => 1,
        Mode::AccessOAM => 2,
        Mode::AccessVRAM => 3,
    }
}

/// A STAT byte whose guest-writable high bits are kept and whose low three
/// bits reflect the LYC compare and the current mode.
pub open spec fn stat_with(stat: u8, ly: u8, lyc: u8, m: Mode) -> u8 {
    (stat / 8 * 8 + (if ly == lyc { 4int } else { 0int }) + mode_num(m)) as u8
}

pub struct PPU {
    vram: Vec<u8>,
    oam: Vec<u8>,
    video_buffer: Vec<u8>,
    lcdc: LCDC,
    stat: STAT,
    scy: u8,
    scx: u8,
    ly: u8,
    lyc: u8,
    bg_pallete: Pallete,
    obj0_pallete: Pallete,
    obj1_pallete: Pallete,
    wy: u8,
    wx: u8,
    mode: Mode,
    dots: u32,
}

/// Mathematical model of the PPU.
pub struct PpuV {
    pub vram: Seq<u8>,
    pub oam: Seq<u8>,
    pub video: Seq<u8>,
    pub lcdc: u8,
    pub stat: u8,
    pub scy: u8,
    pub scx: u8,
    pub ly: u8,
    pub lyc: u8,
    pub bgp: u8,
    pub obp0: u8,
    pub obp1: u8,
    pub wy: u8,
    pub wx: u8,
    pub mode: Mode,
    pub dots: u32,
}

impl View for PPU {
    type V = PpuV;

    closed spec fn view(&self) -> PpuV {
        PpuV {
            vram: self.vram@,
            oam: self.oam@,
            video: self.video_buffer@,
            lcdc: self.lcdc.0,
            stat: self.stat.0,
            scy: self.scy,
            scx: self.scx,
            ly: self.ly,
            lyc: self.lyc,
            bgp: self.bg_pallete.0,
            obp0: self.obj0_pallete.0,
            obp1: self.obj1_pallete.0,
            wy: self.wy,
            wx: self.wx,
            mode: self.mode,
            dots: self.dots,
        }
    }
}

/// Whether the LCD-enable bit (bit 7 of LCDC) is set.
pub open spec fn lcd_on(lcdc: u8) -> bool {
    lcdc / 128 % 2 == 1
}

/// Whether the background-enable bit (bit 0 of LCDC) is set.
pub open spec fn bg_on(lcdc: u8) -> bool {
    lcdc % 2 == 1
}

/// Whether the background-map bit (bit 3 of LCDC) selects the map at 0x9C00.
pub open spec fn bg_map_high(lcdc: u8) -> bool {
    lcdc / 8 % 2 == 1
}

/// Whether the tile-data bit (bit 4 of LCDC) selects unsigned addressing
/// from 0x8000.
pub open spec fn bg_addr_unsigned(lcdc: u8) -> bool {
    lcdc / 16 % 2 == 1
}

/// 2 to the power `pos`, for bit positions 0..8.
pub open spec fn spec_pow2_u8(pos: u8) -> u8 {
    if pos == 0 {
        1
    } else if pos == 1 {
        2
    } else if pos == 2 {
        4
    } else if pos == 3 {
        8
    } else if pos == 4 {
        16
    } else if pos == 5 {
        32
    } else if pos == 6 {
        64
    } else {
        128
    }
}

/// Bit `pos` of `b`, as 0 or 1.
pub open spec fn bit_at(b: u8, pos: u8) -> u8 {
    b / spec_pow2_u8(pos) % 2
}

/// The VRAM offset of the 16-byte tile with index `id` under the selected
/// addressing mode: from 0x8000 when unsigned, from 0x9000 with a signed
/// index otherwise.
pub open spec fn tile_offset(unsigned_mode: bool, id: u8) -> int {
    if unsigned_mode {
        16 * id
    } else if id < 128 {
        0x1000 + 16 * id
    } else {
        16 * id
    }
}

/// Whether the sprite-enable bit (bit 1 of LCDC) is set.
pub open spec fn obj_on(lcdc: u8) -> bool {
    lcdc / 2 % 2 == 1
}

/// Sprite height in lines: 16 when the size bit (bit 2 of LCDC) is set,
/// else 8.
pub open spec fn sprite_height(lcdc: u8) -> int {
    if lcdc / 4 % 2 == 1 {
        16
    } else {
        8
    }
}

/// Whether the window-enable bit (bit 5 of LCDC) is set.
pub open spec fn win_on(lcdc: u8) -> bool {
    lcdc / 32 % 2 == 1
}

/// Whether the window-map bit (bit 6 of LCDC) selects the map at 0x9C00.
pub open spec fn win_map_high(lcdc: u8) -> bool {
    lcdc / 64 % 2 == 1
}

/// The 2-bit color index the background contributes at screen column `x`
/// of scanline `ly` (both register scrolling and tile lookup applied).
pub open spec fn bg_index(p: PpuV, x: int) -> u8 {
    let bx = (x + p.scx) % 256;
    let by = (p.ly + p.scy) % 256;
    let map_base: int = if bg_map_high(p.lcdc) { 0x1C00 } else { 0x1800 };
    let tile_id = p.vram[map_base + (by / 8) * 32 + bx / 8];
    let tile = tile_offset(bg_addr_unsigned(p.lcdc), tile_id);
    let row = (by % 8) * 2;
    let lo = p.vram[tile + row];
    let hi = p.vram[tile + row + 1];
    let pos = (7 - bx % 8) as u8;
    (bit_at(hi, pos) * 2 + bit_at(lo, pos)) as u8
}

/// The palette index the background contributes at screen column `x`.
pub open spec fn bg_pixel(p: PpuV, x: int) -> u8 {
    pal_color(p.bgp, bg_index(p, x))
}

/// Whether the window covers screen column `x` of the current scanline:
/// it is enabled, the line has reached WY, and the column has reached
/// WX-7.
pub open spec fn win_covers(p: PpuV, x: int) -> bool {
    win_on(p.lcdc) && p.ly >= p.wy && x + 7 >= p.wx
}

/// The 2-bit color index the window contributes at screen column `x`:
/// like the background, but anchored at screen position (WX-7, WY) and
/// read from the window's tile map.
pub open spec fn win_index(p: PpuV, x: int) -> u8 {
    let wx_off = x + 7 - p.wx;
    let wy_off = p.ly - p.wy;
    let map_base: int = if win_map_high(p.lcdc) { 0x1C00 } else { 0x1800 };
    let tile_id = p.vram[map_base + (wy_off / 8) * 32 + wx_off / 8];
    let tile = tile_offset(bg_addr_unsigned(p.lcdc), tile_id);
    let row = (wy_off % 8) * 2;
    let lo = p.vram[tile + row];
    let hi = p.vram[tile + row + 1];
    let pos = (7 - wx_off % 8) as u8;
    (bit_at(hi, pos) * 2 + bit_at(lo, pos)) as u8
}

/// The 2-bit color index under a sprite: window over background over
/// white.
pub open spec fn base_index(p: PpuV, x: int) -> u8 {
    if win_covers(p, x) {
        win_index(p, x)
    } else if bg_on(p.lcdc) {
        bg_index(p, x)
    } else {
        0
    }
}

/// The palette color of the background/window layer at column `x`.
pub open spec fn base_color(p: PpuV, x: int) -> u8 {
    if win_covers(p, x) {
        pal_color(p.bgp, win_index(p, x))
    } else if bg_on(p.lcdc) {
        pal_color(p.bgp, bg_index(p, x))
    } else {
        0
    }
}

/// Whether the sprite in OAM slot `i` overlaps the current scanline.
pub open spec fn sprite_on_line(p: PpuV, i: int) -> bool {
    let sy = p.oam[4 * i];
    p.ly + 16 >= sy && p.ly + 16 < sy + sprite_height(p.lcdc)
}

/// Whether the sprite in OAM slot `i` covers screen column `x`.
pub open spec fn sprite_covers(p: PpuV, i: int, x: int) -> bool {
    let sx = p.oam[4 * i + 1];
    x + 8 >= sx && x + 8 < sx + 8
}

/// The 2-bit color index of the sprite in OAM slot `i` at column `x`,
/// with the attribute byte's X and Y flips applied; in 8x16 mode the low
/// bit of the tile index is ignored.
pub open spec fn sprite_index_color(p: PpuV, i: int, x: int) -> u8 {
    let sy = p.oam[4 * i];
    let sx = p.oam[4 * i + 1];
    let tile0 = p.oam[4 * i + 2];
    let attr = p.oam[4 * i + 3];
    let h = sprite_height(p.lcdc);
    let row0 = p.ly + 16 - sy;
    let row = if attr / 64 % 2 == 1 { h - 1 - row0 } else { row0 };
    let tile: int = if h == 16 { tile0 - tile0 % 2 } else { tile0 as int };
    let col0 = x + 8 - sx;
    let col = if attr / 32 % 2 == 1 { 7 - col0 } else { col0 };
    let pos = (7 - col) as u8;
    let lo = p.vram[tile * 16 + row * 2];
    let hi = p.vram[tile * 16 + row * 2 + 1];
    (bit_at(hi, pos) * 2 + bit_at(lo, pos)) as u8
}

/// The palette color of the winning sprite at column `x`, scanning OAM
/// from slot `i` with `taken` line-sprites already counted, or None.
///
/// At most ten sprites take part on one line, in OAM order, so ties go to
/// the lowest OAM index. Sprite color 0 is transparent, and a sprite with
/// the BG-priority attribute hides behind background/window colors 1..4.
pub open spec fn sprite_pix(p: PpuV, x: int, base_i: u8, i: int, taken: int) -> Option<u8>
    decreases 40 - i,
{
    if i < 0 || i >= 40 || taken >= 10 {
        None
    } else if sprite_on_line(p, i) {
        if sprite_covers(p, i, x) && sprite_index_color(p, i, x) != 0 && (p.oam[4 * i + 3] / 128
            % 2 == 0 || base_i == 0) {
            let pal = if p.oam[4 * i + 3] / 16 % 2 == 1 { p.obp1 } else { p.obp0 };
            Some(pal_color(pal, sprite_index_color(p, i, x)))
        } else {
            sprite_pix(p, x, base_i, i + 1, taken + 1)
        }
    } else {
        sprite_pix(p, x, base_i, i + 1, taken)
    }
}

/// The palette color written to the video buffer at column `x` of the
/// current scanline: background, window over it, sprites over both.
pub open spec fn line_pixel(p: PpuV, x: int) -> u8 {
    let sprite = if obj_on(p.lcdc) {
        sprite_pix(p, x, base_index(p, x), 0, 0)
    } else {
        None
    };
    match sprite {
        Some(c) => c,
        None => base_color(p, x),
    }
}

/// The PPU after composing scanline `ly` into the video buffer: columns
/// 0..160 of that line are composed from background, window and sprites;
/// everything else is unchanged.
pub open spec fn draw_line_spec(p: PpuV) -> PpuV {
    if p.ly <= 143 {
        PpuV {
            video: Seq::new(
                23040,
                |i: int|
                    if p.ly * 160 <= i < p.ly * 160 + 160 {
                        line_pixel(p, i - p.ly * 160)
                    } else {
                        p.video[i]
                    },
            ),
            ..p
        }
    } else {
        p
    }
}

/// A sprite pixel, when one wins, is a palette color below 4.
pub proof fn lemma_sprite_pix_bound(p: PpuV, x: int, base_i: u8, i: int, taken: int)
    ensures
        sprite_pix(p, x, base_i, i, taken) matches Some(c) ==> c < 4,
    decreases 40 - i,
{
    if 0 <= i < 40 && taken < 10 {
        lemma_sprite_pix_bound(p, x, base_i, i + 1, taken + 1);
        lemma_sprite_pix_bound(p, x, base_i, i + 1, taken);
    }
}

/// Every composed pixel is a palette color below 4.
pub proof fn lemma_line_pixel_bound(p: PpuV, x: int)
    ensures
        line_pixel(p, x) < 4,
{
    lemma_sprite_pix_bound(p, x, base_index(p, x), 0, 0);
}

/// Composing a scanline keeps the PPU well-formed.
pub proof fn lemma_draw_line_wf(p: PpuV)
    requires
        p.wf(),
    ensures
        draw_line_spec(p).wf(),
{
    if p.ly <= 143 {
        let q = draw_line_spec(p);
        assert forall|i: int| 0 <= i < 23040 implies q.video[i] < 4 by {
            if p.ly * 160 <= i < p.ly * 160 + 160 {
                lemma_line_pixel_bound(p, i - p.ly * 160);
            }
        }
    }
}

/// The PPU after one dot.
///
/// With the LCD off nothing moves. Otherwise the countdown to the next
/// transition drops by one; on reaching zero the mode machine advances:
/// AccessOAM to AccessVRAM, AccessVRAM (drawing the line) to HBlank,
/// HBlank to the next line's AccessOAM or to VBlank at line 144, and
/// VBlank line by line back to AccessOAM of line 0. STAT's low bits track
/// the mode and the LYC compare throughout.
pub open spec fn ppu_step_spec(p: PpuV) -> PpuV {
    if !lcd_on(p.lcdc) {
        p
    } else if p.dots > 1 {
        PpuV { dots: (p.dots - 1) as u32, ..p }
    } else {
        match p.mode {
            Mode::AccessOAM => PpuV {
                mode: Mode::AccessVRAM,
                dots: 172,
                stat: stat_with(p.stat, p.ly, p.lyc, Mode::AccessVRAM),
                ..p
            },
            Mode::AccessVRAM => {
                let q = draw_line_spec(p);
                PpuV {
                    mode: Mode::HBlank,
                    dots: 204,
                    stat: stat_with(q.stat, q.ly, q.lyc, Mode::HBlank),
                    ..q
                }
            },
            Mode::HBlank => {
                if p.ly + 1 == 144 {
                    PpuV {
                        ly: 144,
                        mode: Mode::VBlank,
                        dots: 456,
                        stat: stat_with(p.stat, 144, p.lyc, Mode::VBlank),
                        ..p
                    }
                } else {
                    PpuV {
                        ly: (p.ly + 1) as u8,
                        mode: Mode::AccessOAM,
                        dots: 80,
                        stat: stat_with(p.stat, (p.ly + 1) as u8, p.lyc, Mode::AccessOAM),
                        ..p
                    }
                }
            },
            Mode::VBlank => {
                if p.ly + 1 > 153 {
                    PpuV {
                        ly: 0,
                        mode: Mode::AccessOAM,
                        dots: 80,
                        stat: stat_with(p.stat, 0, p.lyc, Mode::AccessOAM),
                        ..p
                    }
                } else {
                    PpuV {
                        ly: (p.ly + 1) as u8,
                        dots: 456,
                        stat: stat_with(p.stat, (p.ly + 1) as u8, p.lyc, Mode::VBlank),
                        ..p
                    }
                }
            },
        }
    }
}

/// The PPU after `n` dots.
pub open spec fn ppu_step_n_spec(p: PpuV, n: nat) -> PpuV
    decreases n,
{
    if n == 0 {
        p
    } else {
        ppu_step_n_spec(ppu_step_spec(p), (n - 1) as nat)
    }
}

/// The byte a PPU-owned read returns: VRAM, OAM, or one of the video
/// registers; anything else reads as zero.
pub open spec fn ppu_read_spec(p: PpuV, addr: u16) -> u8 {
    if 0x8000 <= addr <= 0x9FFF {
        p.vram[addr - 0x8000]
    } else if 0xFE00 <= addr <= 0xFE9F {
        p.oam[addr - 0xFE00]
    } else if addr == 0xFF40 {
        p.lcdc
    } else if addr == 0xFF41 {
        p.stat
    } else if addr == 0xFF42 {
        p.scy
    } else if addr == 0xFF43 {
        p.scx
    } else if addr == 0xFF44 {
        p.ly
    } else if addr == 0xFF45 {
        p.lyc
    } else if addr == 0xFF47 {
        p.bgp
    } else if addr == 0xFF48 {
        p.obp0
    } else if addr == 0xFF49 {
        p.obp1
    } else if addr == 0xFF4A {
        p.wy
    } else if addr == 0xFF4B {
        p.wx
    } else {
        0
    }
}

/// The PPU after a PPU-owned write.
///
/// LY (0xFF44) is read-only to the guest. A STAT write keeps the read-only
/// low three bits. An LCDC write that turns the LCD on restarts the machine
/// at AccessOAM of line 0. An LYC write refreshes the compare bit.
pub open spec fn ppu_write_spec(p: PpuV, addr: u16, data: u8) -> PpuV {
    if 0x8000 <= addr <= 0x9FFF {
        PpuV { vram: p.vram.update(addr - 0x8000, data), ..p }
    } else if 0xFE00 <= addr <= 0xFE9F {
        PpuV { oam: p.oam.update(addr - 0xFE00, data), ..p }
    } else if addr == 0xFF40 {
        if !lcd_on(p.lcdc) && lcd_on(data) {
            PpuV {
                lcdc: data,
                ly: 0,
                mode: Mode::AccessOAM,
                dots: 80,
                stat: stat_with(p.stat, 0, p.lyc, Mode::AccessOAM),
                ..p
            }
        } else {
            PpuV { lcdc: data, ..p }
        }
    } else if addr == 0xFF41 {
        PpuV { stat: (data / 8 * 8 + p.stat % 8) as u8, ..p }
    } else if addr == 0xFF42 {
        PpuV { scy: data, ..p }
    } else if addr == 0xFF43 {
        PpuV { scx: data, ..p }
    } else if addr == 0xFF45 {
        PpuV { lyc: data, stat: stat_with(p.stat, p.ly, data, p.mode), ..p }
    } else if addr == 0xFF47 {
        PpuV { bgp: data, ..p }
    } else if addr == 0xFF48 {
        PpuV { obp0: data, ..p }
    } else if addr == 0xFF49 {
        PpuV { obp1: data, ..p }
    } else if addr == 0xFF4A {
        PpuV { wy: data, ..p }
    } else if addr == 0xFF4B {
        PpuV { wx: data, ..p }
    } else {
        p
    }
}

impl PpuV {
    /// Well-formedness: fixed memory sizes, palette indices in the video
    /// buffer, a live countdown, LY within its frame range and consistent
    /// with the mode, and STAT's low bits reflecting mode and LYC compare.
    pub open spec fn wf(self) -> bool {
        &&& self.vram.len() == 0x2000
        &&& self.oam.len() == 0xA0
        &&& self.video.len() == 23040
        &&& forall|i: int| 0 <= i < 23040 ==> self.video[i] < 4
        &&& 1 <= self.dots <= 456
        &&& self.ly <= 153
        &&& (self.mode is VBlank ==> self.ly >= 144)
        &&& (!(self.mode is VBlank) ==> self.ly <= 143)
        &&& self.stat % 4 == mode_num(self.mode)
        &&& self.stat / 4 % 2 == (if self.ly == self.lyc { 1int } else { 0int })
    }
}

impl PPU {
    /// A PPU in AccessOAM of line 0 with cleared memories and registers.
    pub fn new() -> (p: PPU)
        ensures
            p@ == initial_ppu(),
            p@.wf(),
    {
        let p = PPU {
            vram: vec![0u8; 0x2000],
            oam: vec![0u8; 0xA0],
            video_buffer: vec![0u8; 23040],
            lcdc: LCDC::new(0x00),
            stat: STAT::new(0x06),
            scy: 0x00,
            scx: 0x00,
            ly: 0x00,
            lyc: 0x00,
            bg_pallete: Pallete::new(0x00),
            obj0_pallete: Pallete::new(0x00),
            obj1_pallete: Pallete::new(0x00),
            wy: 0x00,
            wx: 0x00,
            mode: Mode::AccessOAM,
            dots: 80,
        };
        proof {
            assert(p@.vram =~= initial_ppu().vram);
            assert(p@.oam =~= initial_ppu().oam);
            assert(p@.video =~= initial_ppu().video);
        }
        p
    }

    /// Read one PPU-owned byte.
    pub fn read(&self, addr: u16) -> (data: u8)
        requires
            self@.wf(),
        ensures
            data == ppu_read_spec(self@, addr),
    {
        if 0x8000 <= addr && addr <= 0x9FFF {
            self.vram[(addr - 0x8000) as usize]
        } else if 0xFE00 <= addr && addr <= 0xFE9F {
            self.oam[(addr - 0xFE00) as usize]
        } else if addr == 0xFF40 {
            self.lcdc.get_lcdc()
        } else if addr == 0xFF41 {
            self.stat.get_stat()
        } else if addr == 0xFF42 {
            self.scy
        } else if addr == 0xFF43 {
            self.scx
        } else if addr == 0xFF44 {
            self.ly
        } else if addr == 0xFF45 {
            self.lyc
        } else if addr == 0xFF47 {
            self.bg_pallete.get_pallete()
        } else if addr == 0xFF48 {
            self.obj0_pallete.get_pallete()
        } else if addr == 0xFF49 {
            self.obj1_pallete.get_pallete()
        } else if addr == 0xFF4A {
            self.wy
        } else if addr == 0xFF4B {
            self.wx
        } else {
            0x00
        }
    }

    /// Write one PPU-owned byte.
    #[verifier::rlimit(50)]
    pub fn write(&mut self, addr: u16, data: u8)
        requires
            old(self)@.wf(),
        ensures
            final(self)@ == ppu_write_spec(old(self)@, addr, data),
            final(self)@.wf(),
    {
        if 0x8000 <= addr && addr <= 0x9FFF {
            self.vram[(addr - 0x8000) as usize] = data;
        } else if 0xFE00 <= addr && addr <= 0xFE9F {
            self.oam[(addr - 0xFE00) as usize] = data;
        } else if addr == 0xFF40 {
            let was_on = self.lcdc.0 / 128 % 2 == 1;
            let now_on = data / 128 % 2 == 1;
            self.lcdc.set_lcdc(data);
            if !was_on && now_on {
                self.ly = 0;
                self.mode = Mode::AccessOAM;
                self.dots = 80;
                self.sync_stat();
            }
        } else if addr == 0xFF41 {
            self.stat.set_stat(data / 8 * 8 + self.stat.0 % 8);
        } else if addr == 0xFF42 {
            self.scy = data;
        } else if addr == 0xFF43 {
            self.scx = data;
        } else if addr == 0xFF45 {
            self.lyc = data;
            self.sync_stat();
        } else if addr == 0xFF47 {
            self.bg_pallete.set_pallete(data);
        } else if addr == 0xFF48 {
            self.obj0_pallete.set_pallete(data);
        } else if addr == 0xFF49 {
            self.obj1_pallete.set_pallete(data);
        } else if addr == 0xFF4A {
            self.wy = data;
        } else if addr == 0xFF4B {
            self.wx = data;
        }
    }

    /// Refresh STAT's low three bits from the current mode and LYC compare.
    fn sync_stat(&mut self)
        ensures
            final(self)@ == (PpuV {
                stat: stat_with(old(self)@.stat, old(self)@.ly, old(self)@.lyc, old(self)@.mode),
                ..old(self)@
            }),
    {
        let eq: u8 = if self.ly == self.lyc { 4 } else { 0 };
        let m: u8 = match self.mode {
            Mode::HBlank => 0,
            Mode::VBlank => 1,
            Mode::AccessOAM => 2,
            Mode::AccessVRAM => 3,
        };
        self.stat.set_stat(self.stat.0 / 8 * 8 + eq + m);
    }

    /// Compose scanline LY into the video buffer: background, window
    /// over it, sprites over both.
    pub fn draw_line(&mut self)
        requires
            old(self)@.wf(),
        ensures
            final(self)@ == draw_line_spec(old(self)@),
            final(self)@.wf(),
    {
        if self.ly > 143 {
            return;
        }
        let base: usize = (self.ly as usize) * 160;
        let ghost p = self@;
        let mut x: usize = 0;
        while x < 160
            invariant
                p.wf(),
                p.ly <= 143,
                base == p.ly * 160,
                x <= 160,
                self@ == (PpuV { video: self@.video, ..p }),
                self@.video.len() == 23040,
                forall|i: int|
                    0 <= i < 23040 && !(base <= i < base + x) ==> self@.video[i] == p.video[i],
                forall|i: int| base <= i < base + x ==> self@.video[i] == line_pixel(p, i - base),
                forall|i: int| base <= i < base + x ==> self@.video[i] < 4,
            decreases 160 - x,
        {
            let color = self.line_pixel_at(Ghost(p), x as u8);
            self.video_buffer[base + x] = color;
            x += 1;
        }
        proof {
            assert(self@.video =~= draw_line_spec(p).video);
            assert(self@ =~= draw_line_spec(p));
            assert forall|i: int| 0 <= i < 23040 implies self@.video[i] < 4 by {
                if base <= i < base + 160 {
                } else {
                    assert(self@.video[i] == p.video[i]);
                }
            }
        }
    }

    /// The 2-bit background color index at column `x` of the current
    /// scanline.
    fn bg_index_at(&self, Ghost(p): Ghost<PpuV>, x: u8) -> (idx: u8)
        requires
            self@ == (PpuV { video: self@.video, ..p }),
            p.wf(),
            p.ly <= 143,
            x < 160,
        ensures
            idx == bg_index(p, x as int),
            idx < 4,
    {
        let bx: u16 = (x as u16 + self.scx as u16) % 256;
        let by: u16 = (self.ly as u16 + self.scy as u16) % 256;
        let map_base: usize = if self.lcdc.0 / 8 % 2 == 1 { 0x1C00 } else { 0x1800 };
        let map_idx: usize = map_base + (by as usize / 8) * 32 + bx as usize / 8;
        let tile_id = self.vram[map_idx];
        let tile: usize = if self.lcdc.0 / 16 % 2 == 1 {
            16 * tile_id as usize
        } else if tile_id < 128 {
            0x1000 + 16 * tile_id as usize
        } else {
            16 * tile_id as usize
        };
        let row: usize = (by as usize % 8) * 2;
        let lo = self.vram[tile + row];
        let hi = self.vram[tile + row + 1];
        let pos: u8 = 7 - (bx % 8) as u8;
        bit_of(hi, pos) * 2 + bit_of(lo, pos)
    }

    /// The 2-bit window color index at column `x` of the current
    /// scanline.
    fn win_index_at(&self, Ghost(p): Ghost<PpuV>, x: u8) -> (idx: u8)
        requires
            self@ == (PpuV { video: self@.video, ..p }),
            p.wf(),
            p.ly <= 143,
            x < 160,
            win_covers(p, x as int),
        ensures
            idx == win_index(p, x as int),
            idx < 4,
    {
        let wx_off: u16 = x as u16 + 7 - self.wx as u16;
        let wy_off: u16 = self.ly as u16 - self.wy as u16;
        let map_base: usize = if self.lcdc.0 / 64 % 2 == 1 { 0x1C00 } else { 0x1800 };
        let map_idx: usize = map_base + (wy_off as usize / 8) * 32 + wx_off as usize / 8;
        let tile_id = self.vram[map_idx];
        let tile: usize = if self.lcdc.0 / 16 % 2 == 1 {
            16 * tile_id as usize
        } else if tile_id < 128 {
            0x1000 + 16 * tile_id as usize
        } else {
            16 * tile_id as usize
        };
        let row: usize = (wy_off as usize % 8) * 2;
        let lo = self.vram[tile + row];
        let hi = self.vram[tile + row + 1];
        let pos: u8 = 7 - (wx_off % 8) as u8;
        bit_of(hi, pos) * 2 + bit_of(lo, pos)
    }

    /// The palette color of the winning sprite at column `x`, if any:
    /// at most ten sprites per line in OAM order, transparent color 0,
    /// and BG-priority sprites hidden behind base colors 1..4.
    fn sprite_pixel_at(&self, Ghost(p): Ghost<PpuV>, x: u8, base_i: u8) -> (r: Option<u8>)
        requires
            self@ == (PpuV { video: self@.video, ..p }),
            p.wf(),
            p.ly <= 143,
            x < 160,
        ensures
            r == sprite_pix(p, x as int, base_i, 0, 0),
            r matches Some(c) ==> c < 4,
    {
        let mut i: usize = 0;
        let mut taken: usize = 0;
        while i < 40
            invariant
                self@ == (PpuV { video: self@.video, ..p }),
                p.wf(),
                p.ly <= 143,
                x < 160,
                i <= 40,
                taken <= 10,
                sprite_pix(p, x as int, base_i, i as int, taken as int) == sprite_pix(
                    p,
                    x as int,
                    base_i,
                    0,
                    0,
                ),
            decreases 40 - i,
        {
            if taken >= 10 {
                return None;
            }
            let sy = self.oam[4 * i] as u16;
            let h: u16 = if self.lcdc.0 / 4 % 2 == 1 { 16 } else { 8 };
            let lyw: u16 = self.ly as u16 + 16;
            if lyw >= sy && lyw < sy + h {
                let sx = self.oam[4 * i + 1] as u16;
                let xw: u16 = x as u16 + 8;
                if xw >= sx && xw < sx + 8 {
                    let tile0 = self.oam[4 * i + 2] as u16;
                    let attr = self.oam[4 * i + 3];
                    let row0: u16 = lyw - sy;
                    let row: u16 = if attr / 64 % 2 == 1 { h - 1 - row0 } else { row0 };
                    let tile: u16 = if h == 16 { tile0 - tile0 % 2 } else { tile0 };
                    let col0: u16 = xw - sx;
                    let col: u16 = if attr / 32 % 2 == 1 { 7 - col0 } else { col0 };
                    let pos: u8 = 7 - col as u8;
                    let addr: usize = (tile as usize) * 16 + (row as usize) * 2;
                    let lo = self.vram[addr];
                    let hi = self.vram[addr + 1];
                    let idx = bit_of(hi, pos) * 2 + bit_of(lo, pos);
                    if idx != 0 && (attr / 128 % 2 == 0 || base_i == 0) {
                        let pal = if attr / 16 % 2 == 1 {
                            self.obj1_pallete.0
                        } else {
                            self.obj0_pallete.0
                        };
                        return Some(pal / pal_div(idx) % 4);
                    }
                }
                taken += 1;
            }
            i += 1;
        }
        None
    }

    /// The palette color written at column `x` of the current scanline.
    fn line_pixel_at(&self, Ghost(p): Ghost<PpuV>, x: u8) -> (c: u8)
        requires
            self@ == (PpuV { video: self@.video, ..p }),
            p.wf(),
            p.ly <= 143,
            x < 160,
        ensures
            c == line_pixel(p, x as int),
            c < 4,
    {
        let win = self.lcdc.0 / 32 % 2 == 1 && self.ly >= self.wy && x as u16 + 7
            >= self.wx as u16;
        let base_i: u8 = if win {
            self.win_index_at(Ghost(p), x)
        } else if self.lcdc.0 % 2 == 1 {
            self.bg_index_at(Ghost(p), x)
        } else {
            0
        };
        let base_c: u8 = if win || self.lcdc.0 % 2 == 1 {
            self.bg_pallete.0 / pal_div(base_i) % 4
        } else {
            0
        };
        let sprite = if self.lcdc.0 / 2 % 2 == 1 {
            self.sprite_pixel_at(Ghost(p), x, base_i)
        } else {
            None
        };
        match sprite {
            Some(c) => c,
            None => base_c,
        }
    }

    /// Advance the PPU by one dot.
    pub fn step(&mut self)
        requires
            old(self)@.wf(),
        ensures
            final(self)@ == ppu_step_spec(old(self)@),
            final(self)@.wf(),
    {
        if !(self.lcdc.0 / 128 % 2 == 1) {
            return;
        }
        if self.dots > 1 {
            self.dots = self.dots - 1;
            return;
        }
        match self.mode {
            Mode::AccessOAM => {
                self.mode = Mode::AccessVRAM;
                self.dots = 172;
                self.sync_stat();
            }
            Mode::AccessVRAM => {
                self.draw_line();
                self.mode = Mode::HBlank;
                self.dots = 204;
                self.sync_stat();
            }
            Mode::HBlank => {
                self.ly = self.ly + 1;
                if self.ly == 144 {
                    self.mode = Mode::VBlank;
                    self.dots = 456;
                } else {
                    self.mode = Mode::AccessOAM;
                    self.dots = 80;
                }
                self.sync_stat();
            }
            Mode::VBlank => {
                self.ly = self.ly + 1;
                if self.ly > 153 {
                    self.ly = 0;
                    self.mode = Mode::AccessOAM;
                    self.dots = 80;
                } else {
                    self.dots = 456;
                }
                self.sync_stat();
            }
        }
    }

    /// Advance the PPU by `n` dots.
    pub fn step_n(&mut self, n: u32)
        requires
            old(self)@.wf(),
        ensures
            final(self)@ == ppu_step_n_spec(old(self)@, n as nat),
            final(self)@.wf(),
    {
        let ghost p0 = self@;
        let mut k: u32 = 0;
        while k < n
            invariant
                self@.wf(),
                k <= n,
                ppu_step_n_spec(self@, (n - k) as nat) == ppu_step_n_spec(p0, n as nat),
            decreases n - k,
        {
            proof {
                assert(ppu_step_n_spec(self@, (n - k) as nat) == ppu_step_n_spec(
                    ppu_step_spec(self@),
                    (n - k - 1) as nat,
                ));
            }
            self.step();
            k += 1;
        }
    }

    /// The 160x144 video buffer of palette indices, each in 0..4.
    pub fn get_video_buffer(&self) -> (buf: &Vec<u8>)
        ensures
            buf@ == self@.video,
            self@.wf() ==> forall|i: int| 0 <= i < buf@.len() ==> buf@[i] < 4,
    {
        &self.video_buffer
    }
}

/// The PPU state `PPU::new` establishes.
pub open spec fn initial_ppu() -> PpuV {
    PpuV {
        vram: Seq::new(0x2000, |i: int| 0u8),
        oam: Seq::new(0xA0, |i: int| 0u8),
        video: Seq::new(23040, |i: int| 0u8),
        lcdc: 0,
        stat: 0x06,
        scy: 0,
        scx: 0,
        ly: 0,
        lyc: 0,
        bgp: 0,
        obp0: 0,
        obp1: 0,
        wy: 0,
        wx: 0,
        mode: Mode::AccessOAM,
        dots: 80,
    }
}

/// 2 to the power `pos`, for bit positions 0..8.
pub fn pow2_u8(pos: u8) -> (r: u8)
    requires
        pos < 8,
    ensures
        r == spec_pow2_u8(pos),
{
    if pos == 0 {
        1
    } else if pos == 1 {
        2
    } else if pos == 2 {
        4
    } else if pos == 3 {
        8
    } else if pos == 4 {
        16
    } else if pos == 5 {
        32
    } else if pos == 6 {
        64
    } else {
        128
    }
}

/// Bit `pos` of `b`, as 0 or 1.
pub fn bit_of(b: u8, pos: u8) -> (r: u8)
    requires
        pos < 8,
    ensures
        r == bit_at(b, pos),
        r < 2,
{
    b / pow2_u8(pos) % 2
}

/// The divisor that selects 2-bit palette slot `idx`.
fn pal_div(idx: u8) -> (d: u8)
    requires
        idx < 4,
    ensures
        idx == 0 ==> d == 1,
        idx == 1 ==> d == 4,
        idx == 2 ==> d == 16,
        idx == 3 ==> d == 64,
{
    if idx == 0 {
        1
    } else if idx == 1 {
        4
    } else if idx == 2 {
        16
    } else {
        64
    }
}

} // verus!
