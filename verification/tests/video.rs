//! Scanline composition: window placement over the background, sprite
//! transparency, flips, the BG-priority attribute, the ten-sprite limit,
//! and 8x16 sprites.

use emuchan::ppu::PPU;

fn solid_tile(ppu: &mut PPU, tile: u16, lo: u8, hi: u8) {
    for row in 0..8u16 {
        ppu.write(0x8000 + tile * 16 + row * 2, lo);
        ppu.write(0x8000 + tile * 16 + row * 2 + 1, hi);
    }
}

#[test]
fn window_overdraws_background() {
    let mut ppu = PPU::new();
    // LCD on, window on with its map at 0x9C00, unsigned tiles,
    // background on with its map at 0x9800.
    ppu.write(0xFF40, 0xF1);
    ppu.write(0xFF47, 0xE4);
    solid_tile(&mut ppu, 0, 0xFF, 0x00); // background: color 1 everywhere
    solid_tile(&mut ppu, 1, 0x00, 0xFF); // window: color 2 everywhere
    for cell in 0..20u16 {
        ppu.write(0x9C00 + cell, 1);
    }
    // Window anchored at screen column 80 of line 0.
    ppu.write(0xFF4A, 0);
    ppu.write(0xFF4B, 87);
    ppu.draw_line();
    let video = ppu.get_video_buffer();
    assert_eq!(video[0], 1, "background to the left of the window");
    assert_eq!(video[79], 1);
    assert_eq!(video[80], 2, "window from column WX-7 on");
    assert_eq!(video[159], 2);
}

#[test]
fn sprite_over_background_with_transparency() {
    let mut ppu = PPU::new();
    // LCD on, sprites on, unsigned tiles, background on.
    ppu.write(0xFF40, 0x93);
    ppu.write(0xFF47, 0xE4);
    ppu.write(0xFF48, 0xE4);
    solid_tile(&mut ppu, 0, 0xFF, 0x00); // background: color 1
    solid_tile(&mut ppu, 2, 0xFF, 0xFF); // sprite glyph: color 3
    // OAM slot 0: top-left corner, tile 2, no flips, OBP0.
    ppu.write(0xFE00, 16);
    ppu.write(0xFE01, 8);
    ppu.write(0xFE02, 2);
    ppu.write(0xFE03, 0);
    ppu.draw_line();
    let video = ppu.get_video_buffer();
    for x in 0..8 {
        assert_eq!(video[x], 3, "sprite pixels win at column {}", x);
    }
    assert_eq!(video[8], 1, "background resumes past the sprite");
    // A sprite of color 0 is transparent: the background shows through.
    ppu.write(0xFE02, 3); // tile 3 is all zeroes
    ppu.draw_line();
    let video = ppu.get_video_buffer();
    assert_eq!(video[0], 1);
}

#[test]
fn bg_priority_attribute_hides_the_sprite() {
    let mut ppu = PPU::new();
    ppu.write(0xFF40, 0x93);
    ppu.write(0xFF47, 0xE4);
    ppu.write(0xFF48, 0xE4);
    solid_tile(&mut ppu, 0, 0xFF, 0x00); // background color 1 everywhere
    solid_tile(&mut ppu, 2, 0xFF, 0xFF);
    ppu.write(0xFE00, 16);
    ppu.write(0xFE01, 8);
    ppu.write(0xFE02, 2);
    ppu.write(0xFE03, 0x80); // behind background colors 1..4
    ppu.draw_line();
    assert_eq!(ppu.get_video_buffer()[0], 1, "the background wins");
}

#[test]
fn sprite_x_flip() {
    let mut ppu = PPU::new();
    // LCD and sprites on, background off: the base layer is color 0.
    ppu.write(0xFF40, 0x82);
    ppu.write(0xFF48, 0xE4);
    // Tile 4: only the leftmost pixel of each row has color 1.
    for row in 0..8u16 {
        ppu.write(0x8000 + 4 * 16 + row * 2, 0x80);
        ppu.write(0x8000 + 4 * 16 + row * 2 + 1, 0x00);
    }
    ppu.write(0xFE00, 16);
    ppu.write(0xFE01, 8);
    ppu.write(0xFE02, 4);
    ppu.write(0xFE03, 0x20); // X-flip
    ppu.draw_line();
    let video = ppu.get_video_buffer();
    assert_eq!(video[0], 0, "flipped: the marked pixel moved right");
    assert_eq!(video[7], 1);
}

#[test]
fn only_ten_sprites_take_part_per_line() {
    let mut ppu = PPU::new();
    ppu.write(0xFF40, 0x82);
    ppu.write(0xFF48, 0xE4);
    solid_tile(&mut ppu, 2, 0xFF, 0xFF);
    // Slots 0..10 all sit on line 0; the first ten never cover a column.
    for slot in 0..10u16 {
        ppu.write(0xFE00 + slot * 4, 16);
        ppu.write(0xFE00 + slot * 4 + 1, 0); // off-screen to the left
        ppu.write(0xFE00 + slot * 4 + 2, 2);
        ppu.write(0xFE00 + slot * 4 + 3, 0);
    }
    ppu.write(0xFE00 + 40, 16);
    ppu.write(0xFE00 + 41, 8); // would cover columns 0..8
    ppu.write(0xFE00 + 42, 2);
    ppu.write(0xFE00 + 43, 0);
    ppu.draw_line();
    assert_eq!(ppu.get_video_buffer()[0], 0, "the eleventh sprite is dropped");
    // Take one of the first ten off the line: a slot frees up.
    ppu.write(0xFE00 + 5 * 4, 0);
    ppu.draw_line();
    assert_eq!(ppu.get_video_buffer()[0], 3, "now the tall-index sprite shows");
}

#[test]
fn tall_sprites_ignore_the_tile_low_bit() {
    let mut ppu = PPU::new();
    ppu.write(0xFF40, 0x86); // LCD on, sprites on, 8x16 sprites
    ppu.write(0xFF48, 0xE4);
    solid_tile(&mut ppu, 2, 0xFF, 0xFF); // the even half of the pair
    ppu.write(0xFE00, 16);
    ppu.write(0xFE01, 8);
    ppu.write(0xFE02, 3); // odd index: rounds down to tile 2
    ppu.write(0xFE03, 0);
    ppu.draw_line();
    assert_eq!(ppu.get_video_buffer()[0], 3);
}

#[test]
fn signed_tile_addressing() {
    let mut ppu = PPU::new();
    // LCD and background on, signed tile addressing from 0x9000.
    ppu.write(0xFF40, 0x81);
    ppu.write(0xFF47, 0xE4);
    // Tile 0x80 sits at 0x8800 in signed mode; fill it with color 1.
    for row in 0..8u16 {
        ppu.write(0x8800 + row * 2, 0xFF);
        ppu.write(0x8800 + row * 2 + 1, 0x00);
    }
    // Tile 0x00 sits at 0x9000 in signed mode; fill it with color 2.
    for row in 0..8u16 {
        ppu.write(0x9000 + row * 2, 0x00);
        ppu.write(0x9000 + row * 2 + 1, 0xFF);
    }
    ppu.write(0x9800, 0x80);
    ppu.write(0x9801, 0x00);
    ppu.draw_line();
    let video = ppu.get_video_buffer();
    assert_eq!(video[0], 1, "index 0x80 reads below the 0x9000 base");
    assert_eq!(video[8], 2, "index 0x00 reads at the 0x9000 base");
}
