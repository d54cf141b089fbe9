use nessers::cart::{Cart, FLAG_HAS_RAM};
use nessers::palette::{Color, Palette};
use nessers::ppu::{ObjectAttributeEntry, Ppu};
use nessers::ppu_regs::{ControlRegister, LoopyRegister, MaskRegister, StatusRegister};

fn assert_eq_binary<T: std::fmt::Binary>(left: T, right: T, msg: &str) {
    assert_eq!(format!("{:08b}", left), format!("{:08b}", right), "{}", msg);
}

fn nrom_cart() -> Cart {
    let mut data = vec![0x4E, 0x45, 0x53, 0x1A, 0x01, 0x01, FLAG_HAS_RAM, 0x00];
    data.resize(16, 0x00);
    data.resize(16 + 16 * 1024, 0x42);
    data.resize(16 + 16 * 1024 + 8 * 1024, 0x43);
    Cart::new(&data).unwrap()
}

#[test]
fn ppu_loopy() {
    assert_eq_binary((0b0000_0000_0000_0000 as u16).coarse_x(), 0b000_00000, "coarse_x");
    assert_eq_binary((0b0000_0000_0000_0000 as u16).coarse_y(), 0b000_00000, "coarse_y");
    assert_eq!((0b0000_0000_0000_0000 as u16).nametable_x(), false, "nametable_x");
    assert_eq!((0b0000_0000_0000_0000 as u16).nametable_y(), false, "nametable_y");
    assert_eq_binary((0b0000_0000_0000_0000 as u16).fine_y(), 0b00000_000, "fine_y");
    assert_eq!((0b0000_0000_0000_0000 as u16).unused(), false, "unused");

    assert_eq_binary((0b1_111_1_1_11111_01010 as u16).coarse_x(), 0b000_01010, "coarse_x with stuff");
    assert_eq_binary((0b1_111_1_1_10101_11111 as u16).coarse_y(), 0b000_10101, "coarse_y with stuff");
    assert_eq!((0b1_111_1_1_11111_11111 as u16).nametable_x(), true, "nametable_x with stuff");
    assert_eq!((0b1_111_1_0_11111_11111 as u16).nametable_x(), false, "nametable_x with stuff");
    assert_eq!((0b1_111_1_1_11111_11111 as u16).nametable_y(), true, "nametable_y with stuff");
    assert_eq!((0b1_111_0_1_11111_11111 as u16).nametable_y(), false, "nametable_y with stuff");
    assert_eq_binary((0b1_101_1_1_11111_11111 as u16).fine_y(), 0b00000_101, "fine_y with stuff");
    assert_eq!((0b1_111_1_1_11111_11111 as u16).unused(), true, "unused with stuff");
    assert_eq!((0b0_111_1_1_11111_11111 as u16).unused(), false, "unused with stuff");

    assert_eq_binary((0b1_111_1_1_11111_11111 as u16).set_coarse_x(0b111_10101), 0b1_111_1_1_11111_10101, "coarse_x with stuff 2");
    assert_eq_binary((0b1_111_1_1_11111_11111 as u16).set_coarse_y(0b111_10101), 0b1_111_1_1_10101_11111, "coarse_y with stuff 2");
    assert_eq_binary((0b1_111_1_0_11111_11111 as u16).set_nametable_x(true), 0b1_111_1_1_11111_11111, "nametable_x with stuff 2");
    assert_eq_binary((0b1_111_1_1_11111_11111 as u16).set_nametable_x(false), 0b1_111_1_0_11111_11111, "nametable_x with stuff 2");
    assert_eq_binary((0b1_111_0_1_11111_11111 as u16).set_nametable_y(true), 0b1_111_1_1_11111_11111, "nametable_y with stuff 2");
    assert_eq_binary((0b1_111_1_1_11111_11111 as u16).set_nametable_y(false), 0b1_111_0_1_11111_11111, "nametable_y with stuff 2");
    assert_eq_binary((0b1_111_1_1_11111_11111 as u16).set_fine_y(0b00000_101), 0b1_101_1_1_11111_11111, "fine_y with stuff 2");
    assert_eq_binary((0b1_111_1_1_11111_11111 as u16).set_unused(true), 0b1_111_1_1_11111_11111, "unused with stuff 2");
    assert_eq_binary((0b0_111_1_1_11111_11111 as u16).set_unused(false), 0b0_111_1_1_11111_11111, "unused with stuff 2");
}

#[test]
fn get_oam_data() {
    let mut ppu = Ppu::new(Palette::new());
    let oam_entry = ObjectAttributeEntry { y: 42, tile_id: 43, attribute: 44, x: 45 };

    let idx = 42;
    ppu.oam[idx as usize] = oam_entry;

    // Before; should be all zeroes
    ppu.oam_addr = idx * 4 - 1;
    assert_eq!(ppu.get_oam_data(), 0x00);

    ppu.oam_addr = idx * 4 + 0;
    assert_eq!(ppu.get_oam_data(), oam_entry.y);

    ppu.oam_addr = idx * 4 + 1;
    assert_eq!(ppu.get_oam_data(), oam_entry.tile_id);

    ppu.oam_addr = idx * 4 + 2;
    assert_eq!(ppu.get_oam_data(), oam_entry.attribute);

    ppu.oam_addr = idx * 4 + 3;
    assert_eq!(ppu.get_oam_data(), oam_entry.x);

    // After; should be all zeroes
    ppu.oam_addr = idx * 4 + 4;
    assert_eq!(ppu.get_oam_data(), 0x00);
}

#[test]
fn set_oam_data() {
    let mut ppu = Ppu::new(Palette::new());

    let idx = 42;

    ppu.set_oam_data(idx * 4 + 0, 42);
    assert_eq!(ppu.oam[idx as usize].y, 42);

    ppu.set_oam_data(idx * 4 + 1, 43);
    assert_eq!(ppu.oam[idx as usize].tile_id, 43);

    ppu.set_oam_data(idx * 4 + 2, 44);
    assert_eq!(ppu.oam[idx as usize].attribute, 44);

    ppu.set_oam_data(idx * 4 + 3, 45);
    assert_eq!(ppu.oam[idx as usize].x, 45);

    // Looping over to the next item...
    ppu.set_oam_data(idx * 4 + 4, 46);
    assert_eq!(ppu.oam[idx as usize + 1].y, 46);

    ppu.set_oam_data(idx * 4 + 5, 47);
    assert_eq!(ppu.oam[idx as usize + 1].tile_id, 47);
}

#[test]
fn ppu_register_flags_round_trip() {
    let s: u8 = 0u8.set_vblank(true).set_sprite_zero_hit(true);
    assert!(s.vblank() && s.sprite_zero_hit() && !s.sprite_overflow());
    assert_eq!(s, 0b1100_0000);
    let m: u8 = 0u8.set_render_background(true).set_enhance_blue(true);
    assert!(m.render_background() && m.enhance_blue() && !m.render_sprites());
    assert_eq!(m, 0b1000_1000);
    let c: u8 = 0xFFu8.set_enable_nmi(false).set_increment_mode(false);
    assert!(!c.enable_nmi() && !c.increment_mode() && c.tall_sprites());
    assert_eq!(c, 0b0111_1011);
}

#[test]
fn ppu_address_register_and_data_port() {
    let mut cart = nrom_cart();
    let mut ppu = Ppu::new(Palette::new());
    // $2006 twice sets the VRAM address to $2105.
    assert_eq!(ppu.write(0x2006, 0x21, &mut cart), Some(()));
    assert_eq!(ppu.write(0x2006, 0x05, &mut cart), Some(()));
    assert_eq!(ppu.vram_addr, 0x2105);
    ppu.write(0x2007, 0x99, &mut cart);
    assert_eq!(ppu.vram_addr, 0x2106);
    // Horizontal mirroring (flag clear): $2105 is nametable 0, offset $105.
    assert_eq!(ppu.name_tables[0x105], 0x99);
    assert_eq!(ppu.ppu_read(0x2505, &mut cart), 0x99);
    // Reads through $2007 are buffered by one.
    ppu.write(0x2006, 0x21, &mut cart);
    ppu.write(0x2006, 0x05, &mut cart);
    let _ = ppu.read(0x2007, &mut cart);
    assert_eq!(ppu.read(0x2007, &mut cart), Some(0x99));
    // Pattern memory answers from the cartridge's CHR.
    assert_eq!(ppu.ppu_read(0x0010, &mut cart), 0x43);
    // Outside the register range the PPU declines.
    assert_eq!(ppu.read(0x2008, &mut cart), None);
}

#[test]
fn ppu_palette_mirrors_backdrop_entries() {
    let mut cart = nrom_cart();
    let mut ppu = Ppu::new(Palette::new());
    ppu.ppu_write(0x3F10, 0x21, &mut cart);
    assert_eq!(ppu.palette.map[0], 0x21);
    assert_eq!(ppu.ppu_read(0x3F00, &mut cart), 0x21);
    ppu.ppu_write(0x3F05, 0x07, &mut cart);
    assert_eq!(ppu.ppu_read(0x3F25, &mut cart), 0x07);
}

#[test]
fn ppu_status_read_clears_vblank_and_latch() {
    let mut cart = nrom_cart();
    let mut ppu = Ppu::new(Palette::new());
    ppu.status = 0b1110_0000;
    ppu.data_buffer = 0b0001_0101;
    ppu.address_latch = true;
    assert_eq!(ppu.read(0x2002, &mut cart), Some(0b1111_0101));
    assert_eq!(ppu.status, 0b0110_0000);
    assert!(!ppu.address_latch);
}

#[test]
fn ppu_frame_timing_and_vblank_nmi() {
    let mut cart = nrom_cart();
    let mut ppu = Ppu::new(Palette::new());
    ppu.write(0x2000, 0x80, &mut cart); // enable NMI
    // Run to scanline 241, dot 1.
    let mut clocks: u64 = 0;
    while !(ppu.scanline == 241 && ppu.cycle == 2) {
        ppu.clock(&mut cart);
        clocks += 1;
    }
    assert!(ppu.status.vblank());
    assert!(ppu.nmi);
    // The first dot of scanline 0 is skipped: 241 lines of 341 dots, less one.
    assert_eq!(clocks, 241 * 341 + 2 - 1);
    // A frame completes when the pre-render line comes round.
    while !ppu.frame_complete {
        ppu.clock(&mut cart);
    }
    assert_eq!(ppu.scanline, -1);
    assert_eq!(ppu.cycle, 0);
}

#[test]
fn ppu_sprite_evaluation_takes_first_eight() {
    let mut cart = nrom_cart();
    let mut ppu = Ppu::new(Palette::new());
    for i in 0..10 {
        ppu.oam[i] = ObjectAttributeEntry { y: 10, tile_id: i as u8, attribute: 0, x: 0 };
    }
    ppu.scanline = 12;
    ppu.cycle = 257;
    ppu.clock(&mut cart);
    assert_eq!(ppu.sprites_on_scanline.len(), 8);
    assert_eq!(ppu.sprites_on_scanline[7].tile_id, 7);
    assert!(ppu.sprites_on_scanline_contains_sprite_0);
    assert!(ppu.status.sprite_overflow());
}

#[test]
fn ppu_render_name_table_picks_tiles() {
    let mut ppu = Ppu::new(Palette::new());
    ppu.name_tables[0] = 0x12; // tile row 1, column 2
    let mut pattern = vec![[0u8, 0, 0, 0xFF]; 128 * 128];
    // Pixel (row 8, column 16) of the pattern image is tile (1, 2)'s top left.
    pattern[8 * 128 + 16] = [1, 2, 3, 0xFF];
    let image = ppu.render_name_table(&pattern, 0);
    assert_eq!(image.len(), 256 * 240);
    assert_eq!(image[0], [1, 2, 3, 0xFF]);
}

#[test]
fn ppu_palettes_follow_palette_memory() {
    let mut cart = nrom_cart();
    let mut palette = Palette::new();
    palette.colors[5] = Color { r: 10, g: 20, b: 30 };
    let mut ppu = Ppu::new(palette);
    ppu.ppu_write(0x3F06, 5, &mut cart);
    let palettes = ppu.get_palettes(&mut cart);
    assert_eq!(palettes.len(), 32);
    assert_eq!(palettes[6], [10, 20, 30, 0xFF]);
    let image = ppu.render_pattern_table(0, 0, &mut cart);
    assert_eq!(image.len(), 128 * 128);
}

#[test]
fn ppu_draws_background_pixel_in_its_palette_color() {
    let mut cart = nrom_cart();
    let mut palette = Palette::new();
    palette.colors[9] = Color { r: 1, g: 2, b: 3 };
    let mut ppu = Ppu::new(palette);
    // Palette 1, pixel value 1 holds color 9.
    ppu.ppu_write(0x3F05, 9, &mut cart);
    ppu.mask = 0b0000_1010; // background, including the leftmost pixels
    ppu.bg_shifter_pattern_lo = 0x8000;
    ppu.bg_shifter_attrib_lo = 0x8000;
    ppu.scanline = 5;
    ppu.cycle = 1;
    ppu.clock(&mut cart);
    assert_eq!(ppu.screen[5 * 256], [1, 2, 3, 0xFF]);
    assert_eq!(ppu.screen[5 * 256 + 1], [0xFF, 0x00, 0xFF, 0xFF]);
    assert!(!ppu.status.sprite_zero_hit());
}

#[test]
fn ppu_draws_sprite_zero_in_front_and_flags_the_hit() {
    let mut cart = nrom_cart();
    let mut palette = Palette::new();
    palette.colors[9] = Color { r: 1, g: 2, b: 3 };
    palette.colors[12] = Color { r: 4, g: 5, b: 6 };
    let mut ppu = Ppu::new(palette);
    ppu.ppu_write(0x3F05, 9, &mut cart);
    // Sprite palette 4, pixel value 3 holds color 12.
    ppu.ppu_write(0x3F13, 12, &mut cart);
    ppu.mask = 0b0001_1110; // background and sprites, including the left edge
    // The shifters move one pixel on this fetch dot before the pixel is drawn.
    ppu.bg_shifter_pattern_lo = 0x4000;
    ppu.bg_shifter_attrib_lo = 0x4000;
    // CHR bytes are all 0x43: the sprite's second column is opaque (value 3).
    ppu.sprites_on_scanline = vec![ObjectAttributeEntry { y: 0, tile_id: 0, attribute: 0, x: 0 }];
    ppu.sprites_on_scanline_contains_sprite_0 = true;
    ppu.scanline = 5;
    ppu.cycle = 2;
    ppu.clock(&mut cart);
    assert_eq!(ppu.screen[5 * 256 + 1], [4, 5, 6, 0xFF]);
    assert!(ppu.status.sprite_zero_hit());
    // Behind the background, the background pixel shows instead.
    let mut palette2 = Palette::new();
    palette2.colors[9] = Color { r: 1, g: 2, b: 3 };
    let mut ppu2 = Ppu::new(palette2);
    ppu2.ppu_write(0x3F05, 9, &mut cart);
    ppu2.mask = 0b0001_1110;
    ppu2.bg_shifter_pattern_lo = 0x4000;
    ppu2.bg_shifter_attrib_lo = 0x4000;
    ppu2.sprites_on_scanline = vec![ObjectAttributeEntry { y: 0, tile_id: 0, attribute: 0x20, x: 0 }];
    ppu2.scanline = 5;
    ppu2.cycle = 2;
    ppu2.clock(&mut cart);
    assert_eq!(ppu2.screen[5 * 256 + 1], [1, 2, 3, 0xFF]);
    assert!(!ppu2.status.sprite_zero_hit());
}

#[test]
fn ppu_pattern_table_sheet_colors_each_bit() {
    // Every CHR byte is 0x43 (bits 0, 1 and 6 set) in both planes, so a
    // pixel's value is 3 (high plane bit 1, low plane bit 0) where that bit
    // is set and 0 elsewhere.
    let mut cart = nrom_cart();
    let mut palette = Palette::new();
    palette.colors[7] = Color { r: 7, g: 8, b: 9 };
    palette.colors[3] = Color { r: 3, g: 4, b: 5 };
    let mut ppu = Ppu::new(palette);
    ppu.ppu_write(0x3F00, 3, &mut cart);
    ppu.ppu_write(0x3F03, 7, &mut cart);
    let image = ppu.render_pattern_table(0, 0, &mut cart);
    // Bits run right to left: column 7 of a tile is bit 0.
    assert_eq!(image[7], [7, 8, 9, 0xFF]);
    assert_eq!(image[6], [7, 8, 9, 0xFF]);
    assert_eq!(image[5], [3, 4, 5, 0xFF]);
    assert_eq!(image[1], [7, 8, 9, 0xFF]);
    assert_eq!(image[0], [3, 4, 5, 0xFF]);
    // The next tile to the right starts at column 8.
    assert_eq!(image[128 * 9 + 15], [7, 8, 9, 0xFF]);
}

#[test]
fn ppu_fetches_the_next_background_tile() {
    let mut cart = nrom_cart();
    let mut ppu = Ppu::new(Palette::new());
    ppu.ppu_write(0x2000, 0x55, &mut cart); // tile id of the top left tile
    ppu.ppu_write(0x23C0, 0b1110_0111, &mut cart); // its quadrant's palette is 3
    ppu.mask = 0b0000_1010;
    ppu.vram_addr = 0;
    ppu.scanline = 0;
    ppu.cycle = 9; // the first dot of the second tile's fetches
    ppu.clock(&mut cart);
    assert_eq!(ppu.bg_next_tile_id, 0x55);
    ppu.clock(&mut cart);
    ppu.clock(&mut cart);
    assert_eq!(ppu.bg_next_tile_attribute, 3);
    ppu.clock(&mut cart);
    ppu.clock(&mut cart);
    // CHR bytes are all 0x43.
    assert_eq!(ppu.bg_next_tile_addr_lsb, 0x43);
    ppu.clock(&mut cart);
    ppu.clock(&mut cart);
    assert_eq!(ppu.bg_next_tile_addr_msb, 0x43);
    assert_eq!(ppu.vram_addr, 0);
    // The eighth dot moves one tile right.
    ppu.clock(&mut cart);
    assert_eq!(ppu.vram_addr, 1);
}

#[test]
fn ppu_nametables_follow_the_mirroring() {
    // This cartridge mirrors horizontally: $2000 and $2400 share a table,
    // $2800 and $2C00 the other.
    let mut cart = nrom_cart();
    let mut ppu = Ppu::new(Palette::new());
    ppu.ppu_write(0x2005, 0x77, &mut cart);
    assert_eq!(ppu.ppu_read(0x2405, &mut cart), 0x77);
    assert_eq!(ppu.ppu_read(0x3405, &mut cart), 0x77);
    assert_eq!(ppu.ppu_read(0x2805, &mut cart), 0x00);
    ppu.ppu_write(0x2C05, 0x11, &mut cart);
    assert_eq!(ppu.ppu_read(0x2805, &mut cart), 0x11);
    assert_eq!(ppu.ppu_read(0x2005, &mut cart), 0x77);
}
