use nes_emu::nes::{Cartridge, Nes};
use nes_emu::params::COLORS;
use nes_emu::ppu::{Ppu, SpriteInfo};
use nes_emu::render::{PpuStep, RenderStep};

fn machine_mirrored(chr: Vec<u8>, mapper1: u8) -> Nes {
    let mut prg = vec![0xEAu8; 0x4000];
    prg[0x3FFC] = 0x00;
    prg[0x3FFD] = 0xC0;
    Nes::start(Cartridge::new(prg, chr, mapper1).unwrap())
}

fn machine_with_chr(chr: Vec<u8>) -> Nes {
    machine_mirrored(chr, 0)
}

/// Tile 1 of the pattern table: every pixel colour 1.
fn chr_with_solid_tile() -> Vec<u8> {
    let mut chr = vec![0u8; 0x2000];
    for row in 0..8 {
        chr[0x10 + row] = 0xFF;
    }
    chr
}

fn pixel(nes: &Nes, x: usize, y: usize) -> [u8; 4] {
    let o = (y * 256 + x) * 4;
    [nes.ppu.img[o], nes.ppu.img[o + 1], nes.ppu.img[o + 2], nes.ppu.img[o + 3]]
}

fn rgba(i: usize) -> [u8; 4] {
    let (r, g, b) = COLORS(i);
    [r, g, b, 255]
}

fn run_frames(nes: &mut Nes, n: usize) {
    for _ in 0..(n * 341 * 262) {
        Ppu::run(nes);
    }
}

fn machine() -> Nes {
    machine_with_chr(vec![0u8; 0x2000])
}

#[test]
fn test_calc_ld_nt_coord() {
    assert_eq!(Ppu::calc_ld_nt_coord(1, 0), (17, 0));
    assert_eq!(Ppu::calc_ld_nt_coord(321, 0), (1, 1));
    assert_eq!(Ppu::calc_ld_nt_coord(329, 0), (9, 1));
    assert_eq!(Ppu::calc_ld_nt_coord(321, 261), (1, 0));
    assert_eq!(Ppu::calc_ld_nt_coord(329, 261), (9, 0));
}

#[test]
fn test_reg_shift() {
    let mut nes = machine();
    nes.ppu.nt_shift_reg_hi = 0x0001;
    nes.ppu.nt_shift_reg_lo = 0x0001;
    println!("{:?}", Ppu::run(&mut nes));
    println!("{:?}", Ppu::run(&mut nes));
    println!("{:?}", Ppu::run(&mut nes));
    println!("{:?}", nes.ppu.nt_shift_reg_hi);
    println!("{:?}", nes.ppu.nt_shift_reg_lo);
    assert_eq!(nes.ppu.nt_shift_reg_hi, 0x0008);
    assert_eq!(nes.ppu.nt_shift_reg_lo, 0x0008);
}

#[test]
fn test_ppu_run_reports_dot() {
    let mut nes = machine();
    assert_eq!(Ppu::run(&mut nes), PpuStep::Cycle(RenderStep::Cycle(0, 0, 0), 0));
    assert_eq!(Ppu::run(&mut nes), PpuStep::Cycle(RenderStep::Cycle(0, 1, 0), 0));
    nes.tick();
    assert_eq!(nes.ppu.dot, 5);
}

#[test]
fn test_frame_timing() {
    let mut nes = machine();
    for _ in 0..341 {
        Ppu::run(&mut nes);
    }
    assert_eq!((nes.ppu.dot, nes.ppu.scanline), (0, 1));
    for _ in 0..(341 * 240 + 1) {
        Ppu::run(&mut nes);
    }
    assert_eq!((nes.ppu.dot, nes.ppu.scanline), (1, 241));
    assert!(!nes.vblank);
    Ppu::run(&mut nes);
    assert!(nes.vblank);
    assert_eq!(nes.ppu.status.bits & 0x80, 0x80);
    assert!(!nes.cpu.nmi);
    for _ in 0..(341 * 20) {
        Ppu::run(&mut nes);
    }
    assert_eq!((nes.ppu.dot, nes.ppu.scanline), (2, 261));
    assert_eq!(nes.ppu.status.bits & 0x80, 0);
    for _ in 0..339 {
        Ppu::run(&mut nes);
    }
    assert_eq!((nes.ppu.dot, nes.ppu.scanline, nes.ppu.frame), (0, 0, 1));
}

#[test]
fn test_background_tile_drawn() {
    let mut nes = machine_with_chr(chr_with_solid_tile());
    nes.ppu.warmed_up = true;
    nes.write8(0x2006, 0x20);
    nes.write8(0x2006, 0x00);
    for _ in 0..960 {
        nes.write8(0x2007, 0x01);
    }
    nes.write8(0x2006, 0x3F);
    nes.write8(0x2006, 0x00);
    nes.write8(0x2007, 0x0F);
    nes.write8(0x2007, 0x21);
    assert_eq!(nes.fault, None);
    for _ in 0..(2 * 341 * 262) {
        Ppu::run(&mut nes);
    }
    assert_eq!(nes.fault, None);
    let (r, g, b) = COLORS(0x21);
    let o = (120 * 256 + 128) * 4;
    assert_eq!(&nes.ppu.img[o..o + 4], &[r, g, b, 255]);
}

#[test]
fn test_attribute_and_nametable_addresses() {
    let nes = machine();
    assert_eq!(Ppu::calc_ld_nt_addr(&nes, 16, 8), 0x2022);
    assert_eq!(Ppu::calc_ld_at_addr(&nes, 64, 32), 0x23CA);
    assert_eq!(Ppu::calc_ld_at_coord(300, 10), (320, 10));
    assert_eq!(Ppu::calc_ld_at_coord(330, 10), (9, 11));
    assert_eq!(Ppu::calc_ld_at_coord(330, 261), (9, 0));
    assert_eq!(Ppu::calc_at_at_bit(16, 0, 0b0000_1100), (0xFF, 0xFF));
    assert_eq!(Ppu::calc_at_at_bit(0, 16, 0b0010_0000), (0xFF, 0x00));
    assert_eq!(Ppu::calc_at_at_bit(0, 0, 0b0000_0001), (0x00, 0xFF));
}

#[test]
fn test_pattern_addresses() {
    let mut nes = machine();
    nes.ppu.ctrl.bits = 0x10;
    assert_eq!(Ppu::calc_nt_sprite_addr(&nes, 0, 11, 5), 0x1053);
    nes.ppu.ctrl.bits = 0x08;
    let s = SpriteInfo { y: 8, id: 2, attr: 0, x: 0 };
    assert_eq!(Ppu::sprite_loading_addr(&nes, 10, &s), 0x1022);
    let s = SpriteInfo { y: 8, id: 2, attr: 0x80, x: 0 };
    assert_eq!(Ppu::sprite_loading_addr(&nes, 10, &s), 0x1025);
}

#[test]
fn test_fetch_timings() {
    assert!(Ppu::ppu_line_timing(1, 0, 1));
    assert!(!Ppu::ppu_line_timing(249, 0, 1));
    assert!(Ppu::ppu_line_timing(321, 261, 1));
    assert!(!Ppu::ppu_line_timing(1, 240, 1));
    assert!(Ppu::sprite_evaluate_timing(65, 0));
    assert!(Ppu::sprite_evaluate_timing(66, 1));
    assert!(!Ppu::sprite_evaluate_timing(64, 0));
    assert!(!Ppu::sprite_evaluate_timing(257, 0));
    assert!(Ppu::sprite_loading_timing(257, 0));
    assert!(Ppu::sprite_loading_timing(260, 3));
    assert!(!Ppu::sprite_loading_timing(321, 0));
}

#[test]
fn test_sprite_flip() {
    let plain = SpriteInfo { y: 0, id: 0, attr: 0x00, x: 0 };
    let mirrored = SpriteInfo { y: 0, id: 0, attr: 0x40, x: 0 };
    assert_eq!(Ppu::sprite_flipbyte(&plain, 0x01, 0xF0), (0x01, 0xF0));
    assert_eq!(Ppu::sprite_flipbyte(&mirrored, 0x01, 0xF0), (0x80, 0x0F));
    assert_eq!(Ppu::sprite_flipbyte(&mirrored, 0b1011_0010, 0xFF), (0b0100_1101, 0xFF));
}

#[test]
fn test_grid_lines() {
    let mut nes = machine();
    assert!(!Ppu::is_grid_line(&nes, 7, 0, 8));
    nes.ppu.grid_on = true;
    assert!(Ppu::is_grid_line(&nes, 7, 0, 8));
    assert!(Ppu::is_grid_line(&nes, 0, 15, 8));
    assert!(!Ppu::is_grid_line(&nes, 3, 3, 8));
}

#[test]
fn test_nametable_mirroring() {
    let mut nes = machine();
    nes.ppu.write8(0x2005, 0x11).unwrap();
    assert_eq!(nes.ppu.read8(0x2405), 0x11);
    assert_eq!(nes.ppu.read8(0x2805), 0x00);
    let mut nes = machine_with_chr(vec![0u8; 0x2000]);
    nes.ppu.mirror = nes_emu::ppu::MIRROR::VERTICAL;
    nes.ppu.write8(0x2005, 0x22).unwrap();
    assert_eq!(nes.ppu.read8(0x2805), 0x22);
    assert_eq!(nes.ppu.read8(0x2405), 0x00);
}

#[test]
fn test_palette_mirrors() {
    let mut nes = machine();
    nes.ppu.write8(0x3F10, 0x2A).unwrap();
    assert_eq!(nes.ppu.read8(0x3F00), 0x2A);
    nes.ppu.write8(0x3F05, 0x16).unwrap();
    assert_eq!(nes.ppu.read8(0x3F25), 0x16);
    assert_eq!(nes.ppu.palette()[5], 0x16);
}

#[test]
fn test_master_palette() {
    assert_eq!(COLORS(0), (0x80, 0x80, 0x80));
    assert_eq!(COLORS(1), (0x00, 0x3D, 0xA6));
}

/// Column 2 of nametable 0 holds the solid tile; everything else is blank.
fn column_scene(nes: &mut Nes) {
    nes.ppu.warmed_up = true;
    for row in 0..30u16 {
        nes.ppu.write8(0x2000 + row * 32 + 2, 0x01).unwrap();
    }
    nes.ppu.write8(0x3F00, 0x0F).unwrap();
    nes.ppu.write8(0x3F01, 0x21).unwrap();
}

#[test]
fn test_background_column_unscrolled() {
    let mut nes = machine_mirrored(chr_with_solid_tile(), 1);
    column_scene(&mut nes);
    run_frames(&mut nes, 2);
    assert_eq!(pixel(&nes, 15, 100), rgba(0x0F));
    assert_eq!(pixel(&nes, 16, 100), rgba(0x21));
    assert_eq!(pixel(&nes, 23, 100), rgba(0x21));
    assert_eq!(pixel(&nes, 24, 100), rgba(0x0F));
}

#[test]
fn test_background_scrolled_with_fine_x() {
    let mut nes = machine_mirrored(chr_with_solid_tile(), 1);
    column_scene(&mut nes);
    nes.write8(0x2005, 12);
    nes.write8(0x2005, 0);
    run_frames(&mut nes, 2);
    assert_eq!(nes.ppu.fine_x, 4);
    assert_eq!(nes.ppu.frame_scroll_x, 12);
    assert_eq!(pixel(&nes, 3, 100), rgba(0x0F));
    assert_eq!(pixel(&nes, 4, 100), rgba(0x21));
    assert_eq!(pixel(&nes, 11, 100), rgba(0x21));
    assert_eq!(pixel(&nes, 12, 100), rgba(0x0F));
}

#[test]
fn test_background_from_selected_nametable() {
    let mut nes = machine_mirrored(chr_with_solid_tile(), 1);
    nes.ppu.warmed_up = true;
    for i in 0..960u16 {
        nes.ppu.write8(0x2400 + i, 0x01).unwrap();
    }
    nes.ppu.write8(0x3F00, 0x0F).unwrap();
    nes.ppu.write8(0x3F01, 0x21).unwrap();
    run_frames(&mut nes, 2);
    assert_eq!(pixel(&nes, 128, 120), rgba(0x0F));
    nes.write8(0x2000, 0x01);
    run_frames(&mut nes, 2);
    assert_eq!(nes.ppu.frame_scroll_x, 256);
    assert_eq!(pixel(&nes, 128, 120), rgba(0x21));
}

#[test]
fn test_background_scrolled_vertically() {
    let mut nes = machine_mirrored(chr_with_solid_tile(), 0);
    nes.ppu.warmed_up = true;
    // Row 5 of nametable 0 (lines 40-47) holds the solid tile.
    for col in 0..32u16 {
        nes.ppu.write8(0x2000 + 5 * 32 + col, 0x01).unwrap();
    }
    nes.ppu.write8(0x3F00, 0x0F).unwrap();
    nes.ppu.write8(0x3F01, 0x21).unwrap();
    nes.write8(0x2005, 0);
    nes.write8(0x2005, 20);
    run_frames(&mut nes, 2);
    assert_eq!(nes.ppu.frame_scroll_y, 20);
    assert_eq!(pixel(&nes, 100, 19), rgba(0x0F));
    assert_eq!(pixel(&nes, 100, 20), rgba(0x21));
    assert_eq!(pixel(&nes, 100, 27), rgba(0x21));
    assert_eq!(pixel(&nes, 100, 28), rgba(0x0F));
}

#[test]
fn test_line_sprites_gathered() {
    let mut nes = machine();
    let sprites: [(usize, [u8; 4]); 3] = [(0, [10, 1, 0, 20]), (1, [50, 2, 0, 30]), (2, [8, 5, 0x40, 40])];
    for (k, bytes) in sprites.iter() {
        for b in 0..4 {
            nes.ppu.oam[k * 4 + b] = bytes[b];
        }
    }
    while !(nes.ppu.scanline == 12 && nes.ppu.dot == 258) {
        Ppu::run(&mut nes);
    }
    assert_eq!(nes.ppu.secondary_oam[0], SpriteInfo { y: 10, id: 1, attr: 0, x: 20 });
    assert_eq!(nes.ppu.secondary_oam[1], SpriteInfo { y: 8, id: 5, attr: 0x40, x: 40 });
    for i in 2..8 {
        assert_eq!(nes.ppu.secondary_oam[i], SpriteInfo { y: 0xFF, id: 0xFF, attr: 0xFF, x: 0xFF });
    }
}
