use nes_emu::fault::Fault;
use nes_emu::flags::PadButton;
use nes_emu::nes::{Cartridge, Nes};
use nes_emu::ppu::MIRROR;

fn machine_with_prg(prg_len: usize, mapper1: u8) -> Nes {
    let mut prg = vec![0xEAu8; prg_len];
    for (i, b) in prg.iter_mut().enumerate().take(0x100) {
        *b = i as u8;
    }
    prg[prg_len - 4] = 0x00;
    prg[prg_len - 3] = 0xC0;
    let cart = Cartridge::new(prg, vec![0x77u8; 0x2000], mapper1).unwrap();
    Nes::start(cart)
}

/// A machine past its first vertical blank, so that every PPU register takes writes.
fn machine() -> Nes {
    let mut nes = machine_with_prg(0x4000, 0);
    nes.ppu.warmed_up = true;
    nes
}

#[test]
fn test_cartridge_sizes() {
    assert!(Cartridge::new(vec![], vec![], 0).is_none());
    assert!(Cartridge::new(vec![0; 0x8001], vec![], 0).is_none());
    assert!(Cartridge::new(vec![0; 0x8000], vec![], 0).is_some());
    assert!(Cartridge::new(vec![0; 0x4000], vec![0; 0x2000], 1).is_some());
}

#[test]
fn test_cartridge_mirroring() {
    let c = Cartridge::new(vec![0; 0x4000], vec![], 1).unwrap();
    assert_eq!(c.mirror(), MIRROR::VERTICAL);
    let c = Cartridge::new(vec![0; 0x4000], vec![], 0).unwrap();
    assert_eq!(c.mirror(), MIRROR::HORIZONTAL);
}

#[test]
fn test_prg_mirrored_for_16k() {
    let mut nes = machine();
    assert_eq!(nes.read8(0x8005), 0x05);
    assert_eq!(nes.read8(0xC005), 0x05);
    assert_eq!(nes.read16(0xFFFC), 0xC000);
    assert_eq!(nes.cpu.pc, 0xC000);
    assert_eq!(nes.fault, None);
}

#[test]
fn test_prg_32k_not_mirrored() {
    let mut nes = machine_with_prg(0x8000, 0);
    assert_eq!(nes.read8(0x8005), 0x05);
    assert_eq!(nes.read8(0xC005), 0xEA);
}

#[test]
fn test_wram_mirrors_every_2k() {
    let mut nes = machine();
    nes.write8(0x0123, 0x42);
    assert_eq!(nes.read8(0x0923), 0x42);
    assert_eq!(nes.read8(0x1123), 0x42);
    assert_eq!(nes.read8(0x1923), 0x42);
    nes.write8(0x1FFF, 0x99);
    assert_eq!(nes.read8(0x07FF), 0x99);
    assert_eq!(nes.ram()[0x7FF], 0x99);
}

#[test]
fn test_io_registers_without_device() {
    let mut nes = machine();
    assert_eq!(nes.read8(0x4000), 0xFF);
    assert_eq!(nes.read8(0x4015), 0xFF);
    assert_eq!(nes.read8(0x4017), 0x00);
    nes.write8(0x4000, 0x12);
    assert_eq!(nes.fault, None);
}

#[test]
fn test_pad_reports_buttons_in_order() {
    let mut nes = machine();
    nes.pad.press(PadButton::from_bits_truncate(PadButton::A | PadButton::START | PadButton::RIGHT));
    nes.write8(0x4016, 1);
    nes.write8(0x4016, 0);
    let bits: Vec<u8> = (0..10).map(|_| nes.read8(0x4016)).collect();
    assert_eq!(bits, vec![1, 0, 1, 0, 0, 0, 0, 1, 1, 1]);
}

#[test]
fn test_pad_strobe_reports_held() {
    let mut nes = machine();
    nes.write8(0x4016, 1);
    assert_eq!(nes.read8(0x4016), 1);
    nes.write8(0x4016, 0);
    assert_eq!(nes.read8(0x4016), 0);
}

#[test]
fn test_pad_press_release() {
    let mut nes = machine();
    nes.pad.press(PadButton::from_bits_truncate(PadButton::B));
    nes.pad.press(PadButton::from_bits_truncate(PadButton::UP));
    assert_eq!(nes.pad.status.bits, PadButton::B | PadButton::UP);
    nes.pad.release(PadButton::from_bits_truncate(PadButton::B));
    assert_eq!(nes.pad.status.bits, PadButton::UP);
}

#[test]
fn test_oam_dma_copies_page() {
    let mut nes = machine();
    for i in 0..256u16 {
        nes.write8(0x0200 + i, (i as u8) ^ 0x5A);
    }
    nes.write8(0x2003, 0x10);
    nes.write8(0x4014, 0x02);
    for i in 0..256usize {
        assert_eq!(nes.ppu.oam[(0x10 + i) % 256], (i as u8) ^ 0x5A);
    }
    assert_eq!(nes.cpu.dma_stall, 513);
    assert_eq!(nes.fault, None);
}

#[test]
fn test_ppu_registers_mirror_every_8() {
    let mut nes = machine();
    nes.write8(0x2008, 0x80);
    assert_eq!(nes.ppu.ctrl.bits, 0x80);
    nes.write8(0x3FF9, 0x1E);
    assert_eq!(nes.ppu.mask.bits, 0x1E);
}

#[test]
fn test_ppu_data_through_registers() {
    let mut nes = machine();
    nes.write8(0x2006, 0x21);
    nes.write8(0x2006, 0x08);
    nes.write8(0x2007, 0x55);
    nes.write8(0x2007, 0x66);
    assert_eq!(nes.ppu.addr, 0x210A);
    assert_eq!(nes.ppu.read8(0x2108), 0x55);
    nes.write8(0x2006, 0x21);
    nes.write8(0x2006, 0x08);
    let first = nes.read8(0x2007);
    let second = nes.read8(0x2007);
    let third = nes.read8(0x2007);
    assert_eq!(first, 0x00);
    assert_eq!(second, 0x55);
    assert_eq!(third, 0x66);
}

#[test]
fn test_ppu_status_read_clears_vblank_and_latch() {
    let mut nes = machine();
    nes.ppu.status.bits = 0xC0;
    nes.ppu.latch = true;
    assert_eq!(nes.read8(0x2002), 0xC0);
    assert_eq!(nes.ppu.status.bits, 0x40);
    assert!(!nes.ppu.latch);
}

#[test]
fn test_ppu_write_only_register_read_faults() {
    let mut nes = machine();
    assert_eq!(nes.read8(0x2000), 0);
    assert_eq!(nes.fault, Some(Fault::PpuRegRead(0)));
}

#[test]
fn test_ppu_status_write_faults() {
    let mut nes = machine();
    nes.write8(0x2002, 0);
    assert_eq!(nes.fault, Some(Fault::PpuRegWrite(2)));
}

#[test]
fn test_chr_write_faults() {
    let mut nes = machine();
    nes.write8(0x2006, 0x00);
    nes.write8(0x2006, 0x10);
    nes.write8(0x2007, 0x01);
    assert_eq!(nes.fault, Some(Fault::ChrWrite(0x0010)));
    assert_eq!(nes.ppu.read8(0x0010), 0x77);
}

#[test]
fn test_oam_data_register() {
    let mut nes = machine();
    nes.write8(0x2003, 0xFF);
    nes.write8(0x2004, 0x12);
    nes.write8(0x2004, 0x34);
    assert_eq!(nes.ppu.oam[0xFF], 0x12);
    assert_eq!(nes.ppu.oam[0x00], 0x34);
    assert_eq!(nes.ppu.oamaddr, 0x01);
    assert_eq!(nes.read8(0x2004), 0xFF);
}

#[test]
fn test_scroll_register_latch() {
    let mut nes = machine();
    nes.write8(0x2005, 0x12);
    nes.write8(0x2005, 0x34);
    assert_eq!(nes.ppu.scroll, 0x3412);
    assert!(!nes.ppu.latch);
}

#[test]
fn test_ppu_writes_ignored_until_warmed_up() {
    let mut nes = machine_with_prg(0x4000, 0);
    assert!(!nes.ppu.warmed_up);
    nes.write8(0x2000, 0x80);
    nes.write8(0x2005, 0x12);
    nes.write8(0x2006, 0x21);
    assert_eq!(nes.ppu.ctrl.bits, 0);
    assert_eq!(nes.ppu.scroll, 0);
    assert_eq!(nes.ppu.addr, 0);
    assert!(!nes.ppu.latch);
    nes.write8(0x2001, 0x1E);
    assert_eq!(nes.ppu.mask.bits, 0x1E);
    assert_eq!(nes.fault, None);
}

#[test]
fn test_ppu_address_is_14_bits() {
    let mut nes = machine();
    nes.write8(0x2006, 0x7F);
    nes.write8(0x2006, 0x05);
    assert_eq!(nes.ppu.addr, 0x3F05);
}

#[test]
fn test_oam_dma_from_prg_page() {
    let mut nes = machine();
    nes.write8(0x4014, 0x80);
    for i in 0..256usize {
        assert_eq!(nes.ppu.oam[i], i as u8);
    }
    assert_eq!(nes.fault, None);
}
