use nes_emu::control::{map_button, replace_button_state, GamepadButton, Key, KeyEffect, KeyboardInput};
use nes_emu::flags::PadButton;
use nes_emu::nes::{Cartridge, Nes};

fn machine() -> Nes {
    let mut prg = vec![0xEAu8; 0x4000];
    prg[0x3FFC] = 0x00;
    prg[0x3FFD] = 0xC0;
    Nes::start(Cartridge::new(prg, vec![0u8; 0x2000], 0).unwrap())
}

#[test]
fn test_keys_hold_buttons() {
    let mut nes = machine();
    assert_eq!(KeyboardInput::keypress(&mut nes, Key::J), KeyEffect::Done);
    assert_eq!(nes.pad.status.bits, PadButton::A);
    KeyboardInput::keypress(&mut nes, Key::NumPad6);
    assert_eq!(nes.pad.status.bits, PadButton::A | PadButton::RIGHT);
    KeyboardInput::keyrelease(&mut nes, Key::NumPad0);
    assert_eq!(nes.pad.status.bits, PadButton::RIGHT);
    KeyboardInput::keypress(&mut nes, Key::Space);
    KeyboardInput::keypress(&mut nes, Key::H);
    KeyboardInput::keypress(&mut nes, Key::W);
    KeyboardInput::keypress(&mut nes, Key::S);
    KeyboardInput::keypress(&mut nes, Key::A);
    KeyboardInput::keypress(&mut nes, Key::K);
    assert_eq!(nes.pad.status.bits, 0xFE);
    KeyboardInput::keypress(&mut nes, Key::Other);
    assert_eq!(nes.pad.status.bits, 0xFE);
}

#[test]
fn test_emulator_keys() {
    let mut nes = machine();
    assert!(!nes.ppu.grid_on);
    assert_eq!(KeyboardInput::keypress(&mut nes, Key::G), KeyEffect::Done);
    assert!(nes.ppu.grid_on);
    KeyboardInput::keypress(&mut nes, Key::G);
    assert!(!nes.ppu.grid_on);
    assert_eq!(KeyboardInput::keypress(&mut nes, Key::Q), KeyEffect::ShowDebugNum(1));
    assert_eq!(KeyboardInput::keypress(&mut nes, Key::Q), KeyEffect::ShowDebugNum(2));
    assert_eq!(KeyboardInput::keypress(&mut nes, Key::P), KeyEffect::SaveFrame);
    assert_eq!(nes.pad.status.bits, 0);
}

#[test]
fn test_gamepad_buttons() {
    assert_eq!(map_button(GamepadButton::South).map(|b| b.bits), Some(PadButton::A));
    assert_eq!(map_button(GamepadButton::East).map(|b| b.bits), Some(PadButton::B));
    assert_eq!(map_button(GamepadButton::Start).map(|b| b.bits), Some(PadButton::START));
    assert_eq!(map_button(GamepadButton::Select).map(|b| b.bits), Some(PadButton::SELECT));
    assert_eq!(map_button(GamepadButton::DPadUp).map(|b| b.bits), Some(PadButton::UP));
    assert_eq!(map_button(GamepadButton::DPadDown).map(|b| b.bits), Some(PadButton::DOWN));
    assert_eq!(map_button(GamepadButton::DPadLeft).map(|b| b.bits), Some(PadButton::LEFT));
    assert_eq!(map_button(GamepadButton::DPadRight).map(|b| b.bits), Some(PadButton::RIGHT));
    assert_eq!(map_button(GamepadButton::Other), None);
}

#[test]
fn test_stick_replaces_direction() {
    let mut nes = machine();
    nes.pad.press(PadButton::from_bits_truncate(PadButton::A));
    let mut current = PadButton::empty();
    replace_button_state(&mut nes, &mut current, PadButton::from_bits_truncate(PadButton::LEFT));
    assert_eq!(current.bits, PadButton::LEFT);
    assert_eq!(nes.pad.status.bits, PadButton::A | PadButton::LEFT);
    replace_button_state(&mut nes, &mut current, PadButton::from_bits_truncate(PadButton::RIGHT));
    assert_eq!(nes.pad.status.bits, PadButton::A | PadButton::RIGHT);
    replace_button_state(&mut nes, &mut current, PadButton::from_bits_truncate(PadButton::RIGHT));
    assert_eq!(nes.pad.status.bits, PadButton::A | PadButton::RIGHT);
    replace_button_state(&mut nes, &mut current, PadButton::empty());
    assert_eq!(nes.pad.status.bits, PadButton::A);
    assert_eq!(current.bits, 0);
}
