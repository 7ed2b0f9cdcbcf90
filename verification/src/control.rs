//! The player's controls: which keyboard keys and gamepad buttons stand for
//! which controller buttons, and the emulator's own keys.
use vstd::prelude::*;
use crate::flags::PadButton;
use crate::nes::{Nes, NesModel};
use crate::pad::Pad;
use crate::ppu::PpuModel;

verus! {

/// The keyboard keys that the emulator answers; every other key is `Other`.
#[derive(Debug, Clone, Copy, PartialEq, Eq, Structural)]
pub enum Key {
    A,
    D,
    G,
    H,
    J,
    K,
    P,
    Q,
    S,
    W,
    Space,
    NumPad0,
    NumPad1,
    NumPad2,
    NumPad4,
    NumPad5,
    NumPad6,
    NumPad7,
    NumPad8,
    Other,
}

/// The controller button that a key stands for (the bit in `PadButton`), or
/// 0 for a key that stands for none: J or NumPad0 is A, K or NumPad5 is B,
/// Space or NumPad7 is Start, H or NumPad1 is Select, W A S D and NumPad 8 4
/// 2 6 are the directions.
pub open spec fn key_button(key: Key) -> u8 {
    match key {
        Key::NumPad0 | Key::J => PadButton::A,
        Key::NumPad5 | Key::K => PadButton::B,
        Key::NumPad4 | Key::A => PadButton::LEFT,
        Key::NumPad6 | Key::D => PadButton::RIGHT,
        Key::NumPad8 | Key::W => PadButton::UP,
        Key::NumPad2 | Key::S => PadButton::DOWN,
        Key::NumPad7 | Key::Space => PadButton::START,
        Key::NumPad1 | Key::H => PadButton::SELECT,
        _ => 0,
    }
}

/// What is left to do after a key press: nothing, save the last finished
/// frame as a picture, or show the debug counter's new value.
#[derive(Debug, Clone, Copy, PartialEq, Eq, Structural)]
pub enum KeyEffect {
    Done,
    SaveFrame,
    ShowDebugNum(u32),
}

/// The machine after a key press: the key's controller button is held; G
/// turns the tile grid overlay on or off; Q steps the debug counter; P
/// changes nothing.
pub open spec fn keypress_spec(m: NesModel, key: Key) -> NesModel {
    match key {
        Key::G => NesModel { ppu: PpuModel { grid_on: !m.ppu.grid_on, ..m.ppu }, ..m },
        Key::Q => NesModel { ppu: PpuModel { debug_num: m.ppu.debug_num.wrapping_add(1), ..m.ppu }, ..m },
        Key::P => m,
        _ => NesModel { pad: Pad { status: PadButton { bits: m.pad.status.bits | key_button(key) }, ..m.pad }, ..m },
    }
}

/// The machine after a key release: the key's controller button is let go.
pub open spec fn keyrelease_spec(m: NesModel, key: Key) -> NesModel {
    NesModel { pad: Pad { status: PadButton { bits: m.pad.status.bits & !key_button(key) }, ..m.pad }, ..m }
}

/// The controller button that a key stands for.
fn button_of(key: Key) -> (r: PadButton)
    ensures
        r.bits == key_button(key),
{
    match key {
        Key::NumPad0 | Key::J => PadButton::from_bits_truncate(PadButton::A),
        Key::NumPad5 | Key::K => PadButton::from_bits_truncate(PadButton::B),
        Key::NumPad4 | Key::A => PadButton::from_bits_truncate(PadButton::LEFT),
        Key::NumPad6 | Key::D => PadButton::from_bits_truncate(PadButton::RIGHT),
        Key::NumPad8 | Key::W => PadButton::from_bits_truncate(PadButton::UP),
        Key::NumPad2 | Key::S => PadButton::from_bits_truncate(PadButton::DOWN),
        Key::NumPad7 | Key::Space => PadButton::from_bits_truncate(PadButton::START),
        Key::NumPad1 | Key::H => PadButton::from_bits_truncate(PadButton::SELECT),
        _ => PadButton::empty(),
    }
}

/// The keyboard as the player's controller.
pub struct KeyboardInput;

impl KeyboardInput {
    /// A key went down (see `keypress_spec`). P asks for the last finished
    /// frame to be saved and Q for the debug counter to be shown.
    pub fn keypress(nes: &mut Nes, key: Key) -> (r: KeyEffect)
        requires
            old(nes).wf(),
        ensures
            final(nes).wf(),
            final(nes)@ == keypress_spec(old(nes)@, key),
            r == match key {
                Key::P => KeyEffect::SaveFrame,
                Key::Q => KeyEffect::ShowDebugNum(final(nes)@.ppu.debug_num),
                _ => KeyEffect::Done,
            },
    {
        match key {
            Key::G => {
                let on = nes.ppu.grid_on;
                nes.ppu.grid_on = !on;
                KeyEffect::Done
            },
            Key::P => KeyEffect::SaveFrame,
            Key::Q => {
                let debug_num = nes.ppu.debug_num.wrapping_add(1);
                nes.ppu.debug_num = debug_num;
                KeyEffect::ShowDebugNum(debug_num)
            },
            _ => {
                nes.pad.press(button_of(key));
                KeyEffect::Done
            },
        }
    }

    /// A key went up (see `keyrelease_spec`).
    pub fn keyrelease(nes: &mut Nes, key: Key)
        requires
            old(nes).wf(),
        ensures
            final(nes).wf(),
            final(nes)@ == keyrelease_spec(old(nes)@, key),
    {
        nes.pad.release(button_of(key));
    }
}

/// The gamepad buttons that stand for controller buttons; every other
/// button is `Other`.
#[derive(Debug, Clone, Copy, PartialEq, Eq, Structural)]
pub enum GamepadButton {
    South,
    East,
    Start,
    Select,
    DPadUp,
    DPadDown,
    DPadLeft,
    DPadRight,
    Other,
}

/// The controller button that a gamepad button stands for: South is A,
/// East is B, Start and Select are themselves, the D-pad the directions.
pub open spec fn gamepad_button(button: GamepadButton) -> Option<u8> {
    match button {
        GamepadButton::South => Some(PadButton::A),
        GamepadButton::East => Some(PadButton::B),
        GamepadButton::Start => Some(PadButton::START),
        GamepadButton::Select => Some(PadButton::SELECT),
        GamepadButton::DPadUp => Some(PadButton::UP),
        GamepadButton::DPadDown => Some(PadButton::DOWN),
        GamepadButton::DPadLeft => Some(PadButton::LEFT),
        GamepadButton::DPadRight => Some(PadButton::RIGHT),
        GamepadButton::Other => None,
    }
}

/// The controller button that a gamepad button stands for (see `gamepad_button`).
pub fn map_button(button: GamepadButton) -> (r: Option<PadButton>)
    ensures
        match gamepad_button(button) {
            Some(b) => r matches Some(p) && p.bits == b,
            None => r is None,
        },
{
    match button {
        GamepadButton::South => Some(PadButton::from_bits_truncate(PadButton::A)),
        GamepadButton::East => Some(PadButton::from_bits_truncate(PadButton::B)),
        GamepadButton::Start => Some(PadButton::from_bits_truncate(PadButton::START)),
        GamepadButton::Select => Some(PadButton::from_bits_truncate(PadButton::SELECT)),
        GamepadButton::DPadUp => Some(PadButton::from_bits_truncate(PadButton::UP)),
        GamepadButton::DPadDown => Some(PadButton::from_bits_truncate(PadButton::DOWN)),
        GamepadButton::DPadLeft => Some(PadButton::from_bits_truncate(PadButton::LEFT)),
        GamepadButton::DPadRight => Some(PadButton::from_bits_truncate(PadButton::RIGHT)),
        GamepadButton::Other => None,
    }
}

/// A stick moved from holding the buttons `current` to holding `next`:
/// unless they are the same, `current` is let go, `next` is held, and
/// `current` becomes `next`.
pub fn replace_button_state(nes: &mut Nes, current: &mut PadButton, next: PadButton)
    requires
        old(nes).wf(),
    ensures
        final(nes).wf(),
        *final(current) == next,
        final(nes)@ == if *old(current) == next {
            old(nes)@
        } else {
            NesModel {
                pad: Pad { status: PadButton { bits: (old(nes)@.pad.status.bits & !old(current).bits) | next.bits }, ..old(nes)@.pad },
                ..old(nes)@
            }
        },
{
    if current.bits == next.bits {
        return;
    }
    nes.pad.release(*current);
    nes.pad.press(next);
    *current = next;
}

} // verus!
