//! The standard controller: the buttons held and the shift register that
//! reports them one by one through $4016.
use vstd::prelude::*;
use crate::flags::PadButton;

verus! {

/// A controller: the buttons held, the next bit the shift register reports,
/// and whether the strobe is on.
#[derive(Debug, Clone, Copy, PartialEq, Eq, Structural, Default)]
pub struct Pad {
    pub status: PadButton,
    pub shift_index: u8,
    pub strobe_enable: bool,
}

impl Pad {
    /// A controller with no button held, the strobe off and the shift register at its start.
    pub fn new() -> (r: Pad)
        ensures
            r.status.bits == 0,
            r.shift_index == 0,
            !r.strobe_enable,
    {
        Pad { status: PadButton { bits: 0 }, shift_index: 0, strobe_enable: false }
    }

    /// Holds down the buttons of `button`; the others keep their state.
    pub fn press(&mut self, button: PadButton)
        ensures
            final(self).status.bits == old(self).status.bits | button.bits,
            final(self).shift_index == old(self).shift_index,
            final(self).strobe_enable == old(self).strobe_enable,
    {
        self.status = self.status.union(button.bits);
    }

    /// Lets go of the buttons of `button`; the others keep their state.
    pub fn release(&mut self, button: PadButton)
        ensures
            final(self).status.bits == old(self).status.bits & !button.bits,
            final(self).shift_index == old(self).shift_index,
            final(self).strobe_enable == old(self).strobe_enable,
    {
        self.status = self.status.difference(button.bits);
    }
}

/// Whether `button` (a single bit) is held in a set of buttons.
pub open spec fn held(status: u8, button: u8) -> bool {
    status & button != 0
}

/// Pressing holds the pressed buttons and keeps the others; releasing lets
/// go of the released buttons and keeps the others.
pub proof fn lemma_press_release(status: u8, pressed: u8, bit: u8)
    requires
        bit == 1 || bit == 2 || bit == 4 || bit == 8 || bit == 16 || bit == 32 || bit == 64 || bit == 128,
    ensures
        held(status | pressed, bit) == (held(status, bit) || held(pressed, bit)),
        held(status & !pressed, bit) == (held(status, bit) && !held(pressed, bit)),
{
    assert(held(status | pressed, bit) == (held(status, bit) || held(pressed, bit))) by (bit_vector)
        requires
            bit == 1 || bit == 2 || bit == 4 || bit == 8 || bit == 16 || bit == 32 || bit == 64 || bit == 128;
    assert(held(status & !pressed, bit) == (held(status, bit) && !held(pressed, bit))) by (bit_vector)
        requires
            bit == 1 || bit == 2 || bit == 4 || bit == 8 || bit == 16 || bit == 32 || bit == 64 || bit == 128;
}

} // verus!
