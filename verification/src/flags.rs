//! Bit sets of the CPU status register, the PPU control, mask and status
//! registers, and the controller buttons.
use vstd::prelude::*;

verus! {

/// `p` with the bits of `mask` set when `on` holds and cleared otherwise.
pub open spec fn with_bits(p: u8, mask: u8, on: bool) -> u8 {
    if on {
        p | mask
    } else {
        p & !mask
    }
}

/// The 6502 processor status register.
#[derive(Debug, Clone, Copy, PartialEq, Eq, Structural, Default)]
pub struct Status {
    pub bits: u8,
}

impl Status {
    /// Carry.
    pub const C: u8 = 0x01;
    /// Zero.
    pub const Z: u8 = 0x02;
    /// Interrupt disable.
    pub const I: u8 = 0x04;
    /// Decimal mode.
    pub const D: u8 = 0x08;
    /// Break.
    pub const B: u8 = 0x10;
    /// Unused; always pushed as one.
    pub const U: u8 = 0x20;
    /// Signed overflow.
    pub const V: u8 = 0x40;
    /// Negative.
    pub const N: u8 = 0x80;

    /// The set holding exactly the bits of `bits`.
    pub fn from_bits_truncate(bits: u8) -> (r: Status)
        ensures
            r.bits == bits,
    {
        Status { bits }
    }

    /// The empty set.
    pub fn empty() -> (r: Status)
        ensures
            r.bits == 0,
    {
        Status { bits: 0 }
    }

    pub fn bits(&self) -> (r: u8)
        ensures
            r == self.bits,
    {
        self.bits
    }

    /// Whether every bit of `mask` is set.
    pub fn contains(&self, mask: u8) -> (r: bool)
        ensures
            r == (self.bits & mask == mask),
    {
        self.bits & mask == mask
    }

    /// Sets the bits of `mask` when `value` holds and clears them otherwise.
    pub fn set(&mut self, mask: u8, value: bool)
        ensures
            final(self).bits == with_bits(old(self).bits, mask, value),
    {
        if value {
            self.bits = self.bits | mask;
        } else {
            self.bits = self.bits & !mask;
        }
    }

    /// The bits of `self` together with those of `mask`.
    pub fn union(self, mask: u8) -> (r: Status)
        ensures
            r.bits == self.bits | mask,
    {
        Status { bits: self.bits | mask }
    }

    /// The bits of `self` without those of `mask`.
    pub fn difference(self, mask: u8) -> (r: Status)
        ensures
            r.bits == self.bits & !mask,
    {
        Status { bits: self.bits & !mask }
    }
}

/// The PPU control register ($2000).
#[derive(Debug, Clone, Copy, PartialEq, Eq, Structural, Default)]
pub struct PpuCtrl {
    pub bits: u8,
}

impl PpuCtrl {
    /// Base nametable, low bit.
    pub const NAMETABLE_LO: u8 = 0x01;
    /// Base nametable, high bit.
    pub const NAMETABLE_HI: u8 = 0x02;
    /// Add 32 instead of 1 to the VRAM address after a $2007 access.
    pub const VRAM_ADDR_INCREMENT: u8 = 0x04;
    /// Sprite patterns come from $1000.
    pub const SPRITE_PATTERN_TABLE_ADDR: u8 = 0x08;
    /// Background patterns come from $1000.
    pub const BACKGROUND_PATTERN_TABLE_ADDR: u8 = 0x10;
    /// 8x16 sprites.
    pub const SPRITE_SIZE: u8 = 0x20;
    /// PPU master/slave select.
    pub const PPU_MASTER_SLAVE_SELECT: u8 = 0x40;
    /// Raise an NMI at the start of the vertical blank.
    pub const VBLANK_INTERRUPT: u8 = 0x80;

    /// The set holding exactly the bits of `bits`.
    pub fn from_bits_truncate(bits: u8) -> (r: PpuCtrl)
        ensures
            r.bits == bits,
    {
        PpuCtrl { bits }
    }

    /// The empty set.
    pub fn empty() -> (r: PpuCtrl)
        ensures
            r.bits == 0,
    {
        PpuCtrl { bits: 0 }
    }

    pub fn bits(&self) -> (r: u8)
        ensures
            r == self.bits,
    {
        self.bits
    }

    /// Whether every bit of `mask` is set.
    pub fn contains(&self, mask: u8) -> (r: bool)
        ensures
            r == (self.bits & mask == mask),
    {
        self.bits & mask == mask
    }

    /// Sets the bits of `mask` when `value` holds and clears them otherwise.
    pub fn set(&mut self, mask: u8, value: bool)
        ensures
            final(self).bits == with_bits(old(self).bits, mask, value),
    {
        if value {
            self.bits = self.bits | mask;
        } else {
            self.bits = self.bits & !mask;
        }
    }

    /// The bits of `self` together with those of `mask`.
    pub fn union(self, mask: u8) -> (r: PpuCtrl)
        ensures
            r.bits == self.bits | mask,
    {
        PpuCtrl { bits: self.bits | mask }
    }

    /// The bits of `self` without those of `mask`.
    pub fn difference(self, mask: u8) -> (r: PpuCtrl)
        ensures
            r.bits == self.bits & !mask,
    {
        PpuCtrl { bits: self.bits & !mask }
    }
}

/// The PPU mask register ($2001).
#[derive(Debug, Clone, Copy, PartialEq, Eq, Structural, Default)]
pub struct PpuMask {
    pub bits: u8,
}

impl PpuMask {
    /// Greyscale.
    pub const GREYSCALE: u8 = 0x01;
    /// Background in the leftmost 8 pixels.
    pub const SHOW_BACKGROUND_IN_LEFT_MARGIN: u8 = 0x02;
    /// Sprites in the leftmost 8 pixels.
    pub const SHOW_SPRITES_IN_LEFT_MARGIN: u8 = 0x04;
    /// Show the background.
    pub const SHOW_BACKGROUND: u8 = 0x08;
    /// Show sprites.
    pub const SHOW_SPRITES: u8 = 0x10;
    /// Emphasize red.
    pub const EMPHASIZE_RED: u8 = 0x20;
    /// Emphasize green.
    pub const EMPHASIZE_GREEN: u8 = 0x40;
    /// Emphasize blue.
    pub const EMPHASIZE_BLUE: u8 = 0x80;

    /// The set holding exactly the bits of `bits`.
    pub fn from_bits_truncate(bits: u8) -> (r: PpuMask)
        ensures
            r.bits == bits,
    {
        PpuMask { bits }
    }

    /// The empty set.
    pub fn empty() -> (r: PpuMask)
        ensures
            r.bits == 0,
    {
        PpuMask { bits: 0 }
    }

    pub fn bits(&self) -> (r: u8)
        ensures
            r == self.bits,
    {
        self.bits
    }

    /// Whether every bit of `mask` is set.
    pub fn contains(&self, mask: u8) -> (r: bool)
        ensures
            r == (self.bits & mask == mask),
    {
        self.bits & mask == mask
    }

    /// Sets the bits of `mask` when `value` holds and clears them otherwise.
    pub fn set(&mut self, mask: u8, value: bool)
        ensures
            final(self).bits == with_bits(old(self).bits, mask, value),
    {
        if value {
            self.bits = self.bits | mask;
        } else {
            self.bits = self.bits & !mask;
        }
    }

    /// The bits of `self` together with those of `mask`.
    pub fn union(self, mask: u8) -> (r: PpuMask)
        ensures
            r.bits == self.bits | mask,
    {
        PpuMask { bits: self.bits | mask }
    }

    /// The bits of `self` without those of `mask`.
    pub fn difference(self, mask: u8) -> (r: PpuMask)
        ensures
            r.bits == self.bits & !mask,
    {
        PpuMask { bits: self.bits & !mask }
    }
}

/// The PPU status register ($2002).
#[derive(Debug, Clone, Copy, PartialEq, Eq, Structural, Default)]
pub struct PpuStatus {
    pub bits: u8,
}

impl PpuStatus {
    /// Sprite overflow.
    pub const OVERFLOW: u8 = 0x20;
    /// Sprite zero hit.
    pub const ZERO_HIT: u8 = 0x40;
    /// Vertical blank started.
    pub const VBLANK_STARTED: u8 = 0x80;

    /// The set holding the bits of `bits` that name a flag.
    pub fn from_bits_truncate(bits: u8) -> (r: PpuStatus)
        ensures
            r.bits == bits & 0xE0,
    {
        PpuStatus { bits: bits & 0xE0 }
    }

    /// The empty set.
    pub fn empty() -> (r: PpuStatus)
        ensures
            r.bits == 0,
    {
        PpuStatus { bits: 0 }
    }

    pub fn bits(&self) -> (r: u8)
        ensures
            r == self.bits,
    {
        self.bits
    }

    /// Whether every bit of `mask` is set.
    pub fn contains(&self, mask: u8) -> (r: bool)
        ensures
            r == (self.bits & mask == mask),
    {
        self.bits & mask == mask
    }

    /// Sets the bits of `mask` when `value` holds and clears them otherwise.
    pub fn set(&mut self, mask: u8, value: bool)
        ensures
            final(self).bits == with_bits(old(self).bits, mask, value),
    {
        if value {
            self.bits = self.bits | mask;
        } else {
            self.bits = self.bits & !mask;
        }
    }

    /// The bits of `self` together with those of `mask`.
    pub fn union(self, mask: u8) -> (r: PpuStatus)
        ensures
            r.bits == self.bits | mask,
    {
        PpuStatus { bits: self.bits | mask }
    }

    /// The bits of `self` without those of `mask`.
    pub fn difference(self, mask: u8) -> (r: PpuStatus)
        ensures
            r.bits == self.bits & !mask,
    {
        PpuStatus { bits: self.bits & !mask }
    }
}

/// The buttons of a standard controller, in the order the shift register reports them.
#[derive(Debug, Clone, Copy, PartialEq, Eq, Structural, Default)]
pub struct PadButton {
    pub bits: u8,
}

impl PadButton {
    /// A.
    pub const A: u8 = 0x01;
    /// B.
    pub const B: u8 = 0x02;
    /// Start.
    pub const START: u8 = 0x04;
    /// Select.
    pub const SELECT: u8 = 0x08;
    /// Up.
    pub const UP: u8 = 0x10;
    /// Down.
    pub const DOWN: u8 = 0x20;
    /// Left.
    pub const LEFT: u8 = 0x40;
    /// Right.
    pub const RIGHT: u8 = 0x80;

    /// The set holding exactly the bits of `bits`.
    pub fn from_bits_truncate(bits: u8) -> (r: PadButton)
        ensures
            r.bits == bits,
    {
        PadButton { bits }
    }

    /// The empty set.
    pub fn empty() -> (r: PadButton)
        ensures
            r.bits == 0,
    {
        PadButton { bits: 0 }
    }

    pub fn bits(&self) -> (r: u8)
        ensures
            r == self.bits,
    {
        self.bits
    }

    /// Whether every bit of `mask` is set.
    pub fn contains(&self, mask: u8) -> (r: bool)
        ensures
            r == (self.bits & mask == mask),
    {
        self.bits & mask == mask
    }

    /// Sets the bits of `mask` when `value` holds and clears them otherwise.
    pub fn set(&mut self, mask: u8, value: bool)
        ensures
            final(self).bits == with_bits(old(self).bits, mask, value),
    {
        if value {
            self.bits = self.bits | mask;
        } else {
            self.bits = self.bits & !mask;
        }
    }

    /// The bits of `self` together with those of `mask`.
    pub fn union(self, mask: u8) -> (r: PadButton)
        ensures
            r.bits == self.bits | mask,
    {
        PadButton { bits: self.bits | mask }
    }

    /// The bits of `self` without those of `mask`.
    pub fn difference(self, mask: u8) -> (r: PadButton)
        ensures
            r.bits == self.bits & !mask,
    {
        PadButton { bits: self.bits & !mask }
    }
}

} // verus!
