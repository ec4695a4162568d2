//! Controller ("pad") model: an 8-bit button bitmask read out one bit at a
//! time through a strobe/shift protocol. While the strobe is enabled the
//! read cursor is held at bit 0; while it is disabled each read returns the
//! current bit and advances the cursor modulo 8.

use vstd::prelude::*;

verus! {

/// The eight buttons, in the order their bits appear in the bitmask
/// (bit 0 is A, bit 7 is Right).
#[derive(Copy, Clone)]
pub enum PadButton {
    A,
    B,
    Select,
    Start,
    Up,
    Down,
    Left,
    Right,
}

/// The bitmask bit that a button occupies.
pub open spec fn button_mask(button: PadButton) -> u8 {
    match button {
        PadButton::A => 0x01,
        PadButton::B => 0x02,
        PadButton::Select => 0x04,
        PadButton::Start => 0x08,
        PadButton::Up => 0x10,
        PadButton::Down => 0x20,
        PadButton::Left => 0x40,
        PadButton::Right => 0x80,
    }
}

#[derive(Clone, PartialEq, Eq, Structural)]
pub struct Pad {
    pub button_reg: u8,
    pub read_shift_index: u8,
    pub strobe_enable: bool,
}

/// The pad's invariant: the read cursor stays inside the 8 button bits,
/// and while the strobe is enabled it is held at bit 0.
pub open spec fn pad_wf(pad: Pad) -> bool {
    &&& pad.read_shift_index < 8
    &&& pad.strobe_enable ==> pad.read_shift_index == 0
}

impl Pad {
    pub fn default() -> (result: Self)
        ensures
            result.button_reg == 0,
            result.read_shift_index == 0,
            !result.strobe_enable,
            pad_wf(result),
    {
        Self { button_reg: 0, read_shift_index: 0, strobe_enable: false }
    }

    pub fn reset(&mut self)
        ensures
            final(self).button_reg == 0,
            final(self).read_shift_index == 0,
            !final(self).strobe_enable,
            pad_wf(*final(self)),
    {
        self.button_reg = 0;
        self.read_shift_index = 0;
        self.strobe_enable = false;
    }

    /// Enabling the strobe resets the read cursor to bit 0 and freezes it
    /// there; disabling it leaves the cursor where it stands.
    pub fn write_strobe(&mut self, is_enable: bool)
        ensures
            final(self).strobe_enable == is_enable,
            final(self).read_shift_index == if is_enable { 0u8 } else { old(self).read_shift_index },
            final(self).button_reg == old(self).button_reg,
            pad_wf(*old(self)) ==> pad_wf(*final(self)),
    {
        self.strobe_enable = is_enable;
        if is_enable {
            self.read_shift_index = 0;
        }
    }

    /// One shift-register read: returns the bit the cursor points at, and
    /// advances the cursor modulo 8 only while the strobe is disabled.
    pub fn read_out(&mut self) -> (result: u8)
        requires
            pad_wf(*old(self)),
        ensures
            result == (old(self).button_reg >> old(self).read_shift_index) & 0x01,
            final(self).button_reg == old(self).button_reg,
            final(self).strobe_enable == old(self).strobe_enable,
            final(self).read_shift_index == if old(self).strobe_enable {
                old(self).read_shift_index as int
            } else {
                (old(self).read_shift_index + 1) % 8
            },
            pad_wf(*final(self)),
    {
        let data = (self.button_reg >> self.read_shift_index) & 0x01;
        if !self.strobe_enable {
            self.read_shift_index = (self.read_shift_index + 1) % 8;
        }
        data
    }

    /// Pressing a button sets its bit and touches nothing else.
    pub fn push_button(&mut self, button: PadButton)
        ensures
            final(self).button_reg == old(self).button_reg | button_mask(button),
            final(self).read_shift_index == old(self).read_shift_index,
            final(self).strobe_enable == old(self).strobe_enable,
            pad_wf(*old(self)) ==> pad_wf(*final(self)),
    {
        match button {
            PadButton::A => self.button_reg = self.button_reg | 0x01u8,
            PadButton::B => self.button_reg = self.button_reg | 0x02u8,
            PadButton::Select => self.button_reg = self.button_reg | 0x04u8,
            PadButton::Start => self.button_reg = self.button_reg | 0x08u8,
            PadButton::Up => self.button_reg = self.button_reg | 0x10u8,
            PadButton::Down => self.button_reg = self.button_reg | 0x20u8,
            PadButton::Left => self.button_reg = self.button_reg | 0x40u8,
            PadButton::Right => self.button_reg = self.button_reg | 0x80u8,
        }
    }

    /// Releasing a button clears its bit and touches nothing else.
    pub fn release_button(&mut self, button: PadButton)
        ensures
            final(self).button_reg == old(self).button_reg & !button_mask(button),
            final(self).read_shift_index == old(self).read_shift_index,
            final(self).strobe_enable == old(self).strobe_enable,
            pad_wf(*old(self)) ==> pad_wf(*final(self)),
    {
        match button {
            PadButton::A => self.button_reg = self.button_reg & (!0x01u8),
            PadButton::B => self.button_reg = self.button_reg & (!0x02u8),
            PadButton::Select => self.button_reg = self.button_reg & (!0x04u8),
            PadButton::Start => self.button_reg = self.button_reg & (!0x08u8),
            PadButton::Up => self.button_reg = self.button_reg & (!0x10u8),
            PadButton::Down => self.button_reg = self.button_reg & (!0x20u8),
            PadButton::Left => self.button_reg = self.button_reg & (!0x40u8),
            PadButton::Right => self.button_reg = self.button_reg & (!0x80u8),
        }
    }
}

} // verus!
