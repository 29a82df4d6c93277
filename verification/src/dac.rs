//! Digital to analog converter.
use vstd::prelude::*;

verus! {

/// Offsets of the converter's registers.
pub const DAC_CTRL: u32 = 0x0;

pub const DAC_DATA: u32 = 0x4;

/// The two registers of the converter.
#[derive(Copy, Clone, PartialEq, Eq, Debug, Structural)]
pub struct Dac {
    pub ctrl: u32,
    pub data: u32,
}

impl Dac {
    /// What a read of the register at `offset` gives.
    pub open spec fn load_spec(self, offset: u32) -> Option<u32> {
        if offset == DAC_CTRL {
            Some(self.ctrl)
        } else if offset == DAC_DATA {
            Some(self.data)
        } else {
            None
        }
    }

    /// The converter after a write of `val` to the register at `offset`.
    pub open spec fn store_spec(self, offset: u32, val: u32) -> Option<Dac> {
        if offset == DAC_CTRL {
            Some(Dac { ctrl: val, ..self })
        } else if offset == DAC_DATA {
            Some(Dac { data: val, ..self })
        } else {
            None
        }
    }

    /// A converter with cleared registers.
    pub fn new() -> (r: Dac)
        ensures
            r == (Dac { ctrl: 0, data: 0 }),
    {
        Dac { ctrl: 0, data: 0 }
    }

    /// Read the register at `offset`.
    pub fn load(&self, offset: u32) -> (r: Option<u32>)
        ensures
            r == self.load_spec(offset),
    {
        if offset == DAC_CTRL {
            Some(self.ctrl)
        } else if offset == DAC_DATA {
            Some(self.data)
        } else {
            None
        }
    }

    /// Write `val` to the register at `offset` and report whether there
    /// is one.
    pub fn store(&mut self, offset: u32, val: u32) -> (done: bool)
        ensures
            done == old(self).store_spec(offset, val).is_some(),
            done ==> *final(self) == old(self).store_spec(offset, val).unwrap(),
            !done ==> *final(self) == *old(self),
    {
        if offset == DAC_CTRL {
            self.ctrl = val;
            true
        } else if offset == DAC_DATA {
            self.data = val;
            true
        } else {
            false
        }
    }
}

} // verus!
