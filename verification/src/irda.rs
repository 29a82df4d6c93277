//! Infrared port.
use vstd::prelude::*;

verus! {

/// Offsets of the port's registers.
pub const IRDA_MODE: u32 = 0x0;

pub const IRDA_DATA: u32 = 0x4;

/// The two registers of the infrared port.
#[derive(Copy, Clone, PartialEq, Eq, Debug, Structural)]
pub struct Irda {
    pub mode: u32,
    pub data: u32,
}

impl Irda {
    /// What a read of the register at `offset` gives.
    pub open spec fn load_spec(self, offset: u32) -> Option<u32> {
        if offset == IRDA_MODE {
            Some(self.mode)
        } else if offset == IRDA_DATA {
            Some(self.data)
        } else {
            None
        }
    }

    /// The port after a write of `val` to the register at `offset`.
    pub open spec fn store_spec(self, offset: u32, val: u32) -> Option<Irda> {
        if offset == IRDA_MODE {
            Some(Irda { mode: val, ..self })
        } else if offset == IRDA_DATA {
            Some(Irda { data: val, ..self })
        } else {
            None
        }
    }

    /// A port with cleared registers.
    pub fn new() -> (r: Irda)
        ensures
            r == (Irda { mode: 0, data: 0 }),
    {
        Irda { mode: 0, data: 0 }
    }

    /// Read the register at `offset`.
    pub fn load(&self, offset: u32) -> (r: Option<u32>)
        ensures
            r == self.load_spec(offset),
    {
        if offset == IRDA_MODE {
            Some(self.mode)
        } else if offset == IRDA_DATA {
            Some(self.data)
        } else {
            None
        }
    }

    /// Write `val` to the register at `offset` and report whether there
    /// is one.
    pub fn store(&mut self, offset: u32, val: u32) -> (done: bool)
        ensures
            done == old(self).store_spec(offset, val).is_some(),
            done ==> *final(self) == old(self).store_spec(offset, val).unwrap(),
            !done ==> *final(self) == *old(self),
    {
        if offset == IRDA_MODE {
            self.mode = val;
            true
        } else if offset == IRDA_DATA {
            self.data = val;
            true
        } else {
            false
        }
    }
}

} // verus!
