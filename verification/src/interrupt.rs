//! Interrupt controller.
use vstd::prelude::*;

verus! {

/// The interrupt sources of the device.
#[derive(Copy, Clone, PartialEq, Eq, Debug, Structural)]
pub enum Interrupt {
    ActionButton,
    RightButton,
    LeftButton,
    DownButton,
    UpButton,
    Com,
    Timer0,
    Timer1,
    Rtc,
    Battery,
    Iop,
    Irda,
    Timer2,
}

impl Interrupt {
    /// The bit that this source owns in the controller's registers.
    pub open spec fn mask_spec(self) -> u16 {
        match self {
            Interrupt::ActionButton => 0x0001,
            Interrupt::RightButton => 0x0002,
            Interrupt::LeftButton => 0x0004,
            Interrupt::DownButton => 0x0008,
            Interrupt::UpButton => 0x0010,
            Interrupt::Com => 0x0040,
            Interrupt::Timer0 => 0x0080,
            Interrupt::Timer1 => 0x0100,
            Interrupt::Rtc => 0x0200,
            Interrupt::Battery => 0x0400,
            Interrupt::Iop => 0x0800,
            Interrupt::Irda => 0x1000,
            Interrupt::Timer2 => 0x2000,
        }
    }

    /// The bit that this source owns in the controller's registers.
    pub fn mask(self) -> (m: u16)
        ensures
            m == self.mask_spec(),
    {
        match self {
            Interrupt::ActionButton => 0x0001,
            Interrupt::RightButton => 0x0002,
            Interrupt::LeftButton => 0x0004,
            Interrupt::DownButton => 0x0008,
            Interrupt::UpButton => 0x0010,
            Interrupt::Com => 0x0040,
            Interrupt::Timer0 => 0x0080,
            Interrupt::Timer1 => 0x0100,
            Interrupt::Rtc => 0x0200,
            Interrupt::Battery => 0x0400,
            Interrupt::Iop => 0x0800,
            Interrupt::Irda => 0x1000,
            Interrupt::Timer2 => 0x2000,
        }
    }
}

/// The three registers of the interrupt controller: the level of each
/// line, the lines whose rising edge was seen and not yet acknowledged,
/// and the lines allowed to interrupt the CPU.
#[derive(Copy, Clone, PartialEq, Eq, Debug, Structural)]
pub struct IrqController {
    pub raw: u16,
    pub latch: u16,
    pub mask: u16,
}

/// Register offsets of the controller.
pub const INT_LATCH: u32 = 0x00;

pub const INT_INPUT: u32 = 0x04;

pub const INT_MASK: u32 = 0x08;

pub const INT_MASK_CLEAR: u32 = 0x0c;

pub const INT_ACK: u32 = 0x10;

impl IrqController {
    /// True when an unmasked line is latched.
    pub open spec fn irq_pending_spec(self) -> bool {
        self.latch & self.mask != 0
    }

    /// The level of the line of `irq`.
    pub open spec fn raw_interrupt_spec(self, irq: Interrupt) -> bool {
        self.raw & irq.mask_spec() != 0
    }

    /// The controller after the line of `irq` took `level`: a line that
    /// rises is latched.
    pub open spec fn set_raw_interrupt_spec(self, irq: Interrupt, level: bool) -> IrqController {
        let m = irq.mask_spec();
        if level {
            IrqController {
                raw: self.raw | m,
                latch: if self.raw & m != 0 {
                    self.latch
                } else {
                    self.latch | m
                },
                mask: self.mask,
            }
        } else {
            IrqController { raw: self.raw & !m, latch: self.latch, mask: self.mask }
        }
    }

    /// What a read of the register at `offset` gives; nothing where there
    /// is no readable register.
    pub open spec fn load_spec(self, offset: u32) -> Option<u32> {
        if offset == INT_LATCH {
            Some(self.latch as u32)
        } else if offset == INT_INPUT {
            Some(self.raw as u32)
        } else if offset == INT_MASK {
            Some(self.mask as u32)
        } else {
            None
        }
    }

    /// The controller after a write of `val` to the register at `offset`;
    /// nothing where there is no writable register.
    pub open spec fn store_spec(self, offset: u32, val: u32) -> Option<IrqController> {
        let bits = (val % 0x1_0000) as u16;
        if offset == INT_MASK {
            Some(IrqController { mask: self.mask | bits, ..self })
        } else if offset == INT_MASK_CLEAR {
            Some(IrqController { mask: self.mask & !bits, ..self })
        } else if offset == INT_ACK {
            Some(IrqController { latch: self.latch & !bits, ..self })
        } else {
            None
        }
    }

    /// A controller with every line low, nothing latched and every line
    /// masked.
    pub fn new() -> (r: IrqController)
        ensures
            r == (IrqController { raw: 0, latch: 0, mask: 0 }),
    {
        IrqController { raw: 0, latch: 0, mask: 0 }
    }

    /// True when an unmasked line is latched.
    pub fn irq_pending(&self) -> (r: bool)
        ensures
            r == self.irq_pending_spec(),
    {
        self.latch & self.mask != 0
    }

    /// The level of the line of `irq`.
    pub fn raw_interrupt(&self, irq: Interrupt) -> (r: bool)
        ensures
            r == self.raw_interrupt_spec(irq),
    {
        self.raw & irq.mask() != 0
    }

    /// Drive the line of `irq` to `level`.
    pub fn set_raw_interrupt(&mut self, irq: Interrupt, level: bool)
        ensures
            *final(self) == old(self).set_raw_interrupt_spec(irq, level),
    {
        let m = irq.mask();
        if level {
            if self.raw & m == 0 {
                self.latch = self.latch | m;
            }
            self.raw = self.raw | m;
        } else {
            self.raw = self.raw & !m;
        }
    }

    /// Read the register at `offset`.
    pub fn load(&self, offset: u32) -> (r: Option<u32>)
        ensures
            r == self.load_spec(offset),
    {
        if offset == INT_LATCH {
            Some(self.latch as u32)
        } else if offset == INT_INPUT {
            Some(self.raw as u32)
        } else if offset == INT_MASK {
            Some(self.mask as u32)
        } else {
            None
        }
    }

    /// Write `val` to the register at `offset` and report whether there
    /// is one.
    pub fn store(&mut self, offset: u32, val: u32) -> (done: bool)
        ensures
            done == old(self).store_spec(offset, val).is_some(),
            done ==> *final(self) == old(self).store_spec(offset, val).unwrap(),
            !done ==> *final(self) == *old(self),
    {
        let bits = (val % 0x1_0000) as u16;
        if offset == INT_MASK {
            self.mask = self.mask | bits;
            true
        } else if offset == INT_MASK_CLEAR {
            self.mask = self.mask & !bits;
            true
        } else if offset == INT_ACK {
            self.latch = self.latch & !bits;
            true
        } else {
            false
        }
    }
}

} // verus!
