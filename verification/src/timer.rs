//! Countdown timers.
use vstd::prelude::*;
use crate::interrupt::{Interrupt, IrqController};

verus! {

/// Offsets of a timer's registers.
pub const T_RELOAD: u32 = 0x0;

pub const T_COUNT: u32 = 0x4;

pub const T_MODE: u32 = 0x8;

/// A 16 bit timer that counts CPU ticks down through a divider and
/// reloads when it passes zero.
#[derive(Copy, Clone, PartialEq, Eq, Debug, Structural)]
pub struct Timer {
    /// The interrupt line that the timer drives.
    pub irq: Interrupt,
    /// Value that the counter restarts from.
    pub reload: u16,
    /// Current value of the counter.
    pub counter: u16,
    /// Mode register: bits 0 and 1 select the divider, bit 2 lets the
    /// counter run.
    pub mode: u8,
    /// CPU ticks seen since the counter last stepped.
    pub prescaler: u32,
}

impl Timer {
    /// CPU ticks per step of the counter: 2, 32 or 512.
    pub open spec fn divider(self) -> u32 {
        if self.mode % 4 == 1 {
            32
        } else if self.mode % 4 == 2 {
            512
        } else {
            2
        }
    }

    /// True when the counter runs.
    pub open spec fn enabled(self) -> bool {
        self.mode / 4 % 2 == 1
    }

    /// The mode register holds three bits and the divider period is not
    /// over.
    pub open spec fn wf(self) -> bool {
        self.mode < 8 && self.prescaler < self.divider()
    }

    /// How many times the counter steps during `cpu_ticks` ticks.
    pub open spec fn steps(self, cpu_ticks: u32) -> int {
        (self.prescaler + cpu_ticks) / (self.divider() as int)
    }

    /// True when the counter passes zero during `cpu_ticks` ticks.
    pub open spec fn expires(self, cpu_ticks: u32) -> bool {
        self.enabled() && self.steps(cpu_ticks) > self.counter
    }

    /// The timer after `cpu_ticks` ticks. A stopped timer does not move. A
    /// running one steps once per divider period; stepping from zero
    /// reloads the counter.
    pub open spec fn tick_spec(self, cpu_ticks: u32) -> Timer {
        if !self.enabled() {
            self
        } else {
            let steps = self.steps(cpu_ticks);
            let prescaler = ((self.prescaler + cpu_ticks) % (self.divider() as int)) as u32;
            if steps <= self.counter {
                Timer { counter: (self.counter - steps) as u16, prescaler, ..self }
            } else {
                let past = steps - self.counter - 1;
                Timer {
                    counter: (self.reload - past % (self.reload + 1)) as u16,
                    prescaler,
                    ..self
                }
            }
        }
    }

    /// What a read of the register at `offset` gives.
    pub open spec fn load_spec(self, offset: u32) -> Option<u32> {
        if offset == T_RELOAD {
            Some(self.reload as u32)
        } else if offset == T_COUNT {
            Some(self.counter as u32)
        } else if offset == T_MODE {
            Some(self.mode as u32)
        } else {
            None
        }
    }

    /// The timer after a write of `val` to the register at `offset`. A
    /// write to the mode register restarts the divider period.
    pub open spec fn store_spec(self, offset: u32, val: u32) -> Option<Timer> {
        if offset == T_RELOAD {
            Some(Timer { reload: (val % 0x1_0000) as u16, ..self })
        } else if offset == T_COUNT {
            Some(Timer { counter: (val % 0x1_0000) as u16, ..self })
        } else if offset == T_MODE {
            Some(Timer { mode: (val % 8) as u8, prescaler: 0, ..self })
        } else {
            None
        }
    }

    /// A stopped timer that drives the line of `irq`.
    pub fn new(irq: Interrupt) -> (r: Timer)
        ensures
            r == (Timer { irq, reload: 0, counter: 0, mode: 0, prescaler: 0 }),
            r.wf(),
    {
        Timer { irq, reload: 0, counter: 0, mode: 0, prescaler: 0 }
    }

    /// Advance the timer by `cpu_ticks` ticks and drive its interrupt
    /// line: high when the counter passed zero during these ticks, low
    /// otherwise.
    pub fn tick(&mut self, irq: &mut IrqController, cpu_ticks: u32)
        requires
            old(self).wf(),
        ensures
            *final(self) == old(self).tick_spec(cpu_ticks),
            *final(irq) == old(irq).set_raw_interrupt_spec(
                old(self).irq,
                old(self).expires(cpu_ticks),
            ),
            final(self).wf(),
    {
        if self.mode / 4 % 2 != 1 {
            irq.set_raw_interrupt(self.irq, false);
            return ;
        }
        let divider: u64 = if self.mode % 4 == 1 {
            32
        } else if self.mode % 4 == 2 {
            512
        } else {
            2
        };
        let total: u64 = self.prescaler as u64 + cpu_ticks as u64;
        let steps: u64 = total / divider;
        self.prescaler = (total % divider) as u32;
        if steps <= self.counter as u64 {
            self.counter = (self.counter as u64 - steps) as u16;
            irq.set_raw_interrupt(self.irq, false);
        } else {
            let past: u64 = steps - self.counter as u64 - 1;
            let period: u64 = self.reload as u64 + 1;
            self.counter = (self.reload as u64 - past % period) as u16;
            irq.set_raw_interrupt(self.irq, true);
        }
    }

    /// Read the register at `offset`.
    pub fn load(&self, offset: u32) -> (r: Option<u32>)
        ensures
            r == self.load_spec(offset),
    {
        if offset == T_RELOAD {
            Some(self.reload as u32)
        } else if offset == T_COUNT {
            Some(self.counter as u32)
        } else if offset == T_MODE {
            Some(self.mode as u32)
        } else {
            None
        }
    }

    /// Write `val` to the register at `offset` and report whether there
    /// is one.
    pub fn store(&mut self, offset: u32, val: u32) -> (done: bool)
        requires
            old(self).wf(),
        ensures
            done == old(self).store_spec(offset, val).is_some(),
            done ==> *final(self) == old(self).store_spec(offset, val).unwrap(),
            !done ==> *final(self) == *old(self),
            final(self).wf(),
    {
        if offset == T_RELOAD {
            self.reload = (val % 0x1_0000) as u16;
            true
        } else if offset == T_COUNT {
            self.counter = (val % 0x1_0000) as u16;
            true
        } else if offset == T_MODE {
            self.mode = (val % 8) as u8;
            self.prescaler = 0;
            true
        } else {
            false
        }
    }
}

} // verus!
