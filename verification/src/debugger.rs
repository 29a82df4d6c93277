//! Hooks for a debugger that watches the memory accesses of the CPU.
use vstd::prelude::*;

verus! {

/// What the interpreter tells a debugger. Each hook runs before the access
/// it announces; nothing that a hook does changes what the interpreter
/// does next.
pub trait Debugger {
    /// The CPU is about to read `width` bytes at `addr`.
    fn on_load(&mut self, addr: u32, width: u8);

    /// The CPU is about to write the low `width` bytes of `value` at
    /// `addr`.
    fn on_store(&mut self, addr: u32, width: u8, value: u32);
}

/// A debugger that ignores what it is told.
pub struct NoDebugger;

impl Debugger for NoDebugger {
    fn on_load(&mut self, addr: u32, width: u8) {
    }

    fn on_store(&mut self, addr: u32, width: u8, value: u32) {
    }
}

} // verus!
