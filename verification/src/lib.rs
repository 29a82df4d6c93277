//! Emulation core of a small ARMv4 handheld: the CPU interpreter, the bus
//! it drives and the real-time clock behind that bus.
use vstd::prelude::*;

pub mod bits;
pub mod cpu;
pub mod dac;
pub mod debugger;
pub mod interrupt;
pub mod irda;
pub mod lcd;
pub mod memory;
pub mod rtc;
pub mod timer;

verus! {

/// Maximal frequency of the CPU, 31232 Hz times 128. The effective CPU
/// frequency is this clock divided by a power of two between 1 and 128.
pub const MASTER_CLOCK_HZ: u32 = 3_997_696;

} // verus!
