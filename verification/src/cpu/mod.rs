//! The CPU: register file, status registers and the accesses it makes to
//! the bus.
use vstd::prelude::*;
use crate::cpu::armv4_is::{execute_spec, Instruction};
use crate::debugger::Debugger;
use crate::memory::{Addressable, BusError, BusState, Interconnect, Word};

pub mod armv4_is;
pub mod block;
pub mod control;
pub mod data;
pub mod laws;
pub mod operand;
pub mod stack;
pub mod table;
pub mod transfer;

verus! {

/// Number of register banks: one shared by the user and system modes, and
/// one each for the FIQ, IRQ, supervisor, abort and undefined modes.
pub const BANKS: usize = 6;

/// Slots of the register file: sixteen per bank.
pub const REGISTER_SLOTS: usize = 96;

/// The supervisor mode, as the mode field of a status register.
pub const MODE_SUPERVISOR: u32 = 0x13;

/// Address that a software interrupt jumps to.
pub const SWI_VECTOR: u32 = 0x08;

/// The part of a status register below the four condition flags.
pub const CONTROL_LIMIT: u32 = 0x1000_0000;

/// Why an instruction was not carried out. Every error is fatal to the
/// step.
#[derive(Copy, Clone, PartialEq, Eq, Debug, Structural)]
pub enum ExecError {
    /// The instruction is one that the interpreter has no kernel for: the
    /// raw word and its decode index.
    Unimplemented { word: u32, index: u32 },
    /// A field that the encoding fixes holds another value.
    MalformedInstruction,
    /// The architecture promises nothing for this operation.
    Unpredictable,
    /// A flag-setting data-processing instruction names the program
    /// counter as its destination.
    UnpredictableWithPCTarget,
    /// An addressing mode with writeback names the program counter as its
    /// base, or the same register as base and destination.
    UnpredictableWriteback,
    /// The bus refused an access.
    Bus(BusError),
    /// The core is in Thumb state, for which there is no decoder here.
    ThumbState,
}

/// A register number of an instruction, 0 to 15.
#[derive(Copy, Clone, PartialEq, Eq, Debug, Structural)]
pub struct RegisterIndex(pub u32);

impl RegisterIndex {
    /// The number names one of the sixteen registers.
    pub open spec fn wf(self) -> bool {
        self.0 < 16
    }

    /// True for the program counter, register 15.
    pub fn is_pc(self) -> (r: bool)
        ensures
            r == (self.0 == 15),
    {
        self.0 == 15
    }
}

/// One access of the CPU to the bus on behalf of an instruction.
pub enum BusAccess {
    Load { addr: u32, width: u8 },
    Store { addr: u32, width: u8, value: u32 },
}

/// The bank that the mode field `mode` of a status register selects; a
/// field that names no mode selects the user bank.
pub open spec fn bank_of_mode(mode: u32) -> int {
    if mode == 0x11 {
        1
    } else if mode == 0x12 {
        2
    } else if mode == 0x13 {
        3
    } else if mode == 0x17 {
        4
    } else if mode == 0x1b {
        5
    } else {
        0
    }
}

/// The slot of register `i` while the control bits are `control`: the
/// stack pointer and the link register have one slot per bank, registers 8
/// to 12 have a second slot for the FIQ mode, the others have one slot.
pub open spec fn register_slot(control: u32, i: u32) -> int {
    let bank = bank_of_mode(control % 32);
    if i == 13 || i == 14 {
        bank * 16 + i
    } else if 8 <= i <= 12 && bank == 1 {
        16 + i
    } else {
        i as int
    }
}

/// The status register word with flags `n`, `z`, `c`, `v` in bits 31 to 28
/// above the control bits.
pub open spec fn psr_word(n: bool, z: bool, c: bool, v: bool, control: u32) -> u32 {
    ((if n { 0x8000_0000int } else { 0 }) + (if z { 0x4000_0000int } else { 0 }) + (if c {
        0x2000_0000int
    } else {
        0
    }) + (if v { 0x1000_0000int } else { 0 }) + control) as u32
}

/// Byte `k` of `w`, byte 0 being the low one.
pub open spec fn byte_of(w: u32, k: int) -> u32 {
    if k == 0 {
        w % 0x100
    } else if k == 1 {
        w / 0x100 % 0x100
    } else if k == 2 {
        w / 0x1_0000 % 0x100
    } else {
        w / 0x100_0000
    }
}

/// Bit `k` of a four bit field mask.
pub open spec fn mask_selects(mask: u32, k: int) -> bool {
    if k == 0 {
        mask % 2 == 1
    } else if k == 1 {
        mask / 2 % 2 == 1
    } else if k == 2 {
        mask / 4 % 2 == 1
    } else {
        mask / 8 % 2 == 1
    }
}

/// `old` with each byte that `mask` selects replaced by the same byte of
/// `val`.
pub open spec fn merge_fields(old: u32, val: u32, mask: u32) -> u32 {
    let b0 = if mask_selects(mask, 0) { byte_of(val, 0) } else { byte_of(old, 0) };
    let b1 = if mask_selects(mask, 1) { byte_of(val, 1) } else { byte_of(old, 1) };
    let b2 = if mask_selects(mask, 2) { byte_of(val, 2) } else { byte_of(old, 2) };
    let b3 = if mask_selects(mask, 3) { byte_of(val, 3) } else { byte_of(old, 3) };
    (b0 + b1 * 0x100 + b2 * 0x1_0000 + b3 * 0x100_0000) as u32
}

/// Replace the bytes of `old` that the four bit `mask` selects by the
/// bytes of `val`.
pub fn merge(old: u32, val: u32, mask: u32) -> (r: u32)
    ensures
        r == merge_fields(old, val, mask),
{
    let b0 = if mask % 2 == 1 { val % 0x100 } else { old % 0x100 };
    let b1 = if mask / 2 % 2 == 1 { val / 0x100 % 0x100 } else { old / 0x100 % 0x100 };
    let b2 = if mask / 4 % 2 == 1 { val / 0x1_0000 % 0x100 } else { old / 0x1_0000 % 0x100 };
    let b3 = if mask / 8 % 2 == 1 { val / 0x100_0000 } else { old / 0x100_0000 };
    assert(b0 < 0x100 && b1 < 0x100 && b2 < 0x100 && b3 < 0x100);
    b0 + b1 * 0x100 + b2 * 0x1_0000 + b3 * 0x100_0000
}

/// An instruction that was not carried out: why, and the state in which
/// it left the CPU.
pub struct Failure {
    pub error: ExecError,
    pub state: CpuState,
}

/// What the CPU and the bus behind it hold.
pub struct CpuState {
    /// The register file, sixteen slots per bank. The slots of register 15
    /// are not used: the program counter is `pc`.
    pub regs: Seq<u32>,
    /// The saved status register of each bank.
    pub spsrs: Seq<u32>,
    /// Negative flag.
    pub n: bool,
    /// Zero flag.
    pub z: bool,
    /// Carry flag.
    pub c: bool,
    /// Overflow flag.
    pub v: bool,
    /// Bits 27 to 0 of the current status register: the mode in bits 4 to
    /// 0, the Thumb bit in bit 5, the interrupt masks in bits 6 and 7.
    pub control: u32,
    /// Address of the instruction being executed.
    pub pc: u32,
    /// Address of the instruction to execute next.
    pub next_pc: u32,
    /// The bus.
    pub bus: BusState,
    /// The accesses that instructions made to the bus, oldest first.
    pub accesses: Seq<BusAccess>,
}

impl CpuState {
    /// The register file and the saved status registers have their sizes,
    /// the control bits leave the flag bits alone, and the bus is well
    /// formed.
    pub open spec fn wf(self) -> bool {
        &&& self.regs.len() == REGISTER_SLOTS
        &&& self.spsrs.len() == BANKS
        &&& self.control < CONTROL_LIMIT
        &&& self.bus.wf()
    }

    /// The bank of the current mode.
    pub open spec fn bank(self) -> int {
        bank_of_mode(self.control % 32)
    }

    /// True in Thumb state.
    pub open spec fn thumb(self) -> bool {
        self.control / 32 % 2 == 1
    }

    /// What an instruction reads from register `i`: for the program
    /// counter, the address of the instruction plus 8.
    pub open spec fn reg(self, i: u32) -> u32 {
        if i == 15 {
            self.pc.wrapping_add(8)
        } else {
            self.regs[register_slot(self.control, i)]
        }
    }

    /// `addr` aligned for the instruction set in use: to 4 bytes, in Thumb
    /// state to 2.
    pub open spec fn fetch_align(self, addr: u32) -> u32 {
        if self.thumb() {
            (addr - addr % 2) as u32
        } else {
            (addr - addr % 4) as u32
        }
    }

    /// The state after a jump to `addr`.
    pub open spec fn set_pc(self, addr: u32) -> CpuState {
        CpuState { next_pc: self.fetch_align(addr), ..self }
    }

    /// The state after a write of `val` to register `i`; a write to the
    /// program counter is a jump.
    pub open spec fn set_reg(self, i: u32, val: u32) -> CpuState {
        if i == 15 {
            self.set_pc(val)
        } else {
            CpuState { regs: self.regs.update(register_slot(self.control, i), val), ..self }
        }
    }

    /// The state after a write of `val` to register `i`, with the low two
    /// bits of `val` cleared when `i` is the program counter.
    pub open spec fn set_reg_pc_mask(self, i: u32, val: u32) -> CpuState {
        if i == 15 {
            self.set_pc((val - val % 4) as u32)
        } else {
            self.set_reg(i, val)
        }
    }

    /// The current status register.
    pub open spec fn cpsr(self) -> u32 {
        psr_word(self.n, self.z, self.c, self.v, self.control)
    }

    /// The saved status register of the current mode.
    pub open spec fn spsr(self) -> u32 {
        self.spsrs[self.bank()]
    }

    /// The state with `word` as the current status register. The mode
    /// field selects the bank that registers are read from afterwards.
    pub open spec fn with_cpsr(self, word: u32) -> CpuState {
        CpuState {
            n: word >= 0x8000_0000,
            z: word / 0x4000_0000 % 2 == 1,
            c: word / 0x2000_0000 % 2 == 1,
            v: word / 0x1000_0000 % 2 == 1,
            control: word % CONTROL_LIMIT,
            ..self
        }
    }

    /// The state after the bytes of the current status register that
    /// `mask` selects took the bytes of `val`.
    pub open spec fn msr_cpsr(self, val: u32, mask: u32) -> CpuState {
        self.with_cpsr(merge_fields(self.cpsr(), val, mask))
    }

    /// The state after the status register became `cpsr` and the CPU
    /// jumped to `pc`.
    pub open spec fn set_pc_cpsr(self, pc: u32, cpsr: u32) -> CpuState {
        self.with_cpsr(cpsr).set_pc(pc)
    }

    /// The state after the Thumb bit became `thumb` and the CPU jumped to
    /// `pc`.
    pub open spec fn set_pc_thumb(self, pc: u32, thumb: bool) -> CpuState {
        let control = (self.control - self.control % 64 + self.control % 32 + if thumb {
            32int
        } else {
            0
        }) as u32;
        (CpuState { control, ..self }).set_pc(pc)
    }

    /// The state with the negative and zero flags set from `val`.
    pub open spec fn set_nz(self, val: u32) -> CpuState {
        CpuState { n: val >= 0x8000_0000, z: val == 0, ..self }
    }

    /// The state after a software interrupt: the CPU is in supervisor
    /// mode and ARM state with IRQs masked, the saved status register of
    /// that mode holds the status register as it was, its link register
    /// holds the address of the next instruction, and the CPU jumped to
    /// the vector.
    pub open spec fn swi(self) -> CpuState {
        let control = (self.control - self.control % 0x100 + 0x80 + (self.control / 64 % 2) * 64
            + MODE_SUPERVISOR) as u32;
        CpuState {
            control,
            spsrs: self.spsrs.update(bank_of_mode(MODE_SUPERVISOR), self.cpsr()),
            regs: self.regs.update(register_slot(MODE_SUPERVISOR, 14), self.next_pc),
            next_pc: SWI_VECTOR,
            ..self
        }
    }

    /// The state as an instruction finds it: the next instruction is the
    /// one that follows in memory.
    pub open spec fn begin(self) -> CpuState {
        CpuState { next_pc: self.pc.wrapping_add(4), ..self }
    }

    /// The state once an instruction is done: the CPU is at the next
    /// instruction.
    pub open spec fn retire(self) -> CpuState {
        CpuState { pc: self.next_pc, next_pc: self.next_pc.wrapping_add(4), ..self }
    }

    /// The state after one step: the instruction at the program counter
    /// is fetched from the bus and executed. In Thumb state there is
    /// nothing to decode it with.
    pub open spec fn step(self) -> Result<CpuState, Failure> {
        if self.thumb() {
            Err(Failure { error: ExecError::ThumbState, state: self })
        } else {
            match self.bus.load(4, self.pc) {
                Ok(word) => execute_spec(word, self),
                Err(e) => Err(Failure { error: ExecError::Bus(e), state: self }),
            }
        }
    }

    /// The state with one more access on record.
    pub open spec fn noted(self, access: BusAccess) -> CpuState {
        CpuState { accesses: self.accesses.push(access), ..self }
    }

    /// What a load of `width` bytes at `addr` gives, and the state with
    /// the access on record.
    pub open spec fn load(self, width: u8, addr: u32) -> Result<(u32, CpuState), Failure> {
        match self.bus.load(width, addr) {
            Ok(val) => Ok((val, self.noted(BusAccess::Load { addr, width }))),
            Err(e) => Err(Failure { error: ExecError::Bus(e), state: self }),
        }
    }

    /// The state after a store of the low `width` bytes of `val` at
    /// `addr`, with the access on record.
    pub open spec fn store(self, width: u8, addr: u32, val: u32) -> Result<CpuState, Failure> {
        match self.bus.store(width, addr, val) {
            Ok(bus) => Ok(
                (CpuState { bus, ..self }).noted(BusAccess::Store { addr, width, value: val }),
            ),
            Err(e) => Err(Failure { error: ExecError::Bus(e), state: self }),
        }
    }
}

/// The ARMv4 core together with the bus it drives.
pub struct Cpu {
    regs: [u32; 96],
    spsrs: [u32; 6],
    n: bool,
    z: bool,
    c: bool,
    v: bool,
    control: u32,
    pc: u32,
    next_pc: u32,
    inter: Interconnect,
    accesses: Ghost<Seq<BusAccess>>,
}

impl View for Cpu {
    type V = CpuState;

    closed spec fn view(&self) -> CpuState {
        CpuState {
            regs: self.regs@,
            spsrs: self.spsrs@,
            n: self.n,
            z: self.z,
            c: self.c,
            v: self.v,
            control: self.control,
            pc: self.pc,
            next_pc: self.next_pc,
            bus: self.inter@,
            accesses: self.accesses@,
        }
    }
}

impl Cpu {
    /// The core after reset: supervisor mode, ARM state, IRQ and FIQ
    /// masked, cleared registers and flags, about to execute the
    /// instruction at address 0.
    pub fn new(inter: Interconnect) -> (r: Cpu)
        requires
            inter@.wf(),
        ensures
            r@.wf(),
            r@.bus == inter@,
            r@.control == 0xd3,
            !r@.n && !r@.z && !r@.c && !r@.v,
            r@.pc == 0,
            r@.next_pc == 4,
            forall|i: int| 0 <= i < REGISTER_SLOTS ==> r@.regs[i] == 0,
            forall|i: int| 0 <= i < BANKS ==> r@.spsrs[i] == 0,
            r@.accesses.len() == 0,
    {
        Cpu {
            regs: [0u32;96],
            spsrs: [0u32;6],
            n: false,
            z: false,
            c: false,
            v: false,
            control: 0xd3,
            pc: 0,
            next_pc: 4,
            inter,
            accesses: Ghost(Seq::empty()),
        }
    }

    /// The bus.
    pub fn interconnect(&self) -> (r: &Interconnect)
        ensures
            r@ == self@.bus,
    {
        &self.inter
    }

    /// The bus, to change it.
    pub fn interconnect_mut(&mut self) -> (r: &mut Interconnect)
        ensures
            r@ == old(self)@.bus,
            final(self)@ == (CpuState { bus: final(r)@, ..old(self)@ }),
    {
        &mut self.inter
    }

    /// Address of the instruction that is executed next.
    pub fn pc(&self) -> (r: u32)
        ensures
            r == self@.pc,
    {
        self.pc
    }

    /// Continue at `addr`.
    pub fn restart_at(&mut self, addr: u32)
        ensures
            final(self)@ == (CpuState {
                pc: old(self)@.fetch_align(addr),
                next_pc: old(self)@.fetch_align(addr).wrapping_add(4),
                ..old(self)@
            }),
    {
        let target = self.fetch_align(addr);
        self.pc = target;
        self.next_pc = target.wrapping_add(4);
    }

    fn fetch_align(&self, addr: u32) -> (r: u32)
        ensures
            r == self@.fetch_align(addr),
    {
        if self.control / 32 % 2 == 1 {
            addr - addr % 2
        } else {
            addr - addr % 4
        }
    }

    fn slot(&self, i: RegisterIndex) -> (r: usize)
        requires
            i.wf(),
            i.0 != 15,
        ensures
            r == register_slot(self@.control, i.0),
            r < REGISTER_SLOTS,
    {
        let mode = self.control % 32;
        let bank: usize = if mode == 0x11 {
            1
        } else if mode == 0x12 {
            2
        } else if mode == 0x13 {
            3
        } else if mode == 0x17 {
            4
        } else if mode == 0x1b {
            5
        } else {
            0
        };
        if i.0 == 13 || i.0 == 14 {
            bank * 16 + i.0 as usize
        } else if 8 <= i.0 && i.0 <= 12 && bank == 1 {
            16 + i.0 as usize
        } else {
            i.0 as usize
        }
    }

    fn bank(&self) -> (r: usize)
        ensures
            r == self@.bank(),
            r < BANKS,
    {
        let mode = self.control % 32;
        if mode == 0x11 {
            1
        } else if mode == 0x12 {
            2
        } else if mode == 0x13 {
            3
        } else if mode == 0x17 {
            4
        } else if mode == 0x1b {
            5
        } else {
            0
        }
    }

    /// Read register `i` as an instruction sees it: the program counter
    /// reads as the address of the instruction plus 8.
    pub fn reg(&self, i: RegisterIndex) -> (r: u32)
        requires
            i.wf(),
        ensures
            r == self@.reg(i.0),
    {
        if i.0 == 15 {
            self.pc.wrapping_add(8)
        } else {
            self.regs[self.slot(i)]
        }
    }

    /// Write register `i`; a write to the program counter is a jump.
    pub fn set_reg(&mut self, i: RegisterIndex, val: u32)
        requires
            i.wf(),
        ensures
            final(self)@ == old(self)@.set_reg(i.0, val),
    {
        if i.0 == 15 {
            self.set_pc(val);
        } else {
            let slot = self.slot(i);
            self.regs[slot] = val;
        }
    }

    /// Write register `i`; for the program counter the low two bits of
    /// `val` are cleared first.
    pub fn set_reg_pc_mask(&mut self, i: RegisterIndex, val: u32)
        requires
            i.wf(),
        ensures
            final(self)@ == old(self)@.set_reg_pc_mask(i.0, val),
    {
        if i.0 == 15 {
            self.set_pc(val - val % 4);
        } else {
            self.set_reg(i, val);
        }
    }

    /// Jump to `addr`.
    pub fn set_pc(&mut self, addr: u32)
        ensures
            final(self)@ == old(self)@.set_pc(addr),
    {
        self.next_pc = self.fetch_align(addr);
    }

    /// The address of the instruction after the one being executed, until
    /// the instruction jumps.
    pub fn next_pc(&self) -> (r: u32)
        ensures
            r == self@.next_pc,
    {
        self.next_pc
    }

    /// The current status register.
    pub fn cpsr(&self) -> (r: u32)
        requires
            self@.control < CONTROL_LIMIT,
        ensures
            r == self@.cpsr(),
    {
        let n: u32 = if self.n { 0x8000_0000 } else { 0 };
        let z: u32 = if self.z { 0x4000_0000 } else { 0 };
        let c: u32 = if self.c { 0x2000_0000 } else { 0 };
        let v: u32 = if self.v { 0x1000_0000 } else { 0 };
        n + z + c + v + self.control
    }

    /// The saved status register of the current mode.
    pub fn spsr(&self) -> (r: u32)
        ensures
            r == self@.spsr(),
    {
        self.spsrs[self.bank()]
    }

    fn set_cpsr(&mut self, word: u32)
        ensures
            final(self)@ == old(self)@.with_cpsr(word),
            final(self)@.control < CONTROL_LIMIT,
    {
        self.n = word >= 0x8000_0000;
        self.z = word / 0x4000_0000 % 2 == 1;
        self.c = word / 0x2000_0000 % 2 == 1;
        self.v = word / 0x1000_0000 % 2 == 1;
        self.control = word % CONTROL_LIMIT;
    }

    /// Replace the bytes of the current status register that the four bit
    /// `mask` selects by the bytes of `val`.
    pub fn msr_cpsr(&mut self, val: u32, mask: u32)
        requires
            old(self)@.control < CONTROL_LIMIT,
        ensures
            final(self)@ == old(self)@.msr_cpsr(val, mask),
            final(self)@.control < CONTROL_LIMIT,
    {
        let old = self.cpsr();
        self.set_cpsr(merge(old, val, mask));
    }

    /// Make `cpsr` the current status register and jump to `pc`.
    pub fn set_pc_cpsr(&mut self, pc: u32, cpsr: u32)
        ensures
            final(self)@ == old(self)@.set_pc_cpsr(pc, cpsr),
            final(self)@.control < CONTROL_LIMIT,
    {
        self.set_cpsr(cpsr);
        self.set_pc(pc);
    }

    /// Set the Thumb bit to `thumb` and jump to `pc`.
    pub fn set_pc_thumb(&mut self, pc: u32, thumb: bool)
        requires
            old(self)@.control < CONTROL_LIMIT,
        ensures
            final(self)@ == old(self)@.set_pc_thumb(pc, thumb),
            final(self)@.control < CONTROL_LIMIT,
    {
        let t: u32 = if thumb { 32 } else { 0 };
        self.control = self.control - self.control % 64 + self.control % 32 + t;
        self.set_pc(pc);
    }

    /// The negative flag.
    pub fn n(&self) -> (r: bool)
        ensures
            r == self@.n,
    {
        self.n
    }

    /// The zero flag.
    pub fn z(&self) -> (r: bool)
        ensures
            r == self@.z,
    {
        self.z
    }

    /// The carry flag.
    pub fn c(&self) -> (r: bool)
        ensures
            r == self@.c,
    {
        self.c
    }

    /// The overflow flag.
    pub fn v(&self) -> (r: bool)
        ensures
            r == self@.v,
    {
        self.v
    }

    /// Set the negative flag.
    pub fn set_n(&mut self, n: bool)
        ensures
            final(self)@ == (CpuState { n, ..old(self)@ }),
    {
        self.n = n;
    }

    /// Set the zero flag.
    pub fn set_z(&mut self, z: bool)
        ensures
            final(self)@ == (CpuState { z, ..old(self)@ }),
    {
        self.z = z;
    }

    /// Set the carry flag.
    pub fn set_c(&mut self, c: bool)
        ensures
            final(self)@ == (CpuState { c, ..old(self)@ }),
    {
        self.c = c;
    }

    /// Set the overflow flag.
    pub fn set_v(&mut self, v: bool)
        ensures
            final(self)@ == (CpuState { v, ..old(self)@ }),
    {
        self.v = v;
    }

    /// Take the software interrupt trap.
    pub fn swi(&mut self)
        requires
            old(self)@.control < CONTROL_LIMIT,
        ensures
            final(self)@ == old(self)@.swi(),
            final(self)@.control < CONTROL_LIMIT,
    {
        let cpsr = self.cpsr();
        self.spsrs[3] = cpsr;
        self.regs[62] = self.next_pc;
        self.control = self.control - self.control % 0x100 + 0x80 + (self.control / 64 % 2) * 64
            + MODE_SUPERVISOR;
        self.next_pc = SWI_VECTOR;
    }

    /// Prepare for the execution of the instruction at the program
    /// counter.
    pub fn begin(&mut self)
        ensures
            final(self)@ == old(self)@.begin(),
    {
        self.next_pc = self.pc.wrapping_add(4);
    }

    /// Move on to the next instruction.
    pub fn retire(&mut self)
        ensures
            final(self)@ == old(self)@.retire(),
    {
        self.pc = self.next_pc;
        self.next_pc = self.pc.wrapping_add(4);
    }

    /// Fetch the instruction at the program counter and execute it.
    pub fn step<D: Debugger>(&mut self, debugger: &mut D) -> (r: Result<(), ExecError>)
        requires
            old(self)@.wf(),
        ensures
            final(self)@.wf(),
            match old(self)@.step() {
                Ok(state) => r.is_ok() && final(self)@ == state,
                Err(f) => r == Err::<(), ExecError>(f.error) && final(self)@ == f.state,
            },
    {
        if self.control / 32 % 2 == 1 {
            return Err(ExecError::ThumbState);
        }
        match self.inter.load::<Word>(self.pc) {
            Ok(word) => Instruction(word).execute(debugger, self),
            Err(e) => Err(ExecError::Bus(e)),
        }
    }

    /// Read `A::size()` bytes at `addr` for an instruction, after telling
    /// the debugger.
    pub fn load<A: Addressable, D: Debugger>(&mut self, debugger: &mut D, addr: u32) -> (r: Result<
        u32,
        ExecError,
    >)
        requires
            old(self)@.wf(),
        ensures
            final(self)@.wf(),
            match old(self)@.load(A::width(), addr) {
                Ok((val, state)) => r == Ok::<u32, ExecError>(val) && final(self)@ == state,
                Err(f) => r == Err::<u32, ExecError>(f.error) && final(self)@ == f.state,
            },
    {
        let width = A::size();
        debugger.on_load(addr, width);
        match self.inter.load::<A>(addr) {
            Ok(val) => {
                proof {
                    self.accesses = Ghost(self.accesses@.push(BusAccess::Load { addr, width }));
                }
                Ok(val)
            },
            Err(e) => Err(ExecError::Bus(e)),
        }
    }

    /// Write the low `A::size()` bytes of `val` at `addr` for an
    /// instruction, after telling the debugger.
    pub fn store<A: Addressable, D: Debugger>(
        &mut self,
        debugger: &mut D,
        addr: u32,
        val: u32,
    ) -> (r: Result<(), ExecError>)
        requires
            old(self)@.wf(),
        ensures
            final(self)@.wf(),
            match old(self)@.store(A::width(), addr, val) {
                Ok(state) => r.is_ok() && final(self)@ == state,
                Err(f) => r == Err::<(), ExecError>(f.error) && final(self)@ == f.state,
            },
    {
        let width = A::size();
        debugger.on_store(addr, width, val);
        match self.inter.store::<A>(addr, val) {
            Ok(()) => {
                proof {
                    self.accesses = Ghost(
                        self.accesses@.push(BusAccess::Store { addr, width, value: val }),
                    );
                }
                Ok(())
            },
            Err(e) => Err(ExecError::Bus(e)),
        }
    }
}

} // verus!
