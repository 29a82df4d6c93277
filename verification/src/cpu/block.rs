//! Loads and stores of several registers.
use vstd::prelude::*;
use crate::bits::{
    bit, bits_set_below, count_below, count_ones, lemma_bits_set_below_bound, popcount, test_bit,
};
use crate::cpu::armv4_is::Instruction;
use crate::cpu::{Cpu, CpuState, ExecError, Failure, RegisterIndex};
use crate::debugger::Debugger;
use crate::memory::Word;

verus! {

/// The address of the first transfer and the value written back to the
/// base register, for a block transfer of the registers in `list` at
/// `base`. Upwards the block starts at the base, or one word above it
/// where the base moves before each transfer, and the base ends above the
/// block; downwards the block ends one word below the base, or at the
/// base where the base moves after each transfer, and the base ends at
/// the bottom of the block.
pub open spec fn start_wb_spec(base: u32, list: u32, up: bool, pre: bool) -> (u32, u32) {
    let len_bytes = (4 * popcount(list)) as u32;
    if up {
        (
            if pre {
                base.wrapping_add(4)
            } else {
                base
            },
            base.wrapping_add(len_bytes),
        )
    } else {
        (
            if pre {
                base.wrapping_sub(len_bytes)
            } else {
                base.wrapping_sub(len_bytes).wrapping_add(4)
            },
            base.wrapping_sub(len_bytes),
        )
    }
}

/// The address at which register `i` is transferred in a block that
/// starts at `start`: one word further for each listed register below
/// `i`.
pub open spec fn slot_address(start: u32, list: u32, i: nat) -> u32 {
    start.wrapping_add((4 * bits_set_below(list, i)) as u32)
}

/// Whether the encoding of `w` is that of a block transfer with these
/// five flags.
pub open spec fn block_is_valid(
    w: u32,
    load: bool,
    psr: bool,
    up: bool,
    pre: bool,
    wb: bool,
) -> bool {
    &&& w / 0x200_0000 % 8 == 4
    &&& (w / 0x100_0000 % 2 == 1) == pre
    &&& (w / 0x80_0000 % 2 == 1) == up
    &&& (w / 0x40_0000 % 2 == 1) == psr
    &&& (w / 0x20_0000 % 2 == 1) == wb
    &&& (w / 0x10_0000 % 2 == 1) == load
}

/// The block transfers that the architecture promises nothing for: an
/// empty list, the program counter as base, and writeback with the base
/// in the list.
pub open spec fn block_is_unpredictable(w: u32, wb: bool) -> bool {
    let i = Instruction(w);
    i.register_list_spec() == 0 || i.rn_spec() == 15 || (wb && bit(
        i.register_list_spec(),
        i.rn_spec(),
    ))
}

/// The state after the listed registers from `i` up to `n` were loaded,
/// one after the other, in a block that starts at `start`. A load that
/// the bus refuses ends the transfer; the registers loaded before it keep
/// what they were given.
pub open spec fn load_registers(
    list: u32,
    start: u32,
    i: nat,
    n: nat,
    s: CpuState,
) -> Result<CpuState, Failure>
    decreases n - i,
{
    if i >= n {
        Ok(s)
    } else if bit(list, i as u32) {
        match s.load(4, slot_address(start, list, i)) {
            Ok((val, s1)) => load_registers(
                list,
                start,
                i + 1,
                n,
                s1.set_reg_pc_mask(i as u32, val),
            ),
            Err(e) => Err(e),
        }
    } else {
        load_registers(list, start, i + 1, n, s)
    }
}

/// The state after the listed registers from `i` up to `n` were stored,
/// one after the other, in a block that starts at `start`. A store that
/// the bus refuses ends the transfer; what was stored before it stays.
pub open spec fn store_registers(
    list: u32,
    start: u32,
    i: nat,
    n: nat,
    s: CpuState,
) -> Result<CpuState, Failure>
    decreases n - i,
{
    if i >= n {
        Ok(s)
    } else if bit(list, i as u32) {
        match s.store(4, slot_address(start, list, i), s.reg(i as u32)) {
            Ok(s1) => store_registers(list, start, i + 1, n, s1),
            Err(e) => Err(e),
        }
    } else {
        store_registers(list, start, i + 1, n, s)
    }
}

/// The state after the base register of `w` took `val`, if `wb` is set.
pub open spec fn base_written(w: u32, wb: bool, val: u32, s: CpuState) -> CpuState {
    if wb {
        s.set_reg(Instruction(w).rn_spec(), val)
    } else {
        s
    }
}

/// What a load of several registers does: the listed registers are loaded
/// from ascending addresses in ascending order, the program counter with
/// its low two bits cleared, then the base is written back.
#[verifier::opaque]
pub open spec fn ldm_spec(w: u32, up: bool, pre: bool, wb: bool, s: CpuState) -> Result<
    CpuState,
    Failure,
> {
    let i = Instruction(w);
    let list = i.register_list_spec();
    let (start, end) = start_wb_spec(s.reg(i.rn_spec()), list, up, pre);
    if !block_is_valid(w, true, false, up, pre, wb) {
        Err(Failure { error: ExecError::MalformedInstruction, state: s })
    } else if block_is_unpredictable(w, wb) {
        Err(Failure { error: ExecError::Unpredictable, state: s })
    } else {
        match load_registers(list, start, 0, 16, s) {
            Ok(s1) => Ok(base_written(w, wb, end, s1)),
            Err(e) => Err(e),
        }
    }
}

/// What a load of several registers with the status register does. With
/// the program counter in the list the other listed registers are loaded,
/// then the word for the program counter, then the base is written back,
/// and last the status register takes the saved status register of the
/// mode and the CPU jumps to the word loaded. Without the program counter
/// in the list the instruction loads user mode registers, which is not
/// implemented.
#[verifier::opaque]
pub open spec fn ldms_spec(w: u32, up: bool, pre: bool, wb: bool, s: CpuState) -> Result<
    CpuState,
    Failure,
> {
    let i = Instruction(w);
    let list = i.register_list_spec();
    let (start, end) = start_wb_spec(s.reg(i.rn_spec()), list, up, pre);
    if !block_is_valid(w, true, true, up, pre, wb) {
        Err(Failure { error: ExecError::MalformedInstruction, state: s })
    } else if block_is_unpredictable(w, wb) {
        Err(Failure { error: ExecError::Unpredictable, state: s })
    } else if !bit(list, 15) {
        Err(
            Failure {
                error: ExecError::Unimplemented { word: w, index: i.opcode_spec() },
                state: s,
            },
        )
    } else {
        match load_registers(list, start, 0, 15, s) {
            Ok(s1) => match s1.load(4, slot_address(start, list, 15)) {
                Ok((pc, s2)) => {
                    let s3 = base_written(w, wb, end, s2);
                    Ok(s3.set_pc_cpsr(pc, s3.spsr()))
                },
                Err(e) => Err(e),
            },
            Err(e) => Err(e),
        }
    }
}

/// What a store of several registers does: the listed registers are
/// stored at ascending addresses in ascending order, then the base is
/// written back. The program counter in the list is refused.
#[verifier::opaque]
pub open spec fn stm_spec(w: u32, up: bool, pre: bool, wb: bool, s: CpuState) -> Result<
    CpuState,
    Failure,
> {
    let i = Instruction(w);
    let list = i.register_list_spec();
    let (start, end) = start_wb_spec(s.reg(i.rn_spec()), list, up, pre);
    if !block_is_valid(w, false, false, up, pre, wb) {
        Err(Failure { error: ExecError::MalformedInstruction, state: s })
    } else if block_is_unpredictable(w, wb) || bit(list, 15) {
        Err(Failure { error: ExecError::Unpredictable, state: s })
    } else {
        match store_registers(list, start, 0, 16, s) {
            Ok(s1) => Ok(base_written(w, wb, end, s1)),
            Err(e) => Err(e),
        }
    }
}

/// LDM/STM start address and WriteBack value
pub fn mode4_start_wb(base: u32, list: u32, up: bool, pre: bool) -> (r: (u32, u32))
    ensures
        r == start_wb_spec(base, list, up, pre),
{
    let list_len = count_ones(list);
    let len_bytes = list_len * 4;
    if up {
        let start_addr = if pre {
            base.wrapping_add(4)
        } else {
            base
        };
        (start_addr, base.wrapping_add(len_bytes))
    } else {
        let start_addr = if pre {
            base.wrapping_sub(len_bytes)
        } else {
            base.wrapping_sub(len_bytes).wrapping_add(4)
        };
        (start_addr, base.wrapping_sub(len_bytes))
    }
}

/// True when the encoding of `instruction` is that of a block transfer
/// with these five flags.
fn is_valid(instruction: Instruction, load: bool, psr: bool, up: bool, pre: bool, wb: bool) -> (r:
    bool)
    ensures
        r == block_is_valid(instruction.0, load, psr, up, pre, wb),
{
    let i = instruction.0;
    i / 0x200_0000 % 8 == 4 && (i / 0x100_0000 % 2 == 1) == pre && (i / 0x80_0000 % 2 == 1) == up
        && (i / 0x40_0000 % 2 == 1) == psr && (i / 0x20_0000 % 2 == 1) == wb && (i / 0x10_0000 % 2
        == 1) == load
}

/// True for the block transfers that the architecture promises nothing
/// for.
fn is_unpredictable(instruction: Instruction, wb: bool) -> (r: bool)
    ensures
        r == block_is_unpredictable(instruction.0, wb),
{
    let rn = instruction.rn();
    let list = instruction.register_list();
    list == 0 || rn.is_pc() || (wb && test_bit(list, rn.0))
}

/// Load the listed registers below `n` from ascending addresses.
fn load_listed<D: Debugger>(list: u32, start: u32, n: u32, debugger: &mut D, cpu: &mut Cpu) -> (r:
    Result<(), ExecError>)
    requires
        old(cpu)@.wf(),
        n <= 16,
    ensures
        final(cpu)@.wf(),
        match load_registers(list, start, 0, n as nat, old(cpu)@) {
            Ok(state) => r.is_ok() && final(cpu)@ == state,
            Err(f) => r == Err::<(), ExecError>(f.error) && final(cpu)@ == f.state,
        },
{
    let mut addr = start;
    let mut i: u32 = 0;
    while i < n
        invariant
            i <= n <= 16,
            cpu@.wf(),
            addr == slot_address(start, list, i as nat),
            load_registers(list, start, i as nat, n as nat, cpu@) == load_registers(
                list,
                start,
                0,
                n as nat,
                old(cpu)@,
            ),
        decreases n - i,
    {
        proof {
            lemma_bits_set_below_bound(list, i as nat);
        }
        if test_bit(list, i) {
            let val = cpu.load::<Word, D>(debugger, addr)?;
            cpu.set_reg_pc_mask(RegisterIndex(i), val);
            addr = addr.wrapping_add(4);
        }
        i = i + 1;
    }
    Ok(())
}

/// Load the registers in the list from ascending addresses.
pub fn ldm<D: Debugger>(
    instruction: Instruction,
    up: bool,
    pre: bool,
    wb: bool,
    debugger: &mut D,
    cpu: &mut Cpu,
) -> (r: Result<(), ExecError>)
    requires
        old(cpu)@.wf(),
    ensures
        final(cpu)@.wf(),
        match ldm_spec(instruction.0, up, pre, wb, old(cpu)@) {
            Ok(state) => r.is_ok() && final(cpu)@ == state,
            Err(f) => r == Err::<(), ExecError>(f.error) && final(cpu)@ == f.state,
        },
{
    proof {
        reveal(ldm_spec);
    }
    let rn = instruction.rn();
    let list = instruction.register_list();
    if !is_valid(instruction, true, false, up, pre, wb) {
        return Err(ExecError::MalformedInstruction);
    }
    if is_unpredictable(instruction, wb) {
        return Err(ExecError::Unpredictable);
    }
    let base = cpu.reg(rn);
    let (start, end) = mode4_start_wb(base, list, up, pre);
    load_listed(list, start, 16, debugger, cpu)?;
    if wb {
        cpu.set_reg(rn, end);
    }
    Ok(())
}

/// This opcode can have two meanings depending on whether PC is
/// specified in the register list or not.
///
/// If PC is set it loads the registers normally and then copies the
/// SPSR into the CPSR.
///
/// If PC is missing it loads *user mode* registers.
pub fn ldms<D: Debugger>(
    instruction: Instruction,
    up: bool,
    pre: bool,
    wb: bool,
    debugger: &mut D,
    cpu: &mut Cpu,
) -> (r: Result<(), ExecError>)
    requires
        old(cpu)@.wf(),
    ensures
        final(cpu)@.wf(),
        match ldms_spec(instruction.0, up, pre, wb, old(cpu)@) {
            Ok(state) => r.is_ok() && final(cpu)@ == state,
            Err(f) => r == Err::<(), ExecError>(f.error) && final(cpu)@ == f.state,
        },
{
    proof {
        reveal(ldms_spec);
    }
    let rn = instruction.rn();
    let list = instruction.register_list();
    if !is_valid(instruction, true, true, up, pre, wb) {
        return Err(ExecError::MalformedInstruction);
    }
    if is_unpredictable(instruction, wb) {
        return Err(ExecError::Unpredictable);
    }
    // The presence of PC in the list tells us which instruction this
    // is
    let load_spsr = test_bit(list, 15);
    if !load_spsr {
        return Err(
            ExecError::Unimplemented { word: instruction.0, index: instruction.opcode() },
        );
    }
    let base = cpu.reg(rn);
    let (start, end) = mode4_start_wb(base, list, up, pre);
    load_listed(list, start, 15, debugger, cpu)?;
    // Don't load the PC just now, we also need to restore the SPSR
    // *but* we want to wait until the writeback is handled, otherwise
    // we might update a register in the wrong mode.
    proof {
        lemma_bits_set_below_bound(list, 15);
    }
    let pc_addr = start.wrapping_add(count_below(list, 15) * 4);
    let pc = cpu.load::<Word, D>(debugger, pc_addr)?;
    if wb {
        cpu.set_reg(rn, end);
    }
    let spsr = cpu.spsr();
    cpu.set_pc_cpsr(pc, spsr);
    Ok(())
}

/// Store the listed registers at ascending addresses.
fn store_listed<D: Debugger>(list: u32, start: u32, debugger: &mut D, cpu: &mut Cpu) -> (r: Result<
    (),
    ExecError,
>)
    requires
        old(cpu)@.wf(),
    ensures
        final(cpu)@.wf(),
        match store_registers(list, start, 0, 16, old(cpu)@) {
            Ok(state) => r.is_ok() && final(cpu)@ == state,
            Err(f) => r == Err::<(), ExecError>(f.error) && final(cpu)@ == f.state,
        },
{
    let mut addr = start;
    let mut i: u32 = 0;
    while i < 16
        invariant
            i <= 16,
            cpu@.wf(),
            addr == slot_address(start, list, i as nat),
            store_registers(list, start, i as nat, 16, cpu@) == store_registers(
                list,
                start,
                0,
                16,
                old(cpu)@,
            ),
        decreases 16 - i,
    {
        proof {
            lemma_bits_set_below_bound(list, i as nat);
        }
        if test_bit(list, i) {
            let val = cpu.reg(RegisterIndex(i));
            cpu.store::<Word, D>(debugger, addr, val)?;
            addr = addr.wrapping_add(4);
        }
        i = i + 1;
    }
    Ok(())
}

/// Store the registers in the list at ascending addresses.
pub fn stm<D: Debugger>(
    instruction: Instruction,
    up: bool,
    pre: bool,
    wb: bool,
    debugger: &mut D,
    cpu: &mut Cpu,
) -> (r: Result<(), ExecError>)
    requires
        old(cpu)@.wf(),
    ensures
        final(cpu)@.wf(),
        match stm_spec(instruction.0, up, pre, wb, old(cpu)@) {
            Ok(state) => r.is_ok() && final(cpu)@ == state,
            Err(f) => r == Err::<(), ExecError>(f.error) && final(cpu)@ == f.state,
        },
{
    proof {
        reveal(stm_spec);
    }
    let rn = instruction.rn();
    let list = instruction.register_list();
    if !is_valid(instruction, false, false, up, pre, wb) {
        return Err(ExecError::MalformedInstruction);
    }
    if is_unpredictable(instruction, wb) {
        return Err(ExecError::Unpredictable);
    }
    let pc_in_list = test_bit(list, 15);
    if pc_in_list {
        // Implementation defined
        return Err(ExecError::Unpredictable);
    }
    let base = cpu.reg(rn);
    let (start, end) = mode4_start_wb(base, list, up, pre);
    store_listed(list, start, debugger, cpu)?;
    if wb {
        cpu.set_reg(rn, end);
    }
    Ok(())
}

} // verus!
