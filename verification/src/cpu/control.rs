//! Status register moves, branches and the software interrupt.
use vstd::prelude::*;
use crate::cpu::armv4_is::Instruction;
use crate::cpu::{Cpu, CpuState, ExecError, Failure, RegisterIndex};

verus! {

/// Bits 19 to 16 of `w` are ones and bits 11 to 0 are zeroes, as in a
/// move from a status register.
pub open spec fn mrs_is_well_formed(w: u32) -> bool {
    w / 0x1_0000 % 16 == 15 && w % 0x1000 == 0
}

/// `Rd` takes the current status register.
pub open spec fn mrs_cpsr_spec(w: u32, s: CpuState) -> Result<CpuState, Failure> {
    if !mrs_is_well_formed(w) {
        Err(Failure { error: ExecError::MalformedInstruction, state: s })
    } else {
        Ok(s.set_reg(Instruction(w).rd_spec(), s.cpsr()))
    }
}

/// `Rd` takes the saved status register of the current mode; the program
/// counter is no destination.
pub open spec fn mrs_spsr_spec(w: u32, s: CpuState) -> Result<CpuState, Failure> {
    if Instruction(w).rd_spec() == 15 || !mrs_is_well_formed(w) {
        Err(Failure { error: ExecError::MalformedInstruction, state: s })
    } else {
        Ok(s.set_reg(Instruction(w).rd_spec(), s.spsr()))
    }
}

/// The bytes of the current status register that the field mask selects
/// take the bytes of `Rm`; bits 15 to 12 of the encoding must be ones
/// and bits 11 to 8 zeroes.
pub open spec fn msr_cpsr_spec(w: u32, s: CpuState) -> Result<CpuState, Failure> {
    let i = Instruction(w);
    if w / 0x100 % 0x100 != 0xf0 {
        Err(Failure { error: ExecError::MalformedInstruction, state: s })
    } else {
        Ok(s.msr_cpsr(s.reg(i.rm_spec()), i.msr_field_mask_spec()))
    }
}

/// The CPU jumps to `Rm` with its bit 0 cleared, and bit 0 of `Rm`
/// becomes the Thumb bit; bits 19 to 8 of the encoding must be ones.
pub open spec fn bx_spec(w: u32, s: CpuState) -> Result<CpuState, Failure> {
    let target = s.reg(Instruction(w).rm_spec());
    if w / 0x100 % 0x1000 != 0xfff {
        Err(Failure { error: ExecError::MalformedInstruction, state: s })
    } else {
        Ok(s.set_pc_thumb((target - target % 2) as u32, target % 2 == 1))
    }
}

/// The address that a branch jumps to: the address of the branch plus 8
/// plus the offset.
pub open spec fn branch_target(w: u32, s: CpuState) -> u32 {
    s.reg(15).wrapping_add(Instruction(w).branch_imm_offset_spec())
}

/// The CPU jumps by the offset.
pub open spec fn b_spec(w: u32, s: CpuState) -> CpuState {
    s.set_pc(branch_target(w, s))
}

/// The link register takes the address of the next instruction and the
/// CPU jumps by the offset.
pub open spec fn bl_spec(w: u32, s: CpuState) -> CpuState {
    s.set_reg(14, s.next_pc).set_pc(branch_target(w, s))
}

/// Move the current status register to `Rd`.
pub fn mrs_cpsr(instruction: Instruction, cpu: &mut Cpu) -> (r: Result<(), ExecError>)
    requires
        old(cpu)@.wf(),
    ensures
        final(cpu)@.wf(),
        match mrs_cpsr_spec(instruction.0, old(cpu)@) {
            Ok(state) => r.is_ok() && final(cpu)@ == state,
            Err(f) => r == Err::<(), ExecError>(f.error) && final(cpu)@ == f.state,
        },
{
    let rd = instruction.rd();
    if !(instruction.rn().0 == 15 && instruction.0 % 0x1000 == 0) {
        return Err(ExecError::MalformedInstruction);
    }
    let cpsr = cpu.cpsr();
    cpu.set_reg(rd, cpsr);
    Ok(())
}

/// Move `Rm` to the bytes of the current status register that the field
/// mask selects.
pub fn msr_cpsr(instruction: Instruction, cpu: &mut Cpu) -> (r: Result<(), ExecError>)
    requires
        old(cpu)@.wf(),
    ensures
        final(cpu)@.wf(),
        match msr_cpsr_spec(instruction.0, old(cpu)@) {
            Ok(state) => r.is_ok() && final(cpu)@ == state,
            Err(f) => r == Err::<(), ExecError>(f.error) && final(cpu)@ == f.state,
        },
{
    let rm = instruction.rm();
    let mask = instruction.msr_field_mask();
    if instruction.0 / 0x100 % 0x100 != 0xf0 {
        return Err(ExecError::MalformedInstruction);
    }
    let val = cpu.reg(rm);
    cpu.msr_cpsr(val, mask);
    Ok(())
}

/// Branch to `Rm` and take the instruction set from its bit 0.
pub fn bx(instruction: Instruction, cpu: &mut Cpu) -> (r: Result<(), ExecError>)
    requires
        old(cpu)@.wf(),
    ensures
        final(cpu)@.wf(),
        match bx_spec(instruction.0, old(cpu)@) {
            Ok(state) => r.is_ok() && final(cpu)@ == state,
            Err(f) => r == Err::<(), ExecError>(f.error) && final(cpu)@ == f.state,
        },
{
    let rm = instruction.rm();
    if instruction.0 / 0x100 % 0x1000 != 0xfff {
        // "should be one"
        return Err(ExecError::MalformedInstruction);
    }
    let target = cpu.reg(rm);
    // If bit 0 of the target is set we switch to Thumb mode
    let thumb = target % 2 == 1;
    let address = target - target % 2;
    cpu.set_pc_thumb(address, thumb);
    Ok(())
}

/// Move the saved status register of the current mode to `Rd`.
pub fn mrs_spsr(instruction: Instruction, cpu: &mut Cpu) -> (r: Result<(), ExecError>)
    requires
        old(cpu)@.wf(),
    ensures
        final(cpu)@.wf(),
        match mrs_spsr_spec(instruction.0, old(cpu)@) {
            Ok(state) => r.is_ok() && final(cpu)@ == state,
            Err(f) => r == Err::<(), ExecError>(f.error) && final(cpu)@ == f.state,
        },
{
    let rd = instruction.rd();
    if rd.is_pc() || !(instruction.rn().0 == 15 && instruction.0 % 0x1000 == 0) {
        return Err(ExecError::MalformedInstruction);
    }
    let val = cpu.spsr();
    cpu.set_reg(rd, val);
    Ok(())
}

/// Branch by the offset.
pub fn b(instruction: Instruction, cpu: &mut Cpu)
    requires
        old(cpu)@.wf(),
    ensures
        final(cpu)@.wf(),
        final(cpu)@ == b_spec(instruction.0, old(cpu)@),
{
    let offset = instruction.branch_imm_offset();
    let pc = cpu.reg(RegisterIndex(15)).wrapping_add(offset);
    cpu.set_pc(pc);
}

/// Branch by the offset and keep the return address in the link register.
pub fn bl(instruction: Instruction, cpu: &mut Cpu)
    requires
        old(cpu)@.wf(),
    ensures
        final(cpu)@.wf(),
        final(cpu)@ == bl_spec(instruction.0, old(cpu)@),
{
    let offset = instruction.branch_imm_offset();
    let pc = cpu.reg(RegisterIndex(15)).wrapping_add(offset);
    let ra = cpu.next_pc();
    cpu.set_reg(RegisterIndex(14), ra);
    cpu.set_pc(pc);
}

/// Software interrupt.
pub fn swi(cpu: &mut Cpu)
    requires
        old(cpu)@.wf(),
    ensures
        final(cpu)@.wf(),
        final(cpu)@ == old(cpu)@.swi(),
{
    cpu.swi();
}

} // verus!
