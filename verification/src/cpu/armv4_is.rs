//! ARMv4 instruction set
use vstd::prelude::*;
use crate::cpu::block::{ldm, ldm_spec, ldms, ldms_spec, stm, stm_spec};
use crate::cpu::control::{
    b, b_spec, bl, bl_spec, bx, bx_spec, mrs_cpsr, mrs_cpsr_spec, mrs_spsr, mrs_spsr_spec,
    msr_cpsr, msr_cpsr_spec, swi,
};
use crate::cpu::data::{mla, multiply_spec};
use crate::cpu::table::{decode, slot, Op};
use crate::cpu::transfer::{ldr, ldrb, ldrh, ldrsb, ldrsh, str, strb, strh, Single};
use crate::cpu::{Cpu, CpuState, ExecError, Failure, RegisterIndex};
use crate::debugger::Debugger;

verus! {

/// Execute the instruction word `instruction`, which the CPU fetched at
/// its program counter. An error tells why the instruction was not
/// carried out; the CPU then stays at the instruction.
pub fn execute<D>(cpu: &mut Cpu, debugger: &mut D, instruction: u32) -> (r: Result<(), ExecError>)
    where D: Debugger
    requires
        old(cpu)@.wf(),
    ensures
        final(cpu)@.wf(),
        match execute_spec(instruction, old(cpu)@) {
            Ok(state) => r.is_ok() && final(cpu)@ == state,
            Err(f) => r == Err::<(), ExecError>(f.error) && final(cpu)@ == f.state,
        },
{
    let instruction = Instruction(instruction);
    instruction.execute(debugger, cpu)
}

/// What the kernel that `op` stands for does to the state `s` when it
/// executes the instruction word `w`; a slot without a kernel is refused
/// as unimplemented.
pub open spec fn op_spec(op: Op, w: u32, s: CpuState) -> Result<CpuState, Failure> {
    match op {
        Op::Unimplemented => Err(
            Failure {
                error: ExecError::Unimplemented { word: w, index: Instruction(w).opcode_spec() },
                state: s,
            },
        ),
        Op::Data(op, mode) => op.execute_spec(w, mode, s),
        Op::Mul(flags) => multiply_spec(w, false, flags, s),
        Op::Mla(flags) => multiply_spec(w, true, flags, s),
        Op::Ldr(mode, up) => Single::Ldr.execute2_spec(w, mode, up, s),
        Op::Str(mode, up) => Single::Str.execute2_spec(w, mode, up, s),
        Op::Ldrb(mode, up) => Single::Ldrb.execute2_spec(w, mode, up, s),
        Op::Strb(mode, up) => Single::Strb.execute2_spec(w, mode, up, s),
        Op::Ldrh(mode, up) => Single::Ldrh.execute3_spec(w, mode, up, s),
        Op::Ldrsh(mode, up) => Single::Ldrsh.execute3_spec(w, mode, up, s),
        Op::Strh(mode, up) => Single::Strh.execute3_spec(w, mode, up, s),
        Op::Ldrsb(mode, up) => Single::Ldrsb.execute3_spec(w, mode, up, s),
        Op::Ldm { up, pre, wb } => ldm_spec(w, up, pre, wb, s),
        Op::Ldms { up, pre, wb } => ldms_spec(w, up, pre, wb, s),
        Op::Stm { up, pre, wb } => stm_spec(w, up, pre, wb, s),
        Op::MrsCpsr => mrs_cpsr_spec(w, s),
        Op::MsrCpsr => msr_cpsr_spec(w, s),
        Op::Bx => bx_spec(w, s),
        Op::MrsSpsr => mrs_spsr_spec(w, s),
        Op::B => Ok(b_spec(w, s)),
        Op::Bl => Ok(bl_spec(w, s)),
        Op::Swi => Ok(s.swi()),
    }
}

/// What the kernel in the slot of `w` does to the state `s`.
pub open spec fn dispatch_spec(w: u32, s: CpuState) -> Result<CpuState, Failure> {
    op_spec(slot(Instruction(w).opcode_spec()), w, s)
}

/// What the execution of the instruction word `w` does to the state `s`.
/// Condition code 15 is refused as unpredictable. Where the condition
/// does not hold the CPU moves on to the next instruction and nothing
/// else changes. Else the kernel in the slot of `w` runs, and the CPU
/// moves on to the instruction that the kernel jumped to, or to the next
/// one if it did not jump. An instruction that a kernel refuses leaves the
/// CPU at that instruction, with what the kernel did before it gave up.
pub open spec fn execute_spec(w: u32, s: CpuState) -> Result<CpuState, Failure> {
    match condition_holds(Instruction(w).condition_code_spec(), s.n, s.z, s.c, s.v) {
        None => Err(Failure { error: ExecError::Unpredictable, state: s }),
        Some(false) => Ok(s.begin().retire()),
        Some(true) => match dispatch_spec(w, s.begin()) {
            Ok(s1) => Ok(s1.retire()),
            Err(e) => Err(e),
        },
    }
}

/// Wrapper around a 32bit instruction word
#[derive(Copy, Clone, PartialEq, Eq, Debug, Structural)]
pub struct Instruction(pub u32);

/// The fields of an instruction word, as quotients and remainders, are
/// the fields that shifts and masks cut out of it.
pub proof fn lemma_fields(w: u32)
    by (bit_vector)
    ensures
        w >> 28 == w / 0x1000_0000,
        (w >> 20) & 0xff == w / 0x10_0000 % 0x100,
        (w >> 16) & 0xf == w / 0x1_0000 % 16,
        (w >> 12) & 0xf == w / 0x1000 % 16,
        (w >> 8) & 0xf == w / 0x100 % 16,
        (w >> 7) & 0x1f == w / 0x80 % 32,
        (w >> 4) & 0xf == w / 16 % 16,
        w & 0xf == w % 16,
        w & 0xff == w % 0x100,
        w & 0xfff == w % 0x1000,
        w & 0xffff == w % 0x1_0000,
        w & 0xff_ffff == w % 0x100_0000,
        (((w >> 20) & 0xff) << 4) | ((w >> 4) & 0xf) == (w / 0x10_0000 % 0x100) * 16 + w / 16
            % 16,
{
}

impl Instruction {
    /// The decode index: bits 27 to 20 above bits 7 to 4, one of 4096
    /// values.
    pub open spec fn opcode_spec(self) -> u32 {
        ((self.0 / 0x10_0000 % 0x100) * 16 + self.0 / 16 % 16) as u32
    }

    /// Bits 31 to 28.
    pub open spec fn condition_code_spec(self) -> u32 {
        self.0 / 0x1000_0000
    }

    /// Bits 19 to 16.
    pub open spec fn rn_spec(self) -> u32 {
        self.0 / 0x1_0000 % 16
    }

    /// Bits 15 to 12.
    pub open spec fn rd_spec(self) -> u32 {
        self.0 / 0x1000 % 16
    }

    /// Bits 11 to 8.
    pub open spec fn rs_spec(self) -> u32 {
        self.0 / 0x100 % 16
    }

    /// Bits 3 to 0.
    pub open spec fn rm_spec(self) -> u32 {
        self.0 % 16
    }

    /// Bits 11 to 7: the shift amount of an immediate shift.
    pub open spec fn shift_imm_spec(self) -> u32 {
        self.0 / 0x80 % 32
    }

    /// The branch offset in bytes: bits 23 to 0 read as a signed number
    /// and multiplied by 4, as a 32 bit two's complement word.
    pub open spec fn branch_imm_offset_spec(self) -> u32 {
        let imm = self.0 % 0x100_0000;
        if imm >= 0x80_0000 {
            (imm * 4 + 0xfc00_0000) as u32
        } else {
            (imm * 4) as u32
        }
    }

    /// Bits 19 to 16, as the field mask of a status register move.
    pub open spec fn msr_field_mask_spec(self) -> u32 {
        self.0 / 0x1_0000 % 16
    }

    /// Bits 15 to 0: the register list of a block transfer.
    pub open spec fn register_list_spec(self) -> u32 {
        self.0 % 0x1_0000
    }

    /// We decode the instruction based on bits [27:20] and
    /// [7:4]. That gives us 4096 possibilities.
    #[verifier::when_used_as_spec(opcode_spec)]
    pub fn opcode(self) -> (r: u32)
        ensures
            r == self.opcode_spec(),
            r == (((self.0 >> 20) & 0xff) << 4) | ((self.0 >> 4) & 0xf),
            r < 4096,
    {
        proof {
            lemma_fields(self.0);
        }
        let opcode_hi = (self.0 >> 20) & 0xff;
        let opcode_lo = (self.0 >> 4) & 0xf;
        opcode_hi * 16 + opcode_lo
    }

    /// The condition field, bits 31 to 28.
    #[verifier::when_used_as_spec(condition_code_spec)]
    pub fn condition_code(self) -> (r: u32)
        ensures
            r == self.condition_code_spec(),
            r < 16,
    {
        proof {
            lemma_fields(self.0);
        }
        self.0 >> 28
    }

    /// The first operand register, bits 19 to 16.
    pub fn rn(self) -> (r: RegisterIndex)
        ensures
            r.0 == self.rn_spec(),
            r.wf(),
    {
        proof {
            lemma_fields(self.0);
        }
        RegisterIndex((self.0 >> 16) & 0xf)
    }

    /// The destination register, bits 15 to 12.
    pub fn rd(self) -> (r: RegisterIndex)
        ensures
            r.0 == self.rd_spec(),
            r.wf(),
    {
        proof {
            lemma_fields(self.0);
        }
        RegisterIndex((self.0 >> 12) & 0xf)
    }

    /// The shift amount register, bits 11 to 8.
    pub fn rs(self) -> (r: RegisterIndex)
        ensures
            r.0 == self.rs_spec(),
            r.wf(),
    {
        proof {
            lemma_fields(self.0);
        }
        RegisterIndex((self.0 >> 8) & 0xf)
    }

    /// The second operand register, bits 3 to 0.
    pub fn rm(self) -> (r: RegisterIndex)
        ensures
            r.0 == self.rm_spec(),
            r.wf(),
    {
        proof {
            lemma_fields(self.0);
        }
        RegisterIndex(self.0 & 0xf)
    }

    /// The shift amount of an immediate shift, bits 11 to 7.
    #[verifier::when_used_as_spec(shift_imm_spec)]
    pub fn shift_imm(self) -> (r: u32)
        ensures
            r == self.shift_imm_spec(),
            r < 32,
    {
        proof {
            lemma_fields(self.0);
        }
        (self.0 >> 7) & 0x1f
    }

    /// The offset of a branch, in bytes: the 24 bit immediate is
    /// sign-extended and multiplied by 4.
    #[verifier::when_used_as_spec(branch_imm_offset_spec)]
    pub fn branch_imm_offset(self) -> (r: u32)
        ensures
            r == self.branch_imm_offset_spec(),
    {
        proof {
            lemma_fields(self.0);
        }
        let imm = self.0 & 0xff_ffff;
        if imm >= 0x80_0000 {
            imm * 4 + 0xfc00_0000
        } else {
            imm * 4
        }
    }

    /// The field mask of a move to a status register, bits 19 to 16.
    #[verifier::when_used_as_spec(msr_field_mask_spec)]
    pub fn msr_field_mask(self) -> (r: u32)
        ensures
            r == self.msr_field_mask_spec(),
            r < 16,
    {
        proof {
            lemma_fields(self.0);
        }
        (self.0 >> 16) & 0xf
    }

    /// Register list for load/store multiple.
    #[verifier::when_used_as_spec(register_list_spec)]
    pub fn register_list(self) -> (r: u32)
        ensures
            r == self.register_list_spec(),
            r < 0x1_0000,
    {
        proof {
            lemma_fields(self.0);
        }
        self.0 & 0xffff
    }

    /// Execute this instruction
    pub fn execute<D>(self, debugger: &mut D, cpu: &mut Cpu) -> (r: Result<(), ExecError>)
        where D: Debugger
        requires
            old(cpu)@.wf(),
        ensures
            final(cpu)@.wf(),
            match execute_spec(self.0, old(cpu)@) {
                Ok(state) => r.is_ok() && final(cpu)@ == state,
                Err(f) => r == Err::<(), ExecError>(f.error) && final(cpu)@ == f.state,
            },
    {
        let n = cpu.n();
        let z = cpu.z();
        let c = cpu.c();
        let v = cpu.v();
        // All ARM instructions have a 4bit "condition" code which can
        // be used to conditionally execute an instruction without
        // having to use a branch
        let cond_true = match evaluate_condition(self.condition_code(), n, z, c, v) {
            Some(cond_true) => cond_true,
            None => {
                return Err(ExecError::Unpredictable);
            },
        };
        cpu.begin();
        if cond_true {
            self.decode_and_execute(debugger, cpu)?;
        }
        cpu.retire();
        Ok(())
    }

    /// Run the kernel that the dispatch table holds for this instruction.
    pub fn decode_and_execute<D>(self, debugger: &mut D, cpu: &mut Cpu) -> (r: Result<
        (),
        ExecError,
    >)
        where D: Debugger
        requires
            old(cpu)@.wf(),
        ensures
            final(cpu)@.wf(),
            match dispatch_spec(self.0, old(cpu)@) {
                Ok(state) => r.is_ok() && final(cpu)@ == state,
                Err(f) => r == Err::<(), ExecError>(f.error) && final(cpu)@ == f.state,
            },
    {
        let op = decode(self.opcode());
        self.run(op, debugger, cpu)
    }

    /// Run the kernel that `op` stands for on this instruction.
    pub fn run<D>(self, op: Op, debugger: &mut D, cpu: &mut Cpu) -> (r: Result<(), ExecError>)
        where D: Debugger
        requires
            old(cpu)@.wf(),
        ensures
            final(cpu)@.wf(),
            match op_spec(op, self.0, old(cpu)@) {
                Ok(state) => r.is_ok() && final(cpu)@ == state,
                Err(f) => r == Err::<(), ExecError>(f.error) && final(cpu)@ == f.state,
            },
    {
        match op {
            Op::Unimplemented => Err(
                ExecError::Unimplemented { word: self.0, index: self.opcode() },
            ),
            Op::Data(op, mode) => op.execute(self, mode, cpu),
            Op::Mul(flags) => crate::cpu::data::mul(self, flags, cpu),
            Op::Mla(flags) => mla(self, flags, cpu),
            Op::Ldr(_, _) | Op::Str(_, _) | Op::Ldrb(_, _) | Op::Strb(_, _) | Op::Ldrh(_, _)
            | Op::Ldrsh(_, _) | Op::Strh(_, _) | Op::Ldrsb(_, _) => self.run_transfer(
                op,
                debugger,
                cpu,
            ),
            Op::Ldm { up, pre, wb } => ldm(self, up, pre, wb, debugger, cpu),
            Op::Ldms { up, pre, wb } => ldms(self, up, pre, wb, debugger, cpu),
            Op::Stm { up, pre, wb } => stm(self, up, pre, wb, debugger, cpu),
            _ => self.run_control(op, cpu),
        }
    }

    /// Run the kernel of a transfer of a single register.
    fn run_transfer<D>(self, op: Op, debugger: &mut D, cpu: &mut Cpu) -> (r: Result<(), ExecError>)
        where D: Debugger
        requires
            old(cpu)@.wf(),
            op is Ldr || op is Str || op is Ldrb || op is Strb || op is Ldrh || op is Ldrsh
                || op is Strh || op is Ldrsb,
        ensures
            final(cpu)@.wf(),
            match op_spec(op, self.0, old(cpu)@) {
                Ok(state) => r.is_ok() && final(cpu)@ == state,
                Err(f) => r == Err::<(), ExecError>(f.error) && final(cpu)@ == f.state,
            },
    {
        match op {
            Op::Ldr(mode, up) => ldr(self, mode, up, debugger, cpu),
            Op::Str(mode, up) => str(self, mode, up, debugger, cpu),
            Op::Ldrb(mode, up) => ldrb(self, mode, up, debugger, cpu),
            Op::Strb(mode, up) => strb(self, mode, up, debugger, cpu),
            Op::Ldrh(mode, up) => ldrh(self, mode, up, debugger, cpu),
            Op::Ldrsh(mode, up) => ldrsh(self, mode, up, debugger, cpu),
            Op::Strh(mode, up) => strh(self, mode, up, debugger, cpu),
            Op::Ldrsb(mode, up) => ldrsb(self, mode, up, debugger, cpu),
            _ => Ok(()),
        }
    }

    /// Run the kernel of a status register move, a branch or a software
    /// interrupt.
    fn run_control(self, op: Op, cpu: &mut Cpu) -> (r: Result<(), ExecError>)
        requires
            old(cpu)@.wf(),
            op is MrsCpsr || op is MsrCpsr || op is Bx || op is MrsSpsr || op is B || op is Bl
                || op is Swi,
        ensures
            final(cpu)@.wf(),
            match op_spec(op, self.0, old(cpu)@) {
                Ok(state) => r.is_ok() && final(cpu)@ == state,
                Err(f) => r == Err::<(), ExecError>(f.error) && final(cpu)@ == f.state,
            },
    {
        match op {
            Op::MrsCpsr => mrs_cpsr(self, cpu),
            Op::MsrCpsr => msr_cpsr(self, cpu),
            Op::Bx => bx(self, cpu),
            Op::MrsSpsr => mrs_spsr(self, cpu),
            Op::B => {
                b(self, cpu);
                Ok(())
            },
            Op::Bl => {
                bl(self, cpu);
                Ok(())
            },
            _ => {
                swi(cpu);
                Ok(())
            },
        }
    }
}

/// Whether the condition with the four bit code `code` holds under the
/// flags `n`, `z`, `c`, `v`; nothing for code 15, which stands for no
/// condition.
pub open spec fn condition_holds(code: u32, n: bool, z: bool, c: bool, v: bool) -> Option<bool> {
    if code == 0 {
        Some(z)
    } else if code == 1 {
        Some(!z)
    } else if code == 2 {
        Some(c)
    } else if code == 3 {
        Some(!c)
    } else if code == 4 {
        Some(n)
    } else if code == 5 {
        Some(!n)
    } else if code == 6 {
        Some(v)
    } else if code == 7 {
        Some(!v)
    } else if code == 8 {
        Some(c && !z)
    } else if code == 9 {
        Some(!c || z)
    } else if code == 10 {
        Some(n == v)
    } else if code == 11 {
        Some(n != v)
    } else if code == 12 {
        Some(!z && n == v)
    } else if code == 13 {
        Some(z || n != v)
    } else if code == 14 {
        Some(true)
    } else {
        None
    }
}

/// Evaluate the condition with the four bit code `code` under the given
/// flags.
pub fn evaluate_condition(code: u32, n: bool, z: bool, c: bool, v: bool) -> (r: Option<bool>)
    ensures
        r == condition_holds(code, n, z, c, v),
{
    match code {
        // Equal (EQ)
        0b0000 => Some(z),
        // Not equal (NE)
        0b0001 => Some(!z),
        // Unsigned higher, or same (CS)
        0b0010 => Some(c),
        // Unsigned lower (CC)
        0b0011 => Some(!c),
        // Negative (MI)
        0b0100 => Some(n),
        // Positive, or 0 (PL)
        0b0101 => Some(!n),
        // Overflow (VS)
        0b0110 => Some(v),
        // No overflow (VC)
        0b0111 => Some(!v),
        // Unsigned higher (HI)
        0b1000 => Some(c && !z),
        // Unsigned lower, or same (LS)
        0b1001 => Some(!c || z),
        // Greater, or equal (GE)
        0b1010 => Some(n == v),
        // Less than (LT)
        0b1011 => Some(n != v),
        // Greater than (GT)
        0b1100 => Some(!z && (n == v)),
        // Less than, or equal (LE)
        0b1101 => Some(z || (n != v)),
        // Always (AL)
        0b1110 => Some(true),
        // This condition code is "unpredictable".
        _ => None,
    }
}

} // verus!
