//! Data-processing and multiply instructions.
use vstd::prelude::*;
use crate::bits::{is_negative, sign32};
use crate::cpu::armv4_is::Instruction;
use crate::cpu::operand::Mode1;
use crate::cpu::{Cpu, CpuState, ExecError, Failure};

verus! {

/// The data-processing operations; a trailing `s` marks the variant that
/// sets the flags. The four tests set the flags only.
#[derive(Copy, Clone, PartialEq, Eq, Debug, Structural)]
pub enum DataOp {
    And,
    Ands,
    Eor,
    Eors,
    Sub,
    Subs,
    Rsb,
    Rsbs,
    Add,
    Adds,
    Adc,
    Tst,
    Teq,
    Cmp,
    Cmn,
    Orr,
    Orrs,
    Mov,
    Movs,
    Bic,
    Bics,
    Mvn,
}

/// How an operation that sets the flags comes by the carry and overflow
/// flags.
pub enum FlagRule {
    /// Carry from the shifter, overflow unchanged.
    Logical,
    /// Flags of `x + y`.
    Sum,
    /// Flags of `x - y`.
    Difference,
    /// Overflow of `x + y`, carry set when `x >= y`.
    NegatedCompare,
}

impl DataOp {
    /// The opcode field of the operation, bits 24 to 21 of its encoding.
    pub open spec fn opcode_spec(self) -> u32 {
        match self {
            DataOp::And | DataOp::Ands => 0,
            DataOp::Eor | DataOp::Eors => 1,
            DataOp::Sub | DataOp::Subs => 2,
            DataOp::Rsb | DataOp::Rsbs => 3,
            DataOp::Add | DataOp::Adds => 4,
            DataOp::Adc => 5,
            DataOp::Tst => 8,
            DataOp::Teq => 9,
            DataOp::Cmp => 10,
            DataOp::Cmn => 11,
            DataOp::Orr | DataOp::Orrs => 12,
            DataOp::Mov | DataOp::Movs => 13,
            DataOp::Bic | DataOp::Bics => 14,
            DataOp::Mvn => 15,
        }
    }

    /// True for the operations that set the flags.
    pub open spec fn sets_flags_spec(self) -> bool {
        match self {
            DataOp::Ands | DataOp::Eors | DataOp::Subs | DataOp::Rsbs | DataOp::Adds | DataOp::Tst
            | DataOp::Teq | DataOp::Cmp | DataOp::Cmn | DataOp::Orrs | DataOp::Movs
            | DataOp::Bics => true,
            _ => false,
        }
    }

    /// True for the four tests, which write no register.
    pub open spec fn is_test_spec(self) -> bool {
        match self {
            DataOp::Tst | DataOp::Teq | DataOp::Cmp | DataOp::Cmn => true,
            _ => false,
        }
    }

    /// True for the operations that take the shifter's carry: the logical
    /// operations that set the flags.
    pub open spec fn takes_shifter_carry_spec(self) -> bool {
        match self {
            DataOp::Ands | DataOp::Eors | DataOp::Tst | DataOp::Teq | DataOp::Orrs | DataOp::Movs
            | DataOp::Bics => true,
            _ => false,
        }
    }

    /// True for the moves, whose first operand field must be zero.
    pub open spec fn wants_zero_rn_spec(self) -> bool {
        match self {
            DataOp::Mov | DataOp::Movs | DataOp::Mvn => true,
            _ => false,
        }
    }

    /// The result for first operand `a`, second operand `b` and carry flag
    /// `c`.
    pub open spec fn result_spec(self, a: u32, b: u32, c: bool) -> u32 {
        match self {
            DataOp::And | DataOp::Ands | DataOp::Tst => a & b,
            DataOp::Eor | DataOp::Eors | DataOp::Teq => a ^ b,
            DataOp::Sub | DataOp::Subs | DataOp::Cmp => a.wrapping_sub(b),
            DataOp::Rsb | DataOp::Rsbs => b.wrapping_sub(a),
            DataOp::Add | DataOp::Adds | DataOp::Cmn => a.wrapping_add(b),
            DataOp::Adc => a.wrapping_add(b).wrapping_add(if c { 1u32 } else { 0u32 }),
            DataOp::Orr | DataOp::Orrs => a | b,
            DataOp::Mov | DataOp::Movs => b,
            DataOp::Bic | DataOp::Bics => a & !b,
            DataOp::Mvn => !b,
        }
    }

    /// The rule for the carry and overflow flags of an operation that
    /// sets the flags.
    pub open spec fn flag_rule(self) -> FlagRule {
        match self {
            DataOp::Subs | DataOp::Cmp | DataOp::Rsbs => FlagRule::Difference,
            DataOp::Adds => FlagRule::Sum,
            DataOp::Cmn => FlagRule::NegatedCompare,
            _ => FlagRule::Logical,
        }
    }

    /// The left operand of the sum or difference that gives the flags:
    /// the second operand for the reverse subtraction, else the first.
    pub open spec fn left(self, a: u32, b: u32) -> u32 {
        match self {
            DataOp::Rsbs => b,
            _ => a,
        }
    }

    /// The right operand of the sum or difference that gives the flags.
    pub open spec fn right(self, a: u32, b: u32) -> u32 {
        match self {
            DataOp::Rsbs => a,
            _ => b,
        }
    }

    /// The carry flag after an operation that sets the flags.
    pub open spec fn carry_spec(self, a: u32, b: u32, shifter: bool) -> bool {
        let x = self.left(a, b);
        let y = self.right(a, b);
        match self.flag_rule() {
            FlagRule::Logical => shifter,
            FlagRule::Sum => x + y > u32::MAX,
            FlagRule::Difference => x >= y,
            FlagRule::NegatedCompare => x >= y,
        }
    }

    /// The overflow flag after an operation that sets the flags, `v`
    /// being the flag before it.
    pub open spec fn overflow_spec(self, a: u32, b: u32, v: bool) -> bool {
        let x = self.left(a, b);
        let y = self.right(a, b);
        match self.flag_rule() {
            FlagRule::Logical => v,
            FlagRule::Sum | FlagRule::NegatedCompare => sign32(x) == sign32(y) && sign32(x)
                != sign32(x.wrapping_add(y)),
            FlagRule::Difference => sign32(x) != sign32(y) && sign32(x) != sign32(
                x.wrapping_sub(y),
            ),
        }
    }

    /// What the instruction `w`, taken as this operation with its second
    /// operand in the form `mode`, does to the state `s`.
    ///
    /// It is refused as malformed where `mode` does not match the
    /// encoding, where a test names a destination other than 0 and where
    /// a move names a first operand other than 0; as
    /// unimplemented where it needs a shifter carry that is not worked
    /// out; and as unpredictable where it sets the flags and writes the
    /// program counter. Else the result goes to the destination unless
    /// the operation is a test, and the flags follow if it sets them.
    #[verifier::opaque]
    pub open spec fn execute_spec(self, w: u32, mode: Mode1, s: CpuState) -> Result<
        CpuState,
        Failure,
    > {
        let i = Instruction(w);
        let rd = i.rd_spec();
        let a = s.reg(i.rn_spec());
        let b = mode.value_spec(w, s);
        let val = self.result_spec(a, b, s.c);
        if !mode.is_valid_spec(w, self.opcode_spec(), self.sets_flags_spec()) {
            Err(Failure { error: ExecError::MalformedInstruction, state: s })
        } else if self.takes_shifter_carry_spec() && mode.carry_spec(w, s).is_none() {
            Err(
                Failure {
                    error: ExecError::Unimplemented { word: w, index: i.opcode_spec() },
                    state: s,
                },
            )
        } else if self.is_test_spec() && rd != 0 {
            Err(Failure { error: ExecError::MalformedInstruction, state: s })
        } else if self.wants_zero_rn_spec() && i.rn_spec() != 0 {
            Err(Failure { error: ExecError::MalformedInstruction, state: s })
        } else if self.sets_flags_spec() && !self.is_test_spec() && rd == 15 {
            Err(Failure { error: ExecError::UnpredictableWithPCTarget, state: s })
        } else {
            let written = if self.is_test_spec() {
                s
            } else {
                s.set_reg(rd, val)
            };
            if self.sets_flags_spec() {
                let shifter = if self.takes_shifter_carry_spec() {
                    mode.carry_spec(w, s).unwrap()
                } else {
                    s.c
                };
                Ok(
                    CpuState {
                        n: sign32(val),
                        z: val == 0,
                        c: self.carry_spec(a, b, shifter),
                        v: self.overflow_spec(a, b, s.v),
                        ..written
                    },
                )
            } else {
                Ok(written)
            }
        }
    }

    /// The opcode field of the operation.
    #[verifier::when_used_as_spec(opcode_spec)]
    pub fn opcode(self) -> (r: u32)
        ensures
            r == self.opcode_spec(),
    {
        match self {
            DataOp::And | DataOp::Ands => 0,
            DataOp::Eor | DataOp::Eors => 1,
            DataOp::Sub | DataOp::Subs => 2,
            DataOp::Rsb | DataOp::Rsbs => 3,
            DataOp::Add | DataOp::Adds => 4,
            DataOp::Adc => 5,
            DataOp::Tst => 8,
            DataOp::Teq => 9,
            DataOp::Cmp => 10,
            DataOp::Cmn => 11,
            DataOp::Orr | DataOp::Orrs => 12,
            DataOp::Mov | DataOp::Movs => 13,
            DataOp::Bic | DataOp::Bics => 14,
            DataOp::Mvn => 15,
        }
    }

    /// True for the operations that set the flags.
    #[verifier::when_used_as_spec(sets_flags_spec)]
    pub fn sets_flags(self) -> (r: bool)
        ensures
            r == self.sets_flags_spec(),
    {
        match self {
            DataOp::Ands | DataOp::Eors | DataOp::Subs | DataOp::Rsbs | DataOp::Adds | DataOp::Tst
            | DataOp::Teq | DataOp::Cmp | DataOp::Cmn | DataOp::Orrs | DataOp::Movs
            | DataOp::Bics => true,
            _ => false,
        }
    }

    /// True for the four tests.
    #[verifier::when_used_as_spec(is_test_spec)]
    pub fn is_test(self) -> (r: bool)
        ensures
            r == self.is_test_spec(),
    {
        match self {
            DataOp::Tst | DataOp::Teq | DataOp::Cmp | DataOp::Cmn => true,
            _ => false,
        }
    }

    /// True for the operations that take the carry of the shifter.
    #[verifier::when_used_as_spec(takes_shifter_carry_spec)]
    pub fn takes_shifter_carry(self) -> (r: bool)
        ensures
            r == self.takes_shifter_carry_spec(),
    {
        match self {
            DataOp::Ands | DataOp::Eors | DataOp::Tst | DataOp::Teq | DataOp::Orrs | DataOp::Movs
            | DataOp::Bics => true,
            _ => false,
        }
    }

    /// Compute the result for first operand `a`, second operand `b` and
    /// carry flag `c`.
    pub fn result(self, a: u32, b: u32, c: bool) -> (r: u32)
        ensures
            r == self.result_spec(a, b, c),
    {
        match self {
            DataOp::And | DataOp::Ands | DataOp::Tst => a & b,
            DataOp::Eor | DataOp::Eors | DataOp::Teq => a ^ b,
            DataOp::Sub | DataOp::Subs | DataOp::Cmp => a.wrapping_sub(b),
            DataOp::Rsb | DataOp::Rsbs => b.wrapping_sub(a),
            DataOp::Add | DataOp::Adds | DataOp::Cmn => a.wrapping_add(b),
            DataOp::Adc => {
                let carry: u32 = if c { 1 } else { 0 };
                a.wrapping_add(b).wrapping_add(carry)
            },
            DataOp::Orr | DataOp::Orrs => a | b,
            DataOp::Mov | DataOp::Movs => b,
            DataOp::Bic | DataOp::Bics => a & !b,
            DataOp::Mvn => !b,
        }
    }

    /// Compute the carry and overflow flags of an operation that sets the
    /// flags, from its operands, the shifter's carry and the overflow
    /// flag before it.
    pub fn carry_overflow(self, a: u32, b: u32, shifter: bool, v: bool) -> (r: (bool, bool))
        ensures
            r.0 == self.carry_spec(a, b, shifter),
            r.1 == self.overflow_spec(a, b, v),
    {
        match self {
            DataOp::Subs | DataOp::Cmp => {
                let val = a.wrapping_sub(b);
                let a_neg = is_negative(a);
                (a >= b, (a_neg != is_negative(b)) && (a_neg != is_negative(val)))
            },
            DataOp::Rsbs => {
                let val = b.wrapping_sub(a);
                let b_neg = is_negative(b);
                (b >= a, (b_neg != is_negative(a)) && (b_neg != is_negative(val)))
            },
            DataOp::Adds => {
                let val = a.wrapping_add(b);
                let a_neg = is_negative(a);
                (a > u32::MAX - b, (a_neg == is_negative(b)) && (a_neg != is_negative(val)))
            },
            DataOp::Cmn => {
                let val = a.wrapping_add(b);
                let a_neg = is_negative(a);
                (a >= b, (a_neg == is_negative(b)) && (a_neg != is_negative(val)))
            },
            _ => (shifter, v),
        }
    }

    /// Execute `instruction` as this operation, with its second operand
    /// in the form `mode`.
    pub fn execute(self, instruction: Instruction, mode: Mode1, cpu: &mut Cpu) -> (r: Result<
        (),
        ExecError,
    >)
        requires
            old(cpu)@.wf(),
        ensures
            final(cpu)@.wf(),
            match self.execute_spec(instruction.0, mode, old(cpu)@) {
                Ok(state) => r.is_ok() && final(cpu)@ == state,
                Err(f) => r == Err::<(), ExecError>(f.error) && final(cpu)@ == f.state,
            },
    {
        proof {
            reveal(DataOp::execute_spec);
        }
        let rd = instruction.rd();
        let rn = instruction.rn();
        if !mode.is_valid(instruction, self.opcode(), self.sets_flags()) {
            return Err(ExecError::MalformedInstruction);
        }
        let (b, shifter) = if self.takes_shifter_carry() {
            match mode.value_carry(instruction, cpu) {
                Some(operand) => operand,
                None => {
                    return Err(
                        ExecError::Unimplemented {
                            word: instruction.0,
                            index: instruction.opcode(),
                        },
                    );
                },
            }
        } else {
            (mode.value(instruction, cpu), cpu.c())
        };
        if self.is_test() && rd.0 != 0 {
            // "should be zero"
            return Err(ExecError::MalformedInstruction);
        }
        if matches!(self, DataOp::Mov | DataOp::Movs | DataOp::Mvn) && rn.0 != 0 {
            // "should be zero"
            return Err(ExecError::MalformedInstruction);
        }
        if self.sets_flags() && !self.is_test() && rd.is_pc() {
            return Err(ExecError::UnpredictableWithPCTarget);
        }
        let a = cpu.reg(rn);
        let val = self.result(a, b, cpu.c());
        let (c, v) = self.carry_overflow(a, b, shifter, cpu.v());
        if !self.is_test() {
            cpu.set_reg(rd, val);
        }
        if self.sets_flags() {
            cpu.set_n(is_negative(val));
            cpu.set_z(val == 0);
            cpu.set_c(c);
            cpu.set_v(v);
        }
        Ok(())
    }
}

/// What a multiply does to the state `s`: the register in the first
/// operand field takes `Rm * Rs`, plus the register in the destination
/// field where `accumulate` is set; `flags` lets the negative and zero
/// flags follow the result. The program counter in any of the fields used
/// is refused as unpredictable.
#[verifier::opaque]
pub open spec fn multiply_spec(w: u32, accumulate: bool, flags: bool, s: CpuState) -> Result<
    CpuState,
    Failure,
> {
    let i = Instruction(w);
    let rd = i.rn_spec();
    let rn = i.rd_spec();
    let product = s.reg(i.rm_spec()).wrapping_mul(s.reg(i.rs_spec()));
    let val = if accumulate {
        product.wrapping_add(s.reg(rn))
    } else {
        product
    };
    if rd == 15 || i.rm_spec() == 15 || i.rs_spec() == 15 || (accumulate && rn == 15) {
        Err(Failure { error: ExecError::Unpredictable, state: s })
    } else if flags {
        Ok(s.set_reg(rd, val).set_nz(val))
    } else {
        Ok(s.set_reg(rd, val))
    }
}

/// Multiply, and add the accumulator if `accumulate` is set.
fn multiply(instruction: Instruction, accumulate: bool, flags: bool, cpu: &mut Cpu) -> (r: Result<
    (),
    ExecError,
>)
    requires
        old(cpu)@.wf(),
    ensures
        final(cpu)@.wf(),
        match multiply_spec(instruction.0, accumulate, flags, old(cpu)@) {
            Ok(state) => r.is_ok() && final(cpu)@ == state,
            Err(f) => r == Err::<(), ExecError>(f.error) && final(cpu)@ == f.state,
        },
{
    proof {
        reveal(multiply_spec);
    }
    let rm = instruction.rm();
    let rs = instruction.rs();
    // These instructions place Rd where Rn usually is
    let rd = instruction.rn();
    let rn = instruction.rd();
    if rd.is_pc() || rm.is_pc() || rs.is_pc() || (accumulate && rn.is_pc()) {
        return Err(ExecError::Unpredictable);
    }
    let product = cpu.reg(rm).wrapping_mul(cpu.reg(rs));
    let val = if accumulate {
        product.wrapping_add(cpu.reg(rn))
    } else {
        product
    };
    cpu.set_reg(rd, val);
    if flags {
        cpu.set_n(is_negative(val));
        cpu.set_z(val == 0);
        // The architecture leaves the carry flag open; it is kept
    }
    Ok(())
}

/// Multiply: `Rn_field <- Rm * Rs`.
pub fn mul(instruction: Instruction, flags: bool, cpu: &mut Cpu) -> (r: Result<(), ExecError>)
    requires
        old(cpu)@.wf(),
    ensures
        final(cpu)@.wf(),
        match multiply_spec(instruction.0, false, flags, old(cpu)@) {
            Ok(state) => r.is_ok() && final(cpu)@ == state,
            Err(f) => r == Err::<(), ExecError>(f.error) && final(cpu)@ == f.state,
        },
{
    multiply(instruction, false, flags, cpu)
}

/// Multiply and accumulate: `Rn_field <- Rm * Rs + Rd_field`.
pub fn mla(instruction: Instruction, flags: bool, cpu: &mut Cpu) -> (r: Result<(), ExecError>)
    requires
        old(cpu)@.wf(),
    ensures
        final(cpu)@.wf(),
        match multiply_spec(instruction.0, true, flags, old(cpu)@) {
            Ok(state) => r.is_ok() && final(cpu)@ == state,
            Err(f) => r == Err::<(), ExecError>(f.error) && final(cpu)@ == f.state,
        },
{
    multiply(instruction, true, flags, cpu)
}

} // verus!
