//! Addressing mode 1: data-processing operands.
use vstd::prelude::*;
use crate::bits::{
    arithmetic_shift_right, asr32, bit, is_negative, rotate_right, rotr32, sign32, test_bit,
};
use crate::cpu::armv4_is::Instruction;
use crate::cpu::{Cpu, CpuState};

verus! {

/// The forms of the second operand of a data-processing instruction.
#[derive(Copy, Clone, PartialEq, Eq, Debug, Structural)]
pub enum Mode1 {
    /// An 8 bit immediate rotated right by twice a 4 bit amount.
    Imm,
    /// A register shifted left by an immediate.
    LslImm,
    /// A register shifted right by an immediate.
    LsrImm,
    /// A register shifted right by an immediate, keeping its sign.
    AsrImm,
    /// A register rotated right by an immediate, or by one place through
    /// the carry flag where the immediate is 0.
    RorImm,
    /// A register shifted left by the low byte of a register.
    LslReg,
    /// A register shifted right by the low byte of a register.
    LsrReg,
    /// A register shifted right by the low byte of a register, keeping
    /// its sign.
    AsrReg,
    /// A register rotated right by the low byte of a register.
    RorReg,
}

impl Mode1 {
    /// Whether the form matches the encoding of `w`, taken as a
    /// data-processing instruction with opcode `opcode` and flag bit `s`.
    pub open spec fn is_valid_spec(self, w: u32, opcode: u32, s: bool) -> bool {
        let class = w / 0x200_0000 % 8;
        let shape = w / 16 % 16;
        &&& w / 0x10_0000 % 2 == (if s { 1u32 } else { 0u32 })
        &&& w / 0x20_0000 % 16 == opcode
        &&& match self {
            Mode1::Imm => class == 1,
            Mode1::LslImm => class == 0 && shape % 8 == 0,
            Mode1::LsrImm => class == 0 && shape % 8 == 2,
            Mode1::AsrImm => class == 0 && shape % 8 == 4,
            Mode1::RorImm => class == 0 && shape % 8 == 6,
            Mode1::LslReg => class == 0 && shape == 1,
            Mode1::LsrReg => class == 0 && shape == 3,
            Mode1::AsrReg => class == 0 && shape == 5,
            Mode1::RorReg => class == 0 && shape == 7,
        }
    }

    /// The value of the operand that `w` encodes in this form.
    pub open spec fn value_spec(self, w: u32, s: CpuState) -> u32 {
        let i = Instruction(w);
        let shift = i.shift_imm_spec();
        let rm = s.reg(i.rm_spec());
        let by = s.reg(i.rs_spec()) % 0x100;
        match self {
            Mode1::Imm => rotr32(w % 0x100, (2 * i.rs_spec()) as u32),
            Mode1::LslImm => rm << shift,
            Mode1::LsrImm => if shift == 0 {
                0
            } else {
                rm >> shift
            },
            Mode1::AsrImm => if shift == 0 {
                asr32(rm, 31)
            } else {
                asr32(rm, shift)
            },
            Mode1::RorImm => if shift == 0 {
                ((if s.c { 0x8000_0000int } else { 0 }) + rm / 2) as u32
            } else {
                rotr32(rm, shift)
            },
            Mode1::LslReg => if by < 32 {
                rm << by
            } else {
                0
            },
            Mode1::LsrReg => if by < 32 {
                rm >> by
            } else {
                0
            },
            Mode1::AsrReg => if by < 32 {
                asr32(rm, by)
            } else {
                asr32(rm, 31)
            },
            Mode1::RorReg => rotr32(rm, by % 32),
        }
    }

    /// The carry that the shifter puts out for the operand that `w`
    /// encodes in this form; nothing for the shifts by a register, whose
    /// carry is not worked out.
    pub open spec fn carry_spec(self, w: u32, s: CpuState) -> Option<bool> {
        let i = Instruction(w);
        let shift = i.shift_imm_spec();
        let rm = s.reg(i.rm_spec());
        let by = s.reg(i.rs_spec()) % 0x100;
        match self {
            Mode1::Imm => Some(
                if i.rs_spec() == 0 {
                    s.c
                } else {
                    sign32(self.value_spec(w, s))
                },
            ),
            Mode1::LslImm => Some(
                if shift == 0 {
                    s.c
                } else {
                    bit(rm, (32 - shift) as u32)
                },
            ),
            Mode1::LsrImm | Mode1::AsrImm => Some(
                if shift == 0 {
                    sign32(rm)
                } else {
                    bit(rm, (shift - 1) as u32)
                },
            ),
            Mode1::RorImm => Some(
                if shift == 0 {
                    rm % 2 == 1
                } else {
                    bit(rm, (shift - 1) as u32)
                },
            ),
            Mode1::RorReg => Some(
                if by == 0 {
                    s.c
                } else if by % 32 == 0 {
                    sign32(rm)
                } else {
                    bit(rm, (by % 32 - 1) as u32)
                },
            ),
            Mode1::LslReg | Mode1::LsrReg | Mode1::AsrReg => None,
        }
    }

    /// The operand together with the shifter's carry.
    pub open spec fn value_carry_spec(self, w: u32, s: CpuState) -> Option<(u32, bool)> {
        match self.carry_spec(w, s) {
            Some(carry) => Some((self.value_spec(w, s), carry)),
            None => None,
        }
    }

    /// Return the value of the operand
    pub fn value(self, instruction: Instruction, cpu: &Cpu) -> (r: u32)
        ensures
            r == self.value_spec(instruction.0, cpu@),
    {
        let shift = instruction.shift_imm();
        match self {
            Mode1::Imm => {
                let rot = instruction.rs().0;
                let imm = instruction.0 % 0x100;
                // Rotation factor is multiplied by two
                rotate_right(imm, rot * 2)
            },
            Mode1::LslImm => cpu.reg(instruction.rm()) << shift,
            Mode1::LsrImm => {
                let val = cpu.reg(instruction.rm());
                if shift == 0 {
                    // Shift 0 means shift by 32
                    0
                } else {
                    val >> shift
                }
            },
            Mode1::AsrImm => {
                let val = cpu.reg(instruction.rm());
                if shift == 0 {
                    // Shift 0 means shift by 32, which replicates the
                    // sign bit all over the 32 bits like a shift by 31
                    arithmetic_shift_right(val, 31)
                } else {
                    arithmetic_shift_right(val, shift)
                }
            },
            Mode1::RorImm => {
                let val = cpu.reg(instruction.rm());
                if shift == 0 {
                    // Special case: this is rotate right with extend
                    let c: u32 = if cpu.c() { 0x8000_0000 } else { 0 };
                    c + val / 2
                } else {
                    rotate_right(val, shift)
                }
            },
            Mode1::LslReg => {
                let val = cpu.reg(instruction.rm());
                let by = cpu.reg(instruction.rs()) % 0x100;
                if by < 32 {
                    val << by
                } else {
                    0
                }
            },
            Mode1::LsrReg => {
                let val = cpu.reg(instruction.rm());
                let by = cpu.reg(instruction.rs()) % 0x100;
                if by < 32 {
                    val >> by
                } else {
                    0
                }
            },
            Mode1::AsrReg => {
                let val = cpu.reg(instruction.rm());
                let by = cpu.reg(instruction.rs()) % 0x100;
                if by < 32 {
                    arithmetic_shift_right(val, by)
                } else {
                    // Shift by more than 31 replicates the sign bit
                    arithmetic_shift_right(val, 31)
                }
            },
            Mode1::RorReg => {
                let val = cpu.reg(instruction.rm());
                let by = cpu.reg(instruction.rs()) % 0x100;
                rotate_right(val, by % 32)
            },
        }
    }

    /// Return the value of the operand along with the ALU carry, or
    /// nothing where the form has no carry worked out.
    pub fn value_carry(self, instruction: Instruction, cpu: &Cpu) -> (r: Option<(u32, bool)>)
        ensures
            r == self.value_carry_spec(instruction.0, cpu@),
    {
        let shift = instruction.shift_imm();
        let value = self.value(instruction, cpu);
        match self {
            Mode1::Imm => {
                if instruction.rs().0 == 0 {
                    Some((value, cpu.c()))
                } else {
                    Some((value, is_negative(value)))
                }
            },
            Mode1::LslImm => {
                let val = cpu.reg(instruction.rm());
                if shift == 0 {
                    Some((value, cpu.c()))
                } else {
                    Some((value, test_bit(val, 32 - shift)))
                }
            },
            Mode1::LsrImm | Mode1::AsrImm => {
                let val = cpu.reg(instruction.rm());
                if shift == 0 {
                    Some((value, is_negative(val)))
                } else {
                    Some((value, test_bit(val, shift - 1)))
                }
            },
            Mode1::RorImm => {
                let val = cpu.reg(instruction.rm());
                if shift == 0 {
                    Some((value, val % 2 == 1))
                } else {
                    Some((value, test_bit(val, shift - 1)))
                }
            },
            Mode1::RorReg => {
                let val = cpu.reg(instruction.rm());
                let by = cpu.reg(instruction.rs()) % 0x100;
                if by == 0 {
                    Some((value, cpu.c()))
                } else if by % 32 == 0 {
                    Some((value, is_negative(val)))
                } else {
                    Some((value, test_bit(val, by % 32 - 1)))
                }
            },
            Mode1::LslReg | Mode1::LsrReg | Mode1::AsrReg => None,
        }
    }

    /// Used to validate that the addressing mode matches the
    /// instruction.
    pub fn is_valid(self, instruction: Instruction, opcode: u32, s: bool) -> (r: bool)
        ensures
            r == self.is_valid_spec(instruction.0, opcode, s),
    {
        let i = instruction.0;
        let class = i / 0x200_0000 % 8;
        let shape = i / 16 % 16;
        let flag: u32 = if s { 1 } else { 0 };
        i / 0x10_0000 % 2 == flag && i / 0x20_0000 % 16 == opcode && match self {
            Mode1::Imm => class == 1,
            Mode1::LslImm => class == 0 && shape % 8 == 0,
            Mode1::LsrImm => class == 0 && shape % 8 == 2,
            Mode1::AsrImm => class == 0 && shape % 8 == 4,
            Mode1::RorImm => class == 0 && shape % 8 == 6,
            Mode1::LslReg => class == 0 && shape == 1,
            Mode1::LsrReg => class == 0 && shape == 3,
            Mode1::AsrReg => class == 0 && shape == 5,
            Mode1::RorReg => class == 0 && shape == 7,
        }
    }
}

} // verus!
