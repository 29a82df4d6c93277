//! Loads and stores of a single word, halfword or byte, and their
//! addressing modes.
use vstd::prelude::*;
use crate::bits::{extend_byte, extend_halfword, rotate_right, rotr32, sign_extend16, sign_extend8};
use crate::cpu::armv4_is::Instruction;
use crate::cpu::{Cpu, CpuState, ExecError, Failure};
use crate::debugger::Debugger;
use crate::memory::{Byte, HalfWord, Word};

verus! {

/// Addressing mode 2: Load and Store Word or Unsigned Byte
#[derive(Copy, Clone, PartialEq, Eq, Debug, Structural)]
pub enum Mode2 {
    /// Base plus or minus a 12 bit immediate.
    Imm,
    /// The same, and the base register takes the address.
    ImmPre,
    /// The base is the address, and the base register then takes base
    /// plus or minus the immediate.
    ImmPost,
    /// Base plus or minus a register shifted left by an immediate.
    LslReg,
    /// The same, and the base register takes the address.
    LslRegPre,
}

/// Addressing mode 3: Miscellaneous Loads and Stores
#[derive(Copy, Clone, PartialEq, Eq, Debug, Structural)]
pub enum Mode3 {
    /// Base plus or minus an 8 bit immediate, split over two nibbles.
    Imm,
    /// The same, and the base register takes the address.
    ImmPre,
    /// The base is the address, and the base register then takes base
    /// plus or minus the immediate.
    ImmPost,
    /// Base plus or minus a register.
    Reg,
}

/// `base` plus `offset` if `up`, else `base` minus `offset`, wrapping.
pub open spec fn displaced(base: u32, offset: u32, up: bool) -> u32 {
    if up {
        base.wrapping_add(offset)
    } else {
        base.wrapping_sub(offset)
    }
}

/// What the evaluation of an addressing mode gives: the address of the
/// transfer, and the value that the base register takes, if any. A mode
/// that writes the base back is refused where the base is the program
/// counter or the register that the instruction transfers.
pub open spec fn resolve(w: u32, base: u32, target: u32, writes_back: bool, post: bool) -> Result<
    (u32, Option<u32>),
    ExecError,
> {
    let i = Instruction(w);
    if !writes_back {
        Ok((target, None))
    } else if i.rn_spec() == 15 || i.rd_spec() == i.rn_spec() {
        Err(ExecError::UnpredictableWriteback)
    } else if post {
        Ok((base, Some(target)))
    } else {
        Ok((target, Some(target)))
    }
}

/// The state after the base register of `w` took the value that the
/// addressing mode gave it, if any.
pub open spec fn written_back(w: u32, wb: Option<u32>, s: CpuState) -> CpuState {
    match wb {
        Some(val) => s.set_reg(Instruction(w).rn_spec(), val),
        None => s,
    }
}

impl Mode2 {
    /// True for the forms that write the base register back.
    pub open spec fn writes_back(self) -> bool {
        self != Mode2::Imm && self != Mode2::LslReg
    }

    /// The offset that `w` encodes in this mode.
    pub open spec fn offset_spec(self, w: u32, s: CpuState) -> u32 {
        match self {
            Mode2::Imm | Mode2::ImmPre | Mode2::ImmPost => w % 0x1000,
            Mode2::LslReg | Mode2::LslRegPre => s.reg(Instruction(w).rm_spec()) << Instruction(
                w,
            ).shift_imm_spec(),
        }
    }

    /// The address of the transfer and the value written back to the
    /// base register, for the direction `up`.
    pub open spec fn address_spec(self, w: u32, up: bool, s: CpuState) -> Result<
        (u32, Option<u32>),
        ExecError,
    > {
        let base = s.reg(Instruction(w).rn_spec());
        resolve(
            w,
            base,
            displaced(base, self.offset_spec(w, s), up),
            self.writes_back(),
            self == Mode2::ImmPost,
        )
    }

    /// Whether the mode matches the encoding of `w`, taken as a load or a
    /// store, of a byte or a word, in the direction `up`.
    pub open spec fn is_valid_spec(self, w: u32, up: bool, load: bool, byte: bool) -> bool {
        let class = w / 0x100_0000 % 16;
        &&& (w / 0x10_0000 % 2 == 1) == load
        &&& (w / 0x40_0000 % 2 == 1) == byte
        &&& (w / 0x80_0000 % 2 == 1) == up
        &&& match self {
            Mode2::Imm | Mode2::ImmPre => class == 5,
            Mode2::ImmPost => class == 4,
            Mode2::LslReg => class == 7 && w / 0x20_0000 % 2 == 0 && w / 16 % 8 == 0,
            Mode2::LslRegPre => class == 7 && w / 0x20_0000 % 2 == 1 && w / 16 % 8 == 0,
        }
    }

    /// Decode the address and update the registers
    pub fn address(self, instruction: Instruction, up: bool, cpu: &mut Cpu) -> (r: Result<
        u32,
        ExecError,
    >)
        requires
            old(cpu)@.wf(),
        ensures
            final(cpu)@.wf(),
            match self.address_spec(instruction.0, up, old(cpu)@) {
                Ok((addr, wb)) => r == Ok::<u32, ExecError>(addr) && final(cpu)@ == written_back(
                    instruction.0,
                    wb,
                    old(cpu)@,
                ),
                Err(e) => r == Err::<u32, ExecError>(e) && final(cpu)@ == old(cpu)@,
            },
    {
        let rn = instruction.rn();
        let offset = match self {
            Mode2::Imm | Mode2::ImmPre | Mode2::ImmPost => instruction.0 % 0x1000,
            Mode2::LslReg | Mode2::LslRegPre => cpu.reg(instruction.rm())
                << instruction.shift_imm(),
        };
        let base = cpu.reg(rn);
        let target = if up {
            base.wrapping_add(offset)
        } else {
            base.wrapping_sub(offset)
        };
        match self {
            Mode2::Imm | Mode2::LslReg => Ok(target),
            Mode2::ImmPre | Mode2::LslRegPre => write_back(instruction, target, target, cpu),
            Mode2::ImmPost => write_back(instruction, base, target, cpu),
        }
    }

    /// Used to validate that the addressing mode matches the
    /// instruction.
    pub fn is_valid(self, instruction: Instruction, up: bool, load: bool, byte: bool) -> (r: bool)
        ensures
            r == self.is_valid_spec(instruction.0, up, load, byte),
    {
        let i = instruction.0;
        let class = i / 0x100_0000 % 16;
        (i / 0x10_0000 % 2 == 1) == load && (i / 0x40_0000 % 2 == 1) == byte && (i / 0x80_0000 % 2
            == 1) == up && match self {
            Mode2::Imm | Mode2::ImmPre => class == 5,
            Mode2::ImmPost => class == 4,
            Mode2::LslReg => class == 7 && i / 0x20_0000 % 2 == 0 && i / 16 % 8 == 0,
            Mode2::LslRegPre => class == 7 && i / 0x20_0000 % 2 == 1 && i / 16 % 8 == 0,
        }
    }
}

/// Write `target` back to the base register of `instruction` and hand out
/// `addr`, unless the base is the program counter or the register that
/// the instruction transfers.
fn write_back(instruction: Instruction, addr: u32, target: u32, cpu: &mut Cpu) -> (r: Result<
    u32,
    ExecError,
>)
    requires
        old(cpu)@.wf(),
    ensures
        final(cpu)@.wf(),
        instruction.rn_spec() == 15 || instruction.rd_spec() == instruction.rn_spec() ==> r
            == Err::<u32, ExecError>(ExecError::UnpredictableWriteback) && final(cpu)@ == old(
            cpu,
        )@,
        !(instruction.rn_spec() == 15 || instruction.rd_spec() == instruction.rn_spec()) ==> r
            == Ok::<u32, ExecError>(addr) && final(cpu)@ == old(cpu)@.set_reg(
            instruction.rn_spec(),
            target,
        ),
{
    let rn = instruction.rn();
    let rd = instruction.rd();
    if rn.is_pc() || rd.0 == rn.0 {
        // Unpredictable
        return Err(ExecError::UnpredictableWriteback);
    }
    cpu.set_reg(rn, target);
    Ok(addr)
}

impl Mode3 {
    /// True for the forms that write the base register back.
    pub open spec fn writes_back(self) -> bool {
        self == Mode3::ImmPre || self == Mode3::ImmPost
    }

    /// The offset that `w` encodes in this mode.
    pub open spec fn offset_spec(self, w: u32, s: CpuState) -> u32 {
        match self {
            Mode3::Reg => s.reg(Instruction(w).rm_spec()),
            _ => ((w / 0x100 % 16) * 16 + w % 16) as u32,
        }
    }

    /// The address of the transfer and the value written back to the
    /// base register, for the direction `up`.
    pub open spec fn address_spec(self, w: u32, up: bool, s: CpuState) -> Result<
        (u32, Option<u32>),
        ExecError,
    > {
        let base = s.reg(Instruction(w).rn_spec());
        resolve(
            w,
            base,
            displaced(base, self.offset_spec(w, s), up),
            self.writes_back(),
            self == Mode3::ImmPost,
        )
    }

    /// Whether the mode matches the encoding of `w`, taken as a load or a
    /// store, of a byte or a halfword, signed or not, in the direction
    /// `up`.
    pub open spec fn is_valid_spec(
        self,
        w: u32,
        up: bool,
        load: bool,
        byte: bool,
        signed: bool,
    ) -> bool {
        let class = w / 0x100_0000 % 16;
        let form = w / 0x20_0000 % 4;
        &&& (w / 0x80_0000 % 2 == 1) == up
        &&& (w / 0x10_0000 % 2 == 1) == load
        &&& w / 0x80 % 2 == 1
        &&& (w / 0x40 % 2 == 1) == signed
        &&& (w / 0x20 % 2 == 1) == !byte
        &&& w / 0x10 % 2 == 1
        &&& match self {
            Mode3::Imm => class == 1 && form == 2,
            Mode3::ImmPre => class == 1 && form == 3,
            Mode3::ImmPost => class == 0 && form == 2,
            Mode3::Reg => class == 1 && form == 0 && w / 0x80 % 32 == 1,
        }
    }

    /// Decode the address and update the registers
    pub fn address(self, instruction: Instruction, up: bool, cpu: &mut Cpu) -> (r: Result<
        u32,
        ExecError,
    >)
        requires
            old(cpu)@.wf(),
        ensures
            final(cpu)@.wf(),
            match self.address_spec(instruction.0, up, old(cpu)@) {
                Ok((addr, wb)) => r == Ok::<u32, ExecError>(addr) && final(cpu)@ == written_back(
                    instruction.0,
                    wb,
                    old(cpu)@,
                ),
                Err(e) => r == Err::<u32, ExecError>(e) && final(cpu)@ == old(cpu)@,
            },
    {
        let rn = instruction.rn();
        let offset = match self {
            Mode3::Reg => cpu.reg(instruction.rm()),
            _ => {
                let hi = instruction.0 / 0x100 % 16;
                let lo = instruction.0 % 16;
                hi * 16 + lo
            },
        };
        let base = cpu.reg(rn);
        let target = if up {
            base.wrapping_add(offset)
        } else {
            base.wrapping_sub(offset)
        };
        match self {
            Mode3::Imm | Mode3::Reg => Ok(target),
            Mode3::ImmPre => write_back(instruction, target, target, cpu),
            Mode3::ImmPost => write_back(instruction, base, target, cpu),
        }
    }

    /// Used to validate that the addressing mode matches the
    /// instruction.
    pub fn is_valid(
        self,
        instruction: Instruction,
        up: bool,
        load: bool,
        byte: bool,
        signed: bool,
    ) -> (r: bool)
        ensures
            r == self.is_valid_spec(instruction.0, up, load, byte, signed),
    {
        let i = instruction.0;
        let class = i / 0x100_0000 % 16;
        let form = i / 0x20_0000 % 4;
        (i / 0x80_0000 % 2 == 1) == up && (i / 0x10_0000 % 2 == 1) == load && i / 0x80 % 2 == 1 && (
        i / 0x40 % 2 == 1) == signed && (i / 0x20 % 2 == 1) == !byte && i / 0x10 % 2 == 1
            && match self {
            Mode3::Imm => class == 1 && form == 2,
            Mode3::ImmPre => class == 1 && form == 3,
            Mode3::ImmPost => class == 0 && form == 2,
            Mode3::Reg => class == 1 && form == 0 && i / 0x80 % 32 == 1,
        }
    }
}

/// The loads and stores of a single register.
#[derive(Copy, Clone, PartialEq, Eq, Debug, Structural)]
pub enum Single {
    /// Load a word.
    Ldr,
    /// Store a word.
    Str,
    /// Load a byte, zero-extended.
    Ldrb,
    /// Store a byte.
    Strb,
    /// Load a halfword, zero-extended.
    Ldrh,
    /// Load a halfword, sign-extended.
    Ldrsh,
    /// Store a halfword.
    Strh,
    /// Load a byte, sign-extended.
    Ldrsb,
}

impl Single {
    /// True for the loads.
    pub open spec fn is_load(self) -> bool {
        self != Single::Str && self != Single::Strb && self != Single::Strh
    }

    /// True for the transfers of a byte.
    pub open spec fn is_byte(self) -> bool {
        self == Single::Ldrb || self == Single::Strb || self == Single::Ldrsb
    }

    /// True for the loads that extend the sign.
    pub open spec fn is_signed(self) -> bool {
        self == Single::Ldrsh || self == Single::Ldrsb
    }

    /// The transfer at `addr`, the address that the addressing mode gave,
    /// for the register in the destination field of `w`.
    ///
    /// A word is loaded from the address with its low two bits cleared
    /// and rotated right by 8 places for each byte that the address lies
    /// above that; into the program counter it goes with its low two bits
    /// cleared, and so does a byte loaded without sign. A word or a byte
    /// of the program counter is not stored. Halfwords must be aligned,
    /// and so must a word that is stored.
    pub open spec fn transfer_spec(self, w: u32, addr: u32, s: CpuState) -> Result<
        CpuState,
        Failure,
    > {
        let rd = Instruction(w).rd_spec();
        match self {
            Single::Ldr => match s.load(4, (addr - addr % 4) as u32) {
                Ok((val, s1)) => Ok(s1.set_reg_pc_mask(rd, rotr32(val, (8 * (addr % 4)) as u32))),
                Err(e) => Err(e),
            },
            Single::Ldrb => match s.load(1, addr) {
                Ok((val, s1)) => Ok(s1.set_reg_pc_mask(rd, val)),
                Err(e) => Err(e),
            },
            Single::Ldrh => match s.load(2, addr) {
                Ok((val, s1)) => Ok(s1.set_reg(rd, val)),
                Err(e) => Err(e),
            },
            Single::Ldrsh => match s.load(2, addr) {
                Ok((val, s1)) => Ok(s1.set_reg(rd, sign_extend16(val))),
                Err(e) => Err(e),
            },
            Single::Ldrsb => match s.load(1, addr) {
                Ok((val, s1)) => Ok(s1.set_reg(rd, sign_extend8(val))),
                Err(e) => Err(e),
            },
            Single::Str => if rd == 15 {
                Err(Failure { error: ExecError::Unpredictable, state: s })
            } else {
                s.store(4, addr, s.reg(rd))
            },
            Single::Strb => if rd == 15 {
                Err(Failure { error: ExecError::Unpredictable, state: s })
            } else {
                s.store(1, addr, s.reg(rd))
            },
            Single::Strh => s.store(2, addr, s.reg(rd)),
        }
    }

    /// What the instruction `w`, taken as this transfer with addressing
    /// mode 2 in the form `mode` and the direction `up`, does to the state
    /// `s`: the mode gives the address and writes the base back, then the
    /// transfer takes place. A transfer that is refused after that leaves
    /// the base written back.
    #[verifier::opaque]
    pub open spec fn execute2_spec(self, w: u32, mode: Mode2, up: bool, s: CpuState) -> Result<
        CpuState,
        Failure,
    > {
        if !mode.is_valid_spec(w, up, self.is_load(), self.is_byte()) {
            Err(Failure { error: ExecError::MalformedInstruction, state: s })
        } else {
            match mode.address_spec(w, up, s) {
                Ok((addr, wb)) => self.transfer_spec(w, addr, written_back(w, wb, s)),
                Err(e) => Err(Failure { error: e, state: s }),
            }
        }
    }

    /// The same with addressing mode 3.
    #[verifier::opaque]
    pub open spec fn execute3_spec(self, w: u32, mode: Mode3, up: bool, s: CpuState) -> Result<
        CpuState,
        Failure,
    > {
        if !mode.is_valid_spec(w, up, self.is_load(), self.is_byte(), self.is_signed()) {
            Err(Failure { error: ExecError::MalformedInstruction, state: s })
        } else {
            match mode.address_spec(w, up, s) {
                Ok((addr, wb)) => self.transfer_spec(w, addr, written_back(w, wb, s)),
                Err(e) => Err(Failure { error: e, state: s }),
            }
        }
    }
}

/// Load a word into `Rd`.
pub fn ldr<D: Debugger>(
    instruction: Instruction,
    mode: Mode2,
    up: bool,
    debugger: &mut D,
    cpu: &mut Cpu,
) -> (r: Result<(), ExecError>)
    requires
        old(cpu)@.wf(),
    ensures
        final(cpu)@.wf(),
        match Single::Ldr.execute2_spec(instruction.0, mode, up, old(cpu)@) {
            Ok(state) => r.is_ok() && final(cpu)@ == state,
            Err(f) => r == Err::<(), ExecError>(f.error) && final(cpu)@ == f.state,
        },
{
    proof {
        reveal(Single::execute2_spec);
    }
    let rd = instruction.rd();
    if !mode.is_valid(instruction, up, true, false) {
        return Err(ExecError::MalformedInstruction);
    }
    let addr = mode.address(instruction, up, cpu)?;
    // Bits [1:0] specifies a rightwise rotation by increment of 8
    // bits
    let rot = (addr % 4) * 8;
    let addr = addr - addr % 4;
    let val = rotate_right(cpu.load::<Word, D>(debugger, addr)?, rot);
    cpu.set_reg_pc_mask(rd, val);
    Ok(())
}

/// Store `Rd` as a word.
pub fn str<D: Debugger>(
    instruction: Instruction,
    mode: Mode2,
    up: bool,
    debugger: &mut D,
    cpu: &mut Cpu,
) -> (r: Result<(), ExecError>)
    requires
        old(cpu)@.wf(),
    ensures
        final(cpu)@.wf(),
        match Single::Str.execute2_spec(instruction.0, mode, up, old(cpu)@) {
            Ok(state) => r.is_ok() && final(cpu)@ == state,
            Err(f) => r == Err::<(), ExecError>(f.error) && final(cpu)@ == f.state,
        },
{
    proof {
        reveal(Single::execute2_spec);
    }
    let rd = instruction.rd();
    if !mode.is_valid(instruction, up, false, false) {
        return Err(ExecError::MalformedInstruction);
    }
    let addr = mode.address(instruction, up, cpu)?;
    if rd.is_pc() {
        // Implementation defined
        return Err(ExecError::Unpredictable);
    }
    let val = cpu.reg(rd);
    cpu.store::<Word, D>(debugger, addr, val)
}

/// Load a byte into `Rd`.
pub fn ldrb<D: Debugger>(
    instruction: Instruction,
    mode: Mode2,
    up: bool,
    debugger: &mut D,
    cpu: &mut Cpu,
) -> (r: Result<(), ExecError>)
    requires
        old(cpu)@.wf(),
    ensures
        final(cpu)@.wf(),
        match Single::Ldrb.execute2_spec(instruction.0, mode, up, old(cpu)@) {
            Ok(state) => r.is_ok() && final(cpu)@ == state,
            Err(f) => r == Err::<(), ExecError>(f.error) && final(cpu)@ == f.state,
        },
{
    proof {
        reveal(Single::execute2_spec);
    }
    let rd = instruction.rd();
    if !mode.is_valid(instruction, up, true, true) {
        return Err(ExecError::MalformedInstruction);
    }
    let addr = mode.address(instruction, up, cpu)?;
    let val = cpu.load::<Byte, D>(debugger, addr)?;
    cpu.set_reg_pc_mask(rd, val);
    Ok(())
}

/// Store the low byte of `Rd`.
pub fn strb<D: Debugger>(
    instruction: Instruction,
    mode: Mode2,
    up: bool,
    debugger: &mut D,
    cpu: &mut Cpu,
) -> (r: Result<(), ExecError>)
    requires
        old(cpu)@.wf(),
    ensures
        final(cpu)@.wf(),
        match Single::Strb.execute2_spec(instruction.0, mode, up, old(cpu)@) {
            Ok(state) => r.is_ok() && final(cpu)@ == state,
            Err(f) => r == Err::<(), ExecError>(f.error) && final(cpu)@ == f.state,
        },
{
    proof {
        reveal(Single::execute2_spec);
    }
    let rd = instruction.rd();
    if !mode.is_valid(instruction, up, false, true) {
        return Err(ExecError::MalformedInstruction);
    }
    let addr = mode.address(instruction, up, cpu)?;
    if rd.is_pc() {
        return Err(ExecError::Unpredictable);
    }
    let val = cpu.reg(rd);
    cpu.store::<Byte, D>(debugger, addr, val)
}

/// Load a halfword into `Rd`.
pub fn ldrh<D: Debugger>(
    instruction: Instruction,
    mode: Mode3,
    up: bool,
    debugger: &mut D,
    cpu: &mut Cpu,
) -> (r: Result<(), ExecError>)
    requires
        old(cpu)@.wf(),
    ensures
        final(cpu)@.wf(),
        match Single::Ldrh.execute3_spec(instruction.0, mode, up, old(cpu)@) {
            Ok(state) => r.is_ok() && final(cpu)@ == state,
            Err(f) => r == Err::<(), ExecError>(f.error) && final(cpu)@ == f.state,
        },
{
    proof {
        reveal(Single::execute3_spec);
    }
    let rd = instruction.rd();
    if !mode.is_valid(instruction, up, true, false, false) {
        return Err(ExecError::MalformedInstruction);
    }
    let addr = mode.address(instruction, up, cpu)?;
    let val = cpu.load::<HalfWord, D>(debugger, addr)?;
    cpu.set_reg(rd, val);
    Ok(())
}

/// Load a halfword into `Rd` and extend its sign.
pub fn ldrsh<D: Debugger>(
    instruction: Instruction,
    mode: Mode3,
    up: bool,
    debugger: &mut D,
    cpu: &mut Cpu,
) -> (r: Result<(), ExecError>)
    requires
        old(cpu)@.wf(),
    ensures
        final(cpu)@.wf(),
        match Single::Ldrsh.execute3_spec(instruction.0, mode, up, old(cpu)@) {
            Ok(state) => r.is_ok() && final(cpu)@ == state,
            Err(f) => r == Err::<(), ExecError>(f.error) && final(cpu)@ == f.state,
        },
{
    proof {
        reveal(Single::execute3_spec);
    }
    let rd = instruction.rd();
    if !mode.is_valid(instruction, up, true, false, true) {
        return Err(ExecError::MalformedInstruction);
    }
    let addr = mode.address(instruction, up, cpu)?;
    let val = extend_halfword(cpu.load::<HalfWord, D>(debugger, addr)?);
    cpu.set_reg(rd, val);
    Ok(())
}

/// Store the low halfword of `Rd`.
pub fn strh<D: Debugger>(
    instruction: Instruction,
    mode: Mode3,
    up: bool,
    debugger: &mut D,
    cpu: &mut Cpu,
) -> (r: Result<(), ExecError>)
    requires
        old(cpu)@.wf(),
    ensures
        final(cpu)@.wf(),
        match Single::Strh.execute3_spec(instruction.0, mode, up, old(cpu)@) {
            Ok(state) => r.is_ok() && final(cpu)@ == state,
            Err(f) => r == Err::<(), ExecError>(f.error) && final(cpu)@ == f.state,
        },
{
    proof {
        reveal(Single::execute3_spec);
    }
    let rd = instruction.rd();
    if !mode.is_valid(instruction, up, false, false, false) {
        return Err(ExecError::MalformedInstruction);
    }
    let addr = mode.address(instruction, up, cpu)?;
    let val = cpu.reg(rd);
    cpu.store::<HalfWord, D>(debugger, addr, val)
}

/// Load a byte into `Rd` and extend its sign.
pub fn ldrsb<D: Debugger>(
    instruction: Instruction,
    mode: Mode3,
    up: bool,
    debugger: &mut D,
    cpu: &mut Cpu,
) -> (r: Result<(), ExecError>)
    requires
        old(cpu)@.wf(),
    ensures
        final(cpu)@.wf(),
        match Single::Ldrsb.execute3_spec(instruction.0, mode, up, old(cpu)@) {
            Ok(state) => r.is_ok() && final(cpu)@ == state,
            Err(f) => r == Err::<(), ExecError>(f.error) && final(cpu)@ == f.state,
        },
{
    proof {
        reveal(Single::execute3_spec);
    }
    let rd = instruction.rd();
    if !mode.is_valid(instruction, up, true, true, true) {
        return Err(ExecError::MalformedInstruction);
    }
    let addr = mode.address(instruction, up, cpu)?;
    let val = extend_byte(cpu.load::<Byte, D>(debugger, addr)?);
    cpu.set_reg(rd, val);
    Ok(())
}

} // verus!
