//! The dispatch table: which kernel, with which addressing mode, each of
//! the 4096 decode indices stands for.
use vstd::prelude::*;
use crate::bits::{bit, test_bit};
use crate::cpu::data::DataOp;
use crate::cpu::operand::Mode1;
use crate::cpu::transfer::{Mode2, Mode3};

verus! {

/// What a slot of the dispatch table holds. The flag of a multiply tells
/// whether it sets the flags; the flag of a single transfer is set for an
/// offset that is added and clear for one that is subtracted; `up`, `pre`
/// and `wb` of a block transfer are its direction, whether the address
/// moves before each transfer, and whether the base is written back.
#[derive(Copy, Clone, PartialEq, Eq, Debug, Structural)]
pub enum Op {
    /// A slot kept for an instruction that the firmware does not use.
    Unimplemented,
    Data(DataOp, Mode1),
    Mul(bool),
    Mla(bool),
    Ldr(Mode2, bool),
    Str(Mode2, bool),
    Ldrb(Mode2, bool),
    Strb(Mode2, bool),
    Ldrh(Mode3, bool),
    Ldrsh(Mode3, bool),
    Strh(Mode3, bool),
    Ldrsb(Mode3, bool),
    Ldm { up: bool, pre: bool, wb: bool },
    Ldms { up: bool, pre: bool, wb: bool },
    Stm { up: bool, pre: bool, wb: bool },
    MrsCpsr,
    MsrCpsr,
    Bx,
    MrsSpsr,
    B,
    Bl,
    Swi,
}

/// The operand form that the low four bits `lo` of a decode index stand
/// for in the rows of the register forms; nothing for the four values
/// that belong to multiplies and halfword transfers.
pub open spec fn column_mode(lo: u32) -> Option<Mode1> {
    if lo == 0x0 || lo == 0x8 {
        Some(Mode1::LslImm)
    } else if lo == 0x1 {
        Some(Mode1::LslReg)
    } else if lo == 0x2 || lo == 0xa {
        Some(Mode1::LsrImm)
    } else if lo == 0x3 {
        Some(Mode1::LsrReg)
    } else if lo == 0x4 || lo == 0xc {
        Some(Mode1::AsrImm)
    } else if lo == 0x5 {
        Some(Mode1::AsrReg)
    } else if lo == 0x6 || lo == 0xe {
        Some(Mode1::RorImm)
    } else if lo == 0x7 {
        Some(Mode1::RorReg)
    } else {
        None
    }
}

/// The slot in column `lo` of the row of `op`, of which the columns in
/// the bit set `columns` are in use.
pub open spec fn data_slot(op: DataOp, columns: u32, lo: u32) -> Op {
    match column_mode(lo) {
        Some(mode) => if bit(columns, lo) {
            Op::Data(op, mode)
        } else {
            Op::Unimplemented
        },
        None => Op::Unimplemented,
    }
}

/// Rows 0x00 to 0x1f: data processing with a register operand, multiplies,
/// status register moves, branch and exchange, halfword and signed
/// transfers.
pub open spec fn register_row(hi: u32, lo: u32) -> Op {
    if hi == 0x00 {
        if lo == 0x9 {
            Op::Mul(false)
        } else {
            data_slot(DataOp::And, 0x15ff, lo)
        }
    } else if hi == 0x01 {
        if lo == 0x9 {
            Op::Mul(true)
        } else {
            Op::Unimplemented
        }
    } else if hi == 0x02 {
        if lo == 0x9 {
            Op::Mla(false)
        } else {
            data_slot(DataOp::Eor, 0x15ff, lo)
        }
    } else if hi == 0x03 {
        data_slot(DataOp::Eors, 0x1010, lo)
    } else if hi == 0x04 {
        data_slot(DataOp::Sub, 0x1515, lo)
    } else if hi == 0x05 {
        data_slot(DataOp::Subs, 0x0505, lo)
    } else if hi == 0x06 {
        data_slot(DataOp::Rsb, 0x0505, lo)
    } else if hi == 0x07 {
        data_slot(DataOp::Rsbs, 0x0505, lo)
    } else if hi == 0x08 {
        data_slot(DataOp::Add, 0x15ff, lo)
    } else if hi == 0x09 {
        data_slot(DataOp::Adds, 0x15ff, lo)
    } else if hi == 0x0a {
        data_slot(DataOp::Adc, 0x0101, lo)
    } else if hi == 0x0c {
        if lo == 0xb {
            Op::Strh(Mode3::ImmPost, true)
        } else {
            Op::Unimplemented
        }
    } else if hi == 0x0d {
        if lo == 0xb {
            Op::Ldrh(Mode3::ImmPost, true)
        } else {
            Op::Unimplemented
        }
    } else if hi == 0x10 {
        if lo == 0x0 {
            Op::MrsCpsr
        } else {
            Op::Unimplemented
        }
    } else if hi == 0x11 {
        data_slot(DataOp::Tst, 0x55ff, lo)
    } else if hi == 0x12 {
        if lo == 0x0 {
            Op::MsrCpsr
        } else if lo == 0x1 {
            Op::Bx
        } else {
            Op::Unimplemented
        }
    } else if hi == 0x13 {
        data_slot(DataOp::Teq, 0x0505, lo)
    } else if hi == 0x14 {
        if lo == 0x0 {
            Op::MrsSpsr
        } else if lo == 0xb {
            Op::Strh(Mode3::Imm, false)
        } else {
            Op::Unimplemented
        }
    } else if hi == 0x15 {
        if lo == 0xb {
            Op::Ldrh(Mode3::Imm, false)
        } else if lo == 0xf {
            Op::Ldrsh(Mode3::Imm, false)
        } else {
            data_slot(DataOp::Cmp, 0x1555, lo)
        }
    } else if hi == 0x16 {
        if lo == 0xb {
            Op::Strh(Mode3::ImmPre, false)
        } else {
            Op::Unimplemented
        }
    } else if hi == 0x18 {
        if lo == 0xb {
            Op::Strh(Mode3::Reg, true)
        } else {
            data_slot(DataOp::Orr, 0x55ff, lo)
        }
    } else if hi == 0x19 {
        if lo == 0xb {
            Op::Ldrh(Mode3::Reg, true)
        } else if lo == 0xd {
            Op::Ldrsb(Mode3::Reg, true)
        } else if lo == 0xf {
            Op::Ldrsh(Mode3::Reg, true)
        } else {
            data_slot(DataOp::Orrs, 0x15ff, lo)
        }
    } else if hi == 0x1a {
        data_slot(DataOp::Mov, 0x15ff, lo)
    } else if hi == 0x1b {
        data_slot(DataOp::Movs, 0x155f, lo)
    } else if hi == 0x1c {
        if lo == 0xb {
            Op::Strh(Mode3::Imm, true)
        } else {
            data_slot(DataOp::Bic, 0x15ff, lo)
        }
    } else if hi == 0x1d {
        if lo == 0xb {
            Op::Ldrh(Mode3::Imm, true)
        } else if lo == 0xd {
            Op::Ldrsb(Mode3::Imm, true)
        } else if lo == 0xf {
            Op::Ldrsh(Mode3::Imm, true)
        } else {
            data_slot(DataOp::Bics, 0x0103, lo)
        }
    } else if hi == 0x1e {
        data_slot(DataOp::Mvn, 0x155f, lo)
    } else if hi == 0x1f {
        if lo == 0xb {
            Op::Ldrh(Mode3::ImmPre, true)
        } else {
            Op::Unimplemented
        }
    } else {
        Op::Unimplemented
    }
}

/// Rows 0x20 to 0x3f: data processing with an immediate operand.
pub open spec fn immediate_row(hi: u32) -> Op {
    if hi == 0x20 {
        Op::Data(DataOp::And, Mode1::Imm)
    } else if hi == 0x21 {
        Op::Data(DataOp::Ands, Mode1::Imm)
    } else if hi == 0x22 {
        Op::Data(DataOp::Eor, Mode1::Imm)
    } else if hi == 0x23 {
        Op::Data(DataOp::Eors, Mode1::Imm)
    } else if hi == 0x24 {
        Op::Data(DataOp::Sub, Mode1::Imm)
    } else if hi == 0x25 {
        Op::Data(DataOp::Subs, Mode1::Imm)
    } else if hi == 0x26 {
        Op::Data(DataOp::Rsb, Mode1::Imm)
    } else if hi == 0x27 {
        Op::Data(DataOp::Rsbs, Mode1::Imm)
    } else if hi == 0x28 {
        Op::Data(DataOp::Add, Mode1::Imm)
    } else if hi == 0x29 {
        Op::Data(DataOp::Adds, Mode1::Imm)
    } else if hi == 0x31 {
        Op::Data(DataOp::Tst, Mode1::Imm)
    } else if hi == 0x35 {
        Op::Data(DataOp::Cmp, Mode1::Imm)
    } else if hi == 0x37 {
        Op::Data(DataOp::Cmn, Mode1::Imm)
    } else if hi == 0x38 {
        Op::Data(DataOp::Orr, Mode1::Imm)
    } else if hi == 0x39 {
        Op::Data(DataOp::Orrs, Mode1::Imm)
    } else if hi == 0x3a {
        Op::Data(DataOp::Mov, Mode1::Imm)
    } else if hi == 0x3c {
        Op::Data(DataOp::Bic, Mode1::Imm)
    } else if hi == 0x3d {
        Op::Data(DataOp::Bics, Mode1::Imm)
    } else if hi == 0x3e {
        Op::Data(DataOp::Mvn, Mode1::Imm)
    } else {
        Op::Unimplemented
    }
}

/// Rows 0x40 to 0x7f: transfers of a word or a byte.
pub open spec fn single_row(hi: u32, lo: u32) -> Op {
    if hi == 0x44 {
        Op::Strb(Mode2::ImmPost, false)
    } else if hi == 0x48 {
        Op::Str(Mode2::ImmPost, true)
    } else if hi == 0x49 {
        Op::Ldr(Mode2::ImmPost, true)
    } else if hi == 0x4c {
        Op::Strb(Mode2::ImmPost, true)
    } else if hi == 0x4d {
        Op::Ldrb(Mode2::ImmPost, true)
    } else if hi == 0x50 {
        Op::Str(Mode2::Imm, false)
    } else if hi == 0x51 {
        Op::Ldr(Mode2::Imm, false)
    } else if hi == 0x52 {
        Op::Str(Mode2::ImmPre, false)
    } else if hi == 0x53 {
        Op::Ldr(Mode2::ImmPre, false)
    } else if hi == 0x54 {
        Op::Strb(Mode2::Imm, false)
    } else if hi == 0x55 {
        Op::Ldrb(Mode2::Imm, false)
    } else if hi == 0x58 {
        Op::Str(Mode2::Imm, true)
    } else if hi == 0x59 {
        Op::Ldr(Mode2::Imm, true)
    } else if hi == 0x5a {
        Op::Str(Mode2::ImmPre, true)
    } else if hi == 0x5b {
        Op::Ldr(Mode2::ImmPre, true)
    } else if hi == 0x5c {
        Op::Strb(Mode2::Imm, true)
    } else if hi == 0x5d {
        Op::Ldrb(Mode2::Imm, true)
    } else if hi == 0x5e {
        Op::Strb(Mode2::ImmPre, true)
    } else if hi == 0x5f {
        Op::Ldrb(Mode2::ImmPre, true)
    } else if hi == 0x78 {
        if lo == 0x0 || lo == 0x8 {
            Op::Str(Mode2::LslReg, true)
        } else {
            Op::Unimplemented
        }
    } else if hi == 0x79 {
        if lo == 0x0 || lo == 0x8 {
            Op::Ldr(Mode2::LslReg, true)
        } else {
            Op::Unimplemented
        }
    } else if hi == 0x7b {
        if lo == 0x0 {
            Op::Ldr(Mode2::LslRegPre, true)
        } else {
            Op::Unimplemented
        }
    } else if hi == 0x7c {
        if lo == 0x0 || lo == 0x8 {
            Op::Strb(Mode2::LslReg, true)
        } else {
            Op::Unimplemented
        }
    } else if hi == 0x7d {
        if lo == 0x0 || lo == 0x8 {
            Op::Ldrb(Mode2::LslReg, true)
        } else {
            Op::Unimplemented
        }
    } else if hi == 0x7e {
        if lo == 0x0 || lo == 0x8 {
            Op::Strb(Mode2::LslRegPre, true)
        } else {
            Op::Unimplemented
        }
    } else if hi == 0x7f {
        if lo == 0x0 || lo == 0x8 {
            Op::Ldrb(Mode2::LslRegPre, true)
        } else {
            Op::Unimplemented
        }
    } else {
        Op::Unimplemented
    }
}

/// Rows 0x80 to 0x9f: block transfers.
pub open spec fn block_row(hi: u32) -> Op {
    if hi == 0x88 {
        Op::Stm { up: true, pre: false, wb: false }
    } else if hi == 0x89 {
        Op::Ldm { up: true, pre: false, wb: false }
    } else if hi == 0x8a {
        Op::Stm { up: true, pre: false, wb: true }
    } else if hi == 0x8b {
        Op::Ldm { up: true, pre: false, wb: true }
    } else if hi == 0x8f {
        Op::Ldms { up: true, pre: false, wb: true }
    } else if hi == 0x91 {
        Op::Ldm { up: false, pre: true, wb: false }
    } else if hi == 0x92 {
        Op::Stm { up: false, pre: true, wb: true }
    } else {
        Op::Unimplemented
    }
}

/// The slot of the dispatch table at `index`: the high eight bits of the
/// index select the row, the low four bits the column.
#[verifier::opaque]
pub open spec fn slot(index: u32) -> Op {
    let hi = index / 16;
    let lo = index % 16;
    if hi < 0x20 {
        register_row(hi, lo)
    } else if hi < 0x40 {
        immediate_row(hi)
    } else if hi < 0x80 {
        single_row(hi, lo)
    } else if hi < 0xa0 {
        block_row(hi)
    } else if hi < 0xb0 {
        Op::B
    } else if hi < 0xc0 {
        Op::Bl
    } else if hi < 0xf0 {
        Op::Unimplemented
    } else {
        Op::Swi
    }
}

fn decode_column_mode(lo: u32) -> (r: Option<Mode1>)
    ensures
        r == column_mode(lo),
{
    if lo == 0x0 || lo == 0x8 {
        Some(Mode1::LslImm)
    } else if lo == 0x1 {
        Some(Mode1::LslReg)
    } else if lo == 0x2 || lo == 0xa {
        Some(Mode1::LsrImm)
    } else if lo == 0x3 {
        Some(Mode1::LsrReg)
    } else if lo == 0x4 || lo == 0xc {
        Some(Mode1::AsrImm)
    } else if lo == 0x5 {
        Some(Mode1::AsrReg)
    } else if lo == 0x6 || lo == 0xe {
        Some(Mode1::RorImm)
    } else if lo == 0x7 {
        Some(Mode1::RorReg)
    } else {
        None
    }
}

fn decode_data_slot(op: DataOp, columns: u32, lo: u32) -> (r: Op)
    requires
        lo < 16,
    ensures
        r == data_slot(op, columns, lo),
{
    match decode_column_mode(lo) {
        Some(mode) => if test_bit(columns, lo) {
            Op::Data(op, mode)
        } else {
            Op::Unimplemented
        },
        None => Op::Unimplemented,
    }
}

fn decode_register_row(hi: u32, lo: u32) -> (r: Op)
    requires
        lo < 16,
    ensures
        r == register_row(hi, lo),
{
    if hi == 0x00 {
        if lo == 0x9 {
            Op::Mul(false)
        } else {
            decode_data_slot(DataOp::And, 0x15ff, lo)
        }
    } else if hi == 0x01 {
        if lo == 0x9 {
            Op::Mul(true)
        } else {
            Op::Unimplemented
        }
    } else if hi == 0x02 {
        if lo == 0x9 {
            Op::Mla(false)
        } else {
            decode_data_slot(DataOp::Eor, 0x15ff, lo)
        }
    } else if hi == 0x03 {
        decode_data_slot(DataOp::Eors, 0x1010, lo)
    } else if hi == 0x04 {
        decode_data_slot(DataOp::Sub, 0x1515, lo)
    } else if hi == 0x05 {
        decode_data_slot(DataOp::Subs, 0x0505, lo)
    } else if hi == 0x06 {
        decode_data_slot(DataOp::Rsb, 0x0505, lo)
    } else if hi == 0x07 {
        decode_data_slot(DataOp::Rsbs, 0x0505, lo)
    } else if hi == 0x08 {
        decode_data_slot(DataOp::Add, 0x15ff, lo)
    } else if hi == 0x09 {
        decode_data_slot(DataOp::Adds, 0x15ff, lo)
    } else if hi == 0x0a {
        decode_data_slot(DataOp::Adc, 0x0101, lo)
    } else if hi == 0x0c {
        if lo == 0xb {
            Op::Strh(Mode3::ImmPost, true)
        } else {
            Op::Unimplemented
        }
    } else if hi == 0x0d {
        if lo == 0xb {
            Op::Ldrh(Mode3::ImmPost, true)
        } else {
            Op::Unimplemented
        }
    } else if hi == 0x10 {
        if lo == 0x0 {
            Op::MrsCpsr
        } else {
            Op::Unimplemented
        }
    } else if hi == 0x11 {
        decode_data_slot(DataOp::Tst, 0x55ff, lo)
    } else if hi == 0x12 {
        if lo == 0x0 {
            Op::MsrCpsr
        } else if lo == 0x1 {
            Op::Bx
        } else {
            Op::Unimplemented
        }
    } else if hi == 0x13 {
        decode_data_slot(DataOp::Teq, 0x0505, lo)
    } else if hi == 0x14 {
        if lo == 0x0 {
            Op::MrsSpsr
        } else if lo == 0xb {
            Op::Strh(Mode3::Imm, false)
        } else {
            Op::Unimplemented
        }
    } else if hi == 0x15 {
        if lo == 0xb {
            Op::Ldrh(Mode3::Imm, false)
        } else if lo == 0xf {
            Op::Ldrsh(Mode3::Imm, false)
        } else {
            decode_data_slot(DataOp::Cmp, 0x1555, lo)
        }
    } else if hi == 0x16 {
        if lo == 0xb {
            Op::Strh(Mode3::ImmPre, false)
        } else {
            Op::Unimplemented
        }
    } else if hi == 0x18 {
        if lo == 0xb {
            Op::Strh(Mode3::Reg, true)
        } else {
            decode_data_slot(DataOp::Orr, 0x55ff, lo)
        }
    } else if hi == 0x19 {
        if lo == 0xb {
            Op::Ldrh(Mode3::Reg, true)
        } else if lo == 0xd {
            Op::Ldrsb(Mode3::Reg, true)
        } else if lo == 0xf {
            Op::Ldrsh(Mode3::Reg, true)
        } else {
            decode_data_slot(DataOp::Orrs, 0x15ff, lo)
        }
    } else if hi == 0x1a {
        decode_data_slot(DataOp::Mov, 0x15ff, lo)
    } else if hi == 0x1b {
        decode_data_slot(DataOp::Movs, 0x155f, lo)
    } else if hi == 0x1c {
        if lo == 0xb {
            Op::Strh(Mode3::Imm, true)
        } else {
            decode_data_slot(DataOp::Bic, 0x15ff, lo)
        }
    } else if hi == 0x1d {
        if lo == 0xb {
            Op::Ldrh(Mode3::Imm, true)
        } else if lo == 0xd {
            Op::Ldrsb(Mode3::Imm, true)
        } else if lo == 0xf {
            Op::Ldrsh(Mode3::Imm, true)
        } else {
            decode_data_slot(DataOp::Bics, 0x0103, lo)
        }
    } else if hi == 0x1e {
        decode_data_slot(DataOp::Mvn, 0x155f, lo)
    } else if hi == 0x1f {
        if lo == 0xb {
            Op::Ldrh(Mode3::ImmPre, true)
        } else {
            Op::Unimplemented
        }
    } else {
        Op::Unimplemented
    }
}

fn decode_immediate_row(hi: u32) -> (r: Op)
    ensures
        r == immediate_row(hi),
{
    if hi == 0x20 {
        Op::Data(DataOp::And, Mode1::Imm)
    } else if hi == 0x21 {
        Op::Data(DataOp::Ands, Mode1::Imm)
    } else if hi == 0x22 {
        Op::Data(DataOp::Eor, Mode1::Imm)
    } else if hi == 0x23 {
        Op::Data(DataOp::Eors, Mode1::Imm)
    } else if hi == 0x24 {
        Op::Data(DataOp::Sub, Mode1::Imm)
    } else if hi == 0x25 {
        Op::Data(DataOp::Subs, Mode1::Imm)
    } else if hi == 0x26 {
        Op::Data(DataOp::Rsb, Mode1::Imm)
    } else if hi == 0x27 {
        Op::Data(DataOp::Rsbs, Mode1::Imm)
    } else if hi == 0x28 {
        Op::Data(DataOp::Add, Mode1::Imm)
    } else if hi == 0x29 {
        Op::Data(DataOp::Adds, Mode1::Imm)
    } else if hi == 0x31 {
        Op::Data(DataOp::Tst, Mode1::Imm)
    } else if hi == 0x35 {
        Op::Data(DataOp::Cmp, Mode1::Imm)
    } else if hi == 0x37 {
        Op::Data(DataOp::Cmn, Mode1::Imm)
    } else if hi == 0x38 {
        Op::Data(DataOp::Orr, Mode1::Imm)
    } else if hi == 0x39 {
        Op::Data(DataOp::Orrs, Mode1::Imm)
    } else if hi == 0x3a {
        Op::Data(DataOp::Mov, Mode1::Imm)
    } else if hi == 0x3c {
        Op::Data(DataOp::Bic, Mode1::Imm)
    } else if hi == 0x3d {
        Op::Data(DataOp::Bics, Mode1::Imm)
    } else if hi == 0x3e {
        Op::Data(DataOp::Mvn, Mode1::Imm)
    } else {
        Op::Unimplemented
    }
}

fn decode_single_row(hi: u32, lo: u32) -> (r: Op)
    ensures
        r == single_row(hi, lo),
{
    if hi == 0x44 {
        Op::Strb(Mode2::ImmPost, false)
    } else if hi == 0x48 {
        Op::Str(Mode2::ImmPost, true)
    } else if hi == 0x49 {
        Op::Ldr(Mode2::ImmPost, true)
    } else if hi == 0x4c {
        Op::Strb(Mode2::ImmPost, true)
    } else if hi == 0x4d {
        Op::Ldrb(Mode2::ImmPost, true)
    } else if hi == 0x50 {
        Op::Str(Mode2::Imm, false)
    } else if hi == 0x51 {
        Op::Ldr(Mode2::Imm, false)
    } else if hi == 0x52 {
        Op::Str(Mode2::ImmPre, false)
    } else if hi == 0x53 {
        Op::Ldr(Mode2::ImmPre, false)
    } else if hi == 0x54 {
        Op::Strb(Mode2::Imm, false)
    } else if hi == 0x55 {
        Op::Ldrb(Mode2::Imm, false)
    } else if hi == 0x58 {
        Op::Str(Mode2::Imm, true)
    } else if hi == 0x59 {
        Op::Ldr(Mode2::Imm, true)
    } else if hi == 0x5a {
        Op::Str(Mode2::ImmPre, true)
    } else if hi == 0x5b {
        Op::Ldr(Mode2::ImmPre, true)
    } else if hi == 0x5c {
        Op::Strb(Mode2::Imm, true)
    } else if hi == 0x5d {
        Op::Ldrb(Mode2::Imm, true)
    } else if hi == 0x5e {
        Op::Strb(Mode2::ImmPre, true)
    } else if hi == 0x5f {
        Op::Ldrb(Mode2::ImmPre, true)
    } else if hi == 0x78 {
        if lo == 0x0 || lo == 0x8 {
            Op::Str(Mode2::LslReg, true)
        } else {
            Op::Unimplemented
        }
    } else if hi == 0x79 {
        if lo == 0x0 || lo == 0x8 {
            Op::Ldr(Mode2::LslReg, true)
        } else {
            Op::Unimplemented
        }
    } else if hi == 0x7b {
        if lo == 0x0 {
            Op::Ldr(Mode2::LslRegPre, true)
        } else {
            Op::Unimplemented
        }
    } else if hi == 0x7c {
        if lo == 0x0 || lo == 0x8 {
            Op::Strb(Mode2::LslReg, true)
        } else {
            Op::Unimplemented
        }
    } else if hi == 0x7d {
        if lo == 0x0 || lo == 0x8 {
            Op::Ldrb(Mode2::LslReg, true)
        } else {
            Op::Unimplemented
        }
    } else if hi == 0x7e {
        if lo == 0x0 || lo == 0x8 {
            Op::Strb(Mode2::LslRegPre, true)
        } else {
            Op::Unimplemented
        }
    } else if hi == 0x7f {
        if lo == 0x0 || lo == 0x8 {
            Op::Ldrb(Mode2::LslRegPre, true)
        } else {
            Op::Unimplemented
        }
    } else {
        Op::Unimplemented
    }
}

fn decode_block_row(hi: u32) -> (r: Op)
    ensures
        r == block_row(hi),
{
    if hi == 0x88 {
        Op::Stm { up: true, pre: false, wb: false }
    } else if hi == 0x89 {
        Op::Ldm { up: true, pre: false, wb: false }
    } else if hi == 0x8a {
        Op::Stm { up: true, pre: false, wb: true }
    } else if hi == 0x8b {
        Op::Ldm { up: true, pre: false, wb: true }
    } else if hi == 0x8f {
        Op::Ldms { up: true, pre: false, wb: true }
    } else if hi == 0x91 {
        Op::Ldm { up: false, pre: true, wb: false }
    } else if hi == 0x92 {
        Op::Stm { up: false, pre: true, wb: true }
    } else {
        Op::Unimplemented
    }
}

/// Look up the slot of the dispatch table at `index`.
pub fn decode(index: u32) -> (r: Op)
    ensures
        r == slot(index),
{
    proof {
        reveal(slot);
    }
    let hi = index / 16;
    let lo = index % 16;
    if hi < 0x20 {
        decode_register_row(hi, lo)
    } else if hi < 0x40 {
        decode_immediate_row(hi)
    } else if hi < 0x80 {
        decode_single_row(hi, lo)
    } else if hi < 0xa0 {
        decode_block_row(hi)
    } else if hi < 0xb0 {
        Op::B
    } else if hi < 0xc0 {
        Op::Bl
    } else if hi < 0xf0 {
        Op::Unimplemented
    } else {
        Op::Swi
    }
}

} // verus!
