//! Laws of the interpreter, proved from the semantics of its kernels.
use vstd::prelude::*;
use crate::bits::{
    bit, bits_set_below, law_sign_is_bit_31, lemma_bits_set_below_bound, popcount, sign32,
    sign_extend16,
};
use crate::cpu::armv4_is::{condition_holds, execute_spec, op_spec, Instruction};
use crate::cpu::block::{
    block_is_valid, ldm_spec, ldms_spec, load_registers, slot_address, start_wb_spec, stm_spec,
    store_registers,
};
use crate::cpu::data::{multiply_spec, DataOp};
use crate::cpu::operand::Mode1;
use crate::cpu::table::{block_row, immediate_row, register_row, single_row, slot, Op};
use crate::cpu::transfer::{written_back, Mode2, Mode3, Single};
use crate::cpu::{
    bank_of_mode, merge_fields, BusAccess, CpuState, ExecError, Failure, CONTROL_LIMIT,
};
use crate::memory::lemma_load_after_store;

verus! {

/// An instruction whose condition does not hold changes nothing but the
/// program counter, which moves on by 4.
pub proof fn law_condition_false(w: u32, s: CpuState)
    requires
        condition_holds(Instruction(w).condition_code_spec(), s.n, s.z, s.c, s.v) == Some(false),
    ensures
        execute_spec(w, s) == Ok::<CpuState, Failure>(
            CpuState { pc: s.pc.wrapping_add(4), next_pc: s.pc.wrapping_add(8), ..s },
        ),
{
}

/// True for the slots of the branches, of the software interrupt and of
/// the block transfers.
pub open spec fn is_branch_or_block(op: Op) -> bool {
    op is B || op is Bl || op is Bx || op is Swi || op is Ldm || op is Ldms || op is Stm
}

/// An instruction that is no branch, no software interrupt and no block
/// transfer, and whose destination field does not name the program
/// counter, leaves the program counter at the address that follows it.
pub proof fn law_sequential(w: u32, s: CpuState)
    requires
        !is_branch_or_block(slot(Instruction(w).opcode_spec())),
        Instruction(w).rd_spec() != 15,
        execute_spec(w, s) is Ok,
    ensures
        execute_spec(w, s)->Ok_0.pc == s.pc.wrapping_add(4),
{
    let s0 = s.begin();
    if condition_holds(Instruction(w).condition_code_spec(), s.n, s.z, s.c, s.v) == Some(true) {
        lemma_kernel_keeps_next_pc(slot(Instruction(w).opcode_spec()), w, s0);
    }
}

/// A kernel that is no branch, no software interrupt and no block
/// transfer, and whose destination field does not name the program
/// counter, does not jump.
pub proof fn lemma_kernel_keeps_next_pc(op: Op, w: u32, s: CpuState)
    requires
        !is_branch_or_block(op),
        Instruction(w).rd_spec() != 15,
        op_spec(op, w, s) is Ok,
    ensures
        op_spec(op, w, s)->Ok_0.next_pc == s.next_pc,
        op_spec(op, w, s)->Ok_0.pc == s.pc,
{
    match op {
        Op::Data(data, mode) => lemma_data_keeps_next_pc(data, w, mode, s),
        Op::Mul(flags) => lemma_multiply_keeps_next_pc(w, false, flags, s),
        Op::Mla(flags) => lemma_multiply_keeps_next_pc(w, true, flags, s),
        Op::Ldr(mode, up) => lemma_single2_keeps_next_pc(Single::Ldr, w, mode, up, s),
        Op::Str(mode, up) => lemma_single2_keeps_next_pc(Single::Str, w, mode, up, s),
        Op::Ldrb(mode, up) => lemma_single2_keeps_next_pc(Single::Ldrb, w, mode, up, s),
        Op::Strb(mode, up) => lemma_single2_keeps_next_pc(Single::Strb, w, mode, up, s),
        Op::Ldrh(mode, up) => lemma_single3_keeps_next_pc(Single::Ldrh, w, mode, up, s),
        Op::Ldrsh(mode, up) => lemma_single3_keeps_next_pc(Single::Ldrsh, w, mode, up, s),
        Op::Strh(mode, up) => lemma_single3_keeps_next_pc(Single::Strh, w, mode, up, s),
        Op::Ldrsb(mode, up) => lemma_single3_keeps_next_pc(Single::Ldrsb, w, mode, up, s),
        _ => {},
    }
}

proof fn lemma_data_keeps_next_pc(op: DataOp, w: u32, mode: Mode1, s: CpuState)
    requires
        Instruction(w).rd_spec() != 15,
        op.execute_spec(w, mode, s) is Ok,
    ensures
        op.execute_spec(w, mode, s)->Ok_0.next_pc == s.next_pc,
        op.execute_spec(w, mode, s)->Ok_0.pc == s.pc,
{
    reveal(DataOp::execute_spec);
}

proof fn lemma_multiply_keeps_next_pc(w: u32, accumulate: bool, flags: bool, s: CpuState)
    requires
        multiply_spec(w, accumulate, flags, s) is Ok,
    ensures
        multiply_spec(w, accumulate, flags, s)->Ok_0.next_pc == s.next_pc,
        multiply_spec(w, accumulate, flags, s)->Ok_0.pc == s.pc,
{
    reveal(multiply_spec);
}

proof fn lemma_transfer_keeps_next_pc(kind: Single, w: u32, addr: u32, s: CpuState)
    requires
        Instruction(w).rd_spec() != 15,
        kind.transfer_spec(w, addr, s) is Ok,
    ensures
        kind.transfer_spec(w, addr, s)->Ok_0.next_pc == s.next_pc,
        kind.transfer_spec(w, addr, s)->Ok_0.pc == s.pc,
{
}

#[verifier::rlimit(30)]
proof fn lemma_single2_keeps_next_pc(kind: Single, w: u32, mode: Mode2, up: bool, s: CpuState)
    requires
        Instruction(w).rd_spec() != 15,
        kind.execute2_spec(w, mode, up, s) is Ok,
    ensures
        kind.execute2_spec(w, mode, up, s)->Ok_0.next_pc == s.next_pc,
        kind.execute2_spec(w, mode, up, s)->Ok_0.pc == s.pc,
{
    reveal(Single::execute2_spec);
    let (addr, wb) = mode.address_spec(w, up, s)->Ok_0;
    lemma_transfer_keeps_next_pc(kind, w, addr, written_back(w, wb, s));
}

#[verifier::rlimit(30)]
proof fn lemma_single3_keeps_next_pc(kind: Single, w: u32, mode: Mode3, up: bool, s: CpuState)
    requires
        Instruction(w).rd_spec() != 15,
        kind.execute3_spec(w, mode, up, s) is Ok,
    ensures
        kind.execute3_spec(w, mode, up, s)->Ok_0.next_pc == s.next_pc,
        kind.execute3_spec(w, mode, up, s)->Ok_0.pc == s.pc,
{
    reveal(Single::execute3_spec);
    let (addr, wb) = mode.address_spec(w, up, s)->Ok_0;
    lemma_transfer_keeps_next_pc(kind, w, addr, written_back(w, wb, s));
}

/// The status register word and the flags and control bits that it is made
/// of determine each other.
pub proof fn law_status_word_round_trip(s: CpuState, word: u32)
    requires
        s.control < CONTROL_LIMIT,
    ensures
        s.with_cpsr(s.cpsr()) == s,
        s.with_cpsr(word).cpsr() == word,
        s.cpsr() >= 0x8000_0000 <==> s.n,
{
}

/// The bytes of a status register word that a field mask selects: bit `k`
/// of the mask stands for byte `k`.
pub open spec fn field_bits(mask: u32) -> u32 {
    let b0 = if mask & 1 != 0 { 0x0000_00ffu32 } else { 0 };
    let b1 = if mask & 2 != 0 { 0x0000_ff00u32 } else { 0 };
    let b2 = if mask & 4 != 0 { 0x00ff_0000u32 } else { 0 };
    let b3 = if mask & 8 != 0 { 0xff00_0000u32 } else { 0 };
    b0 | b1 | b2 | b3
}

/// A move to the status register replaces the bits of the bytes that the
/// field mask selects and keeps the others.
pub proof fn law_fields_are_masked(old: u32, val: u32, mask: u32)
    requires
        mask < 16,
    ensures
        merge_fields(old, val, mask) == (old & !field_bits(mask)) | (val & field_bits(
            mask,
        )),
{
    let b0 = if mask % 2 == 1 { val % 0x100 } else { old % 0x100 };
    let b1 = if mask / 2 % 2 == 1 { val / 0x100 % 0x100 } else { old / 0x100 % 0x100 };
    let b2 = if mask / 4 % 2 == 1 { val / 0x1_0000 % 0x100 } else { old / 0x1_0000 % 0x100 };
    let b3 = if mask / 8 % 2 == 1 { val / 0x100_0000 } else { old / 0x100_0000 };
    let m = field_bits(mask);
    assert(merge_fields(old, val, mask) == b0 + b1 * 0x100 + b2 * 0x1_0000 + b3
        * 0x100_0000);
    assert(b0 + b1 * 0x100 + b2 * 0x1_0000 + b3 * 0x100_0000 == (old & !m) | (val & m))
        by (bit_vector)
        requires
            mask < 16,
            b0 == (if mask % 2 == 1 { val % 0x100 } else { old % 0x100 }),
            b1 == (if mask / 2 % 2 == 1 { val / 0x100 % 0x100 } else { old / 0x100 % 0x100 }),
            b2 == (if mask / 4 % 2 == 1 {
                val / 0x1_0000 % 0x100
            } else {
                old / 0x1_0000 % 0x100
            }),
            b3 == (if mask / 8 % 2 == 1 { val / 0x100_0000 } else { old / 0x100_0000 }),
            m == (if mask & 1 != 0 { 0x0000_00ffu32 } else { 0 }) | (if mask & 2 != 0 {
                0x0000_ff00u32
            } else {
                0
            }) | (if mask & 4 != 0 { 0x00ff_0000u32 } else { 0 }) | (if mask & 8 != 0 {
                0xff00_0000u32
            } else {
                0
            }),
    ;
}

/// Each mode but the user and system modes, which share theirs, has a
/// stack pointer and a link register of its own: a write to one of them
/// does not show in a mode of another bank. Registers 0 to 7 are the same
/// in every mode.
pub proof fn law_banked_registers(s: CpuState, i: u32, val: u32, control: u32)
    requires
        s.wf(),
        i < 15,
    ensures
        ({
            let other = CpuState { control, ..s };
            let written = CpuState { control, ..s.set_reg(i, val) };
            &&& s.set_reg(i, val).reg(i) == val
            &&& (i == 13 || i == 14) && bank_of_mode(control % 32)
                != s.bank() ==> written.reg(i) == other.reg(i)
            &&& i < 8 ==> written.reg(i) == val
        }),
{
}

/// True for the slots whose kernels may change the condition flags: the
/// data-processing operations that set the flags, the multiplies that do,
/// the move to the status register and the block load that restores it.
pub open spec fn may_change_flags(op: Op) -> bool {
    match op {
        Op::Data(data, _) => data.sets_flags_spec(),
        Op::Mul(flags) | Op::Mla(flags) => flags,
        Op::MsrCpsr => true,
        Op::Ldms { .. } => true,
        _ => false,
    }
}

/// The four condition flags of both states are the same.
pub open spec fn same_flags(a: CpuState, b: CpuState) -> bool {
    a.n == b.n && a.z == b.z && a.c == b.c && a.v == b.v
}

/// No instruction changes the condition flags but those that are meant
/// to: the data-processing operations and multiplies that set the flags,
/// the move to the status register and the block load that restores it.
pub proof fn law_flags_kept(w: u32, s: CpuState)
    requires
        !may_change_flags(slot(Instruction(w).opcode_spec())),
        execute_spec(w, s) is Ok,
    ensures
        same_flags(execute_spec(w, s)->Ok_0, s),
{
    if condition_holds(Instruction(w).condition_code_spec(), s.n, s.z, s.c, s.v) == Some(true) {
        lemma_kernel_keeps_flags(slot(Instruction(w).opcode_spec()), w, s.begin());
    }
}

/// A kernel that is not meant to change the condition flags keeps them.
pub proof fn lemma_kernel_keeps_flags(op: Op, w: u32, s: CpuState)
    requires
        !may_change_flags(op),
        op_spec(op, w, s) is Ok,
    ensures
        same_flags(op_spec(op, w, s)->Ok_0, s),
{
    match op {
        Op::Data(data, mode) => {
            reveal(DataOp::execute_spec);
        },
        Op::Mul(flags) | Op::Mla(flags) => {
            reveal(multiply_spec);
        },
        Op::Ldr(mode, up) => lemma_single2_keeps_flags(Single::Ldr, w, mode, up, s),
        Op::Str(mode, up) => lemma_single2_keeps_flags(Single::Str, w, mode, up, s),
        Op::Ldrb(mode, up) => lemma_single2_keeps_flags(Single::Ldrb, w, mode, up, s),
        Op::Strb(mode, up) => lemma_single2_keeps_flags(Single::Strb, w, mode, up, s),
        Op::Ldrh(mode, up) => lemma_single3_keeps_flags(Single::Ldrh, w, mode, up, s),
        Op::Ldrsh(mode, up) => lemma_single3_keeps_flags(Single::Ldrsh, w, mode, up, s),
        Op::Strh(mode, up) => lemma_single3_keeps_flags(Single::Strh, w, mode, up, s),
        Op::Ldrsb(mode, up) => lemma_single3_keeps_flags(Single::Ldrsb, w, mode, up, s),
        Op::Ldm { up, pre, wb } => {
            reveal(ldm_spec);
            let list = Instruction(w).register_list_spec();
            let start = start_wb_spec(
                s.reg(Instruction(w).rn_spec()),
                list,
                up,
                pre,
            ).0;
            lemma_load_registers_keeps_flags(list, start, 0, 16, s);
        },
        Op::Stm { up, pre, wb } => {
            reveal(stm_spec);
            let list = Instruction(w).register_list_spec();
            let start = start_wb_spec(
                s.reg(Instruction(w).rn_spec()),
                list,
                up,
                pre,
            ).0;
            lemma_store_registers_keeps_flags(list, start, 0, 16, s);
        },
        _ => {},
    }
}

#[verifier::rlimit(30)]
proof fn lemma_single2_keeps_flags(kind: Single, w: u32, mode: Mode2, up: bool, s: CpuState)
    requires
        kind.execute2_spec(w, mode, up, s) is Ok,
    ensures
        same_flags(kind.execute2_spec(w, mode, up, s)->Ok_0, s),
{
    reveal(Single::execute2_spec);
}

#[verifier::rlimit(30)]
proof fn lemma_single3_keeps_flags(kind: Single, w: u32, mode: Mode3, up: bool, s: CpuState)
    requires
        kind.execute3_spec(w, mode, up, s) is Ok,
    ensures
        same_flags(kind.execute3_spec(w, mode, up, s)->Ok_0, s),
{
    reveal(Single::execute3_spec);
}

proof fn lemma_load_registers_keeps_flags(list: u32, start: u32, i: nat, n: nat, s: CpuState)
    requires
        load_registers(list, start, i, n, s) is Ok,
    ensures
        same_flags(load_registers(list, start, i, n, s)->Ok_0, s),
        load_registers(list, start, i, n, s)->Ok_0.control == s.control,
    decreases n - i,
{
    if i < n {
        if bit(list, i as u32) {
            let (val, s1) = s.load(4, slot_address(start, list, i))->Ok_0;
            lemma_load_registers_keeps_flags(
                list,
                start,
                i + 1,
                n,
                s1.set_reg_pc_mask(i as u32, val),
            );
        } else {
            lemma_load_registers_keeps_flags(list, start, i + 1, n, s);
        }
    }
}

proof fn lemma_store_registers_keeps_flags(list: u32, start: u32, i: nat, n: nat, s: CpuState)
    requires
        store_registers(list, start, i, n, s) is Ok,
    ensures
        same_flags(store_registers(list, start, i, n, s)->Ok_0, s),
        store_registers(list, start, i, n, s)->Ok_0.control == s.control,
    decreases n - i,
{
    if i < n {
        if bit(list, i as u32) {
            let s1 = s.store(4, slot_address(start, list, i), s.reg(i as u32))->Ok_0;
            lemma_store_registers_keeps_flags(list, start, i + 1, n, s1);
        } else {
            lemma_store_registers_keeps_flags(list, start, i + 1, n, s);
        }
    }
}

/// A data-processing instruction that writes the program counter makes
/// the CPU continue at the value written, aligned to the size of an
/// instruction.
pub proof fn law_write_to_pc_jumps(op: DataOp, mode: Mode1, w: u32, s: CpuState)
    requires
        slot(Instruction(w).opcode_spec()) == Op::Data(op, mode),
        condition_holds(Instruction(w).condition_code_spec(), s.n, s.z, s.c, s.v) == Some(true),
        Instruction(w).rd_spec() == 15,
        execute_spec(w, s) is Ok,
    ensures
        ({
            let result = op.result_spec(
                s.reg(Instruction(w).rn_spec()),
                mode.value_spec(w, s.begin()),
                s.c,
            );
            execute_spec(w, s)->Ok_0.pc == s.fetch_align(result)
        }),
{
    reveal(DataOp::execute_spec);
}

/// After a data-processing instruction that sets the flags, the zero flag
/// tells whether the result is zero and the negative flag is bit 31 of
/// the result.
pub proof fn law_zero_and_negative(op: DataOp, w: u32, mode: Mode1, s: CpuState)
    requires
        op.sets_flags_spec(),
        op.execute_spec(w, mode, s) is Ok,
    ensures
        ({
            let result = op.result_spec(
                s.reg(Instruction(w).rn_spec()),
                mode.value_spec(w, s),
                s.c,
            );
            let after = op.execute_spec(w, mode, s)->Ok_0;
            &&& after.z == (result == 0)
            &&& after.n == sign32(result)
            &&& after.n == bit(result, 31)
        }),
{
    reveal(DataOp::execute_spec);
    let result = op.result_spec(s.reg(Instruction(w).rn_spec()), mode.value_spec(w, s), s.c);
    law_sign_is_bit_31(result);
}

/// The number that a word stands for when it is read as a two's
/// complement number.
pub open spec fn signed(x: u32) -> int {
    if sign32(x) {
        x - 0x1_0000_0000
    } else {
        x as int
    }
}

/// True when `n` is a number that 32 bits hold in two's complement.
pub open spec fn fits_signed(n: int) -> bool {
    -0x8000_0000 <= n < 0x8000_0000
}

/// The overflow flag of an operation that sets it tells that the signed
/// sum or difference of the operands cannot be held in 32 bits, and the
/// carry flag of an addition tells that the unsigned sum cannot; after a
/// subtraction the carry flag tells that no borrow was needed.
pub proof fn law_overflow_is_signed_overflow(op: DataOp, a: u32, b: u32, shifter: bool, v: bool)
    ensures
        op == DataOp::Adds || op == DataOp::Cmn ==> op.overflow_spec(a, b, v) == !fits_signed(
            signed(a) + signed(b),
        ),
        op == DataOp::Subs || op == DataOp::Cmp ==> op.overflow_spec(a, b, v) == !fits_signed(
            signed(a) - signed(b),
        ),
        op == DataOp::Rsbs ==> op.overflow_spec(a, b, v) == !fits_signed(signed(b) - signed(a)),
        op == DataOp::Adds ==> op.carry_spec(a, b, shifter) == (a + b >= 0x1_0000_0000),
        op == DataOp::Subs || op == DataOp::Cmp ==> op.carry_spec(a, b, shifter) == (a - b >= 0),
        op == DataOp::Rsbs ==> op.carry_spec(a, b, shifter) == (b - a >= 0),
{
}

/// After an addition that sets the flags, and after a comparison with the
/// negated operand, the overflow flag is set when both operands have the
/// same sign and the sum has the other sign.
pub proof fn law_overflow_of_sum(op: DataOp, w: u32, mode: Mode1, s: CpuState)
    requires
        op == DataOp::Adds || op == DataOp::Cmn,
        op.execute_spec(w, mode, s) is Ok,
    ensures
        ({
            let a = s.reg(Instruction(w).rn_spec());
            let b = mode.value_spec(w, s);
            let result = a.wrapping_add(b);
            op.execute_spec(w, mode, s)->Ok_0.v == (sign32(a) == sign32(b) && sign32(a) != sign32(
                result,
            ))
        }),
{
    reveal(DataOp::execute_spec);
}

/// After a subtraction that sets the flags, and after a comparison, the
/// overflow flag is set when the operands have different signs and the
/// difference has not the sign of the operand that is subtracted from:
/// the first operand, but for the reverse subtraction, which subtracts
/// from the second.
pub proof fn law_overflow_of_difference(op: DataOp, w: u32, mode: Mode1, s: CpuState)
    requires
        op == DataOp::Subs || op == DataOp::Cmp || op == DataOp::Rsbs,
        op.execute_spec(w, mode, s) is Ok,
    ensures
        ({
            let rn = s.reg(Instruction(w).rn_spec());
            let operand = mode.value_spec(w, s);
            let a = if op == DataOp::Rsbs {
                operand
            } else {
                rn
            };
            let b = if op == DataOp::Rsbs {
                rn
            } else {
                operand
            };
            let result = a.wrapping_sub(b);
            &&& result == op.result_spec(rn, operand, s.c)
            &&& op.execute_spec(w, mode, s)->Ok_0.v == (sign32(a) != sign32(b) && sign32(a)
                != sign32(result))
        }),
{
    reveal(DataOp::execute_spec);
}

/// Register 15 reads as the address of the instruction being executed
/// plus 8, and so it does in the operand and address evaluators: a
/// register operand shifted left by nothing is that value, and so is the
/// address of a transfer at offset 0.
pub proof fn law_pc_reads_ahead(w: u32, s: CpuState)
    ensures
        s.reg(15) == s.pc.wrapping_add(8),
        s.begin().reg(15) == s.pc.wrapping_add(8),
        Instruction(w).rm_spec() == 15 && Instruction(w).shift_imm_spec() == 0
            ==> Mode1::LslImm.value_spec(w, s) == s.pc.wrapping_add(8),
        Instruction(w).rn_spec() == 15 && w % 0x1000 == 0 ==> Mode2::Imm.address_spec(w, true, s)
            == Ok::<(u32, Option<u32>), ExecError>((s.pc.wrapping_add(8), None)),
        Instruction(w).rn_spec() == 15 && w / 0x100 % 16 == 0 && w % 16 == 0
            ==> Mode3::Imm.address_spec(w, true, s) == Ok::<(u32, Option<u32>), ExecError>(
            (s.pc.wrapping_add(8), None),
        ),
{
    let x = s.pc.wrapping_add(8);
    assert(x << 0u32 == x) by (bit_vector);
}

/// A word stored by STR at an aligned address of a memory is the word
/// that LDR then loads from that address.
#[verifier::rlimit(30)]
pub proof fn law_word_round_trip(store: u32, load: u32, addr: u32, s: CpuState)
    requires
        s.wf(),
        addr % 4 == 0,
        s.bus.is_memory(addr),
        Instruction(load).rd_spec() != 15,
        Single::Str.transfer_spec(store, addr, s) is Ok,
    ensures
        ({
            let stored = Single::Str.transfer_spec(store, addr, s)->Ok_0;
            let loaded = Single::Ldr.transfer_spec(load, addr, stored);
            &&& loaded is Ok
            &&& loaded->Ok_0.reg(Instruction(load).rd_spec()) == s.reg(
                Instruction(store).rd_spec(),
            )
        }),
{
    let val = s.reg(Instruction(store).rd_spec());
    lemma_load_after_store(s.bus, 4, addr, val);
}

/// STR with an immediate offset followed by LDR with the same base and
/// offset, to an aligned address of a memory, loads the word stored.
pub proof fn law_str_then_ldr(store: u32, load: u32, up: bool, s: CpuState)
    requires
        s.wf(),
        Instruction(store).rn_spec() == Instruction(load).rn_spec(),
        store % 0x1000 == load % 0x1000,
        Instruction(load).rd_spec() != 15,
        Mode2::Imm.is_valid_spec(load, up, true, false),
        Single::Str.execute2_spec(store, Mode2::Imm, up, s) is Ok,
        Mode2::Imm.address_spec(store, up, s) is Ok,
        Mode2::Imm.address_spec(store, up, s)->Ok_0.0 % 4 == 0,
        s.bus.is_memory(Mode2::Imm.address_spec(store, up, s)->Ok_0.0),
    ensures
        ({
            let stored = Single::Str.execute2_spec(store, Mode2::Imm, up, s)->Ok_0;
            let loaded = Single::Ldr.execute2_spec(load, Mode2::Imm, up, stored);
            &&& loaded is Ok
            &&& loaded->Ok_0.reg(Instruction(load).rd_spec()) == s.reg(
                Instruction(store).rd_spec(),
            )
        }),
{
    reveal(Single::execute2_spec);
    let addr = Mode2::Imm.address_spec(store, up, s)->Ok_0.0;
    law_word_round_trip(store, load, addr, s);
}

/// A byte stored by STRB in a memory is the byte that LDRB then loads
/// from that address: the low 8 bits of the register stored.
#[verifier::rlimit(30)]
pub proof fn law_byte_round_trip(store: u32, load: u32, addr: u32, s: CpuState)
    requires
        s.wf(),
        s.bus.is_memory(addr),
        Instruction(load).rd_spec() != 15,
        Single::Strb.transfer_spec(store, addr, s) is Ok,
    ensures
        ({
            let stored = Single::Strb.transfer_spec(store, addr, s)->Ok_0;
            let loaded = Single::Ldrb.transfer_spec(load, addr, stored);
            &&& loaded is Ok
            &&& loaded->Ok_0.reg(Instruction(load).rd_spec()) == s.reg(
                Instruction(store).rd_spec(),
            ) % 0x100
        }),
{
    let val = s.reg(Instruction(store).rd_spec());
    lemma_load_after_store(s.bus, 1, addr, val);
}

/// A halfword stored by STRH in a memory comes back from LDRSH as the
/// low 16 bits of the register stored, with their sign extended.
#[verifier::rlimit(30)]
pub proof fn law_halfword_round_trip(store: u32, load: u32, addr: u32, s: CpuState)
    requires
        s.wf(),
        s.bus.is_memory(addr),
        Instruction(load).rd_spec() != 15,
        Single::Strh.transfer_spec(store, addr, s) is Ok,
    ensures
        ({
            let stored = Single::Strh.transfer_spec(store, addr, s)->Ok_0;
            let loaded = Single::Ldrsh.transfer_spec(load, addr, stored);
            &&& loaded is Ok
            &&& loaded->Ok_0.reg(Instruction(load).rd_spec()) == sign_extend16(
                s.reg(Instruction(store).rd_spec()),
            )
        }),
{
    let val = s.reg(Instruction(store).rd_spec());
    lemma_load_after_store(s.bus, 2, addr, val);
}

/// A block transfer with an empty register list is refused.
pub proof fn law_empty_list_is_refused(w: u32, up: bool, pre: bool, wb: bool, s: CpuState)
    requires
        Instruction(w).register_list_spec() == 0,
    ensures
        ldm_spec(w, up, pre, wb, s) is Err,
        ldms_spec(w, up, pre, wb, s) is Err,
        stm_spec(w, up, pre, wb, s) is Err,
{
    reveal(ldm_spec);
    reveal(ldms_spec);
    reveal(stm_spec);
}

/// The accesses on record in `after` are those of `before` followed by
/// `count` accesses of a word, all loads or all stores, at ascending
/// addresses: the first at word number `first` from `start`, each other
/// one word above the one before.
pub open spec fn block_recorded(
    before: Seq<BusAccess>,
    after: Seq<BusAccess>,
    start: u32,
    first: nat,
    count: nat,
    load: bool,
) -> bool {
    &&& after.len() == before.len() + count
    &&& forall|k: int| 0 <= k < before.len() ==> after[k] == before[k]
    &&& forall|j: int|
        0 <= j < count ==> {
            let addr = start.wrapping_add((4 * (first + j)) as u32);
            match #[trigger] after[before.len() + j] {
                BusAccess::Load { addr: a, width } => load && a == addr && width == 4,
                BusAccess::Store { addr: a, width, value } => !load && a == addr && width == 4,
            }
        }
}

/// A register list holds no bit above bit 15, so its set bits are those
/// below bit 16.
pub proof fn lemma_popcount_of_list(list: u32)
    requires
        list < 0x1_0000,
    ensures
        popcount(list) == bits_set_below(list, 16),
        popcount(list) <= 16,
{
    lemma_no_high_bits(list, 32);
    lemma_bits_set_below_bound(list, 16);
}

proof fn lemma_no_high_bits(list: u32, n: nat)
    requires
        list < 0x1_0000,
        16 <= n <= 32,
    ensures
        bits_set_below(list, n) == bits_set_below(list, 16),
    decreases n,
{
    if n > 16 {
        lemma_no_high_bits(list, (n - 1) as nat);
        let i = (n - 1) as u32;
        assert(!bit(list, i)) by (bit_vector)
            requires
                list < 0x1_0000,
                16 <= i < 32,
        ;
    }
}

/// Loading the listed registers from `i` up to `n` makes one load of a
/// word for each of them, at ascending addresses.
pub proof fn lemma_load_registers_recorded(list: u32, start: u32, i: nat, n: nat, s: CpuState)
    requires
        i <= n <= 16,
        load_registers(list, start, i, n, s) is Ok,
    ensures
        block_recorded(
            s.accesses,
            load_registers(list, start, i, n, s)->Ok_0.accesses,
            start,
            bits_set_below(list, i),
            (bits_set_below(list, n) - bits_set_below(list, i)) as nat,
            true,
        ),
    decreases n - i,
{
    lemma_bits_monotonic(list, i, n);
    if i < n {
        lemma_bits_monotonic(list, i + 1, n);
        lemma_bits_set_below_bound(list, n);
        if bit(list, i as u32) {
            let first = bits_set_below(list, i);
            let addr = slot_address(start, list, i);
            let (val, s1) = s.load(4, addr)->Ok_0;
            let s2 = s1.set_reg_pc_mask(i as u32, val);
            lemma_load_registers_recorded(list, start, i + 1, n, s2);
            let after = load_registers(list, start, i, n, s)->Ok_0.accesses;
            let count = (bits_set_below(list, n) - first) as nat;
            assert(s2.accesses == s.accesses.push(BusAccess::Load { addr, width: 4 }));
            assert forall|k: int| 0 <= k < s.accesses.len() implies after[k] == s.accesses[k] by {
                assert(after[k] == s2.accesses[k]);
            }
            assert forall|j: int| 0 <= j < count implies {
                let addr = start.wrapping_add((4 * (first + j)) as u32);
                match #[trigger] after[s.accesses.len() + j] {
                    BusAccess::Load { addr: a, width } => a == addr && width == 4,
                    BusAccess::Store { addr: a, width, value } => false,
                }
            } by {
                if j > 0 {
                    assert(after[s2.accesses.len() + (j - 1)] == after[s.accesses.len() + j]);
                } else {
                    assert(after[s.accesses.len() as int] == s2.accesses[s.accesses.len() as int]);
                }
            }
        } else {
            lemma_load_registers_recorded(list, start, i + 1, n, s);
        }
    }
}

/// Storing the listed registers from `i` up to `n` makes one store of a
/// word for each of them, at ascending addresses.
pub proof fn lemma_store_registers_recorded(list: u32, start: u32, i: nat, n: nat, s: CpuState)
    requires
        i <= n <= 16,
        store_registers(list, start, i, n, s) is Ok,
    ensures
        block_recorded(
            s.accesses,
            store_registers(list, start, i, n, s)->Ok_0.accesses,
            start,
            bits_set_below(list, i),
            (bits_set_below(list, n) - bits_set_below(list, i)) as nat,
            false,
        ),
    decreases n - i,
{
    lemma_bits_monotonic(list, i, n);
    if i < n {
        lemma_bits_monotonic(list, i + 1, n);
        lemma_bits_set_below_bound(list, n);
        if bit(list, i as u32) {
            let first = bits_set_below(list, i);
            let addr = slot_address(start, list, i);
            let s1 = s.store(4, addr, s.reg(i as u32))->Ok_0;
            lemma_store_registers_recorded(list, start, i + 1, n, s1);
            let after = store_registers(list, start, i, n, s)->Ok_0.accesses;
            let count = (bits_set_below(list, n) - first) as nat;
            assert(s1.accesses == s.accesses.push(
                BusAccess::Store { addr, width: 4, value: s.reg(i as u32) },
            ));
            assert forall|k: int| 0 <= k < s.accesses.len() implies after[k] == s.accesses[k] by {
                assert(after[k] == s1.accesses[k]);
            }
            assert forall|j: int| 0 <= j < count implies {
                let addr = start.wrapping_add((4 * (first + j)) as u32);
                match #[trigger] after[s.accesses.len() + j] {
                    BusAccess::Load { addr: a, width } => false,
                    BusAccess::Store { addr: a, width, value } => a == addr && width == 4,
                }
            } by {
                if j > 0 {
                    assert(after[s1.accesses.len() + (j - 1)] == after[s.accesses.len() + j]);
                } else {
                    assert(after[s.accesses.len() as int] == s1.accesses[s.accesses.len() as int]);
                }
            }
        } else {
            lemma_store_registers_recorded(list, start, i + 1, n, s);
        }
    }
}

/// The count of set bits below `n` grows with `n`.
pub proof fn lemma_bits_monotonic(x: u32, i: nat, n: nat)
    requires
        i <= n,
    ensures
        bits_set_below(x, i) <= bits_set_below(x, n),
    decreases n - i,
{
    if i < n {
        lemma_bits_monotonic(x, i, (n - 1) as nat);
    }
}

/// A block stored downwards with the address moved before each transfer
/// lies where a block loaded upwards from the base written back lies, and
/// that load writes the first base back; the same holds of a block stored
/// upwards with the address moved before and loaded downwards with the
/// address moved after.
pub proof fn law_push_then_pop(base: u32, list: u32)
    requires
        list < 0x1_0000,
    ensures
        ({
            let (start, end) = start_wb_spec(base, list, false, true);
            start_wb_spec(end, list, true, false) == (start, base)
        }),
        ({
            let (start, end) = start_wb_spec(base, list, true, true);
            start_wb_spec(end, list, false, false) == (start, base)
        }),
{
    lemma_popcount_of_list(list);
}

/// A load of several registers that succeeds makes as many loads of a
/// word as registers are listed, at ascending addresses from the start of
/// the block on.
pub proof fn law_ldm_accesses(w: u32, up: bool, pre: bool, wb: bool, s: CpuState)
    requires
        ldm_spec(w, up, pre, wb, s) is Ok,
    ensures
        ({
            let list = Instruction(w).register_list_spec();
            let start = start_wb_spec(
                s.reg(Instruction(w).rn_spec()),
                list,
                up,
                pre,
            ).0;
            &&& list != 0
            &&& block_recorded(
                s.accesses,
                ldm_spec(w, up, pre, wb, s)->Ok_0.accesses,
                start,
                0,
                popcount(list),
                true,
            )
        }),
{
    reveal(ldm_spec);
    let list = Instruction(w).register_list_spec();
    let start = start_wb_spec(s.reg(Instruction(w).rn_spec()), list, up, pre).0;
    lemma_popcount_of_list(list);
    lemma_load_registers_recorded(list, start, 0, 16, s);
}

/// A store of several registers that succeeds makes as many stores of a
/// word as registers are listed, at ascending addresses from the start of
/// the block on.
pub proof fn law_stm_accesses(w: u32, up: bool, pre: bool, wb: bool, s: CpuState)
    requires
        stm_spec(w, up, pre, wb, s) is Ok,
    ensures
        ({
            let list = Instruction(w).register_list_spec();
            let start = start_wb_spec(
                s.reg(Instruction(w).rn_spec()),
                list,
                up,
                pre,
            ).0;
            &&& list != 0
            &&& block_recorded(
                s.accesses,
                stm_spec(w, up, pre, wb, s)->Ok_0.accesses,
                start,
                0,
                popcount(list),
                false,
            )
        }),
{
    reveal(stm_spec);
    let list = Instruction(w).register_list_spec();
    let start = start_wb_spec(s.reg(Instruction(w).rn_spec()), list, up, pre).0;
    lemma_popcount_of_list(list);
    lemma_store_registers_recorded(list, start, 0, 16, s);
}

/// A load of several registers with the status register that succeeds
/// makes as many loads of a word as registers are listed, the program
/// counter among them, at ascending addresses from the start of the
/// block on.
pub proof fn law_ldms_accesses(w: u32, up: bool, pre: bool, wb: bool, s: CpuState)
    requires
        ldms_spec(w, up, pre, wb, s) is Ok,
    ensures
        ({
            let list = Instruction(w).register_list_spec();
            let start = start_wb_spec(
                s.reg(Instruction(w).rn_spec()),
                list,
                up,
                pre,
            ).0;
            &&& list != 0
            &&& block_recorded(
                s.accesses,
                ldms_spec(w, up, pre, wb, s)->Ok_0.accesses,
                start,
                0,
                popcount(list),
                true,
            )
        }),
{
    reveal(ldms_spec);
    let list = Instruction(w).register_list_spec();
    let start = start_wb_spec(s.reg(Instruction(w).rn_spec()), list, up, pre).0;
    lemma_popcount_of_list(list);
    lemma_load_registers_recorded(list, start, 0, 15, s);
    lemma_bits_set_below_bound(list, 15);
    let s1 = load_registers(list, start, 0, 15, s)->Ok_0;
    let after = ldms_spec(w, up, pre, wb, s)->Ok_0.accesses;
    let last = BusAccess::Load { addr: slot_address(start, list, 15), width: 4 };
    assert(after == s1.accesses.push(last));
    assert forall|j: int| 0 <= j < popcount(list) implies {
        let addr = start.wrapping_add((4 * (0 + j)) as u32);
        match #[trigger] after[s.accesses.len() + j] {
            BusAccess::Load { addr: a, width } => a == addr && width == 4,
            BusAccess::Store { addr: a, width, value } => false,
        }
    } by {
        if j < bits_set_below(list, 15) {
            assert(after[s.accesses.len() + j] == s1.accesses[s.accesses.len() + j]);
        }
    }
    assert forall|k: int| 0 <= k < s.accesses.len() implies after[k] == s.accesses[k] by {
        assert(after[k] == s1.accesses[k]);
    }
}

/// The bits of an instruction word that the forms test are bits of its
/// decode index.
proof fn lemma_index_bits(w: u32)
    by (bit_vector)
    ensures
        w / 0x200_0000 % 8 == (w / 0x10_0000 % 0x100) / 32,
        w / 0x100_0000 % 16 == (w / 0x10_0000 % 0x100) / 16,
        w / 0x100_0000 % 2 == (w / 0x10_0000 % 0x100) / 16 % 2,
        w / 0x80_0000 % 2 == (w / 0x10_0000 % 0x100) / 8 % 2,
        w / 0x40_0000 % 2 == (w / 0x10_0000 % 0x100) / 4 % 2,
        w / 0x20_0000 % 2 == (w / 0x10_0000 % 0x100) / 2 % 2,
        w / 0x20_0000 % 4 == (w / 0x10_0000 % 0x100) / 2 % 4,
        w / 0x20_0000 % 16 == (w / 0x10_0000 % 0x100) / 2 % 16,
        w / 0x10_0000 % 2 == (w / 0x10_0000 % 0x100) % 2,
        w / 16 % 8 == (w / 16 % 16) % 8,
        w / 0x80 % 2 == (w / 16 % 16) / 8,
        w / 0x40 % 2 == (w / 16 % 16) / 4 % 2,
        w / 0x20 % 2 == (w / 16 % 16) / 2 % 2,
        w / 0x10 % 2 == (w / 16 % 16) % 2,
        w / 0x80 % 32 == (w / 0x100 % 16) * 2 + (w / 16 % 16) / 8,
{
}

/// What a slot takes the instruction word `w` for is what `w` encodes.
pub open spec fn op_matches_encoding(op: Op, w: u32) -> bool {
    match op {
        Op::Data(op, mode) => mode.is_valid_spec(w, op.opcode_spec(), op.sets_flags_spec()),
        Op::Ldr(mode, up) => mode.is_valid_spec(w, up, true, false),
        Op::Str(mode, up) => mode.is_valid_spec(w, up, false, false),
        Op::Ldrb(mode, up) => mode.is_valid_spec(w, up, true, true),
        Op::Strb(mode, up) => mode.is_valid_spec(w, up, false, true),
        Op::Ldrh(mode, up) => mode.is_valid_spec(w, up, true, false, false) == (mode != Mode3::Reg
            || w / 0x100 % 16 == 0),
        Op::Ldrsh(mode, up) => mode.is_valid_spec(w, up, true, false, true) == (mode != Mode3::Reg
            || w / 0x100 % 16 == 0),
        Op::Strh(mode, up) => mode.is_valid_spec(w, up, false, false, false) == (mode
            != Mode3::Reg || w / 0x100 % 16 == 0),
        Op::Ldrsb(mode, up) => mode.is_valid_spec(w, up, true, true, true) == (mode != Mode3::Reg
            || w / 0x100 % 16 == 0),
        Op::Ldm { up, pre, wb } => block_is_valid(w, true, false, up, pre, wb),
        Op::Ldms { up, pre, wb } => block_is_valid(w, true, true, up, pre, wb),
        Op::Stm { up, pre, wb } => block_is_valid(w, false, false, up, pre, wb),
        _ => true,
    }
}

/// What a slot stands for, told by the bits of the decode index: `hi` is
/// the row and `lo` the column of the slot.
pub open spec fn op_matches_index(op: Op, hi: u32, lo: u32) -> bool {
    let load = hi % 2 == 1;
    let wb = hi / 2 % 2 == 1;
    let byte = hi / 4 % 2 == 1;
    let up = hi / 8 % 2 == 1;
    let pre = hi / 16 % 2 == 1;
    match op {
        Op::Data(op, mode) => {
            &&& op.opcode_spec() == hi / 2 % 16
            &&& op.sets_flags_spec() == load
            &&& match mode {
                Mode1::Imm => hi / 32 == 1,
                Mode1::LslImm => hi / 32 == 0 && lo % 8 == 0,
                Mode1::LsrImm => hi / 32 == 0 && lo % 8 == 2,
                Mode1::AsrImm => hi / 32 == 0 && lo % 8 == 4,
                Mode1::RorImm => hi / 32 == 0 && lo % 8 == 6,
                Mode1::LslReg => hi / 32 == 0 && lo == 1,
                Mode1::LsrReg => hi / 32 == 0 && lo == 3,
                Mode1::AsrReg => hi / 32 == 0 && lo == 5,
                Mode1::RorReg => hi / 32 == 0 && lo == 7,
            }
        },
        Op::Ldr(mode, u) => single_matches_index(mode, hi, lo) && u == up && load && !byte,
        Op::Str(mode, u) => single_matches_index(mode, hi, lo) && u == up && !load && !byte,
        Op::Ldrb(mode, u) => single_matches_index(mode, hi, lo) && u == up && load && byte,
        Op::Strb(mode, u) => single_matches_index(mode, hi, lo) && u == up && !load && byte,
        Op::Ldrh(mode, u) => half_matches_index(mode, hi) && u == up && load && lo == 0xb,
        Op::Ldrsh(mode, u) => half_matches_index(mode, hi) && u == up && load && lo == 0xf,
        Op::Strh(mode, u) => half_matches_index(mode, hi) && u == up && !load && lo == 0xb,
        Op::Ldrsb(mode, u) => half_matches_index(mode, hi) && u == up && load && lo == 0xd,
        Op::Ldm { up: u, pre: p, wb: b } => hi / 32 == 4 && u == up && p == pre && b == wb && load
            && !byte,
        Op::Ldms { up: u, pre: p, wb: b } => hi / 32 == 4 && u == up && p == pre && b == wb && load
            && byte,
        Op::Stm { up: u, pre: p, wb: b } => hi / 32 == 4 && u == up && p == pre && b == wb && !load
            && !byte,
        _ => true,
    }
}

/// The rows and columns in which a form of addressing mode 2 stands.
pub open spec fn single_matches_index(mode: Mode2, hi: u32, lo: u32) -> bool {
    match mode {
        Mode2::Imm | Mode2::ImmPre => hi / 16 == 5,
        Mode2::ImmPost => hi / 16 == 4,
        Mode2::LslReg => hi / 16 == 7 && hi / 2 % 2 == 0 && lo % 8 == 0,
        Mode2::LslRegPre => hi / 16 == 7 && hi / 2 % 2 == 1 && lo % 8 == 0,
    }
}

/// The rows in which a form of addressing mode 3 stands.
pub open spec fn half_matches_index(mode: Mode3, hi: u32) -> bool {
    match mode {
        Mode3::Imm => hi / 16 == 1 && hi / 2 % 4 == 2,
        Mode3::ImmPre => hi / 16 == 1 && hi / 2 % 4 == 3,
        Mode3::ImmPost => hi / 16 == 0 && hi / 2 % 4 == 2,
        Mode3::Reg => hi / 16 == 1 && hi / 2 % 4 == 0,
    }
}

#[verifier::rlimit(50)]
proof fn lemma_register_row_shape(hi: u32, lo: u32)
    requires
        hi < 0x20,
        lo < 16,
    ensures
        op_matches_index(register_row(hi, lo), hi, lo),
{
}

#[verifier::rlimit(50)]
proof fn lemma_immediate_row_shape(hi: u32, lo: u32)
    requires
        0x20 <= hi < 0x40,
    ensures
        op_matches_index(immediate_row(hi), hi, lo),
{
}

#[verifier::rlimit(50)]
proof fn lemma_single_row_shape(hi: u32, lo: u32)
    requires
        0x40 <= hi < 0x80,
        lo < 16,
    ensures
        op_matches_index(single_row(hi, lo), hi, lo),
{
}

#[verifier::rlimit(50)]
proof fn lemma_block_row_shape(hi: u32, lo: u32)
    requires
        0x80 <= hi < 0xa0,
    ensures
        op_matches_index(block_row(hi), hi, lo),
{
}

/// A slot whose kernel fits the bits of the decode index of `w` fits the
/// encoding of `w`.
#[verifier::rlimit(50)]
proof fn lemma_index_matches_encoding(op: Op, w: u32)
    requires
        op_matches_index(op, w / 0x10_0000 % 0x100, w / 16 % 16),
    ensures
        op_matches_encoding(op, w),
{
    lemma_index_bits(w);
}

/// What the kernel in a slot takes the instruction for is what the
/// instruction encodes: every word that the table sends to a kernel has
/// the form that the kernel tests for. The one exception is a halfword
/// transfer with a register offset, whose form also wants bits 11 to 8 of
/// the word to be zeroes.
pub proof fn law_table_matches_encoding(w: u32)
    ensures
        op_matches_encoding(slot(Instruction(w).opcode_spec()), w),
{
    reveal(slot);
    let hi = w / 0x10_0000 % 0x100;
    let lo = w / 16 % 16;
    let index = Instruction(w).opcode_spec();
    assert(index / 16 == hi && index % 16 == lo);
    if hi < 0x20 {
        lemma_register_row_shape(hi, lo);
    } else if hi < 0x40 {
        lemma_immediate_row_shape(hi, lo);
    } else if hi < 0x80 {
        lemma_single_row_shape(hi, lo);
    } else if hi < 0xa0 {
        lemma_block_row_shape(hi, lo);
    }
    lemma_index_matches_encoding(slot(index), w);
}

/// A branch with link whose condition holds is carried out, and leaves in
/// the link register the address of the instruction that follows the
/// branch.
pub proof fn law_bl_links(w: u32, s: CpuState)
    requires
        s.wf(),
        slot(Instruction(w).opcode_spec()) == Op::Bl,
        condition_holds(Instruction(w).condition_code_spec(), s.n, s.z, s.c, s.v) == Some(true),
    ensures
        execute_spec(w, s) is Ok,
        execute_spec(w, s)->Ok_0.reg(14) == s.pc.wrapping_add(4),
        execute_spec(w, s)->Ok_0.pc == s.fetch_align(
            s.pc.wrapping_add(8).wrapping_add(Instruction(w).branch_imm_offset_spec()),
        ),
{
}

} // verus!
