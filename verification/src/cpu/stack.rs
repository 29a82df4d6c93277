//! Laws of block transfers to and from the RAM: what is pushed is what is
//! popped.
use vstd::prelude::*;
use crate::bits::{bit, bits_set_below, lemma_bits_set_below_bound};
use crate::cpu::armv4_is::Instruction;
use crate::cpu::block::{
    block_is_unpredictable, block_is_valid, ldm_spec, load_registers, slot_address, start_wb_spec,
    stm_spec, store_registers,
};
use crate::cpu::laws::{law_push_then_pop, lemma_bits_monotonic, lemma_popcount_of_list};
use crate::cpu::{CpuState, Failure};
use crate::memory::{
    lemma_load_in_ram, lemma_store_in_ram, word_in_ram, BusError, BusState, REGION_SIZE,
};

verus! {

/// The `count` words from `start` on lie in the RAM, and the RAM is
/// mapped at address 0.
pub open spec fn block_in_ram(bus: BusState, start: u32, count: nat) -> bool {
    &&& start % 4 == 0
    &&& !bus.flash.bios_at_0()
    &&& start + 4 * count <= bus.ram.len()
    &&& start + 4 * count <= REGION_SIZE
}

/// In a block in the RAM each listed register has a word of its own.
proof fn lemma_slot_in_block(bus: BusState, list: u32, start: u32, j: nat, n: nat)
    requires
        j < n <= 16,
        bit(list, j as u32),
        block_in_ram(bus, start, bits_set_below(list, n)),
    ensures
        slot_address(start, list, j) == start + 4 * bits_set_below(list, j),
        slot_address(start, list, j) + 4 <= start + 4 * bits_set_below(list, n),
        word_in_ram(bus, slot_address(start, list, j)),
{
    lemma_bits_monotonic(list, j + 1, n);
    lemma_bits_set_below_bound(list, n);
    let k = bits_set_below(list, j);
    assert(bits_set_below(list, j + 1) == k + 1);
    assert(start == 4 * (start / 4));
}

/// What a store of the listed registers from `i` up to `n` in the RAM
/// leaves behind: every store is accepted, each register listed has its
/// word in the block, and nothing else changed but the record of the
/// accesses.
pub proof fn lemma_store_registers_in_ram(list: u32, start: u32, i: nat, n: nat, s: CpuState)
    requires
        i <= n <= 16,
        block_in_ram(s.bus, start, bits_set_below(list, n)),
    ensures
        store_registers(list, start, i, n, s) is Ok,
        ({
            let after = store_registers(list, start, i, n, s)->Ok_0;
            &&& after == (CpuState { bus: after.bus, accesses: after.accesses, ..s })
            &&& after.bus == (BusState { ram: after.bus.ram, ..s.bus })
            &&& after.bus.ram.len() == s.bus.ram.len()
            &&& forall|j: nat|
                i <= j < n && bit(list, j as u32) ==> after.bus.load(
                    4,
                    #[trigger] slot_address(start, list, j),
                ) == Ok::<u32, BusError>(s.reg(j as u32))
            &&& forall|a: u32|
                word_in_ram(s.bus, a) && a < start + 4 * bits_set_below(list, i)
                    ==> #[trigger] after.bus.load(4, a) == s.bus.load(4, a)
        }),
    decreases n - i,
{
    lemma_bits_monotonic(list, i, n);
    if i < n {
        if bit(list, i as u32) {
            let addr = slot_address(start, list, i);
            let val = s.reg(i as u32);
            lemma_slot_in_block(s.bus, list, start, i, n);
            lemma_store_in_ram(s.bus, addr, val, addr);
            let s1 = s.store(4, addr, val)->Ok_0;
            assert forall|a: u32| word_in_ram(s.bus, a) && a != addr implies s1.bus.load(4, a)
                == s.bus.load(4, a) by {
                lemma_store_in_ram(s.bus, addr, val, a);
            }
            lemma_store_registers_in_ram(list, start, i + 1, n, s1);
            let after = store_registers(list, start, i, n, s)->Ok_0;
            assert(after.bus.load(4, addr) == s1.bus.load(4, addr));
            assert forall|j: nat| i <= j < n && bit(list, j as u32) implies after.bus.load(
                4,
                #[trigger] slot_address(start, list, j),
            ) == Ok::<u32, BusError>(s.reg(j as u32)) by {
                if j > i {
                    assert(s1.reg(j as u32) == s.reg(j as u32));
                }
            }
            assert forall|a: u32|
                word_in_ram(s.bus, a) && a < start + 4 * bits_set_below(
                    list,
                    i,
                ) implies #[trigger] after.bus.load(4, a) == s.bus.load(4, a) by {
                assert(word_in_ram(s1.bus, a));
                assert(after.bus.load(4, a) == s1.bus.load(4, a));
            }
        } else {
            lemma_store_registers_in_ram(list, start, i + 1, n, s);
        }
    }
}

/// What a load of the listed registers from `i` up to `n` from the RAM
/// leaves behind: every load is accepted, each register listed holds its
/// word of the block, and the other registers, the program counter, the
/// status register and the bus are as before.
pub proof fn lemma_load_registers_in_ram(list: u32, start: u32, i: nat, n: nat, s: CpuState)
    requires
        i <= n <= 15,
        s.wf(),
        block_in_ram(s.bus, start, bits_set_below(list, n)),
    ensures
        load_registers(list, start, i, n, s) is Ok,
        ({
            let after = load_registers(list, start, i, n, s)->Ok_0;
            &&& after == (CpuState { regs: after.regs, accesses: after.accesses, ..s })
            &&& after.wf()
            &&& forall|j: u32|
                j < 16 ==> #[trigger] after.reg(j) == if i <= j < n && bit(list, j) {
                    s.bus.load(4, slot_address(start, list, j as nat))->Ok_0
                } else {
                    s.reg(j)
                }
        }),
    decreases n - i,
{
    lemma_bits_monotonic(list, i, n);
    if i < n {
        if bit(list, i as u32) {
            let addr = slot_address(start, list, i);
            lemma_slot_in_block(s.bus, list, start, i, n);
            lemma_load_in_ram(s.bus, addr);
            let (val, s1) = s.load(4, addr)->Ok_0;
            let s2 = s1.set_reg_pc_mask(i as u32, val);
            lemma_load_registers_in_ram(list, start, i + 1, n, s2);
            let after = load_registers(list, start, i, n, s)->Ok_0;
            assert forall|j: u32| j < 16 implies #[trigger] after.reg(j) == if i <= j < n && bit(
                list,
                j,
            ) {
                s.bus.load(4, slot_address(start, list, j as nat))->Ok_0
            } else {
                s.reg(j)
            } by {
                if j == i {
                    assert(after.reg(j) == s2.reg(j));
                } else {
                    assert(s2.reg(j) == s.reg(j));
                }
            }
        } else {
            lemma_load_registers_in_ram(list, start, i + 1, n, s);
        }
    }
}

/// A push followed by a pop restores every register: after a store of
/// registers below the base with writeback and a load of the same
/// registers upwards with writeback, to a block in the RAM, the registers
/// listed and the base hold what they held before, and so does every other
/// register. The block in the RAM holds what was pushed.
pub proof fn law_push_then_pop_restores(push: u32, pop: u32, s: CpuState)
    requires
        s.wf(),
        block_is_valid(push, false, false, false, true, true),
        block_is_valid(pop, true, false, true, false, true),
        Instruction(push).rn_spec() == Instruction(pop).rn_spec(),
        Instruction(push).register_list_spec() == Instruction(pop).register_list_spec(),
        !block_is_unpredictable(push, true),
        !bit(Instruction(push).register_list_spec(), 15),
        ({
            let list = Instruction(push).register_list_spec();
            let base = s.reg(Instruction(push).rn_spec());
            block_in_ram(
                s.bus,
                start_wb_spec(base, list, false, true).0,
                bits_set_below(list, 16),
            )
        }),
    ensures
        stm_spec(push, false, true, true, s) is Ok,
        ldm_spec(pop, true, false, true, stm_spec(push, false, true, true, s)->Ok_0) is Ok,
        ({
            let list = Instruction(push).register_list_spec();
            let start = start_wb_spec(s.reg(Instruction(push).rn_spec()), list, false, true).0;
            let pushed = stm_spec(push, false, true, true, s)->Ok_0;
            let popped = ldm_spec(pop, true, false, true, pushed)->Ok_0;
            &&& pushed.reg(Instruction(push).rn_spec()) == start
            &&& forall|j: nat|
                j < 15 && bit(list, j as u32) ==> pushed.bus.load(
                    4,
                    #[trigger] slot_address(start, list, j),
                ) == Ok::<u32, BusError>(s.reg(j as u32))
            &&& forall|j: u32| j < 16 ==> #[trigger] popped.reg(j) == s.reg(j)
            &&& popped.bus == pushed.bus
        }),
{
    reveal(stm_spec);
    reveal(ldm_spec);
    let list = Instruction(push).register_list_spec();
    let rn = Instruction(push).rn_spec();
    let base = s.reg(rn);
    let (start, end) = start_wb_spec(base, list, false, true);
    lemma_popcount_of_list(list);
    law_push_then_pop(base, list);
    lemma_store_registers_in_ram(list, start, 0, 16, s);
    let stored = store_registers(list, start, 0, 16, s)->Ok_0;
    let pushed = stored.set_reg(rn, end);
    assert(stm_spec(push, false, true, true, s) == Ok::<CpuState, Failure>(pushed));
    assert(pushed.reg(rn) == end);
    assert(start == end);
    assert(bits_set_below(list, 15) == bits_set_below(list, 16));
    lemma_load_registers_in_ram(list, start, 0, 15, pushed);
    let loaded15 = load_registers(list, start, 0, 15, pushed)->Ok_0;
    assert(load_registers(list, start, 15, 16, loaded15) == Ok::<CpuState, Failure>(loaded15)) by {
        assert(load_registers(list, start, 16, 16, loaded15) == Ok::<CpuState, Failure>(loaded15));
    }
    lemma_load_registers_split(list, start, 0, 15, pushed);
    let popped = ldm_spec(pop, true, false, true, pushed)->Ok_0;
    assert(popped == loaded15.set_reg(rn, base));
    assert forall|j: u32| j < 16 implies #[trigger] popped.reg(j) == s.reg(j) by {
        if j < 15 && j != rn {
            assert(loaded15.reg(j) == s.reg(j)) by {
                if bit(list, j) {
                    assert(pushed.bus.load(4, slot_address(start, list, j as nat)) == Ok::<
                        u32,
                        BusError,
                    >(s.reg(j)));
                } else {
                    assert(pushed.reg(j) == s.reg(j));
                }
            }
        }
    }
}

/// A load of the registers below 16 is a load of the registers below 15
/// followed by a load of register 15.
proof fn lemma_load_registers_split(list: u32, start: u32, i: nat, m: nat, s: CpuState)
    requires
        i <= m <= 16,
        load_registers(list, start, i, m, s) is Ok,
    ensures
        load_registers(list, start, i, 16, s) == load_registers(
            list,
            start,
            m,
            16,
            load_registers(list, start, i, m, s)->Ok_0,
        ),
    decreases m - i,
{
    if i < m {
        if bit(list, i as u32) {
            let (val, s1) = s.load(4, slot_address(start, list, i))->Ok_0;
            lemma_load_registers_split(list, start, i + 1, m, s1.set_reg_pc_mask(i as u32, val));
        } else {
            lemma_load_registers_split(list, start, i + 1, m, s);
        }
    }
}

} // verus!
