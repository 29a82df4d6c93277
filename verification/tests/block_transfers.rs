use pockystation::cpu::armv4_is::execute;
use pockystation::bits::count_below;
use pockystation::cpu::block::mode4_start_wb;
use pockystation::cpu::{Cpu, ExecError, RegisterIndex};
use pockystation::dac::Dac;
use pockystation::debugger::Debugger;
use pockystation::memory::bios::{Bios, BIOS_SIZE};
use pockystation::memory::flash::{Flash, FLASH_SIZE};
use pockystation::memory::ram::Ram;
use pockystation::memory::{BusError, Interconnect, Word};

/// A debugger that counts the accesses it is told of.
struct AccessCounter {
    loads: u64,
    stores: u64,
}

impl Debugger for AccessCounter {
    fn on_load(&mut self, _addr: u32, _width: u8) {
        self.loads += 1;
    }

    fn on_store(&mut self, _addr: u32, _width: u8, _value: u32) {
        self.stores += 1;
    }
}

/// A machine with 16 KiB of RAM mapped at address 0.
fn machine() -> Cpu {
    let bios = Bios::new(vec![0; BIOS_SIZE]).unwrap();
    let flash = Flash::new(vec![0; FLASH_SIZE]).unwrap();
    let mut inter = Interconnect::new(bios, flash, Dac::new());
    inter.set_ram(Ram::with_size(0x4000));
    inter.store::<Word>(0x0600_0000, 1).unwrap();
    Cpu::new(inter)
}

/// A debugger that writes down what it is told.
struct Recorder {
    log: Vec<(bool, u32, u8)>,
}

impl Debugger for Recorder {
    fn on_load(&mut self, addr: u32, width: u8) {
        self.log.push((true, addr, width));
    }

    fn on_store(&mut self, addr: u32, width: u8, _value: u32) {
        self.log.push((false, addr, width));
    }
}

fn r(i: u32) -> RegisterIndex {
    RegisterIndex(i)
}

fn run(cpu: &mut Cpu, word: u32) -> Result<(), ExecError> {
    execute(cpu, &mut AccessCounter { loads: 0, stores: 0 }, word)
}

fn poke(cpu: &mut Cpu, addr: u32, val: u32) {
    cpu.interconnect_mut().store::<Word>(addr, val).unwrap();
}

fn peek(cpu: &Cpu, addr: u32) -> u32 {
    cpu.interconnect().load::<Word>(addr).unwrap()
}

#[test]
fn start_address_and_writeback_value() {
    // (up, pre) over a list of three registers at base 0x1000
    assert_eq!(mode4_start_wb(0x1000, 0x0111, true, false), (0x1000, 0x100c));
    assert_eq!(mode4_start_wb(0x1000, 0x0111, true, true), (0x1004, 0x100c));
    assert_eq!(mode4_start_wb(0x1000, 0x0111, false, false), (0x0ff8, 0x0ff4));
    assert_eq!(mode4_start_wb(0x1000, 0x0111, false, true), (0x0ff4, 0x0ff4));
    assert_eq!(mode4_start_wb(0x1000, 0xffff, false, true), (0x0fc0, 0x0fc0));
    assert_eq!(mode4_start_wb(0x1000, 0xffff, true, false), (0x1000, 0x1040));
    // addresses wrap
    assert_eq!(mode4_start_wb(0xFFFF_FFFC, 0x0003, true, true), (0, 4));
    assert_eq!(mode4_start_wb(4, 0x0003, false, true), (0xFFFF_FFFC, 0xFFFF_FFFC));
    assert_eq!(count_below(0x8005, 15), 2);
    assert_eq!(count_below(0x8005, 16), 3);
    assert_eq!(count_below(0x8005, 0), 0);
}

#[test]
fn stmia_stores_from_the_base_upwards() {
    let mut cpu = machine();
    cpu.set_reg(r(1), 0x1000);
    cpu.set_reg(r(2), 22);
    cpu.set_reg(r(3), 33);
    cpu.set_reg(r(9), 99);
    run(&mut cpu, 0xE881020C).unwrap(); // STMIA r1, {r2, r3, r9}
    assert_eq!(peek(&cpu, 0x1000), 22);
    assert_eq!(peek(&cpu, 0x1004), 33);
    assert_eq!(peek(&cpu, 0x1008), 99);
    assert_eq!(peek(&cpu, 0x100c), 0);
    assert_eq!(cpu.reg(r(1)), 0x1000);
    run(&mut cpu, 0xE8A1020C).unwrap(); // STMIA r1!, {r2, r3, r9}
    assert_eq!(cpu.reg(r(1)), 0x100c);
    assert_eq!(cpu.pc(), 8);
}

#[test]
fn stmdb_stores_below_the_base() {
    let mut cpu = machine();
    cpu.set_reg(r(13), 0x2000);
    cpu.set_reg(r(0), 1);
    cpu.set_reg(r(14), 0x1234);
    run(&mut cpu, 0xE92D4001).unwrap(); // STMDB sp!, {r0, lr}
    assert_eq!(cpu.reg(r(13)), 0x1ff8);
    assert_eq!(peek(&cpu, 0x1ff8), 1);
    assert_eq!(peek(&cpu, 0x1ffc), 0x1234);
}

#[test]
fn ldmia_loads_from_the_base_upwards() {
    let mut cpu = machine();
    for i in 0..4 {
        poke(&mut cpu, 0x1000 + 4 * i, 0x100 + i);
    }
    cpu.set_reg(r(1), 0x1000);
    run(&mut cpu, 0xE8910415).unwrap(); // LDMIA r1, {r0, r2, r4, r10}
    assert_eq!(cpu.reg(r(0)), 0x100);
    assert_eq!(cpu.reg(r(2)), 0x101);
    assert_eq!(cpu.reg(r(4)), 0x102);
    assert_eq!(cpu.reg(r(10)), 0x103);
    assert_eq!(cpu.reg(r(1)), 0x1000);
    run(&mut cpu, 0xE8B10005).unwrap(); // LDMIA r1!, {r0, r2}
    assert_eq!(cpu.reg(r(1)), 0x1008);
}

#[test]
fn ldmdb_loads_below_the_base() {
    let mut cpu = machine();
    poke(&mut cpu, 0x0ff8, 7);
    poke(&mut cpu, 0x0ffc, 8);
    cpu.set_reg(r(1), 0x1000);
    run(&mut cpu, 0xE9110005).unwrap(); // LDMDB r1, {r0, r2}
    assert_eq!(cpu.reg(r(0)), 7);
    assert_eq!(cpu.reg(r(2)), 8);
    assert_eq!(cpu.reg(r(1)), 0x1000);
}

#[test]
fn ldm_of_the_base_without_writeback_loads_it() {
    let mut cpu = machine();
    poke(&mut cpu, 0x1000, 0x55);
    poke(&mut cpu, 0x1004, 0x66);
    cpu.set_reg(r(1), 0x1000);
    run(&mut cpu, 0xE8910006).unwrap(); // LDMIA r1, {r1, r2}
    assert_eq!(cpu.reg(r(1)), 0x55);
    assert_eq!(cpu.reg(r(2)), 0x66);
}

#[test]
fn ldm_into_pc_jumps() {
    let mut cpu = machine();
    poke(&mut cpu, 0x1000, 9);
    poke(&mut cpu, 0x1004, 0x0000_0303);
    cpu.set_reg(r(13), 0x1000);
    run(&mut cpu, 0xE8BD8001).unwrap(); // LDMIA sp!, {r0, pc}
    assert_eq!(cpu.reg(r(0)), 9);
    assert_eq!(cpu.pc(), 0x300);
    assert_eq!(cpu.reg(r(13)), 0x1008);
}

#[test]
fn unpredictable_block_transfers() {
    let mut cpu = machine();
    cpu.set_reg(r(1), 0x1000);
    for word in [
        0xE8910000u32, // LDMIA r1, {}
        0xE8810000,    // STMIA r1, {}
        0xE8FD0000,    // LDMIA sp!, {}^
        0xE89F0001,    // LDMIA pc, {r0}
        0xE88F0001,    // STMIA pc, {r0}
        0xE8B10002,    // LDMIA r1!, {r1}
        0xE8A10002,    // STMIA r1!, {r1}
        0xE8818000,    // STMIA r1, {pc}
        0xE92D8001,    // STMDB sp!, {r0, pc}
        0xE8FD2001,    // LDMIA sp!, {r0, sp}^
    ] {
        assert_eq!(run(&mut cpu, word), Err(ExecError::Unpredictable), "{:08x}", word);
    }
    assert_eq!(cpu.pc(), 0);
}

#[test]
fn block_transfer_counts_one_access_per_listed_register() {
    // r12 is the base, so it is in none of the lists
    for list in [0x0001u32, 0x0006, 0x00ff, 0x4555, 0x6fff, 0x4000] {
        let mut cpu = machine();
        let mut dbg = Recorder { log: Vec::new() };
        cpu.set_reg(r(12), 0x1000);
        execute(&mut cpu, &mut dbg, 0xE88C_0000 | list).unwrap(); // STMIA r12, {..}
        let n = list.count_ones() as usize;
        assert_eq!(dbg.log.len(), n);
        for (k, entry) in dbg.log.iter().enumerate() {
            assert_eq!(*entry, (false, 0x1000 + 4 * k as u32, 4));
        }
        execute(&mut cpu, &mut dbg, 0xE89C_0000 | list).unwrap(); // LDMIA r12, {..}
        assert_eq!(dbg.log.len(), 2 * n);
        for (k, entry) in dbg.log[n..].iter().enumerate() {
            assert_eq!(*entry, (true, 0x1000 + 4 * k as u32, 4));
        }
    }
}

#[test]
fn ldm_with_status_register_restores_the_saved_status() {
    let mut cpu = machine();
    let mut dbg = Recorder { log: Vec::new() };
    // take a software interrupt from system mode with the carry flag set
    cpu.msr_cpsr(0x2000_001f, 0xf);
    cpu.set_reg(r(13), 0x3000);
    cpu.restart_at(0x100);
    execute(&mut cpu, &mut dbg, 0xEF000000).unwrap(); // SWI
    assert_eq!(cpu.cpsr() & 0x1f, 0x13);
    assert_eq!(cpu.spsr(), 0x2000_001f);
    // in supervisor mode: clear the flag, prepare a frame and return
    cpu.set_c(false);
    cpu.set_reg(r(13), 0x2000);
    poke(&mut cpu, 0x2000, 0xAA);
    poke(&mut cpu, 0x2004, 0x0000_0104);
    execute(&mut cpu, &mut dbg, 0xE8FD8001).unwrap(); // LDMIA sp!, {r0, pc}^
    assert_eq!(dbg.log, vec![(true, 0x2000, 4), (true, 0x2004, 4)]);
    assert_eq!(cpu.pc(), 0x104);
    assert_eq!(cpu.cpsr(), 0x2000_001f);
    assert_eq!(cpu.reg(r(0)), 0xAA);
    // the stack pointer of system mode was not touched
    assert_eq!(cpu.reg(r(13)), 0x3000);
    // the stack pointer of supervisor mode took the writeback
    cpu.msr_cpsr(0x13, 0x1);
    assert_eq!(cpu.reg(r(13)), 0x2008);
}

#[test]
fn ldm_of_user_registers_is_not_implemented() {
    let mut cpu = machine();
    cpu.set_reg(r(13), 0x2000);
    assert_eq!(
        run(&mut cpu, 0xE8FD0001), // LDMIA sp!, {r0}^
        Err(ExecError::Unimplemented { word: 0xE8FD0001, index: 0x8f0 })
    );
}

#[test]
fn block_transfer_outside_memory_fails() {
    let mut cpu = machine();
    cpu.set_reg(r(1), 0x3ffc);
    assert_eq!(
        run(&mut cpu, 0xE881000C), // STMIA r1, {r2, r3}
        Err(ExecError::Bus(BusError::Unhandled { addr: 0x4000 }))
    );
    cpu.set_reg(r(1), 0x1002);
    assert_eq!(
        run(&mut cpu, 0xE891000C), // LDMIA r1, {r2, r3}
        Err(ExecError::Bus(BusError::Misaligned { addr: 0x1002, width: 4 }))
    );
}

#[test]
fn a_block_transfer_that_fails_keeps_what_it_did_before() {
    let mut cpu = machine();
    cpu.set_reg(r(1), 0x3ff8);
    cpu.set_reg(r(2), 22);
    cpu.set_reg(r(3), 33);
    cpu.set_reg(r(4), 44);
    assert_eq!(
        run(&mut cpu, 0xE8A1001C), // STMIA r1!, {r2, r3, r4}
        Err(ExecError::Bus(BusError::Unhandled { addr: 0x4000 }))
    );
    assert_eq!(peek(&cpu, 0x3ff8), 22);
    assert_eq!(peek(&cpu, 0x3ffc), 33);
    // the base was not written back and the CPU did not move on
    assert_eq!(cpu.reg(r(1)), 0x3ff8);
    assert_eq!(cpu.pc(), 0);
    assert_eq!(
        run(&mut cpu, 0xE8B100E0), // LDMIA r1!, {r5, r6, r7}
        Err(ExecError::Bus(BusError::Unhandled { addr: 0x4000 }))
    );
    assert_eq!(cpu.reg(r(5)), 22);
    assert_eq!(cpu.reg(r(6)), 33);
    assert_eq!(cpu.reg(r(7)), 0);
    assert_eq!(cpu.reg(r(1)), 0x3ff8);
}
