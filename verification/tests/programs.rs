use pockystation::cpu::{Cpu, RegisterIndex};
use pockystation::dac::Dac;
use pockystation::debugger::{Debugger, NoDebugger};
use pockystation::memory::bios::{Bios, BIOS_SIZE};
use pockystation::memory::flash::{Flash, FLASH_SIZE};
use pockystation::memory::{Byte, Interconnect, Word};

/// A debugger that counts the accesses it is told of.
struct AccessCounter {
    loads: u64,
    stores: u64,
}

impl Debugger for AccessCounter {
    fn on_load(&mut self, _addr: u32, _width: u8) {
        self.loads += 1;
    }

    fn on_store(&mut self, _addr: u32, _width: u8, _value: u32) {
        self.stores += 1;
    }
}

/// A machine with its RAM mapped at address 0 and `program` at the start
/// of it.
fn machine(program: &[u32]) -> Cpu {
    let bios = Bios::new(vec![0; BIOS_SIZE]).unwrap();
    let flash = Flash::new(vec![0; FLASH_SIZE]).unwrap();
    let mut inter = Interconnect::new(bios, flash, Dac::new());
    inter.store::<Word>(0x0600_0000, 1).unwrap();
    for (k, word) in program.iter().enumerate() {
        inter.store::<Word>(4 * k as u32, *word).unwrap();
    }
    Cpu::new(inter)
}

fn r(i: u32) -> RegisterIndex {
    RegisterIndex(i)
}

#[test]
fn factorial_in_a_loop() {
    let mut cpu = machine(&[
        0xE3A00001, // 00: MOV r0, #1
        0xE3A01005, // 04: MOV r1, #5
        0xE0000091, // 08: MUL r0, r1, r0
        0xE2511001, // 0c: SUBS r1, r1, #1
        0x1AFFFFFC, // 10: BNE 08
        0xEAFFFFFE, // 14: B 14
    ]);
    for _ in 0..(2 + 5 * 3 + 1) {
        cpu.step(&mut NoDebugger).unwrap();
    }
    assert_eq!(cpu.reg(r(0)), 120);
    assert_eq!(cpu.reg(r(1)), 0);
    assert_eq!(cpu.pc(), 0x14);
    assert!(cpu.z() && cpu.c());
}

#[test]
fn subroutine_call_with_a_stack_frame() {
    let mut cpu = machine(&[
        0xE3A0DB01, // 00: MOV sp, #0x400
        0xE3A00007, // 04: MOV r0, #7
        0xE3A04063, // 08: MOV r4, #99
        0xEB000001, // 0c: BL 18
        0xE0800004, // 10: ADD r0, r0, r4
        0xEAFFFFFE, // 14: B 14
        0xE92D4010, // 18: STMDB sp!, {r4, lr}
        0xE1A04000, // 1c: MOV r4, r0
        0xE0800084, // 20: ADD r0, r0, r4, LSL #1
        0xE8BD4010, // 24: LDMIA sp!, {r4, lr}
        0xE12FFF1E, // 28: BX lr
    ]);
    let mut dbg = AccessCounter { loads: 0, stores: 0 };
    for _ in 0..11 {
        cpu.step(&mut dbg).unwrap();
    }
    // 7 * 3 in the subroutine, plus the 99 that it saved and restored
    assert_eq!(cpu.reg(r(0)), 21 + 99);
    assert_eq!(cpu.reg(r(4)), 99);
    assert_eq!(cpu.reg(r(13)), 0x400);
    assert_eq!(cpu.reg(r(14)), 0x10);
    assert_eq!(cpu.pc(), 0x14);
    assert_eq!((dbg.loads, dbg.stores), (2, 2));
    assert_eq!(cpu.interconnect().load::<Word>(0x3f8), Ok(99));
    assert_eq!(cpu.interconnect().load::<Word>(0x3fc), Ok(0x10));
}

#[test]
fn copy_a_string_byte_by_byte() {
    let mut cpu = machine(&[
        0xE3A01C01, // 00: MOV r1, #0x100
        0xE3A02C02, // 04: MOV r2, #0x200
        0xE4D10001, // 08: LDRB r0, [r1], #1
        0xE4C20001, // 0c: STRB r0, [r2], #1
        0xE3500000, // 10: CMP r0, #0
        0x1AFFFFFB, // 14: BNE 08
        0xEAFFFFFE, // 18: B 18
    ]);
    let text = b"verified\0";
    for (k, byte) in text.iter().enumerate() {
        cpu.interconnect_mut().store::<Byte>(0x100 + k as u32, *byte as u32).unwrap();
    }
    for _ in 0..(2 + 4 * text.len() + 1) {
        cpu.step(&mut NoDebugger).unwrap();
    }
    assert_eq!(cpu.pc(), 0x18);
    for (k, byte) in text.iter().enumerate() {
        assert_eq!(cpu.interconnect().load::<Byte>(0x200 + k as u32), Ok(*byte as u32));
    }
    assert_eq!(cpu.reg(r(1)), 0x100 + text.len() as u32);
    assert_eq!(cpu.reg(r(2)), 0x200 + text.len() as u32);
}

#[test]
fn a_supervisor_call_and_its_return() {
    let mut cpu = machine(&[
        0xEA000006, // 00: B 20
        0xEAFFFFFE, // 04: B 04
        0xE3A0002A, // 08: MOV r0, #42       the handler
        0xE92D4000, // 0c: STMDB sp!, {lr}
        0xE8FD8000, // 10: LDMIA sp!, {pc}^
        0xEAFFFFFE, // 14: B 14
        0xEAFFFFFE, // 18: B 18
        0xEAFFFFFE, // 1c: B 1c
        0xE3A0DC03, // 20: MOV sp, #0x300     supervisor stack
        0xE3A0101F, // 24: MOV r1, #0x1f
        0xE121F001, // 28: MSR CPSR_c, r1     system mode, interrupts enabled
        0xE3A0DB01, // 2c: MOV sp, #0x400     system stack
        0xEF000000, // 30: SWI
        0xE2800001, // 34: ADD r0, r0, #1
        0xEAFFFFFE, // 38: B 38
    ]);
    for _ in 0..11 {
        cpu.step(&mut NoDebugger).unwrap();
    }
    assert_eq!(cpu.reg(r(0)), 43);
    assert_eq!(cpu.pc(), 0x38);
    // back in system mode with its own stack pointer
    assert_eq!(cpu.cpsr(), 0x1f);
    assert_eq!(cpu.reg(r(13)), 0x400);
    cpu.msr_cpsr(0x13, 1);
    assert_eq!(cpu.reg(r(13)), 0x300);
    assert_eq!(cpu.reg(r(14)), 0x34);
    assert_eq!(cpu.spsr(), 0x1f);
}
