use pockystation::cpu::armv4_is::execute;
use pockystation::cpu::{merge, Cpu, ExecError, RegisterIndex};
use pockystation::dac::Dac;
use pockystation::debugger::NoDebugger;
use pockystation::memory::bios::{Bios, BIOS_SIZE};
use pockystation::memory::flash::{Flash, FLASH_SIZE};
use pockystation::memory::{BusError, Interconnect, Word};

fn new_cpu() -> Cpu {
    let bios = Bios::new(vec![0; BIOS_SIZE]).unwrap();
    let flash = Flash::new(vec![0; FLASH_SIZE]).unwrap();
    Cpu::new(Interconnect::new(bios, flash, Dac::new()))
}

fn r(i: u32) -> RegisterIndex {
    RegisterIndex(i)
}

fn run(cpu: &mut Cpu, word: u32) -> Result<(), ExecError> {
    execute(cpu, &mut NoDebugger, word)
}

#[test]
fn reset_state() {
    let cpu = new_cpu();
    assert_eq!(cpu.pc(), 0);
    assert_eq!(cpu.next_pc(), 4);
    // supervisor mode, ARM state, IRQ and FIQ masked, flags clear
    assert_eq!(cpu.cpsr(), 0x0000_00d3);
    assert_eq!((cpu.n(), cpu.z(), cpu.c(), cpu.v()), (false, false, false, false));
    for i in 0..15 {
        assert_eq!(cpu.reg(r(i)), 0);
    }
    assert_eq!(cpu.reg(r(15)), 8);
    assert_eq!(cpu.spsr(), 0);
}

#[test]
fn status_register_word_holds_the_flags_in_its_top_bits() {
    let mut cpu = new_cpu();
    cpu.set_n(true);
    assert_eq!(cpu.cpsr(), 0x8000_00d3);
    cpu.set_z(true);
    assert_eq!(cpu.cpsr(), 0xC000_00d3);
    cpu.set_c(true);
    assert_eq!(cpu.cpsr(), 0xE000_00d3);
    cpu.set_v(true);
    assert_eq!(cpu.cpsr(), 0xF000_00d3);
    cpu.set_n(false);
    cpu.set_c(false);
    assert_eq!(cpu.cpsr(), 0x5000_00d3);
}

#[test]
fn mrs_reads_the_status_registers() {
    let mut cpu = new_cpu();
    cpu.set_c(true);
    run(&mut cpu, 0xE10F0000).unwrap(); // MRS r0, CPSR
    assert_eq!(cpu.reg(r(0)), 0x2000_00d3);
    cpu.msr_cpsr(0x12, 0x1); // IRQ mode
    cpu.swi();
    run(&mut cpu, 0xE14F1000).unwrap(); // MRS r1, SPSR
    assert_eq!(cpu.reg(r(1)), 0x2000_0012);
}

#[test]
fn malformed_status_register_moves() {
    let mut cpu = new_cpu();
    assert_eq!(run(&mut cpu, 0xE1000000), Err(ExecError::MalformedInstruction)); // bits 19:16
    assert_eq!(run(&mut cpu, 0xE10F0001), Err(ExecError::MalformedInstruction)); // bits 11:0
    assert_eq!(run(&mut cpu, 0xE1400000), Err(ExecError::MalformedInstruction));
    assert_eq!(run(&mut cpu, 0xE14FF000), Err(ExecError::MalformedInstruction)); // MRS pc, SPSR
    assert_eq!(run(&mut cpu, 0xE1280000), Err(ExecError::MalformedInstruction)); // bits 15:12
    assert_eq!(run(&mut cpu, 0xE128F100), Err(ExecError::MalformedInstruction)); // bits 11:8
    assert_eq!(run(&mut cpu, 0xE12FFE1E), Err(ExecError::MalformedInstruction)); // BX tail
    assert_eq!(run(&mut cpu, 0xE120FF1E), Err(ExecError::MalformedInstruction));
    assert_eq!(cpu.pc(), 0);
}

#[test]
fn msr_replaces_the_selected_bytes() {
    let mut cpu = new_cpu();
    cpu.set_reg(r(0), 0xF000_001F);
    run(&mut cpu, 0xE128F000).unwrap(); // MSR CPSR_f, r0
    assert_eq!(cpu.cpsr(), 0xF000_00d3);
    run(&mut cpu, 0xE121F000).unwrap(); // MSR CPSR_c, r0
    assert_eq!(cpu.cpsr(), 0xF000_001F);
    cpu.set_reg(r(0), 0x0012_3410);
    run(&mut cpu, 0xE126F000).unwrap(); // MSR CPSR_xs, r0
    assert_eq!(cpu.cpsr(), 0xF012_341F);
    run(&mut cpu, 0xE120F000).unwrap(); // no byte selected
    assert_eq!(cpu.cpsr(), 0xF012_341F);
    run(&mut cpu, 0xE12FF000).unwrap(); // MSR CPSR_fsxc, r0
    assert_eq!(cpu.cpsr(), 0x0012_3410);
    assert_eq!(merge(0x1122_3344, 0xAABB_CCDD, 0b0101), 0x11BB_33DD);
    assert_eq!(merge(0x1122_3344, 0xAABB_CCDD, 0b1010), 0xAA22_CC44);
    assert_eq!(merge(0x1122_3344, 0xAABB_CCDD, 0), 0x1122_3344);
    assert_eq!(merge(0x1122_3344, 0xAABB_CCDD, 0xf), 0xAABB_CCDD);
}

#[test]
fn stack_pointer_and_link_register_are_banked_by_mode() {
    let mut cpu = new_cpu();
    // supervisor mode after reset
    cpu.set_reg(r(13), 0x1111);
    cpu.set_reg(r(14), 0x2222);
    cpu.set_reg(r(8), 0x8888);
    cpu.set_reg(r(0), 0x1f);
    run(&mut cpu, 0xE121F000).unwrap(); // MSR CPSR_c, r0: system mode
    assert_eq!(cpu.reg(r(13)), 0);
    assert_eq!(cpu.reg(r(14)), 0);
    assert_eq!(cpu.reg(r(8)), 0x8888);
    cpu.set_reg(r(13), 0x3333);
    cpu.msr_cpsr(0x10, 0x1); // user mode shares the bank of system mode
    assert_eq!(cpu.reg(r(13)), 0x3333);
    cpu.msr_cpsr(0x12, 0x1); // IRQ mode
    assert_eq!(cpu.reg(r(13)), 0);
    cpu.msr_cpsr(0x11, 0x1); // FIQ mode has its own r8 to r12 too
    assert_eq!(cpu.reg(r(8)), 0);
    assert_eq!(cpu.reg(r(7)), 0);
    cpu.set_reg(r(8), 0xf1c);
    cpu.set_reg(r(12), 0xf1c);
    cpu.msr_cpsr(0x17, 0x1); // abort mode
    assert_eq!(cpu.reg(r(8)), 0x8888);
    assert_eq!(cpu.reg(r(12)), 0);
    cpu.msr_cpsr(0x1b, 0x1); // undefined mode
    cpu.set_reg(r(14), 0xbbbb);
    cpu.msr_cpsr(0x13, 0x1); // back in supervisor mode
    assert_eq!(cpu.reg(r(13)), 0x1111);
    assert_eq!(cpu.reg(r(14)), 0x2222);
    cpu.msr_cpsr(0x1b, 0x1);
    assert_eq!(cpu.reg(r(14)), 0xbbbb);
    cpu.msr_cpsr(0x11, 0x1);
    assert_eq!(cpu.reg(r(8)), 0xf1c);
}

#[test]
fn branch() {
    let mut cpu = new_cpu();
    cpu.restart_at(0x1000);
    run(&mut cpu, 0xEA000000).unwrap(); // B +0
    assert_eq!(cpu.pc(), 0x1008);
    run(&mut cpu, 0xEAFFFFFE).unwrap(); // B -8: to itself
    assert_eq!(cpu.pc(), 0x1008);
    run(&mut cpu, 0xEAFFFFFD).unwrap(); // B -12
    assert_eq!(cpu.pc(), 0x1004);
    run(&mut cpu, 0xEA0000FF).unwrap(); // B +0x3fc
    assert_eq!(cpu.pc(), 0x1004 + 8 + 0x3fc);
    assert_eq!(cpu.reg(r(14)), 0);
    cpu.restart_at(0);
    run(&mut cpu, 0xEAFFFFFC).unwrap(); // B -16 wraps below zero
    assert_eq!(cpu.pc(), 0xFFFF_FFF8);
}

#[test]
fn branch_with_link() {
    let mut cpu = new_cpu();
    cpu.restart_at(0x1000);
    run(&mut cpu, 0xEB000010).unwrap(); // BL +0x40
    assert_eq!(cpu.pc(), 0x1048);
    assert_eq!(cpu.reg(r(14)), 0x1004);
    run(&mut cpu, 0xEBFFFFFE).unwrap(); // BL to itself
    assert_eq!(cpu.pc(), 0x1048);
    assert_eq!(cpu.reg(r(14)), 0x104c);
    // a branch whose condition fails leaves the link register alone
    run(&mut cpu, 0x0B000010).unwrap(); // BLEQ
    assert_eq!(cpu.pc(), 0x104c);
    assert_eq!(cpu.reg(r(14)), 0x104c);
}

#[test]
fn branch_and_exchange() {
    let mut cpu = new_cpu();
    cpu.set_reg(r(0), 0x0000_0200);
    run(&mut cpu, 0xE12FFF10).unwrap(); // BX r0
    assert_eq!(cpu.pc(), 0x200);
    assert_eq!(cpu.cpsr() & 0x20, 0);
    cpu.set_reg(r(0), 0x0000_0301);
    run(&mut cpu, 0xE12FFF10).unwrap(); // BX r0 into Thumb state
    assert_eq!(cpu.pc(), 0x300);
    assert_eq!(cpu.cpsr() & 0x20, 0x20);
    assert_eq!(cpu.cpsr() & 0x1f, 0x13);
    // there is no decoder for Thumb state
    assert_eq!(cpu.step(&mut NoDebugger), Err(ExecError::ThumbState));
    assert_eq!(cpu.pc(), 0x300);
}

#[test]
fn software_interrupt() {
    let mut cpu = new_cpu();
    cpu.msr_cpsr(0x6000_0010, 0xf); // user mode, interrupts enabled, Z and C set
    cpu.set_reg(r(14), 0x7777);
    cpu.restart_at(0x400);
    run(&mut cpu, 0xEF123456).unwrap(); // SWI
    assert_eq!(cpu.pc(), 0x08);
    // supervisor mode, IRQ masked, flags kept
    assert_eq!(cpu.cpsr(), 0x6000_0093);
    assert_eq!(cpu.spsr(), 0x6000_0010);
    assert_eq!(cpu.reg(r(14)), 0x404);
    cpu.msr_cpsr(0x10, 0x1);
    assert_eq!(cpu.reg(r(14)), 0x7777);
}

#[test]
fn set_pc_aligns_to_the_instruction_size() {
    let mut cpu = new_cpu();
    cpu.set_pc(0x1003);
    assert_eq!(cpu.next_pc(), 0x1000);
    cpu.set_reg(r(15), 0x2002);
    assert_eq!(cpu.next_pc(), 0x2000);
    cpu.set_reg_pc_mask(r(15), 0x3003);
    assert_eq!(cpu.next_pc(), 0x3000);
    cpu.set_pc_thumb(0x4002, true);
    assert_eq!(cpu.next_pc(), 0x4002);
    cpu.set_pc(0x5003);
    assert_eq!(cpu.next_pc(), 0x5002);
    cpu.set_reg_pc_mask(r(15), 0x6003);
    assert_eq!(cpu.next_pc(), 0x6000);
    cpu.set_pc_cpsr(0x7003, 0xd3);
    assert_eq!(cpu.next_pc(), 0x7000);
    assert_eq!(cpu.cpsr(), 0xd3);
    cpu.set_reg_pc_mask(r(3), 0x6003);
    assert_eq!(cpu.reg(r(3)), 0x6003);
    cpu.begin();
    assert_eq!(cpu.next_pc(), 4);
    cpu.set_pc(0x40);
    cpu.retire();
    assert_eq!((cpu.pc(), cpu.next_pc()), (0x40, 0x44));
}

#[test]
fn step_fetches_from_the_bus() {
    let mut bytes = vec![0u8; BIOS_SIZE];
    // MOV r0, #1 ; ADD r0, r0, #2 ; B to itself
    for (k, word) in [0xE3A00001u32, 0xE2800002, 0xEAFFFFFE].iter().enumerate() {
        bytes[4 * k..4 * k + 4].copy_from_slice(&word.to_le_bytes());
    }
    let bios = Bios::new(bytes).unwrap();
    let flash = Flash::new(vec![0; FLASH_SIZE]).unwrap();
    let mut cpu = Cpu::new(Interconnect::new(bios, flash, Dac::new()));
    for _ in 0..5 {
        cpu.step(&mut NoDebugger).unwrap();
    }
    assert_eq!(cpu.reg(r(0)), 3);
    assert_eq!(cpu.pc(), 8);
    // the boot ROM also answers in region 4
    cpu.restart_at(0x0400_0004);
    cpu.step(&mut NoDebugger).unwrap();
    assert_eq!(cpu.reg(r(0)), 5);
    assert_eq!(cpu.pc(), 0x0400_0008);
    // nothing to fetch
    cpu.restart_at(0x0e00_0000);
    assert_eq!(
        cpu.step(&mut NoDebugger),
        Err(ExecError::Bus(BusError::Unhandled { addr: 0x0e00_0000 }))
    );
    assert_eq!(cpu.interconnect().load::<Word>(4), Ok(0xE2800002));
}
