use pockystation::cpu::armv4_is::{execute, Instruction};
use pockystation::cpu::data::DataOp;
use pockystation::cpu::operand::Mode1;
use pockystation::cpu::{Cpu, ExecError, RegisterIndex};
use pockystation::dac::Dac;
use pockystation::debugger::NoDebugger;
use pockystation::memory::bios::{Bios, BIOS_SIZE};
use pockystation::memory::flash::{Flash, FLASH_SIZE};
use pockystation::memory::Interconnect;

fn new_cpu() -> Cpu {
    let bios = Bios::new(vec![0; BIOS_SIZE]).unwrap();
    let flash = Flash::new(vec![0; FLASH_SIZE]).unwrap();
    Cpu::new(Interconnect::new(bios, flash, Dac::new()))
}

fn r(i: u32) -> RegisterIndex {
    RegisterIndex(i)
}

fn run(cpu: &mut Cpu, word: u32) -> Result<(), ExecError> {
    execute(cpu, &mut NoDebugger, word)
}

fn flags(cpu: &Cpu) -> (bool, bool, bool, bool) {
    (cpu.n(), cpu.z(), cpu.c(), cpu.v())
}

#[test]
fn immediate_operand_is_rotated_right_by_twice_the_rotation() {
    let cpu = new_cpu();
    // imm8 = 0xff, rotation field 4: rotate right by 8
    assert_eq!(Mode1::Imm.value(Instruction(0xE3A004FF), &cpu), 0xFF00_0000);
    assert_eq!(Mode1::Imm.value(Instruction(0xE3A000FF), &cpu), 0x0000_00FF);
    // rotation field 15: rotate right by 30, that is left by 2
    assert_eq!(Mode1::Imm.value(Instruction(0xE3A00F81), &cpu), 0x0000_0204);
}

#[test]
fn immediate_operand_carry() {
    let mut cpu = new_cpu();
    cpu.set_c(true);
    assert_eq!(Mode1::Imm.value_carry(Instruction(0xE3B000FF), &cpu), Some((0xFF, true)));
    cpu.set_c(false);
    assert_eq!(Mode1::Imm.value_carry(Instruction(0xE3B000FF), &cpu), Some((0xFF, false)));
    assert_eq!(Mode1::Imm.value_carry(Instruction(0xE3B004FF), &cpu), Some((0xFF00_0000, true)));
    assert_eq!(Mode1::Imm.value_carry(Instruction(0xE3B0047F), &cpu), Some((0x7F00_0000, false)));
}

#[test]
fn lsl_by_immediate() {
    let mut cpu = new_cpu();
    cpu.set_reg(r(1), 0x8000_0001);
    // r1, LSL #1
    let i = Instruction(0xE1B00081);
    assert_eq!(Mode1::LslImm.value(i, &cpu), 0x0000_0002);
    assert_eq!(Mode1::LslImm.value_carry(i, &cpu), Some((0x0000_0002, true)));
    // r1, LSL #31: the last bit shifted out is bit 1
    let i = Instruction(0xE1B00F81);
    assert_eq!(Mode1::LslImm.value_carry(i, &cpu), Some((0x8000_0000, false)));
    // r1, LSL #0
    let i = Instruction(0xE1B00001);
    cpu.set_c(true);
    assert_eq!(Mode1::LslImm.value_carry(i, &cpu), Some((0x8000_0001, true)));
    cpu.set_c(false);
    assert_eq!(Mode1::LslImm.value_carry(i, &cpu), Some((0x8000_0001, false)));
}

#[test]
fn lsr_by_immediate() {
    let mut cpu = new_cpu();
    cpu.set_reg(r(1), 0x8000_0018);
    // r1, LSR #0 stands for a shift by 32
    let i = Instruction(0xE1B00021);
    assert_eq!(Mode1::LsrImm.value(i, &cpu), 0);
    assert_eq!(Mode1::LsrImm.value_carry(i, &cpu), Some((0, true)));
    // r1, LSR #4
    let i = Instruction(0xE1B00221);
    assert_eq!(Mode1::LsrImm.value_carry(i, &cpu), Some((0x0800_0001, true)));
    // r1, LSR #3
    let i = Instruction(0xE1B001A1);
    assert_eq!(Mode1::LsrImm.value_carry(i, &cpu), Some((0x1000_0003, false)));
}

#[test]
fn asr_by_immediate() {
    let mut cpu = new_cpu();
    cpu.set_reg(r(1), 0x8000_0010);
    // r1, ASR #0 stands for a shift by 32
    let i = Instruction(0xE1B00041);
    assert_eq!(Mode1::AsrImm.value_carry(i, &cpu), Some((0xFFFF_FFFF, true)));
    // r1, ASR #4
    let i = Instruction(0xE1B00241);
    assert_eq!(Mode1::AsrImm.value_carry(i, &cpu), Some((0xF800_0001, false)));
    // r1, ASR #5
    let i = Instruction(0xE1B002C1);
    assert_eq!(Mode1::AsrImm.value_carry(i, &cpu), Some((0xFC00_0000, true)));
    cpu.set_reg(r(1), 0x7FFF_FFFF);
    let i = Instruction(0xE1B00041);
    assert_eq!(Mode1::AsrImm.value_carry(i, &cpu), Some((0, false)));
}

#[test]
fn ror_by_immediate_and_rrx() {
    let mut cpu = new_cpu();
    cpu.set_reg(r(1), 0x1234_5678);
    // r1, ROR #8
    let i = Instruction(0xE1B00461);
    assert_eq!(Mode1::RorImm.value_carry(i, &cpu), Some((0x7812_3456, false)));
    // r1, ROR #4: bit 3 of 0x...8 is set
    let i = Instruction(0xE1B00261);
    assert_eq!(Mode1::RorImm.value_carry(i, &cpu), Some((0x8123_4567, true)));
    // r1, RRX
    let i = Instruction(0xE1B00061);
    cpu.set_reg(r(1), 0x0000_0003);
    cpu.set_c(true);
    assert_eq!(Mode1::RorImm.value_carry(i, &cpu), Some((0x8000_0001, true)));
    cpu.set_c(false);
    assert_eq!(Mode1::RorImm.value_carry(i, &cpu), Some((0x0000_0001, true)));
    cpu.set_reg(r(1), 0x0000_0002);
    assert_eq!(Mode1::RorImm.value_carry(i, &cpu), Some((0x0000_0001, false)));
}

#[test]
fn shifts_by_register() {
    let mut cpu = new_cpu();
    cpu.set_reg(r(1), 0x8000_0001);
    // r1, <shift> r2
    let lsl = Instruction(0xE1A00211);
    let lsr = Instruction(0xE1A00231);
    let asr = Instruction(0xE1A00251);
    let ror = Instruction(0xE1A00271);
    for (by, l, s, a, o) in [
        (0u32, 0x8000_0001u32, 0x8000_0001u32, 0x8000_0001u32, 0x8000_0001u32),
        (1, 0x0000_0002, 0x4000_0000, 0xC000_0000, 0xC000_0000),
        (31, 0x8000_0000, 0x0000_0001, 0xFFFF_FFFF, 0x0000_0003),
        (32, 0, 0, 0xFFFF_FFFF, 0x8000_0001),
        (33, 0, 0, 0xFFFF_FFFF, 0xC000_0000),
        (255, 0, 0, 0xFFFF_FFFF, 0x0000_0003),
        // only the low byte of the register counts
        (0x100, 0x8000_0001, 0x8000_0001, 0x8000_0001, 0x8000_0001),
        (0x101, 0x0000_0002, 0x4000_0000, 0xC000_0000, 0xC000_0000),
    ] {
        cpu.set_reg(r(2), by);
        assert_eq!(Mode1::LslReg.value(lsl, &cpu), l, "lsl by {}", by);
        assert_eq!(Mode1::LsrReg.value(lsr, &cpu), s, "lsr by {}", by);
        assert_eq!(Mode1::AsrReg.value(asr, &cpu), a, "asr by {}", by);
        assert_eq!(Mode1::RorReg.value(ror, &cpu), o, "ror by {}", by);
    }
}

#[test]
fn carry_of_shifts_by_register() {
    let mut cpu = new_cpu();
    cpu.set_reg(r(1), 0x8000_0004);
    let ror = Instruction(0xE1B00271);
    cpu.set_reg(r(2), 0);
    cpu.set_c(true);
    assert_eq!(Mode1::RorReg.value_carry(ror, &cpu), Some((0x8000_0004, true)));
    cpu.set_c(false);
    assert_eq!(Mode1::RorReg.value_carry(ror, &cpu), Some((0x8000_0004, false)));
    cpu.set_reg(r(2), 32);
    assert_eq!(Mode1::RorReg.value_carry(ror, &cpu), Some((0x8000_0004, true)));
    cpu.set_reg(r(2), 3);
    assert_eq!(Mode1::RorReg.value_carry(ror, &cpu), Some((0x9000_0000, true)));
    cpu.set_reg(r(2), 2);
    assert_eq!(Mode1::RorReg.value_carry(ror, &cpu), Some((0x2000_0001, false)));
    assert_eq!(Mode1::LslReg.value_carry(Instruction(0xE1B00211), &cpu), None);
    assert_eq!(Mode1::LsrReg.value_carry(Instruction(0xE1B00231), &cpu), None);
    assert_eq!(Mode1::AsrReg.value_carry(Instruction(0xE1B00251), &cpu), None);
}

#[test]
fn operand_forms_are_checked_against_the_encoding() {
    // MOVS r0, r1, LSL #1
    let i = Instruction(0xE1B00081);
    assert!(Mode1::LslImm.is_valid(i, 13, true));
    assert!(!Mode1::LslImm.is_valid(i, 13, false));
    assert!(!Mode1::LslImm.is_valid(i, 12, true));
    assert!(!Mode1::LsrImm.is_valid(i, 13, true));
    assert!(!Mode1::Imm.is_valid(i, 13, true));
    assert!(Mode1::Imm.is_valid(Instruction(0xE3A00005), 13, false));
    assert!(Mode1::RorReg.is_valid(Instruction(0xE1A00271), 13, false));
    assert_eq!(
        DataOp::Movs.execute(i, Mode1::LsrImm, &mut new_cpu()),
        Err(ExecError::MalformedInstruction)
    );
}

#[test]
fn logical_operations() {
    let mut cpu = new_cpu();
    cpu.set_reg(r(1), 0xF0F0_F0F0);
    cpu.set_reg(r(2), 0x0FF0_0FF0);
    run(&mut cpu, 0xE0010002).unwrap(); // AND r0, r1, r2
    assert_eq!(cpu.reg(r(0)), 0x00F0_00F0);
    run(&mut cpu, 0xE0210002).unwrap(); // EOR r0, r1, r2
    assert_eq!(cpu.reg(r(0)), 0xFF00_FF00);
    run(&mut cpu, 0xE1810002).unwrap(); // ORR r0, r1, r2
    assert_eq!(cpu.reg(r(0)), 0xFFF0_FFF0);
    run(&mut cpu, 0xE1C10002).unwrap(); // BIC r0, r1, r2
    assert_eq!(cpu.reg(r(0)), 0xF000_F000);
    run(&mut cpu, 0xE1E00002).unwrap(); // MVN r0, r2
    assert_eq!(cpu.reg(r(0)), 0xF00F_F00F);
    run(&mut cpu, 0xE1A00002).unwrap(); // MOV r0, r2
    assert_eq!(cpu.reg(r(0)), 0x0FF0_0FF0);
    // none of them touched the flags
    assert_eq!(flags(&cpu), (false, false, false, false));
    assert_eq!(cpu.pc(), 24);
}

#[test]
fn logical_operations_that_set_the_flags_take_the_shifter_carry() {
    let mut cpu = new_cpu();
    cpu.set_reg(r(1), 0xF0F0_F0F0);
    cpu.set_v(true);
    run(&mut cpu, 0xE21100FF).unwrap(); // ANDS r0, r1, #0xff
    assert_eq!(cpu.reg(r(0)), 0xF0);
    assert_eq!(flags(&cpu), (false, false, false, true));
    run(&mut cpu, 0xE21104FF).unwrap(); // ANDS r0, r1, #0xff000000
    assert_eq!(cpu.reg(r(0)), 0xF000_0000);
    assert_eq!(flags(&cpu), (true, false, true, true));
    run(&mut cpu, 0xE211000F).unwrap(); // ANDS r0, r1, #0xf
    assert_eq!(cpu.reg(r(0)), 0);
    assert_eq!(flags(&cpu), (false, true, true, true));
    run(&mut cpu, 0xE23104F0).unwrap(); // EORS r0, r1, #0xf0000000
    assert_eq!(cpu.reg(r(0)), 0x00F0_F0F0);
    assert_eq!(flags(&cpu), (false, false, true, true));
    run(&mut cpu, 0xE1B000A1).unwrap(); // MOVS r0, r1, LSR #1
    assert_eq!(cpu.reg(r(0)), 0x7878_7878);
    assert_eq!(flags(&cpu), (false, false, false, true));
    run(&mut cpu, 0xE3D100F0).unwrap(); // BICS r0, r1, #0xf0
    assert_eq!(cpu.reg(r(0)), 0xF0F0_F000);
    assert_eq!(flags(&cpu), (true, false, false, true));
    run(&mut cpu, 0xE3910001).unwrap(); // ORRS r0, r1, #1
    assert_eq!(cpu.reg(r(0)), 0xF0F0_F0F1);
    assert_eq!(flags(&cpu), (true, false, false, true));
}

#[test]
fn tests_set_the_flags_and_write_no_register() {
    let mut cpu = new_cpu();
    cpu.set_reg(r(0), 0x1111_1111);
    cpu.set_reg(r(1), 0x8000_0000);
    run(&mut cpu, 0xE3110102).unwrap(); // TST r1, #0x80000000
    assert_eq!(flags(&cpu), (true, false, true, false));
    run(&mut cpu, 0xE3110001).unwrap(); // TST r1, #1
    assert_eq!(flags(&cpu), (false, true, true, false));
    cpu.set_reg(r(2), 0x8000_0000);
    run(&mut cpu, 0xE1310002).unwrap(); // TEQ r1, r2
    assert_eq!(flags(&cpu), (false, true, true, false));
    assert_eq!(cpu.reg(r(0)), 0x1111_1111);
}

#[test]
fn subtraction_flags() {
    let mut cpu = new_cpu();
    cpu.set_reg(r(1), 5);
    run(&mut cpu, 0xE2510005).unwrap(); // SUBS r0, r1, #5
    assert_eq!(cpu.reg(r(0)), 0);
    assert_eq!(flags(&cpu), (false, true, true, false));
    run(&mut cpu, 0xE2510006).unwrap(); // SUBS r0, r1, #6
    assert_eq!(cpu.reg(r(0)), 0xFFFF_FFFF);
    assert_eq!(flags(&cpu), (true, false, false, false));
    cpu.set_reg(r(1), 0x7FFF_FFFF);
    run(&mut cpu, 0xE25104FF).unwrap(); // SUBS r0, r1, #0xff000000
    assert_eq!(cpu.reg(r(0)), 0x80FF_FFFF);
    assert_eq!(flags(&cpu), (true, false, false, true));
    run(&mut cpu, 0xE2410001).unwrap(); // SUB r0, r1, #1
    assert_eq!(cpu.reg(r(0)), 0x7FFF_FFFE);
    assert_eq!(flags(&cpu), (true, false, false, true));
}

#[test]
fn reverse_subtraction_flags() {
    let mut cpu = new_cpu();
    cpu.set_reg(r(1), 1);
    run(&mut cpu, 0xE2710000).unwrap(); // RSBS r0, r1, #0
    assert_eq!(cpu.reg(r(0)), 0xFFFF_FFFF);
    assert_eq!(flags(&cpu), (true, false, false, false));
    run(&mut cpu, 0xE2710001).unwrap(); // RSBS r0, r1, #1
    assert_eq!(cpu.reg(r(0)), 0);
    assert_eq!(flags(&cpu), (false, true, true, false));
    // 0x80000000 - 1 overflows
    run(&mut cpu, 0xE2710102).unwrap(); // RSBS r0, r1, #0x80000000
    assert_eq!(cpu.reg(r(0)), 0x7FFF_FFFF);
    assert_eq!(flags(&cpu), (false, false, true, true));
    // 1 - 0x80000000 overflows too
    cpu.set_reg(r(1), 0x8000_0000);
    run(&mut cpu, 0xE2710001).unwrap(); // RSBS r0, r1, #1
    assert_eq!(cpu.reg(r(0)), 0x8000_0001);
    assert_eq!(flags(&cpu), (true, false, false, true));
    run(&mut cpu, 0xE2610001).unwrap(); // RSB r0, r1, #1
    assert_eq!(cpu.reg(r(0)), 0x8000_0001);
}

#[test]
fn addition_flags() {
    let mut cpu = new_cpu();
    cpu.set_reg(r(1), 0x7FFF_FFFF);
    run(&mut cpu, 0xE2910001).unwrap(); // ADDS r0, r1, #1
    assert_eq!(cpu.reg(r(0)), 0x8000_0000);
    assert_eq!(flags(&cpu), (true, false, false, true));
    cpu.set_reg(r(1), 0xFFFF_FFFF);
    run(&mut cpu, 0xE2910001).unwrap(); // ADDS r0, r1, #1
    assert_eq!(cpu.reg(r(0)), 0);
    assert_eq!(flags(&cpu), (false, true, true, false));
    cpu.set_reg(r(1), 0x8000_0000);
    run(&mut cpu, 0xE2910102).unwrap(); // ADDS r0, r1, #0x80000000
    assert_eq!(cpu.reg(r(0)), 0);
    assert_eq!(flags(&cpu), (false, true, true, true));
    run(&mut cpu, 0xE2810003).unwrap(); // ADD r0, r1, #3
    assert_eq!(cpu.reg(r(0)), 0x8000_0003);
    assert_eq!(flags(&cpu), (false, true, true, true));
}

#[test]
fn add_with_carry_takes_the_carry_flag() {
    let mut cpu = new_cpu();
    cpu.set_reg(r(1), 1);
    cpu.set_reg(r(2), 2);
    run(&mut cpu, 0xE0A10002).unwrap(); // ADC r0, r1, r2
    assert_eq!(cpu.reg(r(0)), 3);
    cpu.set_c(true);
    run(&mut cpu, 0xE0A10002).unwrap();
    assert_eq!(cpu.reg(r(0)), 4);
    cpu.set_reg(r(1), 0xFFFF_FFFF);
    cpu.set_reg(r(2), 0);
    run(&mut cpu, 0xE0A10002).unwrap();
    assert_eq!(cpu.reg(r(0)), 0);
    assert_eq!(flags(&cpu), (false, false, true, false));
}

#[test]
fn compare_flags() {
    let mut cpu = new_cpu();
    cpu.set_reg(r(1), 0x8000_0000);
    run(&mut cpu, 0xE3510001).unwrap(); // CMP r1, #1
    assert_eq!(flags(&cpu), (false, false, true, true));
    cpu.set_reg(r(1), 0);
    run(&mut cpu, 0xE3510001).unwrap(); // CMP r1, #1
    assert_eq!(flags(&cpu), (true, false, false, false));
    cpu.set_reg(r(2), 0);
    run(&mut cpu, 0xE1510002).unwrap(); // CMP r1, r2
    assert_eq!(flags(&cpu), (false, true, true, false));
}

#[test]
fn compare_negative_flags() {
    let mut cpu = new_cpu();
    cpu.set_reg(r(1), 0xFFFF_FFFF);
    run(&mut cpu, 0xE3710001).unwrap(); // CMN r1, #1
    assert_eq!(flags(&cpu), (false, true, true, false));
    // the overflow flag is that of the sum
    cpu.set_reg(r(1), 0x7FFF_FFFF);
    run(&mut cpu, 0xE3710001).unwrap(); // CMN r1, #1
    assert_eq!(flags(&cpu), (true, false, true, true));
    // the carry flag tells whether the first operand is at least the second
    cpu.set_reg(r(1), 1);
    run(&mut cpu, 0xE3710002).unwrap(); // CMN r1, #2
    assert_eq!(flags(&cpu), (false, false, false, false));
    cpu.set_reg(r(1), 0x8000_0000);
    run(&mut cpu, 0xE3710102).unwrap(); // CMN r1, #0x80000000
    assert_eq!(flags(&cpu), (false, true, true, true));
}

#[test]
fn malformed_data_processing() {
    let mut cpu = new_cpu();
    // a test with a destination other than 0
    assert_eq!(run(&mut cpu, 0xE3501005), Err(ExecError::MalformedInstruction)); // CMP
    assert_eq!(run(&mut cpu, 0xE3111001), Err(ExecError::MalformedInstruction)); // TST
    assert_eq!(run(&mut cpu, 0xE1312002), Err(ExecError::MalformedInstruction)); // TEQ
    assert_eq!(run(&mut cpu, 0xE3713001), Err(ExecError::MalformedInstruction)); // CMN
    // a move with a first operand other than 0
    assert_eq!(run(&mut cpu, 0xE3A10005), Err(ExecError::MalformedInstruction)); // MOV
    assert_eq!(run(&mut cpu, 0xE3E10005), Err(ExecError::MalformedInstruction)); // MVN
    assert_eq!(run(&mut cpu, 0xE1B10002), Err(ExecError::MalformedInstruction)); // MOVS
    // nothing happened
    assert_eq!(cpu.pc(), 0);
    assert_eq!(cpu.reg(r(1)), 0);
}

#[test]
fn flag_setting_operation_with_pc_destination() {
    let mut cpu = new_cpu();
    for word in [0xE091F002u32, 0xE211F0FF, 0xE231F001, 0xE251F001, 0xE271F001, 0xE391F001,
        0xE1B0F001, 0xE3D1F001]
    {
        assert_eq!(run(&mut cpu, word), Err(ExecError::UnpredictableWithPCTarget), "{:08x}", word);
    }
    assert_eq!(cpu.pc(), 0);
}

#[test]
fn unimplemented_instructions() {
    let mut cpu = new_cpu();
    // ADCS has no kernel
    assert_eq!(
        run(&mut cpu, 0xE0B10002),
        Err(ExecError::Unimplemented { word: 0xE0B10002, index: 0x0b0 })
    );
    // MOVS r0, r1, LSL r2 needs the carry of a shift by register
    assert_eq!(
        run(&mut cpu, 0xE1B00211),
        Err(ExecError::Unimplemented { word: 0xE1B00211, index: 0x1b1 })
    );
    // a coprocessor instruction
    assert_eq!(
        run(&mut cpu, 0xEE000010),
        Err(ExecError::Unimplemented { word: 0xEE000010, index: 0xe01 })
    );
    // an arithmetic operation needs no carry from the shifter
    cpu.set_reg(r(1), 1);
    cpu.set_reg(r(2), 4);
    cpu.set_reg(r(3), 2);
    run(&mut cpu, 0xE0910312).unwrap(); // ADDS r0, r1, r2, LSL r3
    assert_eq!(cpu.reg(r(0)), 17);
}

#[test]
fn move_to_pc_jumps() {
    let mut cpu = new_cpu();
    cpu.set_reg(r(14), 0x1236);
    run(&mut cpu, 0xE1A0F00E).unwrap(); // MOV pc, lr
    assert_eq!(cpu.pc(), 0x1234);
}

#[test]
fn pc_reads_as_the_address_of_the_instruction_plus_8() {
    let mut cpu = new_cpu();
    cpu.restart_at(0x200);
    assert_eq!(cpu.reg(r(15)), 0x208);
    run(&mut cpu, 0xE1A0000F).unwrap(); // MOV r0, pc
    assert_eq!(cpu.reg(r(0)), 0x208);
    run(&mut cpu, 0xE28F1004).unwrap(); // ADD r1, pc, #4
    assert_eq!(cpu.reg(r(1)), 0x204 + 8 + 4);
    assert_eq!(cpu.pc(), 0x208);
}

#[test]
fn false_condition_only_advances_the_pc() {
    let mut cpu = new_cpu();
    cpu.restart_at(0x40);
    cpu.set_reg(r(0), 7);
    let cpsr = cpu.cpsr();
    // the zero flag is clear: EQ does not hold
    run(&mut cpu, 0x03A00005).unwrap(); // MOVEQ r0, #5
    assert_eq!(cpu.reg(r(0)), 7);
    assert_eq!(cpu.pc(), 0x44);
    assert_eq!(cpu.cpsr(), cpsr);
    // not even a word without a kernel is looked at
    run(&mut cpu, 0x0E000010).unwrap();
    assert_eq!(cpu.pc(), 0x48);
    // a false condition on a branch
    run(&mut cpu, 0x0A000010).unwrap();
    assert_eq!(cpu.pc(), 0x4c);
}

#[test]
fn conditions() {
    // (code, n, z, c, v) -> holds
    let cases = [
        (0x0u32, (false, true, false, false), true),
        (0x0, (false, false, false, false), false),
        (0x1, (false, false, false, false), true),
        (0x2, (false, false, true, false), true),
        (0x3, (false, false, true, false), false),
        (0x4, (true, false, false, false), true),
        (0x5, (true, false, false, false), false),
        (0x6, (false, false, false, true), true),
        (0x7, (false, false, false, true), false),
        (0x8, (false, false, true, false), true),
        (0x8, (false, true, true, false), false),
        (0x9, (false, true, true, false), true),
        (0x9, (false, false, true, false), false),
        (0xa, (true, false, false, true), true),
        (0xa, (true, false, false, false), false),
        (0xb, (true, false, false, false), true),
        (0xb, (false, false, false, false), false),
        (0xc, (false, false, false, false), true),
        (0xc, (false, true, false, false), false),
        (0xc, (true, false, false, false), false),
        (0xd, (false, true, false, false), true),
        (0xd, (true, false, false, false), true),
        (0xd, (true, false, false, true), false),
        (0xe, (false, false, false, false), true),
    ];
    for (code, (n, z, c, v), holds) in cases {
        let mut cpu = new_cpu();
        cpu.set_n(n);
        cpu.set_z(z);
        cpu.set_c(c);
        cpu.set_v(v);
        run(&mut cpu, (code << 28) | 0x03A00005).unwrap(); // MOV<cond> r0, #5
        assert_eq!(cpu.reg(r(0)) == 5, holds, "code {:x} flags {:?}", code, (n, z, c, v));
        assert_eq!(cpu.pc(), 4);
    }
}

#[test]
fn multiply() {
    let mut cpu = new_cpu();
    cpu.set_reg(r(1), 3);
    cpu.set_reg(r(2), 5);
    cpu.set_reg(r(3), 100);
    cpu.set_c(true);
    run(&mut cpu, 0xE0000291).unwrap(); // MUL r0, r1, r2
    assert_eq!(cpu.reg(r(0)), 15);
    assert_eq!(flags(&cpu), (false, false, true, false));
    run(&mut cpu, 0xE0203291).unwrap(); // MLA r0, r1, r2, r3
    assert_eq!(cpu.reg(r(0)), 115);
    cpu.set_reg(r(1), 0x8000_0000);
    cpu.set_reg(r(2), 2);
    run(&mut cpu, 0xE0100291).unwrap(); // MULS r0, r1, r2
    assert_eq!(cpu.reg(r(0)), 0);
    assert_eq!(flags(&cpu), (false, true, true, false));
    cpu.set_reg(r(1), 0xFFFF_FFFF);
    run(&mut cpu, 0xE0100291).unwrap(); // MULS r0, r1, r2
    assert_eq!(cpu.reg(r(0)), 0xFFFF_FFFE);
    assert_eq!(flags(&cpu), (true, false, true, false));
    assert_eq!(cpu.pc(), 16);
}

#[test]
fn multiply_with_pc_is_unpredictable() {
    let mut cpu = new_cpu();
    assert_eq!(run(&mut cpu, 0xE00F0291), Err(ExecError::Unpredictable)); // destination
    assert_eq!(run(&mut cpu, 0xE000029F), Err(ExecError::Unpredictable)); // Rm
    assert_eq!(run(&mut cpu, 0xE0000F91), Err(ExecError::Unpredictable)); // Rs
    assert_eq!(run(&mut cpu, 0xE020F291), Err(ExecError::Unpredictable)); // MLA accumulator
    // the accumulator field of MUL is not used
    run(&mut cpu, 0xE000F291).unwrap();
}

#[test]
fn results_of_each_operation() {
    let a = 0x1234_5678;
    let b = 0x0F0F_0F0F;
    assert_eq!(DataOp::And.result(a, b, false), 0x0204_0608);
    assert_eq!(DataOp::Eor.result(a, b, false), 0x1D3B_5977);
    assert_eq!(DataOp::Sub.result(a, b, false), 0x0325_4769);
    assert_eq!(DataOp::Rsb.result(a, b, false), 0xFCDA_B897);
    assert_eq!(DataOp::Add.result(a, b, false), 0x2143_6587);
    assert_eq!(DataOp::Adc.result(a, b, true), 0x2143_6588);
    assert_eq!(DataOp::Orr.result(a, b, false), 0x1F3F_5F7F);
    assert_eq!(DataOp::Mov.result(a, b, false), b);
    assert_eq!(DataOp::Bic.result(a, b, false), 0x1030_5070);
    assert_eq!(DataOp::Mvn.result(a, b, false), 0xF0F0_F0F0);
    assert_eq!(DataOp::Cmp.result(a, b, false), 0x0325_4769);
    assert_eq!(DataOp::Cmn.result(a, b, false), 0x2143_6587);
    assert_eq!(DataOp::Tst.result(a, b, false), 0x0204_0608);
    assert_eq!(DataOp::Teq.result(a, b, false), 0x1D3B_5977);
    assert_eq!(DataOp::Cmp.opcode(), 10);
    assert!(DataOp::Cmp.sets_flags() && DataOp::Cmp.is_test());
    assert!(!DataOp::Adc.sets_flags() && !DataOp::Adds.is_test());
    assert!(DataOp::Movs.takes_shifter_carry() && !DataOp::Adds.takes_shifter_carry());
}
