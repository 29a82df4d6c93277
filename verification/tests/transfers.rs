use pockystation::cpu::armv4_is::{execute, Instruction};
use pockystation::cpu::transfer::{ldr, str, Mode2, Mode3};
use pockystation::cpu::{Cpu, ExecError, RegisterIndex};
use pockystation::dac::Dac;
use pockystation::debugger::{Debugger, NoDebugger};
use pockystation::memory::bios::{Bios, BIOS_SIZE};
use pockystation::memory::flash::{Flash, FLASH_SIZE};
use pockystation::memory::{BusError, Byte, HalfWord, Interconnect, Word};

/// A debugger that counts the accesses it is told of.
struct AccessCounter {
    loads: u64,
    stores: u64,
}

impl Debugger for AccessCounter {
    fn on_load(&mut self, _addr: u32, _width: u8) {
        self.loads += 1;
    }

    fn on_store(&mut self, _addr: u32, _width: u8, _value: u32) {
        self.stores += 1;
    }
}

/// A machine with its 2 KiB of RAM mapped at address 0.
fn machine() -> Cpu {
    let bios = Bios::new(vec![0; BIOS_SIZE]).unwrap();
    let flash = Flash::new(vec![0; FLASH_SIZE]).unwrap();
    let mut inter = Interconnect::new(bios, flash, Dac::new());
    inter.store::<Word>(0x0600_0000, 1).unwrap();
    Cpu::new(inter)
}

fn r(i: u32) -> RegisterIndex {
    RegisterIndex(i)
}

fn run(cpu: &mut Cpu, word: u32) -> Result<(), ExecError> {
    execute(cpu, &mut NoDebugger, word)
}

fn poke(cpu: &mut Cpu, addr: u32, val: u32) {
    cpu.interconnect_mut().store::<Word>(addr, val).unwrap();
}

fn peek(cpu: &Cpu, addr: u32) -> u32 {
    cpu.interconnect().load::<Word>(addr).unwrap()
}

#[test]
fn ldr_with_immediate_offset() {
    let mut cpu = machine();
    poke(&mut cpu, 0x104, 0x1122_3344);
    poke(&mut cpu, 0x0fc, 0x5566_7788);
    cpu.set_reg(r(1), 0x100);
    run(&mut cpu, 0xE5910004).unwrap(); // LDR r0, [r1, #4]
    assert_eq!(cpu.reg(r(0)), 0x1122_3344);
    run(&mut cpu, 0xE5110004).unwrap(); // LDR r0, [r1, #-4]
    assert_eq!(cpu.reg(r(0)), 0x5566_7788);
    assert_eq!(cpu.reg(r(1)), 0x100);
    assert_eq!(cpu.pc(), 8);
}

#[test]
fn ldr_rotates_by_the_low_bits_of_the_address() {
    let mut cpu = machine();
    poke(&mut cpu, 0x100, 0xAABB_CCDD);
    for (addr, expected) in
        [
            (0x100u32, 0xAABB_CCDDu32),
            (0x101, 0xDDAA_BBCC),
            (0x102, 0xCCDD_AABB),
            (0x103, 0xBBCC_DDAA),
        ]
    {
        cpu.set_reg(r(1), addr);
        run(&mut cpu, 0xE5910000).unwrap(); // LDR r0, [r1]
        assert_eq!(cpu.reg(r(0)), expected);
    }
}

#[test]
fn ldr_pre_indexed_writes_the_address_back() {
    let mut cpu = machine();
    poke(&mut cpu, 0x108, 0xCAFE_F00D);
    poke(&mut cpu, 0x0f8, 0x0BAD_BEEF);
    cpu.set_reg(r(1), 0x100);
    run(&mut cpu, 0xE5B10008).unwrap(); // LDR r0, [r1, #8]!
    assert_eq!(cpu.reg(r(0)), 0xCAFE_F00D);
    assert_eq!(cpu.reg(r(1)), 0x108);
    run(&mut cpu, 0xE5310010).unwrap(); // LDR r0, [r1, #-16]!
    assert_eq!(cpu.reg(r(0)), 0x0BAD_BEEF);
    assert_eq!(cpu.reg(r(1)), 0x0f8);
}

#[test]
fn ldr_post_indexed_uses_the_base_and_then_moves_it() {
    let mut cpu = machine();
    poke(&mut cpu, 0x100, 0xCAFE_F00D);
    cpu.set_reg(r(1), 0x100);
    run(&mut cpu, 0xE4910008).unwrap(); // LDR r0, [r1], #8
    assert_eq!(cpu.reg(r(0)), 0xCAFE_F00D);
    assert_eq!(cpu.reg(r(1)), 0x108);
}

#[test]
fn ldr_with_scaled_register_offset() {
    let mut cpu = machine();
    poke(&mut cpu, 0x10c, 0x0102_0304);
    cpu.set_reg(r(1), 0x100);
    cpu.set_reg(r(2), 3);
    run(&mut cpu, 0xE7910102).unwrap(); // LDR r0, [r1, r2, LSL #2]
    assert_eq!(cpu.reg(r(0)), 0x0102_0304);
    assert_eq!(cpu.reg(r(1)), 0x100);
    run(&mut cpu, 0xE7B10102).unwrap(); // LDR r0, [r1, r2, LSL #2]!
    assert_eq!(cpu.reg(r(0)), 0x0102_0304);
    assert_eq!(cpu.reg(r(1)), 0x10c);
}

#[test]
fn ldr_into_pc_clears_the_low_two_bits() {
    let mut cpu = machine();
    poke(&mut cpu, 0x100, 0x0000_0207);
    cpu.set_reg(r(1), 0x100);
    run(&mut cpu, 0xE591F000).unwrap(); // LDR pc, [r1]
    assert_eq!(cpu.pc(), 0x204);
    assert_eq!(cpu.cpsr() & 0x20, 0);
}

#[test]
fn str_stores_a_word() {
    let mut cpu = machine();
    cpu.set_reg(r(0), 0xDEAD_BEEF);
    cpu.set_reg(r(1), 0x100);
    run(&mut cpu, 0xE5810004).unwrap(); // STR r0, [r1, #4]
    assert_eq!(peek(&cpu, 0x104), 0xDEAD_BEEF);
    run(&mut cpu, 0xE5010004).unwrap(); // STR r0, [r1, #-4]
    assert_eq!(peek(&cpu, 0x0fc), 0xDEAD_BEEF);
    run(&mut cpu, 0xE5A10010).unwrap(); // STR r0, [r1, #16]!
    assert_eq!(peek(&cpu, 0x110), 0xDEAD_BEEF);
    assert_eq!(cpu.reg(r(1)), 0x110);
    run(&mut cpu, 0xE4810004).unwrap(); // STR r0, [r1], #4
    assert_eq!(cpu.reg(r(1)), 0x114);
    cpu.set_reg(r(2), 1);
    run(&mut cpu, 0xE7810202).unwrap(); // STR r0, [r1, r2, LSL #4]
    assert_eq!(peek(&cpu, 0x124), 0xDEAD_BEEF);
}

#[test]
fn str_then_ldr_gives_the_word_back() {
    let mut cpu = machine();
    cpu.set_reg(r(0), 0x89AB_CDEF);
    cpu.set_reg(r(1), 0x200);
    run(&mut cpu, 0xE5810000).unwrap(); // STR r0, [r1]
    run(&mut cpu, 0xE5912000).unwrap(); // LDR r2, [r1]
    assert_eq!(cpu.reg(r(2)), 0x89AB_CDEF);
}

#[test]
fn strb_then_ldrb_gives_the_low_byte_back() {
    let mut cpu = machine();
    poke(&mut cpu, 0x200, 0xFFFF_FFFF);
    cpu.set_reg(r(0), 0x89AB_CDEF);
    cpu.set_reg(r(1), 0x201);
    run(&mut cpu, 0xE5C10000).unwrap(); // STRB r0, [r1]
    assert_eq!(peek(&cpu, 0x200), 0xFFFF_EFFF);
    run(&mut cpu, 0xE5D12000).unwrap(); // LDRB r2, [r1]
    assert_eq!(cpu.reg(r(2)), 0xEF);
    run(&mut cpu, 0xE5512001).unwrap(); // LDRB r2, [r1, #-1]
    assert_eq!(cpu.reg(r(2)), 0xFF);
}

#[test]
fn strh_then_ldrsh_gives_the_sign_extended_halfword_back() {
    let mut cpu = machine();
    cpu.set_reg(r(0), 0x1234_8765);
    cpu.set_reg(r(1), 0x200);
    run(&mut cpu, 0xE1C100B2).unwrap(); // STRH r0, [r1, #2]
    assert_eq!(peek(&cpu, 0x200), 0x8765_0000);
    run(&mut cpu, 0xE1D120F2).unwrap(); // LDRSH r2, [r1, #2]
    assert_eq!(cpu.reg(r(2)), 0xFFFF_8765);
    run(&mut cpu, 0xE1D120B2).unwrap(); // LDRH r2, [r1, #2]
    assert_eq!(cpu.reg(r(2)), 0x0000_8765);
    run(&mut cpu, 0xE1D120D3).unwrap(); // LDRSB r2, [r1, #3]
    assert_eq!(cpu.reg(r(2)), 0xFFFF_FF87);
    run(&mut cpu, 0xE1D120D2).unwrap(); // LDRSB r2, [r1, #2]
    assert_eq!(cpu.reg(r(2)), 0x0000_0065);
    cpu.set_reg(r(0), 0x1234_7765);
    run(&mut cpu, 0xE1C100B0).unwrap(); // STRH r0, [r1]
    run(&mut cpu, 0xE1D120F0).unwrap(); // LDRSH r2, [r1]
    assert_eq!(cpu.reg(r(2)), 0x0000_7765);
}

#[test]
fn halfword_addressing_modes() {
    let mut cpu = machine();
    poke(&mut cpu, 0x200, 0x2222_1111);
    poke(&mut cpu, 0x220, 0x4444_3333);
    cpu.set_reg(r(1), 0x200);
    cpu.set_reg(r(3), 0x22);
    // the immediate is split over bits 11:8 and 3:0
    run(&mut cpu, 0xE1D122B2).unwrap(); // LDRH r2, [r1, #0x22]
    assert_eq!(cpu.reg(r(2)), 0x4444);
    run(&mut cpu, 0xE19120B3).unwrap(); // LDRH r2, [r1, r3]
    assert_eq!(cpu.reg(r(2)), 0x4444);
    run(&mut cpu, 0xE1F120B2).unwrap(); // LDRH r2, [r1, #2]!
    assert_eq!(cpu.reg(r(2)), 0x2222);
    assert_eq!(cpu.reg(r(1)), 0x202);
    run(&mut cpu, 0xE0D120B2).unwrap(); // LDRH r2, [r1], #2
    assert_eq!(cpu.reg(r(2)), 0x2222);
    assert_eq!(cpu.reg(r(1)), 0x204);
    run(&mut cpu, 0xE15120B4).unwrap(); // LDRH r2, [r1, #-4]
    assert_eq!(cpu.reg(r(2)), 0x1111);
    cpu.set_reg(r(0), 0xABCD);
    run(&mut cpu, 0xE16100B4).unwrap(); // STRH r0, [r1, #-4]!
    assert_eq!(cpu.reg(r(1)), 0x200);
    assert_eq!(peek(&cpu, 0x200), 0x2222_ABCD);
    run(&mut cpu, 0xE0C100B2).unwrap(); // STRH r0, [r1], #2
    assert_eq!(cpu.reg(r(1)), 0x202);
    run(&mut cpu, 0xE18100B3).unwrap(); // STRH r0, [r1, r3]
    assert_eq!(peek(&cpu, 0x224), 0x0000_ABCD);
}

#[test]
fn halfword_transfer_with_register_offset_wants_zero_bits() {
    let mut cpu = machine();
    cpu.set_reg(r(1), 0x200);
    assert_eq!(run(&mut cpu, 0xE19121B3), Err(ExecError::MalformedInstruction));
    assert_eq!(run(&mut cpu, 0xE1812FB3), Err(ExecError::MalformedInstruction));
}

#[test]
fn writeback_with_pc_base_or_equal_registers_is_refused() {
    let mut cpu = machine();
    cpu.set_reg(r(1), 0x100);
    for word in [
        0xE5B11004u32, // LDR r1, [r1, #4]!
        0xE4911004,    // LDR r1, [r1], #4
        0xE5BF0004,    // LDR r0, [pc, #4]!
        0xE49F0004,    // LDR r0, [pc], #4
        0xE5A11004,    // STR r1, [r1, #4]!
        0xE7B11102,    // LDR r1, [r1, r2, LSL #2]!
        0xE7BF0102,    // LDR r0, [pc, r2, LSL #2]!
        0xE5E11004,    // STRB r1, [r1, #4]!
        0xE4D11004,    // LDRB r1, [r1], #4
        0xE1F110B2,    // LDRH r1, [r1, #2]!
        0xE0D110B2,    // LDRH r1, [r1], #2
        0xE1FF00B2,    // LDRH r0, [pc, #2]!
        0xE16110B4,    // STRH r1, [r1, #-4]!
    ] {
        assert_eq!(run(&mut cpu, word), Err(ExecError::UnpredictableWriteback), "{:08x}", word);
    }
    assert_eq!(cpu.reg(r(1)), 0x100);
    // without writeback the same registers are fine
    poke(&mut cpu, 0x104, 77);
    run(&mut cpu, 0xE5911004).unwrap(); // LDR r1, [r1, #4]
    assert_eq!(cpu.reg(r(1)), 77);
}

#[test]
fn pc_relative_load() {
    let mut cpu = machine();
    poke(&mut cpu, 0x10c, 0x600D_F00D);
    cpu.restart_at(0x100);
    run(&mut cpu, 0xE59F0004).unwrap(); // LDR r0, [pc, #4]
    assert_eq!(cpu.reg(r(0)), 0x600D_F00D);
}

#[test]
fn storing_the_pc_as_word_or_byte_is_refused() {
    let mut cpu = machine();
    cpu.set_reg(r(1), 0x100);
    assert_eq!(run(&mut cpu, 0xE581F000), Err(ExecError::Unpredictable)); // STR pc, [r1]
    assert_eq!(run(&mut cpu, 0xE5C1F000), Err(ExecError::Unpredictable)); // STRB pc, [r1]
    cpu.restart_at(0x40);
    run(&mut cpu, 0xE1C1F0B0).unwrap(); // STRH pc, [r1]
    assert_eq!(peek(&cpu, 0x100), 0x48);
}

#[test]
fn misaligned_accesses_are_refused_by_the_bus() {
    let mut cpu = machine();
    cpu.set_reg(r(1), 0x101);
    assert_eq!(
        run(&mut cpu, 0xE5810000), // STR r0, [r1]
        Err(ExecError::Bus(BusError::Misaligned { addr: 0x101, width: 4 }))
    );
    assert_eq!(
        run(&mut cpu, 0xE1D100B0), // LDRH r0, [r1]
        Err(ExecError::Bus(BusError::Misaligned { addr: 0x101, width: 2 }))
    );
    assert_eq!(
        run(&mut cpu, 0xE1C100B0), // STRH r0, [r1]
        Err(ExecError::Bus(BusError::Misaligned { addr: 0x101, width: 2 }))
    );
}

#[test]
fn accesses_that_nothing_answers_are_refused_by_the_bus() {
    let mut cpu = machine();
    cpu.set_reg(r(1), 0x0e00_0000);
    assert_eq!(
        run(&mut cpu, 0xE5910000),
        Err(ExecError::Bus(BusError::Unhandled { addr: 0x0e00_0000 }))
    );
    // beyond the end of the RAM
    cpu.set_reg(r(1), 0x800);
    assert_eq!(
        run(&mut cpu, 0xE5810000),
        Err(ExecError::Bus(BusError::Unhandled { addr: 0x800 }))
    );
    cpu.set_reg(r(1), 0x7fc);
    run(&mut cpu, 0xE5810000).unwrap();
}

#[test]
fn the_debugger_hears_of_each_access() {
    let mut cpu = machine();
    let mut dbg = AccessCounter { loads: 0, stores: 0 };
    cpu.set_reg(r(1), 0x100);
    execute(&mut cpu, &mut dbg, 0xE5810000).unwrap(); // STR
    execute(&mut cpu, &mut dbg, 0xE5910000).unwrap(); // LDR
    execute(&mut cpu, &mut dbg, 0xE5D10000).unwrap(); // LDRB
    execute(&mut cpu, &mut dbg, 0xE1A00001).unwrap(); // MOV
    assert_eq!((dbg.loads, dbg.stores), (2, 1));
    assert_eq!(cpu.load::<Byte, AccessCounter>(&mut dbg, 0x100), Ok(0));
    assert_eq!(cpu.store::<HalfWord, AccessCounter>(&mut dbg, 0x100, 0x1_2345), Ok(()));
    assert_eq!(cpu.load::<Word, AccessCounter>(&mut dbg, 0x100), Ok(0x2345));
    assert_eq!((dbg.loads, dbg.stores), (4, 2));
}

#[test]
fn kernels_check_the_form_they_are_given() {
    let mut cpu = machine();
    let mut dbg = NoDebugger;
    cpu.set_reg(r(1), 0x100);
    // LDR r0, [r1, #4] is no store, no byte access, and goes up
    let i = Instruction(0xE5910004);
    assert!(Mode2::Imm.is_valid(i, true, true, false));
    assert!(Mode2::ImmPre.is_valid(i, true, true, false));
    assert!(!Mode2::ImmPost.is_valid(i, true, true, false));
    assert!(!Mode2::LslReg.is_valid(i, true, true, false));
    assert!(!Mode2::Imm.is_valid(i, false, true, false));
    assert!(!Mode2::Imm.is_valid(i, true, false, false));
    assert!(!Mode2::Imm.is_valid(i, true, true, true));
    assert_eq!(str(i, Mode2::Imm, true, &mut dbg, &mut cpu), Err(ExecError::MalformedInstruction));
    assert_eq!(ldr(i, Mode2::Imm, false, &mut dbg, &mut cpu), Err(ExecError::MalformedInstruction));
    assert_eq!(ldr(i, Mode2::Imm, true, &mut dbg, &mut cpu), Ok(()));
    // LDRSH r2, [r1, #2]
    let i = Instruction(0xE1D120F2);
    assert!(Mode3::Imm.is_valid(i, true, true, false, true));
    assert!(!Mode3::Imm.is_valid(i, true, true, false, false));
    assert!(!Mode3::Imm.is_valid(i, true, true, true, true));
    assert!(!Mode3::Reg.is_valid(i, true, true, false, true));
    assert!(!Mode3::ImmPre.is_valid(i, true, true, false, true));
}

#[test]
fn addresses_and_writeback() {
    let mut cpu = machine();
    cpu.set_reg(r(1), 0x100);
    cpu.set_reg(r(2), 0x10);
    assert_eq!(Mode2::Imm.address(Instruction(0xE5910FFF), true, &mut cpu), Ok(0x10ff));
    assert_eq!(Mode2::Imm.address(Instruction(0xE5110FFF), false, &mut cpu), Ok(0xFFFF_F101));
    assert_eq!(Mode2::LslReg.address(Instruction(0xE7910102), true, &mut cpu), Ok(0x140));
    assert_eq!(cpu.reg(r(1)), 0x100);
    assert_eq!(Mode2::ImmPost.address(Instruction(0xE4910008), true, &mut cpu), Ok(0x100));
    assert_eq!(cpu.reg(r(1)), 0x108);
    assert_eq!(Mode2::ImmPre.address(Instruction(0xE5B10008), true, &mut cpu), Ok(0x110));
    assert_eq!(cpu.reg(r(1)), 0x110);
    assert_eq!(Mode3::Imm.address(Instruction(0xE1D12FBF), true, &mut cpu), Ok(0x110 + 0xff));
    assert_eq!(Mode3::Reg.address(Instruction(0xE19120B2), true, &mut cpu), Ok(0x120));
    assert_eq!(Mode3::ImmPost.address(Instruction(0xE0D120B2), true, &mut cpu), Ok(0x110));
    assert_eq!(cpu.reg(r(1)), 0x112);
}

#[test]
fn a_transfer_that_the_bus_refuses_leaves_the_base_written_back() {
    let mut cpu = machine();
    cpu.set_reg(r(0), 7);
    cpu.set_reg(r(1), 0x100);
    assert_eq!(
        run(&mut cpu, 0xE5A10800), // STR r0, [r1, #0x800]!
        Err(ExecError::Bus(BusError::Unhandled { addr: 0x900 }))
    );
    assert_eq!(cpu.reg(r(1)), 0x900);
    assert_eq!(cpu.pc(), 0);
    cpu.set_reg(r(1), 0x100);
    assert_eq!(
        run(&mut cpu, 0xE4912004), // LDR r2, [r1], #4 from a fine address
        Ok(())
    );
    assert_eq!(cpu.reg(r(1)), 0x104);
    assert_eq!(cpu.pc(), 4);
    cpu.set_reg(r(1), 0x900);
    assert_eq!(
        run(&mut cpu, 0xE4912004), // LDR r2, [r1], #4
        Err(ExecError::Bus(BusError::Unhandled { addr: 0x900 }))
    );
    assert_eq!(cpu.reg(r(1)), 0x904);
    assert_eq!(cpu.reg(r(2)), 0);
    assert_eq!(cpu.pc(), 4);
}
