use dmg_core::EmuError;
use dmg_core::apu::Apu;
use dmg_core::bus::{boot_rom, Bus};
use dmg_core::cpu::{Cpu, Instruction, Reg16, Reg8};
use dmg_core::ppu::Ppu;

fn fresh_cpu() -> Cpu {
    let apu = Apu::new();
    let ppu = Ppu::new();
    let bus = Bus::new(apu, ppu);
    Cpu::new(bus)
}

#[test]
fn decode_supported_table() {
    let table: Vec<(u8, Instruction)> = vec![
        (0x7C, Instruction::BitTest7H),
        (0xCD, Instruction::Call),
        (0xCB, Instruction::CBPrefix),
        (0x20, Instruction::JmpRelIfNonZero),
        (0x0C, Instruction::IncC),
        (0x13, Instruction::IncDE),
        (0x1A, Instruction::LoadAPtrDE),
        (0x7B, Instruction::LoadAE),
        (0x3E, Instruction::LoadAImm8),
        (0x06, Instruction::LoadBImm8),
        (0x0E, Instruction::LoadCImm8),
        (0x16, Instruction::LoadDImm8),
        (0x1E, Instruction::LoadEImm8),
        (0x26, Instruction::LoadHImm8),
        (0x2E, Instruction::LoadLImm8),
        (0x01, Instruction::LoadBCImm16),
        (0x11, Instruction::LoadDEImm16),
        (0x21, Instruction::LoadHLImm16),
        (0x31, Instruction::LoadSPImm16),
        (0xE0, Instruction::StoreAToAddrImm8High),
        (0xE2, Instruction::StoreAToAddrCHigh),
        (0x77, Instruction::StoreAToAddrHL),
        (0x32, Instruction::StoreAToAddrHLDec),
        (0xAF, Instruction::XorA8),
    ];
    for (byte, instr) in table {
        assert_eq!(Instruction::decode(byte), Ok(instr));
        // decoding twice gives the same answer: a pure function of the byte
        assert_eq!(Instruction::decode(byte), Ok(instr));
    }
}

#[test]
fn decode_unknown_byte_carries_it() {
    assert_eq!(
        Instruction::decode(0x00),
        Err(EmuError::UnimplementedOpcode(0x00))
    );
    assert_eq!(
        Instruction::decode(0x7D),
        Err(EmuError::UnimplementedOpcode(0x7D))
    );
    assert_eq!(
        Instruction::decode(0xFF),
        Err(EmuError::UnimplementedOpcode(0xFF))
    );
}

#[test]
fn xor_accumulator_with_itself_clears_it() {
    let mut cpu = fresh_cpu();
    cpu.a = 0x5A;
    cpu.flags = 0xF0;
    assert_eq!(cpu.exec_xor_8(Reg8::A), Ok(()));
    assert_eq!(cpu.a, 0);
    assert_eq!(cpu.flags, 0x80);
}

#[test]
fn xor_with_other_register() {
    let mut cpu = fresh_cpu();
    cpu.a = 0xF0;
    cpu.b = 0x0F;
    assert_eq!(cpu.exec_xor_8(Reg8::B), Ok(()));
    assert_eq!(cpu.a, 0xFF);
    assert_eq!(cpu.flags, 0x00);
}

#[test]
fn xor_invalid_operand() {
    let mut cpu = fresh_cpu();
    assert_eq!(cpu.exec_xor_8(Reg8::Imm8), Err(EmuError::InvalidOperand));
}

#[test]
fn bit_test_clear_bit_sets_zero_and_half_carry() {
    let mut cpu = fresh_cpu();
    cpu.h = 0x00;
    cpu.flags = 0x10; // carry set beforehand
    assert_eq!(cpu.exec_bit_test_8(Reg8::H, 7), Ok(()));
    assert_eq!(cpu.flags, 0xB0); // zero | half-carry | preserved carry
    assert_eq!(cpu.h, 0x00);
}

#[test]
fn bit_test_set_bit_clears_zero() {
    let mut cpu = fresh_cpu();
    cpu.h = 0x80;
    cpu.flags = 0x10;
    assert_eq!(cpu.exec_bit_test_8(Reg8::H, 7), Ok(()));
    assert_eq!(cpu.flags, 0x30); // half-carry | preserved carry, zero clear
}

#[test]
fn bit_test_invalid_operand() {
    let mut cpu = fresh_cpu();
    assert_eq!(
        cpu.exec_bit_test_8(Reg8::SPLow, 7),
        Err(EmuError::InvalidOperand)
    );
}

#[test]
fn relative_jump_negative_displacement() {
    let mut cpu = fresh_cpu();
    cpu.pc = 0x000A;
    cpu.imm8 = 0xFE; // -2
    cpu.exec_jmp_rel();
    assert_eq!(cpu.pc, 0x0008);
}

#[test]
fn relative_jump_positive_displacement() {
    let mut cpu = fresh_cpu();
    cpu.pc = 0x000A;
    cpu.imm8 = 0x02;
    cpu.exec_jmp_rel();
    assert_eq!(cpu.pc, 0x000C);
}

#[test]
fn relative_jump_wraps_around() {
    let mut cpu = fresh_cpu();
    cpu.pc = 0x0000;
    cpu.imm8 = 0xFE;
    cpu.exec_jmp_rel();
    assert_eq!(cpu.pc, 0xFFFE);
}

#[test]
fn inc8_half_carry_from_low_nibble() {
    let mut cpu = fresh_cpu();
    cpu.c = 0x0F;
    cpu.flags = 0x10;
    assert_eq!(cpu.exec_inc_8(Reg8::C), Ok(()));
    assert_eq!(cpu.c, 0x10);
    assert_eq!(cpu.flags, 0x30); // half-carry set, carry preserved
}

#[test]
fn inc8_wraps_and_sets_zero() {
    let mut cpu = fresh_cpu();
    cpu.c = 0xFF;
    assert_eq!(cpu.exec_inc_8(Reg8::C), Ok(()));
    assert_eq!(cpu.c, 0x00);
    assert_eq!(cpu.flags, 0xA0); // zero | half-carry
}

#[test]
fn inc8_invalid_operand() {
    let mut cpu = fresh_cpu();
    assert_eq!(cpu.exec_inc_8(Reg8::NoReg), Err(EmuError::InvalidOperand));
}

#[test]
fn dec16_wraps_from_zero() {
    let mut cpu = fresh_cpu();
    cpu.h = 0x00;
    cpu.l = 0x00;
    cpu.flags = 0xF0;
    assert_eq!(cpu.exec_dec_16(Reg16::HL), Ok(()));
    assert_eq!((cpu.h, cpu.l), (0xFF, 0xFF));
    assert_eq!(cpu.flags, 0x00); // full reset, result nonzero
}

#[test]
fn dec16_to_zero_sets_zero_flag() {
    let mut cpu = fresh_cpu();
    cpu.h = 0x00;
    cpu.l = 0x01;
    assert_eq!(cpu.exec_dec_16(Reg16::HL), Ok(()));
    assert_eq!((cpu.h, cpu.l), (0x00, 0x00));
    assert_eq!(cpu.flags, 0x80);
}

#[test]
fn dec16_invalid_operand() {
    let mut cpu = fresh_cpu();
    assert_eq!(cpu.exec_dec_16(Reg16::BC), Err(EmuError::InvalidOperand));
}

#[test]
fn set_reg8_stack_pointer_halves() {
    let mut cpu = fresh_cpu();
    assert_eq!(cpu.set_reg8(Reg8::SPLow, 0xFE), Ok(()));
    assert_eq!(cpu.set_reg8(Reg8::SPHigh, 0xFF), Ok(()));
    assert_eq!(cpu.sp, 0xFFFE);
    assert_eq!(cpu.set_reg8(Reg8::NoReg, 0), Err(EmuError::InvalidOperand));
}

#[test]
fn load_sp_immediate_takes_three_ticks() {
    let mut cpu = fresh_cpu();
    // boot program starts: 0x31 0xFE 0xFF = load SP with $FFFE
    assert_eq!(cpu.tick(), Ok(()));
    assert_eq!(cpu.bus_queue.len(), 2);
    assert_eq!(cpu.tick(), Ok(()));
    assert_eq!(cpu.bus_queue.len(), 1);
    assert_eq!(cpu.sp, 0x00FE);
    assert_eq!(cpu.tick(), Ok(()));
    assert_eq!(cpu.bus_queue.len(), 0);
    assert_eq!(cpu.sp, 0xFFFE);
    assert_eq!(cpu.ticks, 3);
    assert_eq!(cpu.pc, 3);
}

#[test]
fn load_hl_immediate_low_then_high() {
    let mut cpu = fresh_cpu();
    cpu.pc = 4; // boot program holds 0x21 0xFF 0x9F here
    assert_eq!(cpu.tick(), Ok(()));
    assert_eq!(cpu.tick(), Ok(()));
    assert_eq!(cpu.l, 0xFF);
    assert_eq!(cpu.h, 0x00); // high byte not read yet
    assert_eq!(cpu.tick(), Ok(()));
    assert_eq!(cpu.l, 0xFF);
    assert_eq!(cpu.h, 0x9F);
    assert_eq!(((cpu.h as u16) << 8) | cpu.l as u16, 0x9FFF);
}

#[test]
fn store_hl_dec_writes_before_decrement() {
    let mut cpu = fresh_cpu();
    cpu.pc = 7; // boot program holds 0x32 here
    cpu.h = 0x9F;
    cpu.l = 0xFF;
    cpu.a = 0x55;
    assert_eq!(cpu.tick(), Ok(()));
    // the write is still pending: memory untouched, pointer untouched
    assert_eq!(cpu.bus.read(0x9FFF), Ok(0x00));
    assert_eq!(cpu.tick(), Ok(()));
    // the pre-decrement target holds the accumulator; the pair is one less
    assert_eq!(cpu.bus.read(0x9FFF), Ok(0x55));
    assert_eq!((cpu.h, cpu.l), (0x9F, 0xFE));
    assert_eq!(cpu.bus_queue.len(), 0);
    assert_eq!(cpu.exec_queue.len(), 0);
}

#[test]
fn taken_relative_jump_over_two_ticks() {
    let mut cpu = fresh_cpu();
    cpu.pc = 10; // boot program holds 0x20 0xFB (jump if non-zero, -5) here
    cpu.flags = 0x00; // zero flag clear: branch taken
    assert_eq!(cpu.tick(), Ok(()));
    assert_eq!(cpu.pc, 11);
    assert_eq!(cpu.tick(), Ok(()));
    assert_eq!(cpu.imm8, 0xFB);
    // 11 + (-5) = 6, then the unconditional per-tick advance
    assert_eq!(cpu.pc, 7);
}

#[test]
fn untaken_relative_jump_queues_no_execution_step() {
    let mut cpu = fresh_cpu();
    cpu.pc = 10;
    cpu.flags = 0x80; // zero flag set: branch not taken
    assert_eq!(cpu.tick(), Ok(()));
    assert_eq!(cpu.exec_queue.len(), 0);
    assert_eq!(cpu.bus_queue.len(), 1); // the displacement read still happens
    assert_eq!(cpu.tick(), Ok(()));
    assert_eq!(cpu.pc, 12); // fell through
}

#[test]
fn tick_fault_on_unmapped_fetch() {
    let mut cpu = fresh_cpu();
    cpu.pc = 0x0030; // reserved tail of the boot region: no read behavior
    assert_eq!(cpu.tick(), Err(EmuError::InvalidAddress(0x0030)));
}

#[test]
fn tick_fault_on_unexpanded_instruction() {
    let mut cpu = fresh_cpu();
    cpu.pc = 0x002F; // boot program holds 0x7B (load A from E): decodable, not expanded
    assert_eq!(cpu.tick(), Err(EmuError::UnimplementedOpcode(0x7B)));
}

#[test]
fn boot_rom_contents() {
    let rom = boot_rom();
    assert_eq!(rom.len(), 48);
    assert_eq!(rom[0], 0x31);
    assert_eq!(rom[47], 0x7B);
}

#[test]
fn bus_read_routing() {
    let apu = Apu::new();
    let ppu = Ppu::new();
    let bus = Bus::new(apu, ppu);
    assert_eq!(bus.read(0x0000), Ok(0x31));
    assert_eq!(bus.read(0x002F), Ok(0x7B));
    assert_eq!(bus.read(0x0030), Err(EmuError::InvalidAddress(0x0030)));
    assert_eq!(bus.read(0x8000), Ok(0x00));
    assert_eq!(bus.read(0xA000), Err(EmuError::InvalidAddress(0xA000)));
    assert_eq!(bus.read(0xFF26), Err(EmuError::InvalidAddress(0xFF26)));
}

#[test]
fn bus_write_routing() {
    let apu = Apu::new();
    let ppu = Ppu::new();
    let mut bus = Bus::new(apu, ppu);
    assert_eq!(bus.write(0x8123, 0xAB), Ok(()));
    assert_eq!(bus.read(0x8123), Ok(0xAB));
    assert_eq!(bus.write(0xFF26, 0xFF), Ok(()));
    assert_eq!(bus.apu.enabled, 0x80); // master enable keeps only its top bit
    assert_eq!(bus.write(0xFF24, 0x77), Ok(()));
    assert_eq!(bus.apu.volume, 0x77);
    assert_eq!(bus.write(0xFF40, 0x91), Ok(()));
    assert_eq!(bus.ppu.control, 0x91);
    assert_eq!(bus.write(0xFF41, 0x01), Err(EmuError::InvalidAddress(0xFF41)));
    assert_eq!(bus.write(0x0000, 0x01), Err(EmuError::InvalidAddress(0x0000)));
    assert_eq!(bus.write(0x7FFF, 0x01), Err(EmuError::InvalidAddress(0x7FFF)));
}

#[test]
fn apu_write_register_bank() {
    let mut apu = Apu::new();
    assert_eq!(apu.write(0xFF11, 0x12), Ok(()));
    assert_eq!(apu.ch1_len_and_duty, 0x12);
    assert_eq!(apu.write(0xFF12, 0x34), Ok(()));
    assert_eq!(apu.ch1_vol_envelope, 0x34);
    assert_eq!(apu.write(0xFF25, 0x56), Ok(()));
    assert_eq!(apu.pan, 0x56);
    assert_eq!(apu.write(0xFF13, 0x01), Err(EmuError::InvalidAddress(0xFF13)));
}

#[test]
fn ppu_read_write() {
    let mut ppu = Ppu::new();
    assert_eq!(ppu.read(0x0000), 0x00);
    assert_eq!(ppu.write(0x9FFF, 0x42), Ok(()));
    assert_eq!(ppu.read(0x1FFF), 0x42);
    assert_eq!(ppu.write(0xFF40, 0x05), Ok(()));
    assert_eq!(ppu.control, 0x05);
    assert_eq!(ppu.write(0xFF42, 0x01), Err(EmuError::InvalidAddress(0xFF42)));
}

#[test]
fn store_through_c_high_page_reaches_audio() {
    let mut cpu = fresh_cpu();
    cpu.pc = 20; // boot program holds 0xE2 here
    cpu.a = 0x80;
    cpu.c = 0x26; // target $FF00 + $26: the audio master enable
    assert_eq!(cpu.tick(), Ok(()));
    assert_eq!(cpu.bus_queue.len(), 1);
    assert_eq!(cpu.tick(), Ok(()));
    assert_eq!(cpu.bus.apu.enabled, 0x80);
}

#[test]
fn decode_extended_table() {
    assert_eq!(Instruction::decode_extended(0x7C), Ok(Instruction::BitTest7H));
    assert_eq!(
        Instruction::decode_extended(0xAF),
        Err(EmuError::UnimplementedOpcode(0xAF))
    );
    assert_eq!(
        Instruction::decode_extended(0x00),
        Err(EmuError::UnimplementedOpcode(0x00))
    );
}

#[test]
fn prefixed_bit_test_takes_two_ticks() {
    let mut cpu = fresh_cpu();
    cpu.pc = 8; // boot program holds 0xCB 0x7C here
    cpu.h = 0x00;
    cpu.flags = 0x10;
    assert_eq!(cpu.tick(), Ok(()));
    assert!(cpu.cb_pending);
    assert_eq!(cpu.flags, 0x10); // nothing executed yet
    assert_eq!(cpu.tick(), Ok(()));
    assert!(!cpu.cb_pending);
    assert_eq!(cpu.flags, 0xB0); // zero | half-carry | preserved carry
    assert_eq!(cpu.ticks, 2);
}

#[test]
fn prefixed_byte_outside_extended_table_faults() {
    let mut cpu = fresh_cpu();
    // 0xAF is XOR A in the primary table, but nothing in the extended one
    assert_eq!(cpu.bus.write(0x8000, 0xCB), Ok(()));
    assert_eq!(cpu.bus.write(0x8001, 0xAF), Ok(()));
    cpu.pc = 0x8000;
    cpu.a = 0x5A;
    assert_eq!(cpu.tick(), Ok(()));
    assert_eq!(cpu.tick(), Err(EmuError::UnimplementedOpcode(0xAF)));
    assert!(!cpu.cb_pending);
    assert_eq!(cpu.a, 0x5A); // the exclusive-or was never executed
}
