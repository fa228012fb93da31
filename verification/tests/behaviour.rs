#![allow(non_snake_case)]

use gameboy_core::system::cpu::instruction::ArithmeticArg;
use gameboy_core::system::cpu::instruction::Instruction;
use gameboy_core::system::cpu::instruction::InstructionType;
use gameboy_core::system::cpu::instruction::JumpCond;
use gameboy_core::system::cpu::instruction::LoadSource;
use gameboy_core::system::cpu::instruction::LoadTarget;
use gameboy_core::system::cpu::instruction::Opcode;
use gameboy_core::system::cpu::instruction::RegisterPair;
use gameboy_core::system::cpu::instruction::Word16;
use gameboy_core::system::cpu::instruction::Word8;
use gameboy_core::system::cpu::regfile::Regfile;
use gameboy_core::system::cpu::CPU;
use gameboy_core::system::memory::Memory;
use gameboy_core::system::timer::Timer;
use gameboy_core::system::System;

fn machine_with(program: &[u8]) -> (CPU, Memory) {
    let mut memory = Memory::new();
    let mut addr: u16 = 0;
    for byte in program {
        memory.write_byte(addr, *byte);
        addr += 1;
    }
    (CPU::new(), memory)
}

fn flags(regfile: &Regfile) -> (bool, bool, bool, bool) {
    (regfile.get_zero(), regfile.get_sub(), regfile.get_half_carry(), regfile.get_carry())
}

// ----- register file -----

#[test]
fn new_regfile_is_zeroed() {
    let regfile = Regfile::new();
    assert_eq!(
        regfile,
        Regfile { r_a: 0, r_b: 0, r_c: 0, r_d: 0, r_e: 0, r_f: 0, r_h: 0, r_l: 0 }
    );
}

#[test]
fn half_add_is_nibble_carry_for_all_bytes() {
    for a in 0..=255u8 {
        for b in 0..=255u8 {
            let mut regfile = Regfile::new();
            regfile.half_add(a, b);
            assert_eq!(regfile.get_half_carry(), (a & 0xF) + (b & 0xF) > 0xF);
            assert_eq!(regfile.r_f & 0xDF, 0);
        }
    }
}

#[test]
fn half_sub_is_nibble_borrow_for_all_bytes() {
    for a in 0..=255u8 {
        for b in 0..=255u8 {
            let mut regfile = Regfile::new();
            regfile.set_half_carry(true);
            regfile.half_sub(a, b);
            assert_eq!(regfile.get_half_carry(), (a & 0xF) < (b & 0xF));
        }
    }
}

#[test]
fn af_round_trip_masks_low_nibble() {
    for val in 0..=0xFFFFu16 {
        let mut regfile = Regfile::new();
        regfile.set_af(val);
        assert_eq!(regfile.get_af(), val & 0xFFF0);
    }
    let mut regfile = Regfile::new();
    regfile.set_af(0x12FF);
    assert_eq!(regfile.r_a, 0x12);
    assert_eq!(regfile.r_f, 0xF0);
}

#[test]
fn pairs_are_high_byte_first() {
    let mut regfile = Regfile::new();
    regfile.set_bc(0x1234);
    regfile.set_de(0x5678);
    regfile.set_hl(0x9ABC);
    assert_eq!((regfile.r_b, regfile.r_c), (0x12, 0x34));
    assert_eq!((regfile.r_d, regfile.r_e), (0x56, 0x78));
    assert_eq!((regfile.r_h, regfile.r_l), (0x9A, 0xBC));
    assert_eq!(regfile.get_bc(), 0x1234);
    assert_eq!(regfile.get_de(), 0x5678);
    assert_eq!(regfile.get_hl(), 0x9ABC);
    for val in 0..=0xFFFFu16 {
        regfile.set_bc(val);
        regfile.set_de(val);
        regfile.set_hl(val);
        assert_eq!(regfile.get_bc(), val);
        assert_eq!(regfile.get_de(), val);
        assert_eq!(regfile.get_hl(), val);
    }
}

#[test]
fn each_flag_has_its_own_bit() {
    let mut regfile = Regfile::new();
    regfile.set_zero(true);
    assert_eq!(regfile.r_f, 0x80);
    regfile.set_sub(true);
    assert_eq!(regfile.r_f, 0xC0);
    regfile.set_half_carry(true);
    assert_eq!(regfile.r_f, 0xE0);
    regfile.set_carry(true);
    assert_eq!(regfile.r_f, 0xF0);
    assert_eq!(flags(&regfile), (true, true, true, true));
    regfile.set_zero(false);
    assert_eq!(regfile.r_f, 0x70);
    regfile.set_sub(false);
    assert_eq!(regfile.r_f, 0x30);
    regfile.set_half_carry(false);
    assert_eq!(regfile.r_f, 0x10);
    regfile.toggle_carry();
    assert_eq!(regfile.r_f, 0x00);
    regfile.toggle_carry();
    assert_eq!(regfile.r_f, 0x10);
    assert_eq!(flags(&regfile), (false, false, false, true));
}

// ----- decoder -----

#[test]
fn decodes_literal_entries() {
    assert_eq!(
        Instruction::from_byte(0x00, 0x00),
        Instruction { op: Opcode::NOP, instr_type: InstructionType::Misc, instr_len: 1, cycle_len: 1 }
    );
    assert_eq!(
        Instruction::from_byte(0x36, 0x00),
        Instruction {
            op: Opcode::LD,
            instr_type: InstructionType::Load(LoadTarget::HL, LoadSource::D8),
            instr_len: 2,
            cycle_len: 3
        }
    );
    assert_eq!(
        Instruction::from_byte(0x76, 0x00),
        Instruction { op: Opcode::HALT, instr_type: InstructionType::Misc, instr_len: 1, cycle_len: 1 }
    );
    assert_eq!(
        Instruction::from_byte(0x8E, 0x00),
        Instruction {
            op: Opcode::ADC,
            instr_type: InstructionType::Arithmetic(ArithmeticArg::HL),
            instr_len: 1,
            cycle_len: 2
        }
    );
    assert_eq!(
        Instruction::from_byte(0x27, 0x00),
        Instruction {
            op: Opcode::DAA,
            instr_type: InstructionType::Arithmetic(ArithmeticArg::Implied),
            instr_len: 1,
            cycle_len: 1
        }
    );
    assert_eq!(
        Instruction::from_byte(0xC4, 0x00),
        Instruction {
            op: Opcode::CALL,
            instr_type: InstructionType::Call(JumpCond::NotZero),
            instr_len: 3,
            cycle_len: 6
        }
    );
    assert_eq!(
        Instruction::from_byte(0xD9, 0x00),
        Instruction {
            op: Opcode::RETI,
            instr_type: InstructionType::Return(JumpCond::Always),
            instr_len: 1,
            cycle_len: 4
        }
    );
    assert_eq!(
        Instruction::from_byte(0xEF, 0x00),
        Instruction { op: Opcode::RST, instr_type: InstructionType::RST(0x28), instr_len: 1, cycle_len: 4 }
    );
    assert_eq!(
        Instruction::from_byte(0xF2, 0x00),
        Instruction {
            op: Opcode::LD,
            instr_type: InstructionType::Load(LoadTarget::A, LoadSource::CA),
            instr_len: 2,
            cycle_len: 2
        }
    );
    assert_eq!(
        Instruction::from_byte(0xF5, 0x00),
        Instruction {
            op: Opcode::PUSH,
            instr_type: InstructionType::Push(RegisterPair::AF),
            instr_len: 1,
            cycle_len: 4
        }
    );
    assert_eq!(
        Instruction::from_byte(0x39, 0x00),
        Instruction { op: Opcode::ADD, instr_type: InstructionType::Add16(Word16::SP), instr_len: 1, cycle_len: 2 }
    );
}

#[test]
fn unassigned_bytes_decode_to_unsupported() {
    let unassigned = [0xD3u8, 0xDB, 0xDD, 0xE3, 0xE4, 0xEB, 0xEC, 0xED, 0xF4, 0xFC, 0xFD];
    let mut count = 0;
    for byte in 0..=255u8 {
        let instruction = Instruction::from_byte(byte, 0x00);
        if unassigned.contains(&byte) {
            assert_eq!(
                instruction,
                Instruction {
                    op: Opcode::NULL,
                    instr_type: InstructionType::Unsupported,
                    instr_len: 1,
                    cycle_len: 0
                }
            );
            count += 1;
        } else {
            assert_ne!(instruction.instr_type, InstructionType::Unsupported);
            assert_ne!(instruction.op, Opcode::NULL);
        }
    }
    assert_eq!(count, 11);
}

#[test]
fn prefix_byte_consults_the_second_byte() {
    for next in 0..=255u8 {
        assert_eq!(Instruction::from_byte(0xCB, next), Instruction::from_byte_prefix(next));
    }
    assert_eq!(Instruction::from_byte(0x00, 0x12), Instruction::from_byte(0x00, 0xFE));
    assert_eq!(Instruction::from_byte(0x80, 0x12), Instruction::from_byte(0x80, 0xFE));
}

#[test]
fn extended_space_is_regular() {
    let targets =
        [Word8::B, Word8::C, Word8::D, Word8::E, Word8::H, Word8::L, Word8::HL, Word8::A];
    let shifts = [
        Opcode::RLC,
        Opcode::RRC,
        Opcode::RL,
        Opcode::RR,
        Opcode::SLA,
        Opcode::SRA,
        Opcode::SWAP,
        Opcode::SRL,
    ];
    for byte in 0..=255u8 {
        let instruction = Instruction::from_byte_prefix(byte);
        let target = targets[(byte % 8) as usize];
        assert_eq!(instruction.instr_len, 2);
        assert_eq!(instruction.cycle_len, if byte % 8 == 6 { 4 } else { 2 });
        if byte < 0x40 {
            assert_eq!(instruction.op, shifts[(byte / 8) as usize]);
            assert_eq!(instruction.instr_type, InstructionType::Rotate(target));
        } else {
            let op = [Opcode::BIT, Opcode::RES, Opcode::SET][(byte / 64 - 1) as usize];
            assert_eq!(instruction.op, op);
            assert_eq!(instruction.instr_type, InstructionType::Bit(target, (byte / 8) % 8));
        }
    }
    assert_eq!(
        Instruction::from_byte_prefix(0x7E),
        Instruction { op: Opcode::BIT, instr_type: InstructionType::Bit(Word8::HL, 7), instr_len: 2, cycle_len: 4 }
    );
}

// ----- timer -----

#[test]
fn new_timer_is_zeroed_and_disabled() {
    let timer = Timer::new();
    assert_eq!(timer.get_DIV(), 0);
    assert_eq!(timer.get_TIMA(), 0);
    assert_eq!(timer.get_TMA(), 0);
    assert_eq!(timer.get_TAC(), 0);
    assert!(!timer.timer_enabled());
}

#[test]
fn disabled_timer_does_not_count() {
    let mut timer = Timer::new();
    timer.set_TAC(0x01);
    assert!(!timer.timer_enabled());
    for _ in 0..64 {
        assert!(!timer.update_timestep(16));
    }
    assert_eq!(timer.get_TIMA(), 0);
}

#[test]
fn control_register_keeps_three_bits() {
    let mut timer = Timer::new();
    timer.set_TAC(0xFD);
    assert_eq!(timer.get_TAC(), 0x05);
    assert!(timer.timer_enabled());
    timer.set_TAC(0xFB);
    assert_eq!(timer.get_TAC(), 0x03);
    assert!(!timer.timer_enabled());
}

fn cycles_until_first_increment(tac: u8) -> u32 {
    let mut timer = Timer::new();
    timer.set_TAC(tac);
    let mut cycles = 0;
    while timer.get_TIMA() == 0 {
        assert!(!timer.update_timestep(1));
        cycles += 1;
        assert!(cycles <= 4096);
    }
    cycles
}

#[test]
fn rate_field_selects_the_threshold() {
    assert_eq!(cycles_until_first_increment(0x04), 1024);
    assert_eq!(cycles_until_first_increment(0x05), 16);
    assert_eq!(cycles_until_first_increment(0x06), 64);
    assert_eq!(cycles_until_first_increment(0x07), 256);
}

#[test]
fn control_write_changes_the_threshold_at_once() {
    let mut timer = Timer::new();
    timer.set_TAC(0x04);
    for _ in 0..10 {
        timer.update_timestep(2);
    }
    assert_eq!(timer.get_TIMA(), 0);
    timer.set_TAC(0x05);
    timer.update_timestep(1);
    assert_eq!(timer.get_TIMA(), 1);
}

#[test]
fn timer_counts_sixteen_cycles() {
    let mut timer = Timer::new();
    timer.set_TAC(0x05);
    assert!(!timer.update_timestep(15));
    assert_eq!(timer.get_TIMA(), 0x00);
    assert!(!timer.update_timestep(1));
    assert_eq!(timer.get_TIMA(), 0x01);
    let mut timer = Timer::new();
    timer.set_TAC(0x05);
    assert!(!timer.update_timestep(16));
    assert_eq!(timer.get_TIMA(), 0x01);
}

#[test]
fn timer_overflow_reloads_once() {
    let mut timer = Timer::new();
    timer.set_TAC(0x05);
    timer.set_TMA(0x00);
    timer.set_TIMA(0xFF);
    let mut requests = 0;
    for _ in 0..256 {
        if timer.update_timestep(16) {
            requests += 1;
        }
    }
    assert_eq!(requests, 1);
    assert_eq!(timer.get_TIMA(), 0xFF);
}

#[test]
fn timer_overflow_reloads_from_modulo() {
    let mut timer = Timer::new();
    timer.set_TAC(0x05);
    timer.set_TMA(0xF0);
    timer.set_TIMA(0xFE);
    assert!(!timer.update_timestep(16));
    assert_eq!(timer.get_TIMA(), 0xFF);
    assert!(timer.update_timestep(16));
    assert_eq!(timer.get_TIMA(), 0xF0);
    assert!(!timer.update_timestep(16));
    assert_eq!(timer.get_TIMA(), 0xF1);
}

#[test]
fn divider_counts_with_the_timer_disabled() {
    let mut timer = Timer::new();
    assert!(!timer.update_timestep(254));
    assert_eq!(timer.get_DIV(), 0);
    assert!(!timer.update_timestep(1));
    assert_eq!(timer.get_DIV(), 1);
    assert!(!timer.update_timestep(255));
    assert_eq!(timer.get_DIV(), 2);
    // the running total counts: 200 and 100 exceed 255 together
    assert!(!timer.update_timestep(200));
    assert_eq!(timer.get_DIV(), 2);
    assert!(!timer.update_timestep(100));
    assert_eq!(timer.get_DIV(), 3);
    // the count restarted at zero, so 254 more do not reach 255
    assert!(!timer.update_timestep(254));
    assert_eq!(timer.get_DIV(), 3);
    assert!(!timer.update_timestep(2));
    assert_eq!(timer.get_DIV(), 4);
    assert_eq!(timer.get_TIMA(), 0);
    timer.reset_DIV();
    assert_eq!(timer.get_DIV(), 0);
}

#[test]
fn divider_counts_in_even_steps() {
    let mut timer = Timer::new();
    for _ in 0..127 {
        assert!(!timer.update_timestep(2));
    }
    assert_eq!(timer.get_DIV(), 0);
    assert!(!timer.update_timestep(2));
    assert_eq!(timer.get_DIV(), 1);
    for _ in 0..128 {
        assert!(!timer.update_timestep(2));
    }
    assert_eq!(timer.get_DIV(), 2);
    let mut timer = Timer::new();
    for _ in 0..63 {
        timer.update_timestep(4);
    }
    assert_eq!(timer.get_DIV(), 0);
    timer.update_timestep(4);
    assert_eq!(timer.get_DIV(), 1);
}

#[test]
fn divider_register_wraps() {
    let mut timer = Timer::new();
    for _ in 0..256 {
        timer.update_timestep(255);
    }
    assert_eq!(timer.get_DIV(), 0);
    timer.update_timestep(255);
    assert_eq!(timer.get_DIV(), 1);
}

// ----- memory -----

#[test]
fn new_memory_is_zeroed() {
    let memory = Memory::new();
    for addr in 0..=0xFFFFu16 {
        assert_eq!(memory.read_byte(addr), 0);
    }
}

#[test]
fn plain_cells_store_bytes() {
    let mut memory = Memory::new();
    memory.write_byte(0x0000, 0x11);
    memory.write_byte(0xFF03, 0x22);
    memory.write_byte(0xFF08, 0x33);
    memory.write_byte(0xFFFF, 0x44);
    assert_eq!(memory.read_byte(0x0000), 0x11);
    assert_eq!(memory.read_byte(0xFF03), 0x22);
    assert_eq!(memory.read_byte(0xFF08), 0x33);
    assert_eq!(memory.read_byte(0xFFFF), 0x44);
    assert_eq!(memory.read_byte(0x0001), 0x00);
}

#[test]
fn timer_registers_are_mapped() {
    let mut memory = Memory::new();
    memory.write_byte(0xFF05, 0x12);
    memory.write_byte(0xFF06, 0x34);
    memory.write_byte(0xFF07, 0xFF);
    assert_eq!(memory.timer.get_TIMA(), 0x12);
    assert_eq!(memory.timer.get_TMA(), 0x34);
    assert_eq!(memory.timer.get_TAC(), 0x07);
    assert_eq!(memory.read_byte(0xFF05), 0x12);
    assert_eq!(memory.read_byte(0xFF06), 0x34);
    assert_eq!(memory.read_byte(0xFF07), 0x07);
}

#[test]
fn divider_write_resets_it() {
    let mut memory = Memory::new();
    memory.update_cycle(255);
    assert_eq!(memory.read_byte(0xFF04), 1);
    memory.write_byte(0xFF04, 0x77);
    assert_eq!(memory.read_byte(0xFF04), 0);
}

#[test]
fn next_word_is_high_byte_first() {
    let mut memory = Memory::new();
    memory.write_byte(0x0101, 0xAB);
    memory.write_byte(0x0102, 0xCD);
    assert_eq!(memory.read_next_word(0x0100), 0xABCD);
    memory.write_byte(0x0000, 0x12);
    memory.write_byte(0x0001, 0x34);
    memory.write_byte(0xFFFF, 0x56);
    assert_eq!(memory.read_next_word(0xFFFF), 0x1234);
    assert_eq!(memory.read_next_word(0xFFFE), 0x5612);
}

#[test]
fn interrupts_are_enabled_and_requested() {
    let mut memory = Memory::new();
    memory.write_byte(0xFFFF, 0x15);
    memory.write_byte(0xFF0F, 0x1C);
    let interrupts = memory.get_interrupts();
    assert!(!interrupts.vblank);
    assert!(!interrupts.lcd);
    assert!(interrupts.timer);
    assert!(!interrupts.serial);
    assert!(interrupts.joypad);
    memory.write_byte(0xFFFF, 0x1F);
    memory.write_byte(0xFF0F, 0x0B);
    let interrupts = memory.get_interrupts();
    assert!(interrupts.vblank);
    assert!(interrupts.lcd);
    assert!(!interrupts.timer);
    assert!(interrupts.serial);
    assert!(!interrupts.joypad);
    memory.clear_interrupts();
    assert_eq!(memory.read_byte(0xFF0F), 0);
    assert_eq!(memory.read_byte(0xFFFF), 0x1F);
    let interrupts = memory.get_interrupts();
    assert!(!interrupts.vblank && !interrupts.lcd && !interrupts.timer);
    assert!(!interrupts.serial && !interrupts.joypad);
}

#[test]
fn timer_overflow_requests_an_interrupt() {
    let mut memory = Memory::new();
    memory.write_byte(0xFF07, 0x05);
    memory.write_byte(0xFF05, 0xFF);
    memory.write_byte(0xFF06, 0x42);
    memory.write_byte(0xFF0F, 0x01);
    memory.update_cycle(15);
    assert_eq!(memory.read_byte(0xFF0F), 0x01);
    memory.update_cycle(1);
    assert_eq!(memory.read_byte(0xFF0F), 0x05);
    assert_eq!(memory.read_byte(0xFF05), 0x42);
}

// ----- engine -----

#[test]
fn new_engine_state() {
    let cpu = CPU::new();
    assert_eq!(cpu.get_pc(), 0);
    assert_eq!(cpu.pc, 0);
    assert_eq!(cpu.sp, 0xFFFE);
    assert!(cpu.ime);
    assert!(!cpu.scheduled_ime);
    assert_eq!(cpu.regfile, Regfile::new());
    let _system = System::new();
}

#[test]
fn step_reports_the_opcode_byte() {
    let (mut cpu, mut memory) = machine_with(&[0x00, 0x04, 0xCB, 0x37]);
    assert_eq!(cpu.run(&mut memory), Ok(0x00));
    assert_eq!(cpu.run(&mut memory), Ok(0x04));
    assert_eq!(cpu.run(&mut memory), Ok(0xCB));
    assert_eq!(cpu.pc, 4);
}

#[test]
fn unsupported_byte_is_fatal_and_changes_nothing() {
    for byte in [0xD3u8, 0xDB, 0xDD, 0xE3, 0xE4, 0xEB, 0xEC, 0xED, 0xF4, 0xFC, 0xFD] {
        let (mut cpu, mut memory) = machine_with(&[0x00, byte]);
        memory.write_byte(0xFF07, 0x05);
        memory.write_byte(0xFF05, 0xFF);
        memory.write_byte(0xFFFF, 0xFF);
        memory.write_byte(0xFF0F, 0x01);
        cpu.ime = false;
        assert_eq!(cpu.run(&mut memory), Ok(0x00));
        cpu.ime = true;
        cpu.scheduled_ime = true;
        let regfile = cpu.regfile;
        for _ in 0..32 {
            assert_eq!(cpu.run(&mut memory), Err("Unsupported instruction"));
            assert_eq!(cpu.pc, 1);
            assert_eq!(cpu.sp, 0xFFFE);
            assert!(cpu.ime);
            assert!(cpu.scheduled_ime);
            assert_eq!(cpu.regfile, regfile);
            assert_eq!(memory.read_byte(0xFF05), 0xFF);
            assert_eq!(memory.read_byte(0xFF04), 0x00);
            assert_eq!(memory.read_byte(0xFF0F), 0x01);
        }
    }
}

#[test]
fn unsupported_descriptor_is_fatal() {
    let (mut cpu, mut memory) = machine_with(&[0x00]);
    let instruction =
        Instruction { op: Opcode::NULL, instr_type: InstructionType::Unsupported, instr_len: 1, cycle_len: 0 };
    assert_eq!(cpu.execute(instruction, &mut memory), Err("Unsupported instruction"));
    assert_eq!(cpu.pc, 0);
}

#[test]
fn unimplemented_descriptor_is_fatal_and_changes_nothing() {
    let (mut cpu, mut memory) = machine_with(&[0x09]);
    let instruction = Instruction {
        op: Opcode::ADD,
        instr_type: InstructionType::Arithmetic16(RegisterPair::BC),
        instr_len: 1,
        cycle_len: 2,
    };
    cpu.regfile.set_bc(0x1234);
    let regfile = cpu.regfile;
    assert_eq!(cpu.execute(instruction, &mut memory), Err("Unimplemented instruction"));
    assert_eq!(cpu.pc, 0);
    assert_eq!(cpu.sp, 0xFFFE);
    assert_eq!(cpu.regfile, regfile);
    assert_eq!(memory.read_byte(0xFF04), 0);
}

#[test]
fn execute_reports_the_opcode_byte() {
    let (mut cpu, mut memory) = machine_with(&[0x3C]);
    let instruction = Instruction::from_byte(0x3C, 0x00);
    assert_eq!(cpu.execute(instruction, &mut memory), Ok(0x3C));
    assert_eq!(cpu.regfile.r_a, 1);
    assert_eq!(cpu.pc, 1);
}

#[test]
fn add_a_b_overflow_scenario() {
    let (mut cpu, mut memory) = machine_with(&[0x80]);
    cpu.regfile.r_a = 0xFF;
    cpu.regfile.r_b = 0x01;
    cpu.regfile.set_sub(true);
    assert_eq!(cpu.run(&mut memory), Ok(0x80));
    assert_eq!(cpu.regfile.r_a, 0x00);
    assert_eq!(flags(&cpu.regfile), (true, false, true, true));
    assert_eq!(cpu.regfile.r_b, 0x01);
}

#[test]
fn dec_hl_indirect_scenario() {
    for carry in [false, true] {
        let (mut cpu, mut memory) = machine_with(&[0x35]);
        cpu.regfile.set_hl(0x1234);
        cpu.regfile.set_carry(carry);
        cpu.regfile.set_zero(true);
        memory.write_byte(0x1234, 0x00);
        assert_eq!(cpu.run(&mut memory), Ok(0x35));
        assert_eq!(memory.read_byte(0x1234), 0xFF);
        assert_eq!(flags(&cpu.regfile), (false, true, true, carry));
        assert_eq!(cpu.regfile.get_hl(), 0x1234);
    }
}

#[test]
fn inc_leaves_carry_alone() {
    for carry in [false, true] {
        let (mut cpu, mut memory) = machine_with(&[0x3C, 0x3C]);
        cpu.regfile.r_a = 0x0F;
        cpu.regfile.set_carry(carry);
        cpu.regfile.set_sub(true);
        cpu.run(&mut memory).unwrap();
        assert_eq!(cpu.regfile.r_a, 0x10);
        assert_eq!(flags(&cpu.regfile), (false, false, true, carry));
        cpu.regfile.r_a = 0xFF;
        cpu.run(&mut memory).unwrap();
        assert_eq!(cpu.regfile.r_a, 0x00);
        assert_eq!(flags(&cpu.regfile), (true, false, true, carry));
    }
}

#[test]
fn jr_always_forward_scenario() {
    let (mut cpu, mut memory) = machine_with(&[0x18, 0x05]);
    assert_eq!(cpu.run(&mut memory), Ok(0x18));
    assert_eq!(cpu.pc, 0x07);
}

#[test]
fn jr_takes_a_signed_offset_and_wraps() {
    let (mut cpu, mut memory) = machine_with(&[]);
    memory.write_byte(0x0100, 0x18);
    memory.write_byte(0x0101, 0xFE);
    cpu.pc = 0x0100;
    cpu.run(&mut memory).unwrap();
    assert_eq!(cpu.pc, 0x0100);
    memory.write_byte(0x0101, 0x80);
    cpu.run(&mut memory).unwrap();
    assert_eq!(cpu.pc, 0x0082);
    let (mut cpu, mut memory) = machine_with(&[0x18, 0xF0]);
    cpu.run(&mut memory).unwrap();
    assert_eq!(cpu.pc, 0xFFF2);
    let (mut cpu, mut memory) = machine_with(&[]);
    memory.write_byte(0x7FFE, 0x18);
    memory.write_byte(0x7FFF, 0x7F);
    cpu.pc = 0x7FFE;
    cpu.run(&mut memory).unwrap();
    assert_eq!(cpu.pc, 0x807F);
    let (mut cpu, mut memory) = machine_with(&[]);
    memory.write_byte(0xFFF0, 0x18);
    memory.write_byte(0xFFF1, 0x7F);
    cpu.pc = 0xFFF0;
    cpu.run(&mut memory).unwrap();
    assert_eq!(cpu.pc, 0x0071);
}

#[test]
fn conditional_jumps_follow_the_flags() {
    // JR NZ, JR Z, JR NC, JR C with offset 4
    for (opcode, zero, carry, taken) in [
        (0x20u8, false, false, true),
        (0x20, true, false, false),
        (0x28, true, false, true),
        (0x28, false, false, false),
        (0x30, false, false, true),
        (0x30, false, true, false),
        (0x38, false, true, true),
        (0x38, false, false, false),
    ] {
        let (mut cpu, mut memory) = machine_with(&[opcode, 0x04]);
        cpu.regfile.set_zero(zero);
        cpu.regfile.set_carry(carry);
        cpu.run(&mut memory).unwrap();
        assert_eq!(cpu.pc, if taken { 6 } else { 2 });
    }
}

#[test]
fn jp_hl_and_rst_load_the_program_counter() {
    let (mut cpu, mut memory) = machine_with(&[0xE9]);
    cpu.regfile.set_hl(0x4321);
    cpu.run(&mut memory).unwrap();
    assert_eq!(cpu.pc, 0x4321);
    assert_eq!(cpu.sp, 0xFFFE);
    let vectors = [
        (0xC7u8, 0x00u16),
        (0xCF, 0x08),
        (0xD7, 0x10),
        (0xDF, 0x18),
        (0xE7, 0x20),
        (0xEF, 0x28),
        (0xF7, 0x30),
        (0xFF, 0x38),
    ];
    for (opcode, vector) in vectors {
        let (mut cpu, mut memory) = machine_with(&[]);
        memory.write_byte(0x0200, opcode);
        cpu.pc = 0x0200;
        cpu.run(&mut memory).unwrap();
        assert_eq!(cpu.pc, vector);
    }
}

#[test]
fn call_pushes_the_address_past_the_instruction() {
    let (mut cpu, mut memory) = machine_with(&[]);
    memory.write_byte(0x1234, 0xCD);
    memory.write_byte(0x1235, 0x40);
    memory.write_byte(0x1236, 0x00);
    memory.write_byte(0x4000, 0xC9);
    cpu.pc = 0x1234;
    cpu.run(&mut memory).unwrap();
    assert_eq!(cpu.pc, 0x4000);
    assert_eq!(cpu.sp, 0xFFFC);
    assert_eq!(memory.read_byte(0xFFFD), 0x12);
    assert_eq!(memory.read_byte(0xFFFC), 0x37);
    cpu.run(&mut memory).unwrap();
    assert_eq!(cpu.pc, 0x1237);
    assert_eq!(cpu.sp, 0xFFFE);
}

#[test]
fn reti_schedules_the_master_enable() {
    let (mut cpu, mut memory) = machine_with(&[0xD9, 0x00]);
    cpu.ime = false;
    cpu.sp = 0xFFFC;
    memory.write_byte(0xFFFC, 0x01);
    memory.write_byte(0xFFFD, 0x00);
    cpu.run(&mut memory).unwrap();
    assert_eq!(cpu.pc, 0x0001);
    assert_eq!(cpu.sp, 0xFFFE);
    assert!(!cpu.ime);
    assert!(cpu.scheduled_ime);
    cpu.run(&mut memory).unwrap();
    assert!(cpu.ime);
    assert!(!cpu.scheduled_ime);
}

#[test]
fn reti_pops_whatever_the_flags_are() {
    for (zero, carry) in [(false, false), (true, false), (false, true), (true, true)] {
        let (mut cpu, mut memory) = machine_with(&[0xD9]);
        cpu.ime = false;
        cpu.sp = 0xC000;
        cpu.regfile.set_zero(zero);
        cpu.regfile.set_carry(carry);
        memory.write_byte(0xC000, 0x34);
        memory.write_byte(0xC001, 0x12);
        let regfile = cpu.regfile;
        assert_eq!(cpu.run(&mut memory), Ok(0xD9));
        assert_eq!(cpu.pc, 0x1234);
        assert_eq!(cpu.sp, 0xC002);
        assert!(!cpu.ime);
        assert!(cpu.scheduled_ime);
        assert_eq!(cpu.regfile, regfile);
    }
}

#[test]
fn push_pop_round_trip_for_every_pair() {
    for (push, pop) in [(0xC5u8, 0xC1u8), (0xD5, 0xD1), (0xE5, 0xE1), (0xF5, 0xF1)] {
        for val in [0x0000u16, 0x00F0, 0x1230, 0xABC0, 0xFFF0, 0x8010] {
            for sp in [0xFFFEu16, 0xD000, 0x0001, 0x0000, 0xFF80] {
                let (mut cpu, mut memory) = machine_with(&[]);
                memory.write_byte(0x0100, push);
                memory.write_byte(0x0101, 0x01);
                memory.write_byte(0x0102, 0x00);
                memory.write_byte(0x0103, 0x00);
                memory.write_byte(0x0104, pop);
                cpu.pc = 0x0100;
                cpu.sp = sp;
                match push {
                    0xC5 => cpu.regfile.set_bc(val),
                    0xD5 => cpu.regfile.set_de(val),
                    0xE5 => cpu.regfile.set_hl(val),
                    _ => cpu.regfile.set_af(val),
                }
                let before = cpu.regfile;
                cpu.run(&mut memory).unwrap();
                assert_eq!(cpu.sp, sp.wrapping_sub(2));
                assert_eq!(memory.read_byte(sp.wrapping_sub(1)), (val >> 8) as u8);
                assert_eq!(memory.read_byte(sp.wrapping_sub(2)), (val & 0xFF) as u8);
                // LD BC,0 in between, so that the pop has something to restore
                cpu.run(&mut memory).unwrap();
                if push == 0xC5 {
                    assert_eq!(cpu.regfile.get_bc(), 0);
                }
                cpu.run(&mut memory).unwrap();
                assert_eq!(cpu.sp, sp);
                assert_eq!(cpu.regfile, before);
            }
        }
    }
}

#[test]
fn pop_af_discards_the_low_nibble() {
    let (mut cpu, mut memory) = machine_with(&[0xF1]);
    cpu.sp = 0xC000;
    memory.write_byte(0xC000, 0xFF);
    memory.write_byte(0xC001, 0x12);
    cpu.run(&mut memory).unwrap();
    assert_eq!(cpu.regfile.r_a, 0x12);
    assert_eq!(cpu.regfile.r_f, 0xF0);
    assert_eq!(cpu.sp, 0xC002);
}

fn is_bcd(val: u8) -> bool {
    val & 0x0F <= 9 && val >> 4 <= 9
}

fn bcd(val: u8) -> u32 {
    (val >> 4) as u32 * 10 + (val & 0x0F) as u32
}

#[test]
fn daa_after_add_gives_the_decimal_sum() {
    let (mut cpu, mut memory) = machine_with(&[0x80, 0x27]);
    for a in 0..=255u8 {
        for b in 0..=255u8 {
            if !is_bcd(a) || !is_bcd(b) {
                continue;
            }
            cpu.pc = 0;
            cpu.regfile = Regfile::new();
            cpu.regfile.r_a = a;
            cpu.regfile.r_b = b;
            cpu.run(&mut memory).unwrap();
            cpu.run(&mut memory).unwrap();
            let result = cpu.regfile.r_a;
            assert!(is_bcd(result));
            assert_eq!(bcd(result), (bcd(a) + bcd(b)) % 100);
            assert_eq!(
                flags(&cpu.regfile),
                (result == 0, false, false, bcd(a) + bcd(b) >= 100)
            );
        }
    }
}

#[test]
fn daa_exact_values() {
    // 0x15 + 0x27 = 0x3C, adjusted to 0x42
    let (mut cpu, mut memory) = machine_with(&[0x80, 0x27]);
    cpu.regfile.r_a = 0x15;
    cpu.regfile.r_b = 0x27;
    cpu.run(&mut memory).unwrap();
    assert_eq!(cpu.regfile.r_a, 0x3C);
    cpu.run(&mut memory).unwrap();
    assert_eq!(cpu.regfile.r_a, 0x42);
    assert_eq!(flags(&cpu.regfile), (false, false, false, false));
    // 0x99 + 0x01 = 0x9A, adjusted to 0x00 with carry
    let (mut cpu, mut memory) = machine_with(&[0x80, 0x27]);
    cpu.regfile.r_a = 0x99;
    cpu.regfile.r_b = 0x01;
    cpu.run(&mut memory).unwrap();
    cpu.run(&mut memory).unwrap();
    assert_eq!(cpu.regfile.r_a, 0x00);
    assert_eq!(flags(&cpu.regfile), (true, false, false, true));
    // 0x42 - 0x15 = 0x2D with half-carry, adjusted to 0x27
    let (mut cpu, mut memory) = machine_with(&[0x90, 0x27]);
    cpu.regfile.r_a = 0x42;
    cpu.regfile.r_b = 0x15;
    cpu.run(&mut memory).unwrap();
    assert_eq!(cpu.regfile.r_a, 0x2D);
    assert_eq!(flags(&cpu.regfile), (false, true, true, false));
    cpu.run(&mut memory).unwrap();
    assert_eq!(cpu.regfile.r_a, 0x27);
    assert_eq!(flags(&cpu.regfile), (false, true, false, false));
    // 0x15 - 0x42 = 0xD3 with carry, adjusted to 0x73
    let (mut cpu, mut memory) = machine_with(&[0x90, 0x27]);
    cpu.regfile.r_a = 0x15;
    cpu.regfile.r_b = 0x42;
    cpu.run(&mut memory).unwrap();
    assert_eq!(cpu.regfile.r_a, 0xD3);
    cpu.run(&mut memory).unwrap();
    assert_eq!(cpu.regfile.r_a, 0x73);
    assert_eq!(flags(&cpu.regfile), (false, true, false, true));
}

#[test]
fn vblank_is_served_before_timer() {
    let (mut cpu, mut memory) = machine_with(&[0x00]);
    memory.write_byte(0xFFFF, 0x05);
    memory.write_byte(0xFF0F, 0x05);
    assert_eq!(cpu.run(&mut memory), Ok(0x00));
    assert_eq!(cpu.pc, 0x0040);
    assert_eq!(cpu.sp, 0xFFFC);
    assert_eq!(memory.read_byte(0xFFFD), 0x00);
    assert_eq!(memory.read_byte(0xFFFC), 0x01);
    // the request byte is cleared as a whole
    assert_eq!(memory.read_byte(0xFF0F), 0x00);
    assert!(cpu.ime);
    cpu.run(&mut memory).unwrap();
    assert_eq!(cpu.pc, 0x0041);
    assert_eq!(cpu.sp, 0xFFFC);
}

#[test]
fn interrupts_are_served_in_priority_order() {
    for (requests, vector) in [
        (0x1Fu8, 0x0040u16),
        (0x1E, 0x0048),
        (0x1C, 0x0050),
        (0x18, 0x0058),
        (0x10, 0x0060),
        (0x01, 0x0040),
        (0x02, 0x0048),
        (0x04, 0x0050),
        (0x08, 0x0058),
    ] {
        let (mut cpu, mut memory) = machine_with(&[0x00]);
        memory.write_byte(0xFFFF, 0xFF);
        memory.write_byte(0xFF0F, requests);
        cpu.run(&mut memory).unwrap();
        assert_eq!(cpu.pc, vector);
        assert_eq!(memory.read_byte(0xFF0F), 0x00);
        assert_eq!(cpu.sp, 0xFFFC);
    }
}

#[test]
fn nothing_is_served_without_enable() {
    // request without its enable bit
    let (mut cpu, mut memory) = machine_with(&[0x00]);
    memory.write_byte(0xFFFF, 0x02);
    memory.write_byte(0xFF0F, 0x05);
    cpu.run(&mut memory).unwrap();
    assert_eq!(cpu.pc, 0x0001);
    assert_eq!(cpu.sp, 0xFFFE);
    // the request byte is cleared even though nothing was served
    assert_eq!(memory.read_byte(0xFF0F), 0x00);
    // master enable off
    let (mut cpu, mut memory) = machine_with(&[0x00]);
    memory.write_byte(0xFFFF, 0xFF);
    memory.write_byte(0xFF0F, 0x05);
    cpu.ime = false;
    cpu.run(&mut memory).unwrap();
    assert_eq!(cpu.pc, 0x0001);
    assert_eq!(memory.read_byte(0xFF0F), 0x05);
}

#[test]
fn enable_takes_effect_one_instruction_later() {
    let (mut cpu, mut memory) = machine_with(&[0xF3, 0xFB, 0x00]);
    cpu.run(&mut memory).unwrap();
    assert!(!cpu.ime);
    assert!(!cpu.scheduled_ime);
    cpu.run(&mut memory).unwrap();
    assert!(!cpu.ime);
    assert!(cpu.scheduled_ime);
    cpu.run(&mut memory).unwrap();
    assert!(cpu.ime);
    assert!(!cpu.scheduled_ime);
}

#[test]
fn disable_cancels_a_scheduled_enable() {
    let (mut cpu, mut memory) = machine_with(&[0xF3, 0xFB, 0xF3, 0x00, 0x00]);
    for _ in 0..5 {
        cpu.run(&mut memory).unwrap();
        assert!(!cpu.ime);
    }
    assert!(!cpu.scheduled_ime);
}

#[test]
fn cycles_are_reported_after_the_instruction() {
    // LD (HL),A to the timer control register: the instruction's own two
    // cycles are counted with the timer already enabled at rate 16
    let (mut cpu, mut memory) = machine_with(&[0x77]);
    cpu.regfile.set_hl(0xFF07);
    cpu.regfile.r_a = 0x05;
    cpu.run(&mut memory).unwrap();
    assert_eq!(memory.timer.get_TAC(), 0x05);
    for _ in 0..13 {
        memory.update_cycle(1);
    }
    assert_eq!(memory.read_byte(0xFF05), 0x00);
    memory.update_cycle(1);
    assert_eq!(memory.read_byte(0xFF05), 0x01);
}

#[test]
fn adc_adds_the_carry_as_a_step_of_its_own() {
    // 0x0F + carry + 0x00: the step of 1 sets half-carry, the step of 0 clears it
    let (mut cpu, mut memory) = machine_with(&[0x88]);
    cpu.regfile.r_a = 0x0F;
    cpu.regfile.r_b = 0x00;
    cpu.regfile.set_carry(true);
    cpu.run(&mut memory).unwrap();
    assert_eq!(cpu.regfile.r_a, 0x10);
    assert_eq!(flags(&cpu.regfile), (false, false, false, false));
    // 0xFF + carry + 0x01: the step of 1 wraps and its carry is lost
    let (mut cpu, mut memory) = machine_with(&[0x88]);
    cpu.regfile.r_a = 0xFF;
    cpu.regfile.r_b = 0x01;
    cpu.regfile.set_carry(true);
    cpu.run(&mut memory).unwrap();
    assert_eq!(cpu.regfile.r_a, 0x01);
    assert_eq!(flags(&cpu.regfile), (false, false, false, false));
    // immediate operand
    let (mut cpu, mut memory) = machine_with(&[0xCE, 0x20]);
    cpu.regfile.r_a = 0x01;
    cpu.regfile.set_carry(true);
    cpu.run(&mut memory).unwrap();
    assert_eq!(cpu.regfile.r_a, 0x22);
    assert_eq!(cpu.pc, 2);
}

#[test]
fn sbc_subtracts_the_carry_as_a_step_of_its_own() {
    let (mut cpu, mut memory) = machine_with(&[0x98]);
    cpu.regfile.r_a = 0x10;
    cpu.regfile.r_b = 0x00;
    cpu.regfile.set_carry(true);
    cpu.run(&mut memory).unwrap();
    assert_eq!(cpu.regfile.r_a, 0x0F);
    assert_eq!(flags(&cpu.regfile), (false, true, false, false));
    let (mut cpu, mut memory) = machine_with(&[0x98]);
    cpu.regfile.r_a = 0x00;
    cpu.regfile.r_b = 0x01;
    cpu.regfile.set_carry(true);
    cpu.run(&mut memory).unwrap();
    assert_eq!(cpu.regfile.r_a, 0xFE);
    assert_eq!(flags(&cpu.regfile), (false, true, false, false));
    let (mut cpu, mut memory) = machine_with(&[0x98]);
    cpu.regfile.r_a = 0x05;
    cpu.regfile.r_b = 0x06;
    cpu.run(&mut memory).unwrap();
    assert_eq!(cpu.regfile.r_a, 0xFF);
    assert_eq!(flags(&cpu.regfile), (false, true, true, true));
}

#[test]
fn cp_sets_flags_and_keeps_the_accumulator() {
    let (mut cpu, mut memory) = machine_with(&[0xFE, 0x42, 0xFE, 0x43, 0xFE, 0x31]);
    cpu.regfile.r_a = 0x42;
    cpu.run(&mut memory).unwrap();
    assert_eq!(cpu.regfile.r_a, 0x42);
    assert_eq!(flags(&cpu.regfile), (true, true, false, false));
    cpu.run(&mut memory).unwrap();
    assert_eq!(cpu.regfile.r_a, 0x42);
    assert_eq!(flags(&cpu.regfile), (false, true, true, true));
    cpu.run(&mut memory).unwrap();
    assert_eq!(cpu.regfile.r_a, 0x42);
    assert_eq!(flags(&cpu.regfile), (false, true, false, false));
}

#[test]
fn logic_operations_fix_the_flags() {
    let (mut cpu, mut memory) = machine_with(&[0xE6, 0x0F, 0xF6, 0x80, 0xEE, 0x8A, 0xE6, 0x00]);
    cpu.regfile.r_a = 0x3A;
    cpu.regfile.set_carry(true);
    cpu.regfile.set_sub(true);
    cpu.run(&mut memory).unwrap();
    assert_eq!(cpu.regfile.r_a, 0x0A);
    assert_eq!(flags(&cpu.regfile), (false, false, true, false));
    cpu.regfile.set_carry(true);
    cpu.run(&mut memory).unwrap();
    assert_eq!(cpu.regfile.r_a, 0x8A);
    assert_eq!(flags(&cpu.regfile), (false, false, false, false));
    cpu.regfile.set_carry(true);
    cpu.regfile.set_half_carry(true);
    cpu.run(&mut memory).unwrap();
    assert_eq!(cpu.regfile.r_a, 0x00);
    assert_eq!(flags(&cpu.regfile), (true, false, false, false));
    cpu.regfile.r_a = 0xFF;
    cpu.run(&mut memory).unwrap();
    assert_eq!(cpu.regfile.r_a, 0x00);
    assert_eq!(flags(&cpu.regfile), (true, false, true, false));
}

#[test]
fn accumulator_and_flag_operations() {
    // CPL
    let (mut cpu, mut memory) = machine_with(&[0x2F, 0x37, 0x3F, 0x3F]);
    cpu.regfile.r_a = 0x35;
    cpu.regfile.set_zero(true);
    cpu.run(&mut memory).unwrap();
    assert_eq!(cpu.regfile.r_a, 0xCA);
    assert_eq!(flags(&cpu.regfile), (true, true, true, false));
    // SCF
    cpu.run(&mut memory).unwrap();
    assert_eq!(flags(&cpu.regfile), (true, false, false, true));
    // CCF twice
    cpu.regfile.set_sub(true);
    cpu.regfile.set_half_carry(true);
    cpu.run(&mut memory).unwrap();
    assert_eq!(flags(&cpu.regfile), (true, false, false, false));
    cpu.run(&mut memory).unwrap();
    assert_eq!(flags(&cpu.regfile), (true, false, false, true));
    assert_eq!(cpu.regfile.r_a, 0xCA);
}

#[test]
fn accumulator_rotations_clear_zero() {
    // RLCA, RLA, RRCA, RRA on a zero accumulator
    for opcode in [0x07u8, 0x17, 0x0F, 0x1F] {
        let (mut cpu, mut memory) = machine_with(&[opcode]);
        cpu.regfile.set_zero(true);
        cpu.regfile.set_sub(true);
        cpu.regfile.set_half_carry(true);
        cpu.run(&mut memory).unwrap();
        assert_eq!(cpu.regfile.r_a, 0x00);
        assert_eq!(flags(&cpu.regfile), (false, false, false, false));
    }
    // RLA takes the carry in and moves bit 7 out
    let (mut cpu, mut memory) = machine_with(&[0x17]);
    cpu.regfile.r_a = 0x95;
    cpu.regfile.set_carry(true);
    cpu.run(&mut memory).unwrap();
    assert_eq!(cpu.regfile.r_a, 0x2B);
    assert_eq!(flags(&cpu.regfile), (false, false, false, true));
    // RRA takes the carry in and moves bit 0 out
    let (mut cpu, mut memory) = machine_with(&[0x1F]);
    cpu.regfile.r_a = 0x81;
    cpu.run(&mut memory).unwrap();
    assert_eq!(cpu.regfile.r_a, 0x40);
    assert_eq!(flags(&cpu.regfile), (false, false, false, true));
    let (mut cpu, mut memory) = machine_with(&[0x1F]);
    cpu.regfile.r_a = 0x02;
    cpu.regfile.set_carry(true);
    cpu.run(&mut memory).unwrap();
    assert_eq!(cpu.regfile.r_a, 0x81);
    assert_eq!(flags(&cpu.regfile), (false, false, false, false));
}

fn run_extended(second: u8, value: u8, carry: bool) -> (u8, (bool, bool, bool, bool)) {
    // every extended opcode used here works on register B
    let (mut cpu, mut memory) = machine_with(&[0xCB, second]);
    cpu.regfile.r_b = value;
    cpu.regfile.set_carry(carry);
    cpu.regfile.set_sub(true);
    cpu.regfile.set_half_carry(true);
    assert_eq!(cpu.run(&mut memory), Ok(0xCB));
    assert_eq!(cpu.pc, 2);
    (cpu.regfile.r_b, flags(&cpu.regfile))
}

#[test]
fn extended_rotations_and_shifts() {
    // RLC B
    assert_eq!(run_extended(0x00, 0x80, false), (0x01, (false, false, false, true)));
    assert_eq!(run_extended(0x00, 0x00, true), (0x00, (true, false, false, false)));
    // RRC B
    assert_eq!(run_extended(0x08, 0x01, false), (0x80, (false, false, false, true)));
    // RL B
    assert_eq!(run_extended(0x10, 0x80, false), (0x00, (true, false, false, true)));
    assert_eq!(run_extended(0x10, 0x01, true), (0x03, (false, false, false, false)));
    // RR B
    assert_eq!(run_extended(0x18, 0x01, false), (0x00, (true, false, false, true)));
    assert_eq!(run_extended(0x18, 0x80, true), (0xC0, (false, false, false, false)));
    // SLA B
    assert_eq!(run_extended(0x20, 0xC1, true), (0x82, (false, false, false, true)));
    assert_eq!(run_extended(0x20, 0x80, false), (0x00, (true, false, false, true)));
    // SRA B
    assert_eq!(run_extended(0x28, 0x04, true), (0x02, (false, false, false, false)));
    assert_eq!(run_extended(0x28, 0x81, false), (0xC0, (false, false, false, true)));
    assert_eq!(run_extended(0x28, 0x80, false), (0xC0, (false, false, false, false)));
    assert_eq!(run_extended(0x28, 0xFE, true), (0xFF, (false, false, false, false)));
    assert_eq!(run_extended(0x28, 0x7F, false), (0x3F, (false, false, false, true)));
    assert_eq!(run_extended(0x28, 0x01, true), (0x00, (true, false, false, true)));
    // SRL B
    assert_eq!(run_extended(0x38, 0x81, true), (0x40, (false, false, false, true)));
    assert_eq!(run_extended(0x38, 0x01, false), (0x00, (true, false, false, true)));
    // SWAP B
    assert_eq!(run_extended(0x30, 0xA5, true), (0x5A, (false, false, false, false)));
    assert_eq!(run_extended(0x30, 0x00, true), (0x00, (true, false, false, false)));
}

#[test]
fn rotation_in_memory_takes_carry_from_the_bit_moved_out() {
    // RR (HL) on 0x80: bit 0 is clear, so carry is cleared
    let (mut cpu, mut memory) = machine_with(&[0xCB, 0x1E, 0xCB, 0x0E]);
    cpu.regfile.set_hl(0x2000);
    memory.write_byte(0x2000, 0x80);
    cpu.run(&mut memory).unwrap();
    assert_eq!(memory.read_byte(0x2000), 0x40);
    assert_eq!(flags(&cpu.regfile), (false, false, false, false));
    // RRC (HL) on 0x01: bit 0 is set
    memory.write_byte(0x2000, 0x01);
    cpu.run(&mut memory).unwrap();
    assert_eq!(memory.read_byte(0x2000), 0x80);
    assert_eq!(flags(&cpu.regfile), (false, false, false, true));
}

#[test]
fn bit_test_reset_and_set() {
    // BIT 7,B ; BIT 0,B ; RES 7,B ; SET 0,B
    let (mut cpu, mut memory) = machine_with(&[0xCB, 0x78, 0xCB, 0x40, 0xCB, 0xB8, 0xCB, 0xC0]);
    cpu.regfile.r_b = 0x80;
    cpu.regfile.set_carry(true);
    cpu.regfile.set_sub(true);
    cpu.run(&mut memory).unwrap();
    assert_eq!(flags(&cpu.regfile), (false, false, true, true));
    cpu.run(&mut memory).unwrap();
    assert_eq!(flags(&cpu.regfile), (true, false, true, true));
    assert_eq!(cpu.regfile.r_b, 0x80);
    let before = cpu.regfile.r_f;
    cpu.run(&mut memory).unwrap();
    assert_eq!(cpu.regfile.r_b, 0x00);
    assert_eq!(cpu.regfile.r_f, before);
    cpu.run(&mut memory).unwrap();
    assert_eq!(cpu.regfile.r_b, 0x01);
    assert_eq!(cpu.regfile.r_f, before);
    // SET 3,(HL) and RES 3,(HL)
    let (mut cpu, mut memory) = machine_with(&[0xCB, 0xDE, 0xCB, 0x9E]);
    cpu.regfile.set_hl(0x3000);
    memory.write_byte(0x3000, 0xF0);
    cpu.run(&mut memory).unwrap();
    assert_eq!(memory.read_byte(0x3000), 0xF8);
    cpu.run(&mut memory).unwrap();
    assert_eq!(memory.read_byte(0x3000), 0xF0);
    assert_eq!(cpu.regfile.r_f, 0x00);
}

#[test]
fn loads_between_registers_and_memory() {
    // LD B,0x12 ; LD C,B ; LD (HL),C ; LD A,(HL+) ; LD (HL-),A ; LD A,(HL-)
    let (mut cpu, mut memory) = machine_with(&[0x06, 0x12, 0x48, 0x71, 0x2A, 0x32, 0x3A]);
    cpu.regfile.set_hl(0x4000);
    cpu.run(&mut memory).unwrap();
    assert_eq!(cpu.regfile.r_b, 0x12);
    assert_eq!(cpu.pc, 2);
    cpu.run(&mut memory).unwrap();
    assert_eq!(cpu.regfile.r_c, 0x12);
    cpu.run(&mut memory).unwrap();
    assert_eq!(memory.read_byte(0x4000), 0x12);
    cpu.run(&mut memory).unwrap();
    assert_eq!(cpu.regfile.r_a, 0x12);
    assert_eq!(cpu.regfile.get_hl(), 0x4001);
    cpu.run(&mut memory).unwrap();
    assert_eq!(memory.read_byte(0x4001), 0x12);
    assert_eq!(cpu.regfile.get_hl(), 0x4000);
    cpu.regfile.r_a = 0;
    cpu.run(&mut memory).unwrap();
    assert_eq!(cpu.regfile.r_a, 0x12);
    assert_eq!(cpu.regfile.get_hl(), 0x3FFF);
    assert_eq!(cpu.regfile.r_f, 0x00);
}

#[test]
fn loads_through_high_memory_and_absolute_addresses() {
    // LDH (0x80),A ; LDH A,(0x80) ; LD (C),A ; LD A,(C)
    let (mut cpu, mut memory) = machine_with(&[0xE0, 0x80, 0xF0, 0x80, 0xE2, 0xF2]);
    cpu.regfile.r_a = 0x5A;
    cpu.regfile.r_c = 0x90;
    cpu.run(&mut memory).unwrap();
    assert_eq!(memory.read_byte(0xFF80), 0x5A);
    cpu.regfile.r_a = 0;
    cpu.run(&mut memory).unwrap();
    assert_eq!(cpu.regfile.r_a, 0x5A);
    assert_eq!(cpu.pc, 4);
    cpu.run(&mut memory).unwrap();
    assert_eq!(memory.read_byte(0xFF90), 0x5A);
    assert_eq!(cpu.pc, 5);
    memory.write_byte(0xFF90, 0xA5);
    cpu.run(&mut memory).unwrap();
    assert_eq!(cpu.regfile.r_a, 0xA5);
    assert_eq!(cpu.pc, 7);
    // LD (a16),A stores at the operand, high byte first
    let (mut cpu, mut memory) = machine_with(&[0xEA, 0xC1, 0x23]);
    cpu.regfile.r_a = 0x99;
    cpu.run(&mut memory).unwrap();
    assert_eq!(memory.read_byte(0xC123), 0x99);
    assert_eq!(cpu.pc, 3);
    // LD A,(a16) loads from the operand
    let (mut cpu, mut memory) = machine_with(&[0xFA, 0xC1, 0x23]);
    memory.write_byte(0xC123, 0x77);
    memory.write_byte(0x0010, 0x66);
    cpu.regfile.r_f = 0xF0;
    cpu.regfile.set_bc(0x1122);
    let mut expected = cpu.regfile;
    expected.r_a = 0x77;
    cpu.run(&mut memory).unwrap();
    assert_eq!(cpu.regfile, expected);
    assert_eq!(cpu.pc, 3);
    assert_eq!(memory.read_byte(0xC123), 0x77);
    // through the same address a store reads back
    let (mut cpu, mut memory) = machine_with(&[0xEA, 0x12, 0x34, 0x3E, 0x00, 0xFA, 0x12, 0x34]);
    cpu.regfile.r_a = 0x5C;
    cpu.run(&mut memory).unwrap();
    cpu.run(&mut memory).unwrap();
    assert_eq!(cpu.regfile.r_a, 0x00);
    cpu.run(&mut memory).unwrap();
    assert_eq!(cpu.regfile.r_a, 0x5C);
    // a timer register is read through its mapping
    let (mut cpu, mut memory) = machine_with(&[0xFA, 0xFF, 0x06]);
    memory.write_byte(0xFF06, 0x9D);
    cpu.run(&mut memory).unwrap();
    assert_eq!(cpu.regfile.r_a, 0x9D);
}

#[test]
fn sixteen_bit_loads() {
    // LD BC,d16 ; LD DE,d16 ; LD HL,d16 ; LD SP,d16 ; LD (a16),SP ; LD SP,HL
    let (mut cpu, mut memory) = machine_with(&[
        0x01, 0x12, 0x34, 0x11, 0x56, 0x78, 0x21, 0x9A, 0xBC, 0x31, 0xDE, 0xF0, 0x08, 0xC0, 0x00, 0xF9,
    ]);
    for _ in 0..4 {
        cpu.run(&mut memory).unwrap();
    }
    assert_eq!(cpu.regfile.get_bc(), 0x1234);
    assert_eq!(cpu.regfile.get_de(), 0x5678);
    assert_eq!(cpu.regfile.get_hl(), 0x9ABC);
    assert_eq!(cpu.sp, 0xDEF0);
    cpu.run(&mut memory).unwrap();
    assert_eq!(memory.read_byte(0xC000), 0xF0);
    assert_eq!(memory.read_byte(0xC001), 0xDE);
    assert_eq!(cpu.pc, 15);
    cpu.run(&mut memory).unwrap();
    assert_eq!(cpu.sp, 0x9ABC);
    assert_eq!(cpu.regfile.r_f, 0x00);
}

#[test]
fn sixteen_bit_increment_and_decrement_wrap_without_flags() {
    // INC BC ; DEC DE ; INC HL ; DEC SP ; INC SP ; INC SP
    let (mut cpu, mut memory) = machine_with(&[0x03, 0x1B, 0x23, 0x3B, 0x33, 0x33]);
    cpu.regfile.set_bc(0xFFFF);
    cpu.regfile.set_de(0x0000);
    cpu.regfile.set_hl(0x00FF);
    cpu.sp = 0x0000;
    cpu.regfile.r_f = 0xF0;
    for _ in 0..4 {
        cpu.run(&mut memory).unwrap();
    }
    assert_eq!(cpu.regfile.get_bc(), 0x0000);
    assert_eq!(cpu.regfile.get_de(), 0xFFFF);
    assert_eq!(cpu.regfile.get_hl(), 0x0100);
    assert_eq!(cpu.sp, 0xFFFF);
    cpu.run(&mut memory).unwrap();
    assert_eq!(cpu.sp, 0x0000);
    cpu.run(&mut memory).unwrap();
    assert_eq!(cpu.sp, 0x0001);
    assert_eq!(cpu.regfile.r_f, 0xF0);
}

#[test]
fn add_hl_sets_carries_from_bits_11_and_15() {
    // ADD HL,BC
    let (mut cpu, mut memory) = machine_with(&[0x09, 0x09, 0x29, 0x39]);
    cpu.regfile.set_hl(0x0FFF);
    cpu.regfile.set_bc(0x0001);
    cpu.regfile.set_zero(true);
    cpu.regfile.set_sub(true);
    cpu.run(&mut memory).unwrap();
    assert_eq!(cpu.regfile.get_hl(), 0x1000);
    assert_eq!(flags(&cpu.regfile), (true, false, true, false));
    cpu.regfile.set_hl(0xF000);
    cpu.regfile.set_bc(0x1000);
    cpu.regfile.set_zero(false);
    cpu.run(&mut memory).unwrap();
    assert_eq!(cpu.regfile.get_hl(), 0x0000);
    assert_eq!(flags(&cpu.regfile), (false, false, false, true));
    // ADD HL,HL
    cpu.regfile.set_hl(0x8800);
    cpu.run(&mut memory).unwrap();
    assert_eq!(cpu.regfile.get_hl(), 0x1000);
    assert_eq!(flags(&cpu.regfile), (false, false, true, true));
    // ADD HL,SP
    cpu.sp = 0x0234;
    cpu.run(&mut memory).unwrap();
    assert_eq!(cpu.regfile.get_hl(), 0x1234);
    assert_eq!(flags(&cpu.regfile), (false, false, false, false));
}

#[test]
fn stack_pointer_arithmetic() {
    // LD HL,SP+d8
    let (mut cpu, mut memory) = machine_with(&[0xF8, 0x02]);
    cpu.sp = 0x0FFF;
    cpu.regfile.r_f = 0xF0;
    cpu.run(&mut memory).unwrap();
    assert_eq!(cpu.regfile.get_hl(), 0x1001);
    assert_eq!(cpu.sp, 0x0FFF);
    assert_eq!(flags(&cpu.regfile), (false, false, true, false));
    let (mut cpu, mut memory) = machine_with(&[0xF8, 0xFF]);
    cpu.sp = 0xFFFE;
    cpu.run(&mut memory).unwrap();
    assert_eq!(cpu.regfile.get_hl(), 0x00FD);
    assert_eq!(flags(&cpu.regfile), (false, false, true, true));
    // ADD SP,d8: half-carry looks at the stack pointer after the addition
    let (mut cpu, mut memory) = machine_with(&[0xE8, 0x02]);
    cpu.sp = 0x0FFF;
    cpu.regfile.r_f = 0xF0;
    cpu.run(&mut memory).unwrap();
    assert_eq!(cpu.sp, 0x1001);
    assert_eq!(flags(&cpu.regfile), (false, false, false, false));
    let (mut cpu, mut memory) = machine_with(&[0xE8, 0x02]);
    cpu.sp = 0x0FFD;
    cpu.run(&mut memory).unwrap();
    assert_eq!(cpu.sp, 0x0FFF);
    assert_eq!(flags(&cpu.regfile), (false, false, true, false));
    let (mut cpu, mut memory) = machine_with(&[0xE8, 0x10]);
    cpu.sp = 0xFFF8;
    cpu.run(&mut memory).unwrap();
    assert_eq!(cpu.sp, 0x0008);
    assert_eq!(flags(&cpu.regfile), (false, false, false, true));
}

#[test]
fn program_counter_wraps_at_the_end_of_memory() {
    let (mut cpu, mut memory) = machine_with(&[]);
    cpu.pc = 0xFFFF;
    cpu.ime = false;
    memory.write_byte(0xFFFF, 0x3E);
    memory.write_byte(0x0000, 0x42);
    assert_eq!(cpu.run(&mut memory), Ok(0x3E));
    assert_eq!(cpu.regfile.r_a, 0x42);
    assert_eq!(cpu.pc, 0x0001);
}

#[test]
fn stop_and_halt_only_advance() {
    let (mut cpu, mut memory) = machine_with(&[0x10, 0x00, 0x76]);
    let regfile = cpu.regfile;
    assert_eq!(cpu.run(&mut memory), Ok(0x10));
    assert_eq!(cpu.pc, 2);
    assert_eq!(cpu.run(&mut memory), Ok(0x76));
    assert_eq!(cpu.pc, 3);
    assert_eq!(cpu.regfile, regfile);
    assert_eq!(cpu.sp, 0xFFFE);
}

#[test]
fn daa_after_sub_gives_the_decimal_difference() {
    let (mut cpu, mut memory) = machine_with(&[0x90, 0x27]);
    for a in 0..=255u8 {
        for b in 0..=255u8 {
            if !is_bcd(a) || !is_bcd(b) {
                continue;
            }
            cpu.pc = 0;
            cpu.regfile = Regfile::new();
            cpu.regfile.r_a = a;
            cpu.regfile.r_b = b;
            cpu.run(&mut memory).unwrap();
            cpu.run(&mut memory).unwrap();
            let result = cpu.regfile.r_a;
            assert!(is_bcd(result));
            assert_eq!(bcd(result), (100 + bcd(a) - bcd(b)) % 100);
            assert_eq!(flags(&cpu.regfile), (result == 0, true, false, bcd(a) < bcd(b)));
        }
    }
}

#[test]
fn step_keeps_the_low_nibble_of_f_zero() {
    // every opcode, with every second byte that matters, from a state with all flags set
    for opcode in 0..=255u8 {
        for second in [0x00u8, 0x37, 0x7E, 0xFF] {
            let (mut cpu, mut memory) = machine_with(&[opcode, second, 0x12]);
            cpu.regfile.r_f = 0xF0;
            cpu.regfile.r_a = 0x9A;
            cpu.sp = 0xC000;
            memory.write_byte(0xC000, 0xFF);
            memory.write_byte(0xC001, 0xFF);
            let _ = cpu.run(&mut memory);
            assert_eq!(cpu.regfile.r_f & 0x0F, 0);
        }
    }
}

fn digit_adjusts(sum: u32) -> bool {
    sum <= 19 || sum >= 26
}

#[test]
fn daa_after_add_gives_digits_exactly_when_the_nibble_sums_adjust() {
    let (mut cpu, mut memory) = machine_with(&[0x80, 0x27]);
    for a in 0..=255u8 {
        for b in 0..=255u8 {
            cpu.pc = 0;
            cpu.regfile = Regfile::new();
            cpu.regfile.r_a = a;
            cpu.regfile.r_b = b;
            cpu.run(&mut memory).unwrap();
            cpu.run(&mut memory).unwrap();
            let low = (a & 0x0F) as u32 + (b & 0x0F) as u32;
            let carried = if low <= 9 { 0 } else if low <= 19 { 1 } else { 2 };
            let high = (a >> 4) as u32 + (b >> 4) as u32 + carried;
            assert_eq!(is_bcd(cpu.regfile.r_a), digit_adjusts(low) && digit_adjusts(high));
            assert!(!cpu.regfile.get_half_carry());
            assert!(!cpu.regfile.get_sub());
            assert_eq!(cpu.regfile.get_zero(), cpu.regfile.r_a == 0);
        }
    }
    // 0x88 + 0x0C = 0x94 with half-carry: the adjusted 0x9A is no decimal number
    cpu.pc = 0;
    cpu.regfile = Regfile::new();
    cpu.regfile.r_a = 0x88;
    cpu.regfile.r_b = 0x0C;
    cpu.run(&mut memory).unwrap();
    assert_eq!(cpu.regfile.r_a, 0x94);
    assert!(cpu.regfile.get_half_carry());
    cpu.run(&mut memory).unwrap();
    assert_eq!(cpu.regfile.r_a, 0x9A);
}

#[test]
fn push_to_the_divider_does_not_read_back() {
    // the high byte goes to the divider register, which resets instead of storing
    let (mut cpu, mut memory) = machine_with(&[0xC5, 0xD1]);
    cpu.sp = 0xFF05;
    cpu.regfile.set_bc(0x1234);
    cpu.run(&mut memory).unwrap();
    assert_eq!(cpu.sp, 0xFF03);
    assert_eq!(memory.read_byte(0xFF04), 0x00);
    assert_eq!(memory.read_byte(0xFF03), 0x34);
    cpu.run(&mut memory).unwrap();
    assert_eq!(cpu.regfile.get_de(), 0x0034);
    assert_eq!(cpu.sp, 0xFF05);
}
