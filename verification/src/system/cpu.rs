//! The execution engine: program counter, stack pointer, register file and
//! interrupt-enable state, and the step that drives them.

pub mod alu;
pub mod instruction;
pub mod machine;
pub mod regfile;
pub mod theorems;

use vstd::prelude::*;
use crate::system::cpu::alu::decimal_adjust;
use crate::system::cpu::alu::rl;
use crate::system::cpu::alu::rr;
use crate::system::cpu::alu::swap_nibbles;
use crate::system::cpu::instruction::ArithmeticArg;
use crate::system::cpu::instruction::Instruction;
use crate::system::cpu::instruction::InstructionType;
use crate::system::cpu::instruction::JumpCond;
use crate::system::cpu::instruction::LoadSource;
use crate::system::cpu::instruction::LoadTarget;
use crate::system::cpu::instruction::Opcode;
use crate::system::cpu::instruction::RegisterPair;
use crate::system::cpu::instruction::Word16;
use crate::system::cpu::instruction::Word8;
use crate::system::cpu::machine::Machine;
use crate::system::cpu::machine::reports;
use crate::system::cpu::machine::HIGH_PAGE;
use crate::system::cpu::machine::UNIMPLEMENTED_MESSAGE;
use crate::system::cpu::machine::UNSUPPORTED_MESSAGE;
use crate::system::cpu::regfile::combine;
use crate::system::cpu::regfile::Regfile;
use crate::system::cpu::regfile::split_high;
use crate::system::cpu::regfile::split_low;
use crate::system::memory::Memory;
use crate::system::memory::MemoryView;

verus! {

/// The stack pointer of a new engine.
pub const INITIAL_SP: u16 = 0xFFFE;

pub struct CPU {
    pub regfile: Regfile,
    pub pc: u16,
    pub sp: u16,
    /// Interrupt master enable.
    pub ime: bool,
    /// An enable that takes effect one instruction later.
    pub scheduled_ime: bool,
}

impl CPU {
    /// The state of a new engine.
    pub open spec fn initial() -> CPU {
        CPU { regfile: Regfile::zeroed(), pc: 0, sp: INITIAL_SP, ime: true, scheduled_ime: false }
    }

    /// The value of a 16-bit operand.
    pub open spec fn word16(&self, target: Word16) -> u16 {
        match target {
            Word16::BC => self.regfile.bc(),
            Word16::DE => self.regfile.de(),
            Word16::HL => self.regfile.hl(),
            Word16::SP => self.sp,
        }
    }

    /// The engine after a write of `val` to a 16-bit operand.
    pub open spec fn with_word16(self, target: Word16, val: u16) -> CPU {
        match target {
            Word16::BC => CPU { regfile: self.regfile.with_bc(val), ..self },
            Word16::DE => CPU { regfile: self.regfile.with_de(val), ..self },
            Word16::HL => CPU { regfile: self.regfile.with_hl(val), ..self },
            Word16::SP => CPU { sp: val, ..self },
        }
    }

    /// Whether a condition holds of the flags.
    pub open spec fn condition(&self, cond: JumpCond) -> bool {
        match cond {
            JumpCond::Zero => self.regfile.zero(),
            JumpCond::Carry => self.regfile.carry(),
            JumpCond::NotZero => !self.regfile.zero(),
            JumpCond::NotCarry => !self.regfile.carry(),
            JumpCond::Always => true,
        }
    }

    /// The program counter after a relative jump that is taken or not. The
    /// offset counts from the program counter as it stands, which is past
    /// the jump instruction.
    pub open spec fn jump_relative_target(&self, r8: u8, should_jump: bool) -> u16 {
        if should_jump {
            alu::relative_target(self.pc, r8)
        } else {
            self.pc
        }
    }

    /// HL := SP + d8. Carry and half-carry come from bits 15 and 11 of the
    /// sum; the other two flags are cleared.
    pub open spec fn after_load_hl(self, d8: u8) -> CPU {
        let sp = self.sp;
        CPU {
            regfile: self.regfile.with_hl(machine::wrap16(sp + d8)).with_flags(
                false,
                false,
                sp % 0x1000 + d8 > 0xFFF,
                sp + d8 > 0xFFFF,
            ),
            ..self
        }
    }

    /// HL := HL + a 16-bit operand. Half-carry comes from bit 11 and carry
    /// from bit 15 of the sum, subtract is cleared, zero is left alone.
    pub open spec fn after_add16(self, source: Word16) -> CPU {
        let val = self.word16(source);
        let hl = self.regfile.hl();
        CPU {
            regfile: self.regfile.with_hl(machine::wrap16(hl + val)).with_flags(
                self.regfile.zero(),
                false,
                val % 0x1000 + hl % 0x1000 > 0xFFF,
                hl + val > 0xFFFF,
            ),
            ..self
        }
    }

    /// SP := SP + d8. Carry comes from bit 15 of the sum, half-carry from
    /// bit 11 of the sum of the new stack pointer and the operand; the other
    /// two flags are cleared.
    pub open spec fn after_add_sp(self, d8: u8) -> CPU {
        let moved = machine::wrap16(self.sp + d8);
        CPU {
            sp: moved,
            regfile: self.regfile.with_flags(false, false, moved % 0x1000 + d8 > 0xFFF, self.sp + d8 > 0xFFFF),
            ..self
        }
    }

    /// A jump: relative to the program counter or to the absolute operand,
    /// taken when the condition holds.
    pub open spec fn after_jump(self, op: Opcode, cond: JumpCond, d8: u8, a16: u16) -> CPU {
        let should_jump = self.condition(cond);
        CPU {
            pc: match op {
                Opcode::JR => self.jump_relative_target(d8, should_jump),
                Opcode::JP => if should_jump {
                    a16
                } else {
                    self.pc
                },
                _ => 0,
            },
            ..self
        }
    }

    /// Increment or decrement of a 16-bit operand; no flag changes.
    pub open spec fn after_unary16(self, op: Opcode, target: Word16) -> CPU {
        match op {
            Opcode::INC => self.with_word16(target, machine::wrap16(self.word16(target) + 1)),
            Opcode::DEC => self.with_word16(target, machine::wrap16(self.word16(target) - 1)),
            _ => self,
        }
    }

    /// The interrupt switches. Enabling only schedules the master enable;
    /// disabling takes effect at once and cancels what was scheduled.
    pub open spec fn after_misc(self, op: Opcode) -> CPU {
        match op {
            Opcode::EI => CPU { scheduled_ime: true, ..self },
            Opcode::DI => CPU { ime: false, scheduled_ime: false, ..self },
            _ => self,
        }
    }

    /// This engine together with what a memory holds.
    pub open spec fn machine(&self, memory: MemoryView) -> Machine {
        Machine { cpu: *self, memory }
    }

    /// An engine at power-on: registers zeroed, the stack pointer at the top
    /// of memory and the master enable set.
    pub fn new() -> (r: CPU)
        ensures
            r == CPU::initial(),
            r.regfile.wf(),
    {
        let regfile: Regfile = Regfile::new();
        let pc: u16 = 0;
        let sp: u16 = 0xFFFE;
        let ime: bool = true;
        let scheduled_ime = false;
        CPU { regfile, pc, sp, ime, scheduled_ime }
    }

    /// The program counter.
    pub fn get_pc(&self) -> (r: u16)
        ensures
            r == self.pc,
    {
        self.pc
    }

    // helper functions for instructions
    /// Moves the program counter forward by `val`, wrapping.
    fn pc_add(&mut self, val: u16)
        ensures
            *final(self) == (CPU { pc: machine::wrap16(old(self).pc + val), ..*old(self) }),
    {
        let new_val = self.pc.wrapping_add(val);
        self.pc = new_val;
    }

    /// Moves the stack pointer up by one, wrapping.
    fn sp_inc(&mut self)
        ensures
            *final(self) == (CPU { sp: machine::wrap16(old(self).sp + 1), ..*old(self) }),
    {
        self.sp = self.sp.wrapping_add(1);
    }

    /// Moves the stack pointer down by one, wrapping.
    fn sp_dec(&mut self)
        ensures
            *final(self) == (CPU { sp: machine::wrap16(old(self).sp - 1), ..*old(self) }),
    {
        self.sp = self.sp.wrapping_sub(1);
    }

    /// The high and the low byte of `val`.
    fn split_u16(&self, val: u16) -> (r: (u8, u8))
        ensures
            r.0 == regfile::high_byte(val),
            r.1 == regfile::low_byte(val),
    {
        let most_significant_byte = split_high(val);
        let least_significant_byte = split_low(val);
        (most_significant_byte, least_significant_byte)
    }

    /// Whether a condition holds of the flags.
    fn should_jump(&self, cond: JumpCond) -> (r: bool)
        ensures
            r == self.condition(cond),
    {
        match cond {
            JumpCond::Zero => self.regfile.get_zero(),
            JumpCond::Carry => self.regfile.get_carry(),
            JumpCond::NotZero => !self.regfile.get_zero(),
            JumpCond::NotCarry => !self.regfile.get_carry(),
            JumpCond::Always => true,
        }
    }

    /// Pushes `val`: the high byte goes to SP-1, the low byte to SP-2.
    fn stack_push(&mut self, memory: &mut Memory, val: u16)
        ensures
            final(self).machine(final(memory)@) == old(self).machine(old(memory)@).push(val),
    {
        let (most_significant_byte, least_significant_byte) = self.split_u16(val);
        // write MSB first
        self.sp_dec();
        memory.write_byte(self.sp, most_significant_byte);
        self.sp_dec();
        memory.write_byte(self.sp, least_significant_byte);
    }

    /// Pops a 16-bit value: the low byte is at SP, the high byte at SP+1.
    fn stack_pop(&mut self, memory: &mut Memory) -> (r: u16)
        ensures
            final(self).machine(final(memory)@) == old(self).machine(old(memory)@).pop(),
            r == old(self).machine(old(memory)@).top(),
    {
        let least_significant_byte = memory.read_byte(self.sp);
        self.sp_inc();
        let most_significant_byte = memory.read_byte(self.sp);
        self.sp_inc();
        combine(most_significant_byte, least_significant_byte)
    }

    /// The program counter after a relative jump that is taken or not.
    fn jump_relative(&self, memory: &mut Memory, r8: u8, should_jump: bool) -> (r: u16)
        ensures
            r == self.jump_relative_target(r8, should_jump),
            final(memory)@ == old(memory)@,
    {
        if should_jump {
            // the offset byte is a two's-complement number
            if r8 < 0x80 {
                self.pc.wrapping_add(r8 as u16)
            } else {
                self.pc.wrapping_sub(0x100 - r8 as u16)
            }
        } else {
            self.pc
        }
    }

    /// Reads an 8-bit operand.
    fn read_word8(&self, memory: &Memory, target: Word8) -> (r: u8)
        ensures
            r == self.machine(memory@).read8(target),
    {
        match target {
            Word8::A => self.regfile.r_a,
            Word8::B => self.regfile.r_b,
            Word8::C => self.regfile.r_c,
            Word8::D => self.regfile.r_d,
            Word8::E => self.regfile.r_e,
            Word8::H => self.regfile.r_h,
            Word8::L => self.regfile.r_l,
            Word8::HL => memory.read_byte(self.regfile.get_hl()),
        }
    }

    /// Writes an 8-bit operand.
    fn write_word8(&mut self, memory: &mut Memory, target: Word8, val: u8)
        ensures
            final(self).machine(final(memory)@) == old(self).machine(old(memory)@).write8(target, val),
            final(self).regfile.r_f == old(self).regfile.r_f,
    {
        match target {
            Word8::A => self.regfile.r_a = val,
            Word8::B => self.regfile.r_b = val,
            Word8::C => self.regfile.r_c = val,
            Word8::D => self.regfile.r_d = val,
            Word8::E => self.regfile.r_e = val,
            Word8::H => self.regfile.r_h = val,
            Word8::L => self.regfile.r_l = val,
            Word8::HL => {
                let addr = self.regfile.get_hl();
                memory.write_byte(addr, val);
            },
        }
    }

    /// Rotates or shifts an 8-bit operand one bit to the left.
    fn rotate_left(&mut self, memory: &mut Memory, target: Word8, opcode: Opcode)
        ensures
            final(self).machine(final(memory)@) == old(self).machine(old(memory)@).rotate_left(target, opcode),
    {
        broadcast use Regfile::lemma_with_flags;

        let current_val = self.read_word8(memory, target);
        let old_carry = self.regfile.get_carry();
        self.regfile.set_carry((current_val & 0x80) > 0);
        let val = rl(opcode, current_val, old_carry);
        self.write_word8(memory, target, val);
        self.regfile.set_zero(val == 0);
        self.regfile.set_half_carry(false);
        self.regfile.set_sub(false);
        proof {
            assert((current_val & 0x80) > 0 <==> current_val >= 0x80) by (bit_vector);
            let expected = old(self).machine(old(memory)@).rotate_left(target, opcode);
            self.regfile.lemma_equal_by_flags(expected.cpu.regfile);
        }
    }

    /// Rotates or shifts an 8-bit operand one bit to the right.
    fn rotate_right(&mut self, memory: &mut Memory, target: Word8, opcode: Opcode)
        ensures
            final(self).machine(final(memory)@) == old(self).machine(old(memory)@).rotate_right(target, opcode),
    {
        broadcast use Regfile::lemma_with_flags;

        let current_val = self.read_word8(memory, target);
        let old_carry = self.regfile.get_carry();
        self.regfile.set_carry((current_val & 0x01) > 0);
        let val = rr(opcode, current_val, old_carry);
        self.write_word8(memory, target, val);
        self.regfile.set_zero(val == 0);
        self.regfile.set_half_carry(false);
        self.regfile.set_sub(false);
        proof {
            assert((current_val & 0x01) > 0 <==> current_val % 2 == 1) by (bit_vector);
            let expected = old(self).machine(old(memory)@).rotate_right(target, opcode);
            self.regfile.lemma_equal_by_flags(expected.cpu.regfile);
        }
    }

    /// Decimal adjustment of the accumulator.
    fn daa(&mut self)
        ensures
            *final(self) == (CPU { regfile: old(self).regfile.daa(), ..*old(self) }),
    {
        let subtract = self.regfile.get_sub();
        let carry = self.regfile.get_carry();
        let half_carry = self.regfile.get_half_carry();
        if !subtract && (carry || self.regfile.r_a > 0x99) {
            self.regfile.set_carry(true);
        }
        self.regfile.r_a = decimal_adjust(self.regfile.r_a, subtract, half_carry, carry);
        self.regfile.set_zero(self.regfile.r_a == 0);
        self.regfile.set_half_carry(false);
        proof {
            old(self).regfile.lemma_daa_flags();
            self.regfile.lemma_equal_by_flags(old(self).regfile.daa());
        }
    }

    /// Swaps the upper and the lower four bits of an 8-bit operand.
    fn swap_bits(&mut self, memory: &mut Memory, target: Word8)
        ensures
            final(self).machine(final(memory)@) == old(self).machine(old(memory)@).swap_bits(target),
    {
        broadcast use Regfile::lemma_with_flags;

        let val = swap_nibbles(self.read_word8(memory, target));
        self.write_word8(memory, target, val);
        self.regfile.set_zero(val == 0);
        self.regfile.set_sub(false);
        self.regfile.set_carry(false);
        self.regfile.set_half_carry(false);
        proof {
            let expected = old(self).machine(old(memory)@).swap_bits(target);
            self.regfile.lemma_equal_by_flags(expected.cpu.regfile);
        }
    }

    /// Copies the complement of the given bit of the operand to the zero flag.
    fn bit(&mut self, memory: &mut Memory, target: Word8, bit: u8)
        requires
            bit < 8,
        ensures
            final(self).machine(final(memory)@) == old(self).machine(old(memory)@).bit(target, bit),
    {
        broadcast use Regfile::lemma_with_flags;

        let mask = 0x1u8 << bit;
        let val = self.read_word8(memory, target);
        let selected = val & mask;
        self.regfile.set_zero(selected == 0);  // when bit is 1, flag gets set to 0
        self.regfile.set_sub(false);
        self.regfile.set_half_carry(true);
        proof {
            let expected = old(self).machine(old(memory)@).bit(target, bit);
            self.regfile.lemma_equal_by_flags(expected.cpu.regfile);
        }
    }

    /// Sets the given bit of the operand to `state`.
    fn set_bit(&mut self, memory: &mut Memory, target: Word8, bit: u8, state: bool)
        requires
            bit < 8,
        ensures
            final(self).machine(final(memory)@) == old(self).machine(old(memory)@).set_bit(target, bit, state),
    {
        let mask = 0x1u8 << bit;
        let val = self.read_word8(memory, target);
        let val = {
            if state {
                val | mask
            } else {
                val & !mask
            }
        };
        self.write_word8(memory, target, val);
    }

    /// A := A + val.
    fn add8(&mut self, val: u8)
        ensures
            *final(self) == (CPU { regfile: old(self).regfile.add8(val), ..*old(self) }),
    {
        broadcast use Regfile::lemma_with_flags;

        let overflow = self.regfile.r_a as u16 + val as u16 > 0xFF;
        let new_val = self.regfile.r_a.wrapping_add(val);
        self.regfile.half_add(self.regfile.r_a, val);
        self.regfile.set_zero(new_val == 0);
        self.regfile.set_sub(false);
        self.regfile.set_carry(overflow);
        self.regfile.r_a = new_val;
        proof {
            self.regfile.lemma_equal_by_flags(old(self).regfile.add8(val));
        }
    }

    /// A := A - val, or only the flags of that subtraction when `compare`.
    fn sub8(&mut self, val: u8, compare: bool)
        ensures
            *final(self) == (CPU { regfile: old(self).regfile.sub8(val, compare), ..*old(self) }),
    {
        broadcast use Regfile::lemma_with_flags;

        let overflow = self.regfile.r_a < val;
        let new_val = self.regfile.r_a.wrapping_sub(val);
        self.regfile.half_sub(self.regfile.r_a, val);
        self.regfile.set_zero(new_val == 0);
        self.regfile.set_sub(true);
        self.regfile.set_carry(overflow);
        if !compare {
            self.regfile.r_a = new_val;
        }
        proof {
            self.regfile.lemma_equal_by_flags(old(self).regfile.sub8(val, compare));
        }
    }

    /// A := A and val.
    fn and8(&mut self, val: u8)
        ensures
            *final(self) == (CPU { regfile: old(self).regfile.and8(val), ..*old(self) }),
    {
        broadcast use Regfile::lemma_with_flags;

        self.regfile.r_a = self.regfile.r_a & val;
        self.regfile.set_zero(self.regfile.r_a == 0);
        self.regfile.set_sub(false);
        self.regfile.set_half_carry(true);
        self.regfile.set_carry(false);
        proof {
            self.regfile.lemma_equal_by_flags(old(self).regfile.and8(val));
        }
    }

    /// A := A or val.
    fn or8(&mut self, val: u8)
        ensures
            *final(self) == (CPU { regfile: old(self).regfile.or8(val), ..*old(self) }),
    {
        broadcast use Regfile::lemma_with_flags;

        self.regfile.r_a = self.regfile.r_a | val;
        self.regfile.set_zero(self.regfile.r_a == 0);
        self.regfile.set_sub(false);
        self.regfile.set_half_carry(false);
        self.regfile.set_carry(false);
        proof {
            self.regfile.lemma_equal_by_flags(old(self).regfile.or8(val));
        }
    }

    /// A := A xor val.
    fn xor8(&mut self, val: u8)
        ensures
            *final(self) == (CPU { regfile: old(self).regfile.xor8(val), ..*old(self) }),
    {
        broadcast use Regfile::lemma_with_flags;

        self.regfile.r_a = self.regfile.r_a ^ val;
        self.regfile.set_zero(self.regfile.r_a == 0);
        self.regfile.set_sub(false);
        self.regfile.set_half_carry(false);
        self.regfile.set_carry(false);
        proof {
            self.regfile.lemma_equal_by_flags(old(self).regfile.xor8(val));
        }
    }

    /// Adds one to a 16-bit operand, wrapping.
    fn increment16(&mut self, target: Word16)
        ensures
            *final(self) == old(self).with_word16(target, machine::wrap16(old(self).word16(target) + 1)),
    {
        // no flags set
        match target {
            Word16::BC => {
                let val = self.regfile.get_bc();
                self.regfile.set_bc(val.wrapping_add(1));
            },
            Word16::DE => {
                let val = self.regfile.get_de();
                self.regfile.set_de(val.wrapping_add(1));
            },
            Word16::HL => {
                let val = self.regfile.get_hl();
                self.regfile.set_hl(val.wrapping_add(1));
            },
            Word16::SP => {
                let val = self.sp.wrapping_add(1);
                self.sp = val;
            },
        }
    }

    /// Takes one off a 16-bit operand, wrapping.
    fn decrement16(&mut self, target: Word16)
        ensures
            *final(self) == old(self).with_word16(target, machine::wrap16(old(self).word16(target) - 1)),
    {
        // no flags set
        match target {
            Word16::BC => {
                let val = self.regfile.get_bc();
                self.regfile.set_bc(val.wrapping_sub(1));
            },
            Word16::DE => {
                let val = self.regfile.get_de();
                self.regfile.set_de(val.wrapping_sub(1));
            },
            Word16::HL => {
                let val = self.regfile.get_hl();
                self.regfile.set_hl(val.wrapping_sub(1));
            },
            Word16::SP => {
                let val = self.sp.wrapping_sub(1);
                self.sp = val;
            },
        }
    }

    /// The 8-bit register or memory cell that an arithmetic operand names.
    fn operand_target(reg: ArithmeticArg) -> (r: Option<Word8>)
        ensures
            r == machine::operand_register(reg),
    {
        match reg {
            ArithmeticArg::A => Some(Word8::A),
            ArithmeticArg::B => Some(Word8::B),
            ArithmeticArg::C => Some(Word8::C),
            ArithmeticArg::D => Some(Word8::D),
            ArithmeticArg::E => Some(Word8::E),
            ArithmeticArg::H => Some(Word8::H),
            ArithmeticArg::L => Some(Word8::L),
            ArithmeticArg::HL => Some(Word8::HL),
            _ => None,
        }
    }

    /// Adds one to an 8-bit operand, wrapping.
    fn increment(&mut self, memory: &mut Memory, reg: ArithmeticArg)
        ensures
            final(self).machine(final(memory)@) == old(self).machine(old(memory)@).increment(reg),
    {
        broadcast use Regfile::lemma_with_flags;

        match CPU::operand_target(reg) {
            Some(target) => {
                let current_val = self.read_word8(memory, target);
                self.regfile.half_add(current_val, 1);
                let val = current_val.wrapping_add(1);
                self.write_word8(memory, target, val);
                self.regfile.set_zero(val == 0);
            },
            None => {},
        }
        self.regfile.set_sub(false);
        // carry flag left unchanged
        proof {
            let expected = old(self).machine(old(memory)@).increment(reg);
            self.regfile.lemma_equal_by_flags(expected.cpu.regfile);
        }
    }

    /// Takes one off an 8-bit operand, wrapping.
    fn decrement(&mut self, memory: &mut Memory, reg: ArithmeticArg)
        ensures
            final(self).machine(final(memory)@) == old(self).machine(old(memory)@).decrement(reg),
    {
        broadcast use Regfile::lemma_with_flags;

        match CPU::operand_target(reg) {
            Some(target) => {
                let current_val = self.read_word8(memory, target);
                self.regfile.half_sub(current_val, 1);
                let val = current_val.wrapping_sub(1);
                self.write_word8(memory, target, val);
                self.regfile.set_zero(val == 0);
            },
            None => {},
        }
        self.regfile.set_sub(true);
        // carry flag left unchanged
        proof {
            let expected = old(self).machine(old(memory)@).decrement(reg);
            self.regfile.lemma_equal_by_flags(expected.cpu.regfile);
        }
    }

    /// Clears the interrupt requests and serves the first pending source
    /// in priority order, if there is one.
    fn check_interrupts(&mut self, memory: &mut Memory)
        ensures
            final(self).machine(final(memory)@) == old(self).machine(old(memory)@).check_interrupts(),
    {
        let interrupts = memory.get_interrupts();
        memory.clear_interrupts();
        if interrupts.vblank {
            self.stack_push(memory, self.pc);
            self.pc = 0x0040;
        } else if interrupts.lcd {
            self.stack_push(memory, self.pc);
            self.pc = 0x0048;
        } else if interrupts.timer {
            self.stack_push(memory, self.pc);
            self.pc = 0x0050;
        } else if interrupts.serial {
            self.stack_push(memory, self.pc);
            self.pc = 0x0058;
        } else if interrupts.joypad {
            self.stack_push(memory, self.pc);
            self.pc = 0x0060;
        }
    }

    /// The byte at the program counter and the byte after it.
    fn fetch(&mut self, memory: &Memory) -> (r: (u8, u8))
        ensures
            *final(self) == *old(self),
            r.0 == old(self).machine(memory@).opcode_byte(),
            r.1 == old(self).machine(memory@).operand_byte(),
    {
        (memory.read_byte(self.pc), memory.read_byte(self.pc.wrapping_add(1)))
    }

    /// The 8-bit arithmetic and logic group.
    fn arithmetic(&mut self, memory: &mut Memory, op: Opcode, target: ArithmeticArg, d8: u8)
        ensures
            final(self).machine(final(memory)@) == old(self).machine(old(memory)@).arithmetic(op, target, d8),
    {
        broadcast use Regfile::lemma_with_flags;
        // get val to use for operation

        let val = {
            match target {
                ArithmeticArg::A => self.regfile.r_a,
                ArithmeticArg::B => self.regfile.r_b,
                ArithmeticArg::C => self.regfile.r_c,
                ArithmeticArg::D => self.regfile.r_d,
                ArithmeticArg::E => self.regfile.r_e,
                ArithmeticArg::H => self.regfile.r_h,
                ArithmeticArg::L => self.regfile.r_l,
                ArithmeticArg::HL => {
                    let addr = self.regfile.get_hl();
                    memory.read_byte(addr)
                },
                ArithmeticArg::D8 => d8,
                ArithmeticArg::Implied => 0,
            }
        };
        match op {
            Opcode::INC => { self.increment(memory, target) },
            Opcode::DEC => { self.decrement(memory, target) },
            Opcode::ADD => { self.add8(val) },
            Opcode::SUB => { self.sub8(val, false) },
            Opcode::ADC => {
                if self.regfile.get_carry() {
                    self.add8(1)
                }
                self.add8(val)
            },
            Opcode::SBC => {
                if self.regfile.get_carry() {
                    self.sub8(1, false)
                }
                self.sub8(val, false)
            },
            Opcode::AND => { self.and8(val) },
            Opcode::XOR => { self.xor8(val) },
            Opcode::OR => { self.or8(val) },
            Opcode::CP => { self.sub8(val, true) },
            Opcode::DAA => { self.daa() },
            Opcode::CPL => {
                self.regfile.r_a = self.regfile.r_a ^ 0xFF;
                self.regfile.set_sub(true);
                self.regfile.set_half_carry(true);
                proof {
                    self.regfile.lemma_equal_by_flags(old(self).regfile.cpl());
                }
            },
            Opcode::CCF => {
                self.regfile.toggle_carry();
                self.regfile.set_sub(false);
                self.regfile.set_half_carry(false);
                proof {
                    self.regfile.lemma_equal_by_flags(old(self).regfile.ccf());
                }
            },
            Opcode::SCF => {
                self.regfile.set_carry(true);
                self.regfile.set_sub(false);
                self.regfile.set_half_carry(false);
                proof {
                    self.regfile.lemma_equal_by_flags(old(self).regfile.scf());
                }
            },
            _ => {},
        }
    }

    /// The rotate, shift and swap group.
    fn rotate(&mut self, memory: &mut Memory, op: Opcode, target: Word8)
        ensures
            final(self).machine(final(memory)@) == old(self).machine(old(memory)@).rotate(op, target),
    {
        match op {
            Opcode::RLCA => {
                self.rotate_left(memory, Word8::A, Opcode::RLCA);
                self.regfile.set_zero(false);
            },
            Opcode::RLC => { self.rotate_left(memory, target, Opcode::RLC) },
            Opcode::RLA => {
                self.rotate_left(memory, target, op);
                self.regfile.set_zero(false);
            },
            Opcode::RL => { self.rotate_left(memory, target, op) },
            Opcode::SLA => { self.rotate_left(memory, target, op) },
            Opcode::RRCA => {
                self.rotate_right(memory, Word8::A, op);
                self.regfile.set_zero(false);
            },
            Opcode::RRC => { self.rotate_right(memory, target, op) },
            Opcode::RRA => {
                self.rotate_right(memory, target, op);
                self.regfile.set_zero(false);
            },
            Opcode::RR => { self.rotate_right(memory, target, op) },
            Opcode::SRA => { self.rotate_right(memory, target, op) },
            Opcode::SRL => { self.rotate_right(memory, target, op) },
            Opcode::SWAP => {
                self.swap_bits(memory, target);
            },
            _ => {},
        }
    }

    /// The byte that a load moves; HL moves by one after the access where
    /// the source says so.
    fn read_source(&mut self, memory: &Memory, source: LoadSource, d8: u8, a16: u16) -> (r: u8)
        ensures
            r == old(self).machine(memory@).source_value(source, d8, a16),
            final(self).machine(memory@) == old(self).machine(memory@).after_source(source),
    {
        match source {
            LoadSource::A => self.regfile.r_a,
            LoadSource::B => self.regfile.r_b,
            LoadSource::C => self.regfile.r_c,
            LoadSource::D => self.regfile.r_d,
            LoadSource::E => self.regfile.r_e,
            LoadSource::H => self.regfile.r_h,
            LoadSource::L => self.regfile.r_l,
            LoadSource::HL => {
                let addr = self.regfile.get_hl();
                memory.read_byte(addr)
            },
            LoadSource::HLI => {
                // increment HL after fetching
                let addr = self.regfile.get_hl();
                let val = memory.read_byte(addr);
                let new_hl = addr.wrapping_add(1);
                self.regfile.set_hl(new_hl);
                val
            },
            LoadSource::HLD => {
                // decrement HL after fetching
                let addr = self.regfile.get_hl();
                let val = memory.read_byte(addr);
                let new_hl = addr.wrapping_sub(1);
                self.regfile.set_hl(new_hl);
                val
            },
            LoadSource::BC => {
                let addr = self.regfile.get_bc();
                memory.read_byte(addr)
            },
            LoadSource::DE => {
                let addr = self.regfile.get_de();
                memory.read_byte(addr)
            },
            LoadSource::D8 => d8,
            LoadSource::A8 => {
                let addr = (d8 as u16) + HIGH_PAGE;
                memory.read_byte(addr)
            },
            LoadSource::A16 => { memory.read_byte(a16) },
            LoadSource::CA => {
                let addr = (self.regfile.r_c as u16) + HIGH_PAGE;
                memory.read_byte(addr)
            },
        }
    }

    /// Stores the byte that a load moves; HL moves by one after the access
    /// where the target says so.
    fn write_target(&mut self, memory: &mut Memory, target: LoadTarget, source_val: u8, d8: u8, a16: u16)
        ensures
            final(self).machine(final(memory)@) == old(self).machine(old(memory)@).store_target(
                target,
                source_val,
                d8,
                a16,
            ),
    {
        match target {
            LoadTarget::A => self.write_word8(memory, Word8::A, source_val),
            LoadTarget::B => self.write_word8(memory, Word8::B, source_val),
            LoadTarget::C => self.write_word8(memory, Word8::C, source_val),
            LoadTarget::D => self.write_word8(memory, Word8::D, source_val),
            LoadTarget::E => self.write_word8(memory, Word8::E, source_val),
            LoadTarget::H => self.write_word8(memory, Word8::H, source_val),
            LoadTarget::L => self.write_word8(memory, Word8::L, source_val),
            LoadTarget::HL => self.write_word8(memory, Word8::HL, source_val),
            LoadTarget::HLI => {
                let addr = self.regfile.get_hl();
                memory.write_byte(addr, source_val);
                let new_hl = addr.wrapping_add(1);
                self.regfile.set_hl(new_hl);
            },
            LoadTarget::HLD => {
                let addr = self.regfile.get_hl();
                memory.write_byte(addr, source_val);
                let new_hl = addr.wrapping_sub(1);
                self.regfile.set_hl(new_hl);
            },
            LoadTarget::BC => {
                let addr = self.regfile.get_bc();
                memory.write_byte(addr, source_val);
            },
            LoadTarget::DE => {
                let addr = self.regfile.get_de();
                memory.write_byte(addr, source_val);
            },
            LoadTarget::A8 => {
                let addr = (d8 as u16) + HIGH_PAGE;
                memory.write_byte(addr, source_val);
            },
            LoadTarget::CA => {
                let addr = (self.regfile.r_c as u16) + HIGH_PAGE;
                memory.write_byte(addr, source_val);
            },
            LoadTarget::A16 => {
                memory.write_byte(a16, source_val);
            },
        }
    }

    /// HL := SP + d8.
    fn load_hl(&mut self, d8: u8)
        ensures
            *final(self) == old(self).after_load_hl(d8),
    {
        broadcast use Regfile::lemma_with_flags;

        let carry = self.sp as u32 + d8 as u32 > 0xFFFF;
        let val = self.sp.wrapping_add(d8 as u16);
        self.regfile.set_hl(val);
        self.regfile.set_carry(carry);
        let sp = self.sp;
        assert((sp & 0xFFF) == sp % 0x1000 && ((d8 as u16) & 0xFFF) == d8) by (bit_vector);
        let half_carry = (self.sp & 0xFFF) + ((d8 as u16) & 0xFFF) > 0xFFF;
        self.regfile.set_half_carry(half_carry);
        self.regfile.set_zero(false);
        self.regfile.set_sub(false);
        proof {
            let expected = old(self).regfile.with_hl(val).with_flags(false, false, half_carry, carry);
            self.regfile.lemma_equal_by_flags(expected);
        }
    }

    /// HL := HL + a 16-bit operand.
    #[verifier::rlimit(30)]
    fn add16(&mut self, source: Word16)
        ensures
            *final(self) == old(self).after_add16(source),
    {
        broadcast use Regfile::lemma_with_flags;

        let val = match source {
            Word16::BC => self.regfile.get_bc(),
            Word16::DE => self.regfile.get_de(),
            Word16::HL => self.regfile.get_hl(),
            Word16::SP => self.sp,
        };
        let hl = self.regfile.get_hl();
        let carry = hl as u32 + val as u32 > 0xFFFF;
        let new_val = hl.wrapping_add(val);
        self.regfile.set_hl(new_val);
        assert((val & 0xFFF) == val % 0x1000 && (hl & 0xFFF) == hl % 0x1000) by (bit_vector);
        let half_carry = (val & 0xFFF) + (hl & 0xFFF) > 0xFFF;
        self.regfile.set_half_carry(half_carry);
        self.regfile.set_carry(carry);
        self.regfile.set_sub(false);
        proof {
            let expected = old(self).regfile.with_hl(new_val).with_flags(
                old(self).regfile.zero(),
                false,
                half_carry,
                carry,
            );
            self.regfile.lemma_equal_by_flags(expected);
        }
    }

    /// SP := SP + d8.
    fn add_sp(&mut self, d8: u8)
        ensures
            *final(self) == old(self).after_add_sp(d8),
    {
        broadcast use Regfile::lemma_with_flags;

        let carry = self.sp as u32 + d8 as u32 > 0xFFFF;
        let new_val = self.sp.wrapping_add(d8 as u16);
        self.sp = new_val;
        self.regfile.set_carry(carry);
        assert((new_val & 0xFFF) == new_val % 0x1000 && ((d8 as u16) & 0xFFF) == d8) by (bit_vector);
        let half_carry = (self.sp & 0xFFF) + ((d8 as u16) & 0xFFF) > 0xFFF;
        self.regfile.set_half_carry(half_carry);
        self.regfile.set_zero(false);
        self.regfile.set_sub(false);
        proof {
            let expected = old(self).regfile.with_flags(false, false, half_carry, carry);
            self.regfile.lemma_equal_by_flags(expected);
        }
    }

    /// The single-bit group.
    fn bit_operation(&mut self, memory: &mut Memory, op: Opcode, target: Word8, bit: u8)
        requires
            bit < 8,
        ensures
            final(self).machine(final(memory)@) == old(self).machine(old(memory)@).bit_operation(op, target, bit),
    {
        match op {
            Opcode::BIT => self.bit(memory, target, bit),
            Opcode::RES => self.set_bit(memory, target, bit, false),
            Opcode::SET => self.set_bit(memory, target, bit, true),
            _ => {},
        }
    }

    /// The 8-bit load group.
    fn load(&mut self, memory: &mut Memory, target: LoadTarget, source: LoadSource, d8: u8, a16: u16)
        ensures
            final(self).machine(final(memory)@) == old(self).machine(old(memory)@).load(target, source, d8, a16),
    {
        let source_val = self.read_source(memory, source, d8, a16);
        self.write_target(memory, target, source_val, d8, a16);
    }

    /// Loads a 16-bit operand with the immediate word.
    fn load16(&mut self, target: Word16, a16: u16)
        ensures
            *final(self) == old(self).with_word16(target, a16),
    {
        match target {
            Word16::BC => self.regfile.set_bc(a16),
            Word16::DE => self.regfile.set_de(a16),
            Word16::HL => self.regfile.set_hl(a16),
            Word16::SP => self.sp = a16,
        }
    }

    /// Stores the stack pointer at `a16`, low byte first.
    fn load_memory16(&mut self, memory: &mut Memory, a16: u16)
        ensures
            final(self).machine(final(memory)@) == old(self).machine(old(memory)@).load_memory16(a16),
    {
        let (msb, lsb) = self.split_u16(self.sp);
        memory.write_byte(a16, lsb);
        memory.write_byte(a16.wrapping_add(1), msb);
    }

    /// Pushes a register pair.
    fn push(&mut self, memory: &mut Memory, target: RegisterPair)
        ensures
            final(self).machine(final(memory)@) == old(self).machine(old(memory)@).push(
                old(self).machine(old(memory)@).read_pair(target),
            ),
    {
        match target {
            RegisterPair::BC => self.stack_push(memory, self.regfile.get_bc()),
            RegisterPair::DE => self.stack_push(memory, self.regfile.get_de()),
            RegisterPair::HL => self.stack_push(memory, self.regfile.get_hl()),
            RegisterPair::AF => self.stack_push(memory, self.regfile.get_af()),
        }
    }

    /// Pops into a register pair.
    fn pop(&mut self, memory: &mut Memory, target: RegisterPair)
        ensures
            final(self).machine(final(memory)@) == old(self).machine(old(memory)@).pop().write_pair(
                target,
                old(self).machine(old(memory)@).top(),
            ),
    {
        let val = self.stack_pop(memory);
        match target {
            RegisterPair::BC => self.regfile.set_bc(val),
            RegisterPair::DE => self.regfile.set_de(val),
            RegisterPair::HL => self.regfile.set_hl(val),
            RegisterPair::AF => self.regfile.set_af(val),
        }
    }

    /// A relative or an absolute jump.
    fn jump(&mut self, memory: &mut Memory, op: Opcode, cond: JumpCond, d8: u8, a16: u16)
        ensures
            *final(self) == old(self).after_jump(op, cond, d8, a16),
            final(memory)@ == old(memory)@,
    {
        let should_jump = self.should_jump(cond);
        self.pc =
        {
            match op {
                Opcode::JR => self.jump_relative(memory, d8, should_jump),
                Opcode::JP => {
                    if should_jump {
                        a16
                    } else {
                        self.pc
                    }
                },
                _ => 0,
            }
        };
    }

    /// A call.
    fn call(&mut self, memory: &mut Memory, cond: JumpCond, a16: u16)
        ensures
            final(self).machine(final(memory)@) == old(self).machine(old(memory)@).call(cond, a16),
    {
        if self.should_jump(cond) {
            self.stack_push(memory, self.pc);
            self.pc = a16;
        }
    }

    /// A return.
    fn ret(&mut self, memory: &mut Memory, op: Opcode, cond: JumpCond)
        ensures
            final(self).machine(final(memory)@) == old(self).machine(old(memory)@).ret(op, cond),
    {
        if self.should_jump(cond) {
            self.pc = self.stack_pop(memory);
        }
        if op == Opcode::RETI {
            self.scheduled_ime = true
        }
    }

    /// Increment or decrement of a 16-bit operand.
    fn unary16(&mut self, op: Opcode, target: Word16)
        ensures
            *final(self) == old(self).after_unary16(op, target),
    {
        match op {
            Opcode::INC => { self.increment16(target) },
            Opcode::DEC => { self.decrement16(target) },
            _ => {},
        }
    }

    /// The interrupt switches and the instructions without an operand.
    fn misc(&mut self, op: Opcode)
        ensures
            *final(self) == old(self).after_misc(op),
    {
        match op {
            Opcode::EI => { self.scheduled_ime = true },
            Opcode::DI => {
                self.ime = false;
                self.scheduled_ime = false;
            },
            Opcode::HALT => {},
            Opcode::STOP => {},
            _ => {},
        }
    }

    /// Does what an instruction says, once its operands are read and the
    /// program counter is past it.
    fn perform(&mut self, instruction: Instruction, memory: &mut Memory, d8: u8, a16: u16)
        requires
            instruction.well_formed(),
        ensures
            final(self).machine(final(memory)@) == old(self).machine(old(memory)@).perform(instruction, d8, a16),
    {
        match instruction.instr_type {
            InstructionType::Arithmetic(target) => {
                self.arithmetic(memory, instruction.op, target, d8);
            },
            InstructionType::Rotate(target) => {
                self.rotate(memory, instruction.op, target);
            },
            InstructionType::Bit(target, bit) => {
                self.bit_operation(memory, instruction.op, target, bit);
            },
            InstructionType::Load(target, source) => {
                self.load(memory, target, source, d8, a16);
            },
            InstructionType::Load16(target) => {
                self.load16(target, a16);
            },
            InstructionType::LoadMemory16 => {
                self.load_memory16(memory, a16);
            },
            InstructionType::LoadHL => {
                self.load_hl(d8);
            },
            InstructionType::Add16(source) => {
                self.add16(source);
            },
            InstructionType::AddSP => {
                self.add_sp(d8);
            },
            InstructionType::LoadSP => { self.sp = self.regfile.get_hl() },
            InstructionType::Push(target) => {
                self.push(memory, target);
            },
            InstructionType::Pop(target) => {
                self.pop(memory, target);
            },
            InstructionType::Jump(cond) => {
                self.jump(memory, instruction.op, cond, d8, a16);
            },
            InstructionType::JumpHL => {
                self.pc = self.regfile.get_hl();
            },
            InstructionType::RST(addr) => {
                self.pc = addr as u16;
            },
            InstructionType::Call(cond) => {
                self.call(memory, cond, a16);
            },
            InstructionType::Return(cond) => {
                self.ret(memory, instruction.op, cond);
            },
            InstructionType::Unary16(target) => {
                self.unary16(instruction.op, target);
            },
            InstructionType::Misc => {
                self.misc(instruction.op);
            },
            InstructionType::Unsupported => {},
            InstructionType::Arithmetic16(_) => {},
        }
    }

    /// Executes one decoded instruction. The result is the opcode byte at
    /// the program counter; a descriptor that cannot be executed is a fatal
    /// error and leaves engine and memory as they are.
    pub fn execute(&mut self, instruction: Instruction, memory: &mut Memory) -> (r: Result<u8, &'static str>)
        requires
            instruction.well_formed(),
        ensures
            final(self).machine(final(memory)@) == old(self).machine(old(memory)@).execute(instruction),
            reports(r, Machine::outcome(instruction, old(self).machine(old(memory)@).opcode_byte())),
            r is Err <==> Machine::fails(instruction),
            old(self).machine(old(memory)@).wf() ==> final(self).machine(final(memory)@).wf(),
    {
        match instruction.instr_type {
            InstructionType::Unsupported => {
                return Err(UNSUPPORTED_MESSAGE);
            },
            InstructionType::Arithmetic16(_) => {
                return Err(UNIMPLEMENTED_MESSAGE);
            },
            _ => {},
        }
        let a16 = memory.read_next_word(self.pc);
        let d8 = memory.read_byte(self.pc.wrapping_add(1));
        let instr_byte = memory.read_byte(self.pc);
        self.pc_add(instruction.instr_len);
        self.perform(instruction, memory, d8, a16);
        proof {
            if old(self).machine(old(memory)@).wf() {
                old(self).machine(old(memory)@).lemma_execute_keeps_wf(instruction);
            }
        }
        Ok(instr_byte)
    }

    /// Executes exactly one instruction, with the interrupt dispatch that
    /// it may trigger. The result is the opcode byte that was executed, or
    /// the fatal error of a byte that cannot be executed; a step that fails
    /// changes nothing.
    pub fn run(&mut self, memory: &mut Memory) -> (r: Result<u8, &'static str>)
        ensures
            final(self).machine(final(memory)@) == old(self).machine(old(memory)@).step(),
            reports(r, old(self).machine(old(memory)@).step_outcome()),
            r is Err <==> Machine::fails(old(self).machine(old(memory)@).fetched()),
            old(self).machine(old(memory)@).wf() ==> final(self).machine(final(memory)@).wf(),
    {
        proof {
            if old(self).machine(old(memory)@).wf() {
                old(self).machine(old(memory)@).lemma_step_keeps_wf();
            }
        }
        let (opcode_byte, next_byte) = self.fetch(memory);
        // decode
        let instruction = Instruction::from_byte(opcode_byte, next_byte);
        // ime set if scheduled by previous instruction and not reset by latest instruction
        let ime_flag = self.scheduled_ime;
        let result = match self.execute(instruction, memory) {
            Ok(byte) => byte,
            Err(message) => {
                return Err(message);
            },
        };
        // pass instruction cycle count to memory, to update attached components by corresponding timesteps
        memory.update_cycle(instruction.cycle_len);
        if ime_flag && self.scheduled_ime {
            self.ime = true
        }
        // interrupts checked after every instruction

        if self.ime {
            self.scheduled_ime = false;
            self.check_interrupts(memory);
        }
        Ok(result)
    }
}

} // verus!
