//! The meaning of one step of the machine, as a function from one state to
//! the next.
//!
//! A `Machine` is the engine's state together with what the memory holds.
//! Each operation of the instruction set is a function on it; `step` puts
//! them together into fetch, decode, execute, timing and interrupt dispatch.

use vstd::prelude::*;
use crate::system::cpu::alu::bit_mask;
use crate::system::cpu::alu::bottom_bit;
use crate::system::cpu::alu::rotated_left;
use crate::system::cpu::alu::rotated_right;
use crate::system::cpu::alu::swapped;
use crate::system::cpu::alu::top_bit;
use crate::system::cpu::CPU;
use crate::system::cpu::instruction::ArithmeticArg;
use crate::system::cpu::instruction::Instruction;
use crate::system::cpu::instruction::InstructionType;
use crate::system::cpu::instruction::JumpCond;
use crate::system::cpu::instruction::LoadSource;
use crate::system::cpu::instruction::LoadTarget;
use crate::system::cpu::instruction::Opcode;
use crate::system::cpu::instruction::RegisterPair;
use crate::system::cpu::instruction::Word16;
use crate::system::cpu::instruction::Word8;
use crate::system::cpu::regfile::half_carry_add;
use crate::system::cpu::regfile::half_carry_sub;
use crate::system::cpu::regfile::high_byte;
use crate::system::cpu::regfile::low_byte;
use crate::system::cpu::regfile::pair;
use crate::system::cpu::regfile::Regfile;
use crate::system::memory::Interrupts;
use crate::system::memory::MemoryView;

verus! {

/// Where high memory starts: the page that the short loads address.
pub const HIGH_PAGE: u16 = 0xFF00;

/// What a step reports of a byte that has no instruction assigned.
pub const UNSUPPORTED_MESSAGE: &'static str = "Unsupported instruction";

/// What a step reports of an instruction whose operation has no body.
pub const UNIMPLEMENTED_MESSAGE: &'static str = "Unimplemented instruction";

/// Whether a reported result is the expected one: the same byte, or an
/// error with the same text.
pub open spec fn reports(result: Result<u8, &'static str>, expected: Result<u8, Seq<char>>) -> bool {
    match result {
        Ok(byte) => expected == Ok::<u8, Seq<char>>(byte),
        Err(message) => expected == Err::<u8, Seq<char>>(message@),
    }
}

/// The handler address of the interrupt source that is served first:
/// vertical blank, then display status, timer, serial and joypad.
pub open spec fn interrupt_vector(pending: Interrupts) -> Option<u16> {
    if pending.vblank {
        Some(0x0040u16)
    } else if pending.lcd {
        Some(0x0048u16)
    } else if pending.timer {
        Some(0x0050u16)
    } else if pending.serial {
        Some(0x0058u16)
    } else if pending.joypad {
        Some(0x0060u16)
    } else {
        None
    }
}

/// The 16-bit value that `val` wraps to.
pub open spec fn wrap16(val: int) -> u16 {
    (val % 0x10000) as u16
}

/// The 8-bit value that `val` wraps to.
pub open spec fn wrap8(val: int) -> u8 {
    (val % 0x100) as u8
}

/// The 8-bit register that an arithmetic operand names, if it names one.
pub open spec fn operand_register(arg: ArithmeticArg) -> Option<Word8> {
    match arg {
        ArithmeticArg::A => Some(Word8::A),
        ArithmeticArg::B => Some(Word8::B),
        ArithmeticArg::C => Some(Word8::C),
        ArithmeticArg::D => Some(Word8::D),
        ArithmeticArg::E => Some(Word8::E),
        ArithmeticArg::H => Some(Word8::H),
        ArithmeticArg::L => Some(Word8::L),
        ArithmeticArg::HL => Some(Word8::HL),
        ArithmeticArg::D8 => None,
        ArithmeticArg::Implied => None,
    }
}

/// The state of the engine and of the memory it drives.
pub struct Machine {
    pub cpu: CPU,
    pub memory: MemoryView,
}

impl Machine {
    /// The low nibble of `F` is zero, the memory has one cell per address
    /// and the timer's threshold is the one that its control register
    /// selects.
    pub open spec fn wf(&self) -> bool {
        &&& self.cpu.regfile.wf()
        &&& self.memory.wf()
        &&& self.memory.timer.wf()
    }

    // ----- access to the parts -----
    pub open spec fn with_cpu(self, cpu: CPU) -> Machine {
        Machine { cpu, ..self }
    }

    pub open spec fn with_regfile(self, regfile: Regfile) -> Machine {
        Machine { cpu: CPU { regfile, ..self.cpu }, ..self }
    }

    pub open spec fn with_pc(self, pc: u16) -> Machine {
        Machine { cpu: CPU { pc, ..self.cpu }, ..self }
    }

    pub open spec fn with_sp(self, sp: u16) -> Machine {
        Machine { cpu: CPU { sp, ..self.cpu }, ..self }
    }

    pub open spec fn with_memory(self, memory: MemoryView) -> Machine {
        Machine { memory, ..self }
    }

    /// The machine with all four flags replaced.
    pub open spec fn with_flags(self, zero: bool, subtract: bool, half_carry: bool, carry: bool) -> Machine {
        self.with_regfile(self.cpu.regfile.with_flags(zero, subtract, half_carry, carry))
    }

    /// The machine with the zero flag cleared.
    pub open spec fn clear_zero(self) -> Machine {
        self.with_regfile(self.cpu.regfile.with_zero(false))
    }

    /// The machine after a write of `byte` to the memory cell at `addr`.
    pub open spec fn store(self, addr: u16, byte: u8) -> Machine {
        self.with_memory(self.memory.write(addr, byte))
    }

    /// The value of an 8-bit operand: a register, or the memory cell that
    /// HL addresses.
    pub open spec fn read8(&self, target: Word8) -> u8 {
        match target {
            Word8::A => self.cpu.regfile.r_a,
            Word8::B => self.cpu.regfile.r_b,
            Word8::C => self.cpu.regfile.r_c,
            Word8::D => self.cpu.regfile.r_d,
            Word8::E => self.cpu.regfile.r_e,
            Word8::H => self.cpu.regfile.r_h,
            Word8::L => self.cpu.regfile.r_l,
            Word8::HL => self.memory.read(self.cpu.regfile.hl()),
        }
    }

    /// The machine after a write of `val` to an 8-bit operand.
    pub open spec fn write8(self, target: Word8, val: u8) -> Machine {
        let regfile = self.cpu.regfile;
        match target {
            Word8::A => self.with_regfile(Regfile { r_a: val, ..regfile }),
            Word8::B => self.with_regfile(Regfile { r_b: val, ..regfile }),
            Word8::C => self.with_regfile(Regfile { r_c: val, ..regfile }),
            Word8::D => self.with_regfile(Regfile { r_d: val, ..regfile }),
            Word8::E => self.with_regfile(Regfile { r_e: val, ..regfile }),
            Word8::H => self.with_regfile(Regfile { r_h: val, ..regfile }),
            Word8::L => self.with_regfile(Regfile { r_l: val, ..regfile }),
            Word8::HL => self.store(regfile.hl(), val),
        }
    }

    /// The machine after a write of `val` to a 16-bit operand.
    pub open spec fn write16(self, target: Word16, val: u16) -> Machine {
        Machine { cpu: self.cpu.with_word16(target, val), ..self }
    }

    /// The value of a register pair that the stack instructions move.
    pub open spec fn read_pair(&self, target: RegisterPair) -> u16 {
        match target {
            RegisterPair::BC => self.cpu.regfile.bc(),
            RegisterPair::DE => self.cpu.regfile.de(),
            RegisterPair::HL => self.cpu.regfile.hl(),
            RegisterPair::AF => self.cpu.regfile.af(),
        }
    }

    /// The machine after a write of `val` to such a pair.
    pub open spec fn write_pair(self, target: RegisterPair, val: u16) -> Machine {
        match target {
            RegisterPair::BC => self.with_regfile(self.cpu.regfile.with_bc(val)),
            RegisterPair::DE => self.with_regfile(self.cpu.regfile.with_de(val)),
            RegisterPair::HL => self.with_regfile(self.cpu.regfile.with_hl(val)),
            RegisterPair::AF => self.with_regfile(self.cpu.regfile.with_af(val)),
        }
    }

    // ----- fetch -----
    /// The byte at the program counter.
    pub open spec fn opcode_byte(&self) -> u8 {
        self.memory.read(self.cpu.pc)
    }

    /// The byte after the one at the program counter: the immediate operand
    /// of a two-byte instruction, or the second byte of an extended opcode.
    pub open spec fn operand_byte(&self) -> u8 {
        self.memory.read(MemoryView::offset(self.cpu.pc, 1))
    }

    /// The 16-bit operand in the two cells after the program counter.
    pub open spec fn operand_word(&self) -> u16 {
        self.memory.next_word(self.cpu.pc)
    }

    /// The descriptor of the instruction at the program counter.
    pub open spec fn fetched(&self) -> Instruction {
        Instruction::decode(self.opcode_byte(), self.operand_byte())
    }

    // ----- stack and jumps -----
    /// Whether a condition holds of the flags.
    pub open spec fn condition(&self, cond: JumpCond) -> bool {
        self.cpu.condition(cond)
    }

    /// The machine after `val` is pushed: the high byte goes to SP-1, the
    /// low byte to SP-2, and SP ends two below where it was.
    pub open spec fn push(self, val: u16) -> Machine {
        let first = wrap16(self.cpu.sp - 1);
        let second = wrap16(self.cpu.sp - 2);
        self.store(first, high_byte(val)).store(second, low_byte(val)).with_sp(second)
    }

    /// The value that a pop gives: the low byte is at SP, the high byte at
    /// SP+1.
    pub open spec fn top(&self) -> u16 {
        pair(self.memory.read(wrap16(self.cpu.sp + 1)), self.memory.read(self.cpu.sp))
    }

    /// The machine after a pop: SP ends two above where it was.
    pub open spec fn pop(self) -> Machine {
        self.with_sp(wrap16(self.cpu.sp + 2))
    }

    // ----- 8-bit operations on an operand -----
    /// One bit to the left on an 8-bit operand. Carry takes the bit moved
    /// out, zero follows the result, the other two flags are cleared.
    pub open spec fn rotate_left(self, target: Word8, opcode: Opcode) -> Machine {
        let val = self.read8(target);
        let result = rotated_left(opcode, val, self.cpu.regfile.carry());
        self.write8(target, result).with_flags(result == 0, false, false, top_bit(val))
    }

    /// One bit to the right on an 8-bit operand, with the same flags.
    pub open spec fn rotate_right(self, target: Word8, opcode: Opcode) -> Machine {
        let val = self.read8(target);
        let result = rotated_right(opcode, val, self.cpu.regfile.carry());
        self.write8(target, result).with_flags(result == 0, false, false, bottom_bit(val))
    }

    /// Exchange of the nibbles of an 8-bit operand. Zero follows the result,
    /// the other flags are cleared.
    pub open spec fn swap_bits(self, target: Word8) -> Machine {
        let result = swapped(self.read8(target));
        self.write8(target, result).with_flags(result == 0, false, false, false)
    }

    /// Test of one bit of an 8-bit operand: zero takes the complement of
    /// the bit, subtract is cleared, half-carry set, carry left alone.
    pub open spec fn bit(self, target: Word8, bit: u8) -> Machine {
        self.with_flags(self.read8(target) & bit_mask(bit) == 0, false, true, self.cpu.regfile.carry())
    }

    /// One bit of an 8-bit operand set or cleared; no flag changes.
    pub open spec fn set_bit(self, target: Word8, bit: u8, state: bool) -> Machine {
        let val = self.read8(target);
        self.write8(
            target,
            if state {
                val | bit_mask(bit)
            } else {
                val & !bit_mask(bit)
            },
        )
    }

    /// Increment of an 8-bit operand. Half-carry comes from the value before
    /// and 1, zero follows the result, subtract is cleared, carry is left
    /// alone. An operand that names no register changes only the subtract
    /// flag.
    pub open spec fn increment(self, reg: ArithmeticArg) -> Machine {
        let flags = self.cpu.regfile;
        match operand_register(reg) {
            Some(target) => {
                let val = self.read8(target);
                let result = wrap8(val + 1);
                self.write8(target, result).with_flags(result == 0, false, half_carry_add(val, 1), flags.carry())
            },
            None => self.with_flags(flags.zero(), false, flags.half_carry(), flags.carry()),
        }
    }

    /// Decrement of an 8-bit operand, with subtract set.
    pub open spec fn decrement(self, reg: ArithmeticArg) -> Machine {
        let flags = self.cpu.regfile;
        match operand_register(reg) {
            Some(target) => {
                let val = self.read8(target);
                let result = wrap8(val - 1);
                self.write8(target, result).with_flags(result == 0, true, half_carry_sub(val, 1), flags.carry())
            },
            None => self.with_flags(flags.zero(), true, flags.half_carry(), flags.carry()),
        }
    }

    /// The value that an accumulator operation takes for its operand.
    pub open spec fn operand(&self, arg: ArithmeticArg, d8: u8) -> u8 {
        match operand_register(arg) {
            Some(target) => self.read8(target),
            None => if arg == ArithmeticArg::D8 {
                d8
            } else {
                0
            },
        }
    }

    // ----- the instruction groups -----
    /// The 8-bit arithmetic and logic group.
    pub open spec fn arithmetic(self, op: Opcode, arg: ArithmeticArg, d8: u8) -> Machine {
        let val = self.operand(arg, d8);
        let regfile = self.cpu.regfile;
        match op {
            Opcode::INC => self.increment(arg),
            Opcode::DEC => self.decrement(arg),
            Opcode::ADD => self.with_regfile(regfile.add8(val)),
            Opcode::SUB => self.with_regfile(regfile.sub8(val, false)),
            Opcode::ADC => self.with_regfile(regfile.adc(val)),
            Opcode::SBC => self.with_regfile(regfile.sbc(val)),
            Opcode::AND => self.with_regfile(regfile.and8(val)),
            Opcode::XOR => self.with_regfile(regfile.xor8(val)),
            Opcode::OR => self.with_regfile(regfile.or8(val)),
            Opcode::CP => self.with_regfile(regfile.sub8(val, true)),
            Opcode::DAA => self.with_regfile(regfile.daa()),
            Opcode::CPL => self.with_regfile(regfile.cpl()),
            Opcode::CCF => self.with_regfile(regfile.ccf()),
            Opcode::SCF => self.with_regfile(regfile.scf()),
            _ => self,
        }
    }

    /// The rotate, shift and swap group. The four one-byte forms work on
    /// the accumulator and always clear the zero flag.
    pub open spec fn rotate(self, op: Opcode, target: Word8) -> Machine {
        match op {
            Opcode::RLCA => self.rotate_left(Word8::A, op).clear_zero(),
            Opcode::RLA => self.rotate_left(target, op).clear_zero(),
            Opcode::RLC => self.rotate_left(target, op),
            Opcode::RL => self.rotate_left(target, op),
            Opcode::SLA => self.rotate_left(target, op),
            Opcode::RRCA => self.rotate_right(Word8::A, op).clear_zero(),
            Opcode::RRA => self.rotate_right(target, op).clear_zero(),
            Opcode::RRC => self.rotate_right(target, op),
            Opcode::RR => self.rotate_right(target, op),
            Opcode::SRA => self.rotate_right(target, op),
            Opcode::SRL => self.rotate_right(target, op),
            Opcode::SWAP => self.swap_bits(target),
            _ => self,
        }
    }

    /// The single-bit group.
    pub open spec fn bit_operation(self, op: Opcode, target: Word8, bit: u8) -> Machine {
        match op {
            Opcode::BIT => self.bit(target, bit),
            Opcode::RES => self.set_bit(target, bit, false),
            Opcode::SET => self.set_bit(target, bit, true),
            _ => self,
        }
    }

    /// The byte that a load takes from its source: a register, an immediate
    /// byte, or the memory cell that a register pair, the high page or the
    /// absolute operand addresses.
    pub open spec fn source_value(&self, source: LoadSource, d8: u8, a16: u16) -> u8 {
        let regfile = self.cpu.regfile;
        match source {
            LoadSource::A => regfile.r_a,
            LoadSource::B => regfile.r_b,
            LoadSource::C => regfile.r_c,
            LoadSource::D => regfile.r_d,
            LoadSource::E => regfile.r_e,
            LoadSource::H => regfile.r_h,
            LoadSource::L => regfile.r_l,
            LoadSource::HL => self.memory.read(regfile.hl()),
            LoadSource::HLI => self.memory.read(regfile.hl()),
            LoadSource::HLD => self.memory.read(regfile.hl()),
            LoadSource::BC => self.memory.read(regfile.bc()),
            LoadSource::DE => self.memory.read(regfile.de()),
            LoadSource::D8 => d8,
            LoadSource::A8 => self.memory.read((HIGH_PAGE + d8) as u16),
            LoadSource::A16 => self.memory.read(a16),
            LoadSource::CA => self.memory.read((HIGH_PAGE + regfile.r_c) as u16),
        }
    }

    /// The machine after a load has read its source: HL moves by one after
    /// the access where the source says so.
    pub open spec fn after_source(self, source: LoadSource) -> Machine {
        let regfile = self.cpu.regfile;
        match source {
            LoadSource::HLI => self.with_regfile(regfile.with_hl(wrap16(regfile.hl() + 1))),
            LoadSource::HLD => self.with_regfile(regfile.with_hl(wrap16(regfile.hl() - 1))),
            _ => self,
        }
    }

    /// The machine after a load has written `val` to its target: HL moves by
    /// one after the access where the target says so.
    pub open spec fn store_target(self, target: LoadTarget, val: u8, d8: u8, a16: u16) -> Machine {
        let regfile = self.cpu.regfile;
        match target {
            LoadTarget::A => self.write8(Word8::A, val),
            LoadTarget::B => self.write8(Word8::B, val),
            LoadTarget::C => self.write8(Word8::C, val),
            LoadTarget::D => self.write8(Word8::D, val),
            LoadTarget::E => self.write8(Word8::E, val),
            LoadTarget::H => self.write8(Word8::H, val),
            LoadTarget::L => self.write8(Word8::L, val),
            LoadTarget::HL => self.store(regfile.hl(), val),
            LoadTarget::HLI => self.store(regfile.hl(), val).with_regfile(regfile.with_hl(wrap16(regfile.hl() + 1))),
            LoadTarget::HLD => self.store(regfile.hl(), val).with_regfile(regfile.with_hl(wrap16(regfile.hl() - 1))),
            LoadTarget::BC => self.store(regfile.bc(), val),
            LoadTarget::DE => self.store(regfile.de(), val),
            LoadTarget::A8 => self.store((HIGH_PAGE + d8) as u16, val),
            LoadTarget::CA => self.store((HIGH_PAGE + regfile.r_c) as u16, val),
            LoadTarget::A16 => self.store(a16, val),
        }
    }

    /// The 8-bit load group.
    pub open spec fn load(self, target: LoadTarget, source: LoadSource, d8: u8, a16: u16) -> Machine {
        self.after_source(source).store_target(target, self.source_value(source, d8, a16), d8, a16)
    }

    /// The stack pointer stored at `a16`, low byte first.
    pub open spec fn load_memory16(self, a16: u16) -> Machine {
        self.store(a16, low_byte(self.cpu.sp)).store(wrap16(a16 + 1), high_byte(self.cpu.sp))
    }

    /// HL := SP + d8, with the flags of that sum.
    pub open spec fn load_hl(self, d8: u8) -> Machine {
        self.with_cpu(self.cpu.after_load_hl(d8))
    }

    /// HL := HL + a 16-bit operand, with the flags of that sum.
    pub open spec fn add16(self, source: Word16) -> Machine {
        self.with_cpu(self.cpu.after_add16(source))
    }

    /// SP := SP + d8, with the flags of that sum.
    pub open spec fn add_sp(self, d8: u8) -> Machine {
        self.with_cpu(self.cpu.after_add_sp(d8))
    }

    /// A jump, relative or absolute, taken when the condition holds.
    pub open spec fn jump(self, op: Opcode, cond: JumpCond, d8: u8, a16: u16) -> Machine {
        self.with_cpu(self.cpu.after_jump(op, cond, d8, a16))
    }

    /// A call: when the condition holds, the program counter, which is
    /// already past the instruction, is pushed and replaced.
    pub open spec fn call(self, cond: JumpCond, a16: u16) -> Machine {
        if self.condition(cond) {
            self.push(self.cpu.pc).with_pc(a16)
        } else {
            self
        }
    }

    /// A return: when the condition holds the program counter is popped.
    /// The return from an interrupt handler also schedules the master
    /// enable.
    pub open spec fn ret(self, op: Opcode, cond: JumpCond) -> Machine {
        let returned = if self.condition(cond) {
            self.pop().with_pc(self.top())
        } else {
            self
        };
        if op == Opcode::RETI {
            Machine { cpu: CPU { scheduled_ime: true, ..returned.cpu }, ..returned }
        } else {
            returned
        }
    }

    /// Increment or decrement of a 16-bit operand; no flag changes.
    pub open spec fn unary16(self, op: Opcode, target: Word16) -> Machine {
        self.with_cpu(self.cpu.after_unary16(op, target))
    }

    /// The interrupt switches.
    pub open spec fn misc(self, op: Opcode) -> Machine {
        self.with_cpu(self.cpu.after_misc(op))
    }

    // ----- one instruction -----
    /// Whether a descriptor stands for a byte without an instruction.
    pub open spec fn is_unsupported(instruction: Instruction) -> bool {
        instruction.instr_type is Unsupported
    }

    /// Whether a descriptor stands for an operation that has no body.
    pub open spec fn is_unimplemented(instruction: Instruction) -> bool {
        instruction.instr_type is Arithmetic16
    }

    /// Whether executing a descriptor is a fatal error.
    pub open spec fn fails(instruction: Instruction) -> bool {
        Machine::is_unsupported(instruction) || Machine::is_unimplemented(instruction)
    }

    /// What an instruction does once its operands are read and the program
    /// counter is past it.
    pub open spec fn perform(self, instruction: Instruction, d8: u8, a16: u16) -> Machine {
        let op = instruction.op;
        match instruction.instr_type {
            InstructionType::Arithmetic(arg) => self.arithmetic(op, arg, d8),
            InstructionType::Rotate(target) => self.rotate(op, target),
            InstructionType::Bit(target, bit) => self.bit_operation(op, target, bit),
            InstructionType::Load(target, source) => self.load(target, source, d8, a16),
            InstructionType::Load16(target) => self.write16(target, a16),
            InstructionType::LoadMemory16 => self.load_memory16(a16),
            InstructionType::LoadHL => self.load_hl(d8),
            InstructionType::Add16(source) => self.add16(source),
            InstructionType::AddSP => self.add_sp(d8),
            InstructionType::LoadSP => self.with_sp(self.cpu.regfile.hl()),
            InstructionType::Push(target) => self.push(self.read_pair(target)),
            InstructionType::Pop(target) => self.pop().write_pair(target, self.top()),
            InstructionType::Jump(cond) => self.jump(op, cond, d8, a16),
            InstructionType::JumpHL => self.with_pc(self.cpu.regfile.hl()),
            InstructionType::RST(addr) => self.with_pc(addr as u16),
            InstructionType::Call(cond) => self.call(cond, a16),
            InstructionType::Return(cond) => self.ret(op, cond),
            InstructionType::Unary16(target) => self.unary16(op, target),
            InstructionType::Misc => self.misc(op),
            InstructionType::Unsupported => self,
            InstructionType::Arithmetic16(_) => self,
        }
    }

    /// The machine after one instruction. The operands are read at the
    /// program counter as it stands before the instruction; the operation
    /// then works with the program counter already past the instruction. A
    /// descriptor that cannot be executed leaves the machine as it is.
    pub open spec fn execute(self, instruction: Instruction) -> Machine {
        if Machine::fails(instruction) {
            self
        } else {
            self.with_pc(wrap16(self.cpu.pc + instruction.instr_len)).perform(
                instruction,
                self.operand_byte(),
                self.operand_word(),
            )
        }
    }

    /// What executing a descriptor reports, for the opcode byte it was
    /// decoded from: that byte, or the message of the fatal error.
    pub open spec fn outcome(instruction: Instruction, opcode: u8) -> Result<u8, Seq<char>> {
        if Machine::is_unsupported(instruction) {
            Err(UNSUPPORTED_MESSAGE@)
        } else if Machine::is_unimplemented(instruction) {
            Err(UNIMPLEMENTED_MESSAGE@)
        } else {
            Ok(opcode)
        }
    }

    // ----- interrupts -----
    /// The machine after the pending interrupts were looked at: the request
    /// byte is zeroed in any case, and the first pending source in priority
    /// order, if there is one, has the program counter pushed and replaced
    /// by its handler's address.
    pub open spec fn check_interrupts(self) -> Machine {
        let cleared = self.with_memory(self.memory.clear_requests());
        match interrupt_vector(self.memory.interrupts()) {
            Some(vector) => cleared.push(self.cpu.pc).with_pc(vector),
            None => cleared,
        }
    }

    /// The machine after the master enable took what was scheduled: it
    /// becomes true when an enable was scheduled before the instruction and
    /// is still scheduled after it.
    pub open spec fn latch_ime(self, was_scheduled: bool) -> Machine {
        if was_scheduled && self.cpu.scheduled_ime {
            Machine { cpu: CPU { ime: true, ..self.cpu }, ..self }
        } else {
            self
        }
    }

    /// The machine after interrupts were served, which happens only while
    /// the master enable is true.
    pub open spec fn serve_interrupts(self) -> Machine {
        if self.cpu.ime {
            (Machine { cpu: CPU { scheduled_ime: false, ..self.cpu }, ..self }).check_interrupts()
        } else {
            self
        }
    }

    // ----- one step -----
    /// What one step reports: the opcode byte that was executed, or the
    /// message of the fatal error.
    pub open spec fn step_outcome(&self) -> Result<u8, Seq<char>> {
        Machine::outcome(self.fetched(), self.opcode_byte())
    }

    /// The machine after one step: the instruction at the program counter
    /// is executed, its cycles are reported to the memory, the master enable
    /// takes what was scheduled, and interrupts are served. A step that
    /// fails leaves the machine as it is.
    pub open spec fn step(self) -> Machine {
        let instruction = self.fetched();
        if Machine::fails(instruction) {
            self
        } else {
            let executed = self.execute(instruction);
            let timed = executed.with_memory(executed.memory.report_cycles(instruction.cycle_len));
            timed.latch_ime(self.cpu.scheduled_ime).serve_interrupts()
        }
    }
}

} // verus!
