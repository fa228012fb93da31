//! Theorems about the step function: the invariants that every step keeps,
//! and what holds of the stack, of decimal adjustment, of interrupt dispatch
//! and of the delayed interrupt enable, whatever the state of the machine.

use vstd::prelude::*;
use crate::system::cpu::alu::bcd_value;
use crate::system::cpu::alu::bit_mask;
use crate::system::cpu::alu::decimal_adjusted;
use crate::system::cpu::alu::digit_adjusts;
use crate::system::cpu::alu::is_bcd;
use crate::system::cpu::alu::rotated_left;
use crate::system::cpu::alu::rotated_right;
use crate::system::cpu::alu::sum_adjusts;
use crate::system::cpu::alu::swapped;
use crate::system::cpu::CPU;
use crate::system::cpu::instruction::ArithmeticArg;
use crate::system::cpu::instruction::is_unassigned;
use crate::system::cpu::instruction::Instruction;
use crate::system::cpu::instruction::InstructionType;
use crate::system::cpu::instruction::LoadSource;
use crate::system::cpu::instruction::LoadTarget;
use crate::system::cpu::instruction::Opcode;
use crate::system::cpu::instruction::RegisterPair;
use crate::system::cpu::instruction::Word8;
use crate::system::cpu::machine::HIGH_PAGE;
use crate::system::cpu::machine::UNSUPPORTED_MESSAGE;
use crate::system::cpu::machine::interrupt_vector;
use crate::system::cpu::machine::Machine;
use crate::system::cpu::machine::operand_register;
use crate::system::cpu::machine::wrap16;
use crate::system::cpu::machine::wrap8;
use crate::system::cpu::regfile::half_carry_add;
use crate::system::cpu::regfile::half_carry_sub;
use crate::system::cpu::regfile::high_byte;
use crate::system::cpu::regfile::lemma_half_carry_arith;
use crate::system::cpu::regfile::low_byte;
use crate::system::cpu::regfile::Regfile;
use crate::system::memory::DIV_ADDR;
use crate::system::memory::INTERRUPT_FLAGS_ADDR;
use crate::system::memory::TAC_ADDR;

verus! {

/// Whether the cell at `addr` gives back `byte` once `byte` was written to
/// it. The divider gives back zero whatever was written, and the timer
/// control register keeps three bits; every other cell keeps the byte.
pub open spec fn keeps(addr: u16, byte: u8) -> bool {
    &&& addr == DIV_ADDR ==> byte == 0
    &&& addr == TAC_ADDR ==> byte & 0x7 == byte
}

/// Whether the two cells below the stack pointer give back the two bytes of
/// `val` once it was pushed.
pub open spec fn stack_keeps(sp: u16, val: u16) -> bool {
    keeps(wrap16(sp - 1), high_byte(val)) && keeps(wrap16(sp - 2), low_byte(val))
}

impl Regfile {
    /// Every accumulator and flag operation leaves the low nibble of `F`
    /// zero.
    pub proof fn lemma_operations_keep_wf(self, val: u8, compare: bool)
        requires
            self.wf(),
        ensures
            self.add8(val).wf(),
            self.sub8(val, compare).wf(),
            self.adc(val).wf(),
            self.sbc(val).wf(),
            self.and8(val).wf(),
            self.or8(val).wf(),
            self.xor8(val).wf(),
            self.daa().wf(),
            self.cpl().wf(),
            self.ccf().wf(),
            self.scf().wf(),
    {
        broadcast use Regfile::lemma_with_flags;

        assert(self.add8(1).wf());
        assert(self.sub8(1, false).wf());
        assert(self.add8(1).add8(val).wf());
        assert(self.sub8(1, false).sub8(val, false).wf());
        self.lemma_daa_flags();
    }
}

impl Machine {
    /// A write to an 8-bit operand keeps the machine well-formed.
    pub proof fn lemma_write8_keeps_wf(self, target: Word8, val: u8)
        requires
            self.wf(),
        ensures
            self.write8(target, val).wf(),
            self.write8(target, val).cpu.regfile.r_f == self.cpu.regfile.r_f,
    {
        self.lemma_store_keeps_wf(self.cpu.regfile.hl(), val);
    }

    /// A write to memory keeps the machine well-formed.
    pub proof fn lemma_store_keeps_wf(self, addr: u16, byte: u8)
        requires
            self.wf(),
        ensures
            self.store(addr, byte).wf(),
            self.store(addr, byte).cpu == self.cpu,
    {
        self.memory.lemma_wf_preserved(addr, byte);
        self.memory.timer.lemma_wf_preserved(0, byte);
    }

    /// A push keeps the machine well-formed.
    pub proof fn lemma_push_keeps_wf(self, val: u16)
        requires
            self.wf(),
        ensures
            self.push(val).wf(),
    {
        let first = wrap16(self.cpu.sp - 1);
        let second = wrap16(self.cpu.sp - 2);
        self.lemma_store_keeps_wf(first, high_byte(val));
        self.store(first, high_byte(val)).lemma_store_keeps_wf(second, low_byte(val));
    }

    proof fn lemma_arithmetic_keeps_wf(self, op: Opcode, arg: ArithmeticArg, d8: u8)
        requires
            self.wf(),
        ensures
            self.arithmetic(op, arg, d8).wf(),
    {
        broadcast use Regfile::lemma_with_flags;

        self.cpu.regfile.lemma_operations_keep_wf(self.operand(arg, d8), true);
        self.cpu.regfile.lemma_operations_keep_wf(self.operand(arg, d8), false);
        match operand_register(arg) {
            Some(target) => {
                let val = self.read8(target);
                self.lemma_write8_keeps_wf(target, wrap8(val + 1));
                self.lemma_write8_keeps_wf(target, wrap8(val - 1));
            },
            None => {},
        }
    }

    proof fn lemma_rotate_keeps_wf(self, op: Opcode, target: Word8)
        requires
            self.wf(),
        ensures
            self.rotate(op, target).wf(),
    {
        broadcast use Regfile::lemma_with_flags;

        let carry = self.cpu.regfile.carry();
        let a = self.read8(Word8::A);
        let val = self.read8(target);
        self.lemma_write8_keeps_wf(Word8::A, rotated_left(op, a, carry));
        self.lemma_write8_keeps_wf(Word8::A, rotated_right(op, a, carry));
        self.lemma_write8_keeps_wf(target, rotated_left(op, val, carry));
        self.lemma_write8_keeps_wf(target, rotated_right(op, val, carry));
        self.lemma_write8_keeps_wf(target, swapped(val));
        self.rotate_left(Word8::A, op).cpu.regfile.lemma_with_zero(false);
        self.rotate_left(target, op).cpu.regfile.lemma_with_zero(false);
        self.rotate_right(Word8::A, op).cpu.regfile.lemma_with_zero(false);
        self.rotate_right(target, op).cpu.regfile.lemma_with_zero(false);
    }

    proof fn lemma_bit_operation_keeps_wf(self, op: Opcode, target: Word8, bit: u8)
        requires
            self.wf(),
        ensures
            self.bit_operation(op, target, bit).wf(),
    {
        broadcast use Regfile::lemma_with_flags;

        let val = self.read8(target);
        self.lemma_write8_keeps_wf(target, val | bit_mask(bit));
        self.lemma_write8_keeps_wf(target, val & !bit_mask(bit));
    }

    proof fn lemma_load_keeps_wf(self, target: LoadTarget, source: LoadSource, d8: u8, a16: u16)
        requires
            self.wf(),
        ensures
            self.load(target, source, d8, a16).wf(),
    {
        let read = self.after_source(source);
        let val = self.source_value(source, d8, a16);
        assert(read.wf());
        let regfile = read.cpu.regfile;
        read.lemma_write8_keeps_wf(Word8::A, val);
        read.lemma_write8_keeps_wf(Word8::B, val);
        read.lemma_write8_keeps_wf(Word8::C, val);
        read.lemma_write8_keeps_wf(Word8::D, val);
        read.lemma_write8_keeps_wf(Word8::E, val);
        read.lemma_write8_keeps_wf(Word8::H, val);
        read.lemma_write8_keeps_wf(Word8::L, val);
        read.lemma_store_keeps_wf(regfile.hl(), val);
        read.lemma_store_keeps_wf(regfile.bc(), val);
        read.lemma_store_keeps_wf(regfile.de(), val);
        read.lemma_store_keeps_wf((HIGH_PAGE + d8) as u16, val);
        read.lemma_store_keeps_wf((HIGH_PAGE + regfile.r_c) as u16, val);
        read.lemma_store_keeps_wf(a16, val);
    }

    /// What an instruction does keeps the machine well-formed.
    proof fn lemma_perform_keeps_wf(self, instruction: Instruction, d8: u8, a16: u16)
        requires
            self.wf(),
        ensures
            self.perform(instruction, d8, a16).wf(),
    {
        broadcast use Regfile::lemma_with_flags;

        let op = instruction.op;
        match instruction.instr_type {
            InstructionType::Arithmetic(arg) => self.lemma_arithmetic_keeps_wf(op, arg, d8),
            InstructionType::Rotate(target) => self.lemma_rotate_keeps_wf(op, target),
            InstructionType::Bit(target, bit) => self.lemma_bit_operation_keeps_wf(op, target, bit),
            InstructionType::Load(target, source) => self.lemma_load_keeps_wf(target, source, d8, a16),
            InstructionType::LoadMemory16 => {
                self.lemma_store_keeps_wf(a16, low_byte(self.cpu.sp));
                self.store(a16, low_byte(self.cpu.sp)).lemma_store_keeps_wf(wrap16(a16 + 1), high_byte(self.cpu.sp));
            },
            InstructionType::Push(target) => self.lemma_push_keeps_wf(self.read_pair(target)),
            InstructionType::Pop(target) => {
                self.pop().cpu.regfile.lemma_af_round_trip(self.top());
            },
            InstructionType::Call(cond) => self.lemma_push_keeps_wf(self.cpu.pc),
            _ => {},
        }
    }

    /// Executing an instruction keeps the machine well-formed.
    pub proof fn lemma_execute_keeps_wf(self, instruction: Instruction)
        requires
            self.wf(),
        ensures
            self.execute(instruction).wf(),
    {
        self.with_pc(wrap16(self.cpu.pc + instruction.instr_len)).lemma_perform_keeps_wf(
            instruction,
            self.operand_byte(),
            self.operand_word(),
        );
    }

    /// Looking at the interrupts keeps the machine well-formed.
    pub proof fn lemma_check_interrupts_keeps_wf(self)
        requires
            self.wf(),
        ensures
            self.check_interrupts().wf(),
    {
        self.memory.lemma_wf_preserved(0, 0);
        self.with_memory(self.memory.clear_requests()).lemma_push_keeps_wf(self.cpu.pc);
    }

    /// One step keeps the machine well-formed: the low nibble of `F` stays
    /// zero, and the timer's threshold stays the one that its control
    /// register selects.
    pub proof fn lemma_step_keeps_wf(self)
        requires
            self.wf(),
        ensures
            self.step().wf(),
    {
        let instruction = self.fetched();
        if !Machine::fails(instruction) {
            self.lemma_execute_keeps_wf(instruction);
            let executed = self.execute(instruction);
            executed.memory.lemma_wf_preserved(0, instruction.cycle_len);
            executed.memory.timer.lemma_wf_preserved(instruction.cycle_len, 0);
            let latched = executed.with_memory(executed.memory.report_cycles(instruction.cycle_len)).latch_ime(
                self.cpu.scheduled_ime,
            );
            assert(latched.wf());
            if latched.cpu.ime {
                (Machine { cpu: CPU { scheduled_ime: false, ..latched.cpu }, ..latched }).lemma_check_interrupts_keeps_wf();
            }
        }
    }

    /// An 8-bit operand reads back what was written to it. The one
    /// exception is the memory cell at HL where HL addresses the divider or
    /// the timer control register, which do not keep every byte.
    pub proof fn lemma_write8_reads_back(self, target: Word8, val: u8)
        requires
            self.memory.wf(),
            target == Word8::HL ==> keeps(self.cpu.regfile.hl(), val),
        ensures
            self.write8(target, val).read8(target) == val,
    {
    }

    /// The return from an interrupt handler pops the program counter
    /// whatever the flags are, and schedules the master enable.
    pub proof fn lemma_return_from_interrupt(self, next_byte: u8)
        ensures
            self.execute(Instruction::decode(0xD9, next_byte)).cpu.pc == self.top(),
            self.execute(Instruction::decode(0xD9, next_byte)).cpu.sp == wrap16(self.cpu.sp + 2),
            self.execute(Instruction::decode(0xD9, next_byte)).cpu.scheduled_ime,
            self.execute(Instruction::decode(0xD9, next_byte)).cpu.ime == self.cpu.ime,
            self.execute(Instruction::decode(0xD9, next_byte)).cpu.regfile == self.cpu.regfile,
            self.execute(Instruction::decode(0xD9, next_byte)).memory == self.memory,
    {
    }

    /// What was pushed is on top of the stack, and a pop brings the stack
    /// pointer back to where it was before the push.
    pub proof fn lemma_push_then_pop(self, val: u16)
        requires
            self.memory.wf(),
            stack_keeps(self.cpu.sp, val),
        ensures
            self.push(val).top() == val,
            self.push(val).pop().cpu.sp == self.cpu.sp,
    {
        let first = wrap16(self.cpu.sp - 1);
        let second = wrap16(self.cpu.sp - 2);
        let pushed = self.push(val);
        assert(pushed.cpu.sp == second);
        assert(wrap16(second + 1) == first);
        assert(pushed.memory.read(second) == low_byte(val));
        assert(pushed.memory.read(first) == high_byte(val));
    }

    /// Stack round trip: pushing a register pair and popping into the same
    /// pair restores the pair and the stack pointer.
    pub proof fn lemma_push_pop_round_trip(self, target: RegisterPair, push: Instruction, pop: Instruction)
        requires
            self.memory.wf(),
            push.instr_type == InstructionType::Push(target),
            pop.instr_type == InstructionType::Pop(target),
            target == RegisterPair::AF ==> self.cpu.regfile.wf(),
            stack_keeps(self.cpu.sp, self.read_pair(target)),
        ensures
            self.execute(push).execute(pop).read_pair(target) == self.read_pair(target),
            self.execute(push).execute(pop).cpu.sp == self.cpu.sp,
    {
        let val = self.read_pair(target);
        let advanced = self.with_pc(wrap16(self.cpu.pc + push.instr_len));
        let pushed = self.execute(push);
        assert(pushed == advanced.push(val));
        advanced.lemma_push_then_pop(val);
        let again = pushed.with_pc(wrap16(pushed.cpu.pc + pop.instr_len));
        assert(again.top() == pushed.top());
        assert(again.pop().cpu.sp == self.cpu.sp);
        assert(self.execute(push).execute(pop) == again.pop().write_pair(target, val));
        again.pop().cpu.regfile.lemma_pair_round_trip(val);
        if target == RegisterPair::AF {
            again.pop().cpu.regfile.lemma_af_round_trip(val);
            let f = self.cpu.regfile.r_f;
            let a = self.cpu.regfile.r_a;
            assert(f & 0x0F == 0 ==> ((a as u16) * 256 + (f as u16)) as u16 & 0xFFF0 == ((a as u16) * 256 + (
            f as u16)) as u16) by (bit_vector);
        }
    }

    /// Interrupt priority: when interrupts are looked at, the program
    /// counter goes to the handler of the first pending source in the order
    /// vertical blank, display status, timer, serial, joypad, and to no
    /// other; with none pending it stays. The request byte is zeroed as a
    /// whole, so a second pending source is not served later, unless the
    /// push of the program counter wrote over that byte.
    pub proof fn lemma_interrupt_priority(self)
        requires
            self.memory.wf(),
        ensures
            self.check_interrupts().cpu.pc == match interrupt_vector(self.memory.interrupts()) {
                Some(vector) => vector,
                None => self.cpu.pc,
            },
            self.memory.interrupts().vblank ==> self.check_interrupts().cpu.pc == 0x0040,
            wrap16(self.cpu.sp - 1) != INTERRUPT_FLAGS_ADDR && wrap16(self.cpu.sp - 2) != INTERRUPT_FLAGS_ADDR
                ==> self.check_interrupts().memory.requested() == 0 && interrupt_vector(
                self.check_interrupts().memory.interrupts(),
            ) is None,
            interrupt_vector(self.memory.interrupts()) is None ==> self.check_interrupts().memory.requested()
                == 0,
    {
        let cleared = self.with_memory(self.memory.clear_requests());
        self.memory.lemma_clear_requests();
        let e = self.check_interrupts().memory.enabled();
        assert((e & 0u8) & 0x01 == 0 && (e & 0u8) & 0x02 == 0 && (e & 0u8) & 0x04 == 0 && (e & 0u8) & 0x08 == 0
            && (e & 0u8) & 0x10 == 0) by (bit_vector);
    }

    /// A step fails exactly when the byte at the program counter is one of
    /// the unassigned bytes; it then reports that the instruction is
    /// unsupported and leaves the machine as it is. No step reports an
    /// unimplemented instruction.
    pub proof fn lemma_step_fails_on_unassigned(self)
        ensures
            Machine::fails(self.fetched()) <==> is_unassigned(self.opcode_byte()),
            is_unassigned(self.opcode_byte()) ==> self.step() == self && self.step_outcome() == Err::<
                u8,
                Seq<char>,
            >(UNSUPPORTED_MESSAGE@),
            !is_unassigned(self.opcode_byte()) ==> self.step_outcome() == Ok::<u8, Seq<char>>(self.opcode_byte()),
    {
        Instruction::lemma_decode_unsupported(self.opcode_byte(), self.operand_byte());
    }

    /// The machine as a step leaves it just before interrupts are served.
    pub open spec fn before_interrupts(self) -> Machine {
        let instruction = self.fetched();
        let executed = self.execute(instruction);
        executed.with_memory(executed.memory.report_cycles(instruction.cycle_len)).latch_ime(
            self.cpu.scheduled_ime,
        )
    }

    /// A step that finds the master enable set serves exactly one
    /// interrupt, the first pending one in priority order: with vertical
    /// blank and timer both pending it goes to the handler of vertical
    /// blank.
    pub proof fn lemma_step_serves_first_pending(self)
        requires
            self.memory.wf(),
            !Machine::fails(self.fetched()),
            self.before_interrupts().cpu.ime,
        ensures
            self.step().cpu.pc == match interrupt_vector(self.before_interrupts().memory.interrupts()) {
                Some(vector) => vector,
                None => self.before_interrupts().cpu.pc,
            },
            self.before_interrupts().memory.interrupts().vblank ==> self.step().cpu.pc == 0x0040,
    {
    }

    /// The master enable after a step, from the state before it: the switch
    /// that disables clears it, and otherwise it is set exactly when it was
    /// set before or an enable was scheduled before the step and is still
    /// scheduled when the instruction is done.
    pub proof fn lemma_step_ime(self)
        requires
            !Machine::fails(self.fetched()),
        ensures
            self.step().cpu.ime == (self.execute(self.fetched()).cpu.ime || (self.cpu.scheduled_ime
                && self.execute(self.fetched()).cpu.scheduled_ime)),
            self.step().cpu.scheduled_ime == (self.execute(self.fetched()).cpu.scheduled_ime
                && !self.step().cpu.ime),
    {
    }

    /// Delayed enable: in the sequence disable, enable, no operation, the
    /// master enable is false after the first two instructions and true
    /// only once the third is done.
    pub proof fn lemma_enable_takes_one_instruction(self)
        requires
            self.opcode_byte() == 0xF3,
            self.step().opcode_byte() == 0xFB,
            self.step().step().opcode_byte() == 0x00,
        ensures
            !self.step().cpu.ime,
            !self.step().step().cpu.ime,
            self.step().step().step().cpu.ime,
    {
        let first = self.step();
        let second = first.step();
        assert(!first.cpu.ime && !first.cpu.scheduled_ime);
        assert(!second.cpu.ime && second.cpu.scheduled_ime);
    }

    /// Cancelled enable: in the sequence disable, enable, disable, the
    /// master enable is false at every point.
    pub proof fn lemma_disable_cancels_enable(self)
        requires
            self.opcode_byte() == 0xF3,
            self.step().opcode_byte() == 0xFB,
            self.step().step().opcode_byte() == 0xF3,
        ensures
            !self.step().cpu.ime,
            !self.step().step().cpu.ime,
            !self.step().step().step().cpu.ime,
            !self.step().step().step().cpu.scheduled_ime,
    {
        let first = self.step();
        let second = first.step();
        assert(!first.cpu.ime && !first.cpu.scheduled_ime);
        assert(!second.cpu.ime && second.cpu.scheduled_ime);
    }
}

/// A byte is sixteen times its high nibble plus its low nibble.
proof fn lemma_nibbles(high: int, low: int)
    requires
        0 <= low < 16,
        0 <= high < 16,
    ensures
        (16 * high + low) % 16 == low,
        (16 * high + low) / 16 == high,
        (16 * high + low) % 256 == 16 * high + low,
        (16 * high + low + 256) % 256 == 16 * high + low,
{
}

/// Decimal adjustment of a sum gives two decimal digits exactly when the
/// nibble sums adjust. For two packed decimal numbers it gives the packed
/// decimal sum modulo 100, and 0x60 is added exactly when the sum reaches
/// 100.
#[verifier::rlimit(30)]
pub proof fn lemma_decimal_adjusted_sum(a: u8, val: u8)
    ensures
        ({
            let sum = a as int + val as int;
            let adjusted = decimal_adjusted((sum % 256) as u8, false, a % 16 + val % 16 > 15, sum > 0xFF);
            &&& is_bcd(adjusted) <==> sum_adjusts(a, val)
            &&& is_bcd(a) && is_bcd(val) ==> {
                &&& sum_adjusts(a, val)
                &&& bcd_value(adjusted) == (bcd_value(a) + bcd_value(val)) % 100
                &&& (sum > 0xFF || sum % 256 > 0x99) == (bcd_value(a) + bcd_value(val) >= 100)
            }
        }),
{
    let al = a as int % 16;
    let ah = a as int / 16;
    let vl = val as int % 16;
    let vh = val as int / 16;
    let sum = a as int + val as int;
    // the sum, nibble by nibble
    let low = al + vl;
    let half = low > 15;
    let nibble = if half { low - 16 } else { low };
    let high = ah + vh + if half { 1int } else { 0int };
    let carry = high > 15;
    let top = if carry { high - 16 } else { high };
    let wrapped = 16 * top + nibble;
    assert(sum == 16 * high + nibble);
    lemma_nibbles(top, nibble);
    assert(sum % 256 == wrapped);
    // the first correction works on the high nibble
    let carried = carry || wrapped > 0x99;
    let top_first = if !carried { top } else if top + 6 > 15 { top - 10 } else { top + 6 };
    let first = 16 * top_first + nibble;
    lemma_nibbles(top_first, nibble);
    assert(first == if carried { (wrapped + 0x60) % 256 } else { wrapped });
    // the second on the low nibble, with a carry into the high one
    let corrected = half || nibble > 9;
    let nibble_second = if !corrected { nibble } else if nibble + 6 > 15 { nibble - 10 } else { nibble + 6 };
    let bumped = if corrected && nibble + 6 > 15 { top_first + 1 } else { top_first };
    let top_second = if bumped > 15 { bumped - 16 } else { bumped };
    let second = 16 * top_second + nibble_second;
    lemma_nibbles(top_second, nibble_second);
    assert(second == if corrected { (first + 6) % 256 } else { first });
    let adjusted = decimal_adjusted(wrapped as u8, false, half, sum > 0xFF);
    assert(adjusted as int == second);
    assert(adjusted % 16 == nibble_second && adjusted / 16 == top_second);
    // which nibble sums end as decimal digits
    assert(nibble_second <= 9 <==> digit_adjusts(low));
    let handed: int = if low <= 9 { 0 } else if low <= 19 { 1 } else { 2 };
    assert(digit_adjusts(low) ==> (top_second <= 9 <==> digit_adjusts(ah + vh + handed)));
    // the same sum in decimal
    if is_bcd(a) && is_bcd(val) {
        let total = bcd_value(a) + bcd_value(val);
        assert(total == 10 * (ah + vh) + al + vl);
        assert(total % 100 == if total >= 100 { total - 100 } else { total });
        assert(10 * top_second + nibble_second == if total >= 100 { total - 100 } else { total });
    }
}

/// Decimal adjustment of the difference of two packed decimal numbers gives
/// the packed decimal difference modulo 100.
#[verifier::rlimit(30)]
pub proof fn lemma_decimal_adjusted_difference(a: u8, val: u8)
    requires
        is_bcd(a),
        is_bcd(val),
    ensures
        ({
            let difference = (a as int - val as int) % 256;
            let adjusted = decimal_adjusted(difference as u8, true, a % 16 < val % 16, a < val);
            &&& is_bcd(adjusted)
            &&& bcd_value(adjusted) == (bcd_value(a) - bcd_value(val)) % 100
            &&& (a < val) == (bcd_value(a) < bcd_value(val))
        }),
{
    let al = a as int % 16;
    let ah = a as int / 16;
    let vl = val as int % 16;
    let vh = val as int / 16;
    // the difference, nibble by nibble
    let half = al < vl;
    let nibble = if half { al - vl + 16 } else { al - vl };
    let high = ah - vh - if half { 1int } else { 0int };
    let borrow = high < 0;
    let top = if borrow { high + 16 } else { high };
    let wrapped = 16 * top + nibble;
    assert(a as int - val as int == 16 * high + nibble);
    lemma_nibbles(top, nibble);
    assert((a as int - val as int) % 256 == wrapped);
    assert(borrow == (a < val));
    // the first correction works on the high nibble
    let top_first = if borrow { top - 6 } else { top };
    let first = 16 * top_first + nibble;
    lemma_nibbles(top_first, nibble);
    assert(first == if borrow { (wrapped - 0x60) % 256 } else { wrapped });
    // the second on the low nibble, without a borrow from the high one
    let nibble_second = if half { nibble - 6 } else { nibble };
    let second = 16 * top_first + nibble_second;
    lemma_nibbles(top_first, nibble_second);
    assert(second == if half { (first - 0x06) % 256 } else { first });
    let adjusted = decimal_adjusted(wrapped as u8, true, half, borrow);
    assert(adjusted as int == second);
    // the same difference in decimal
    let total = bcd_value(a) - bcd_value(val);
    assert(total == 10 * (ah - vh) + al - vl);
    assert(total % 100 == if total < 0 { total + 100 } else { total });
    assert(10 * top_first + nibble_second == if total < 0 { total + 100 } else { total });
}

impl Regfile {
    /// Decimal adjustment after the subtraction of two packed decimal
    /// numbers: the accumulator holds two decimal digits again, they are the
    /// difference modulo 100, carry says whether the subtraction borrowed,
    /// zero follows the accumulator and half-carry is cleared.
    pub proof fn lemma_daa_after_sub(self, val: u8)
        requires
            is_bcd(self.r_a),
            is_bcd(val),
        ensures
            is_bcd(self.sub8(val, false).daa().r_a),
            bcd_value(self.sub8(val, false).daa().r_a) == (bcd_value(self.r_a) - bcd_value(val)) % 100,
            self.sub8(val, false).daa().carry() == (bcd_value(self.r_a) < bcd_value(val)),
            self.sub8(val, false).daa().zero() == (self.sub8(val, false).daa().r_a == 0),
            !self.sub8(val, false).daa().half_carry(),
            self.sub8(val, false).daa().subtract(),
    {
        let a = self.r_a;
        let difference = (a as int - val as int) % 256;
        let subtracted = self.sub8(val, false);
        (Regfile { r_a: difference as u8, ..self }).lemma_with_flags(
            difference == 0,
            true,
            half_carry_sub(a, val),
            a < val,
        );
        lemma_half_carry_arith(a, val);
        subtracted.lemma_daa_flags();
        lemma_decimal_adjusted_difference(a, val);
        assert(subtracted.r_a as int == difference);
        assert(subtracted.half_carry() == (a % 16 < val % 16));
        assert(subtracted.carry() == (a < val));
        assert(subtracted.subtract());
        assert(subtracted.daa_value() == decimal_adjusted(difference as u8, true, a % 16 < val % 16, a < val));
    }

    /// Decimal adjustment after an addition clears half-carry and sets zero
    /// from the accumulator, and the accumulator holds two decimal digits
    /// exactly when the nibble sums of the addition adjust. After the
    /// addition of two packed decimal numbers they always do: the
    /// accumulator then holds the sum modulo 100, and carry says whether the
    /// sum reached 100.
    pub proof fn lemma_daa_after_add(self, val: u8)
        ensures
            !self.add8(val).daa().half_carry(),
            !self.add8(val).daa().subtract(),
            self.add8(val).daa().zero() == (self.add8(val).daa().r_a == 0),
            is_bcd(self.add8(val).daa().r_a) <==> sum_adjusts(self.r_a, val),
            is_bcd(self.r_a) && is_bcd(val) ==> {
                &&& is_bcd(self.add8(val).daa().r_a)
                &&& bcd_value(self.add8(val).daa().r_a) == (bcd_value(self.r_a) + bcd_value(val)) % 100
                &&& self.add8(val).daa().carry() == (bcd_value(self.r_a) + bcd_value(val) >= 100)
            },
    {
        let a = self.r_a;
        let sum = a as int + val as int;
        let added = self.add8(val);
        (Regfile { r_a: (sum % 256) as u8, ..self }).lemma_with_flags(
            sum % 256 == 0,
            false,
            half_carry_add(a, val),
            sum > 0xFF,
        );
        lemma_half_carry_arith(a, val);
        added.lemma_daa_flags();
        lemma_decimal_adjusted_sum(a, val);
        assert(added.r_a as int == sum % 256);
        assert(added.half_carry() == (a % 16 + val % 16 > 15));
        assert(added.carry() == (sum > 255));
        assert(!added.subtract());
        assert(added.daa_value() == decimal_adjusted((sum % 256) as u8, false, a % 16 + val % 16 > 15, sum > 0xFF));
    }
}

} // verus!
