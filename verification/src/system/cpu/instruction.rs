//! The instruction decoder: a pure mapping from an opcode byte (and, behind
//! the extended-opcode prefix, a second byte) to an instruction descriptor.
//!
//! The executable decoder is a literal table, one entry per byte. Its
//! contract is stated against `Instruction::decode`, which describes the same
//! table by the regular structure of the instruction set: rows, columns and a
//! short list of exceptions.

use vstd::prelude::*;

verus! {

/// The byte that opens the extended opcode space.
pub const PREFIX_BYTE: u8 = 0xCB;

/// One decoded instruction: what it does, on what, how many bytes it
/// occupies and how many cycles it costs.
#[derive(Clone, Copy, Debug, PartialEq, Eq, Structural)]
pub struct Instruction {
    pub op: Opcode,
    pub instr_type: InstructionType,
    pub instr_len: u16,
    pub cycle_len: u8,
}

#[derive(Clone, Copy, Debug, PartialEq, Eq, Structural)]
pub enum Opcode {
    DAA,
    CCF,
    SCF,
    CPL,
    NOP,
    ADD,
    ADC,
    INC,
    SUB,
    SBC,
    DEC,
    AND,
    OR,
    XOR,
    CP,
    JP,
    JR,
    LD,
    LDH,
    PUSH,
    POP,
    CALL,
    RET,
    RETI,
    RST,
    RLCA,
    RLA,
    RRCA,
    RRA,
    RLC,
    RRC,
    RL,
    RR,
    SLA,
    SRA,
    SRL,
    SWAP,
    BIT,
    RES,
    SET,
    DI,
    EI,
    STOP,
    HALT,
    LDHL,
    LDSP,
    /// Marks a byte that has no instruction assigned.
    NULL,
}

/// The operand shape of an instruction.
#[derive(Clone, Copy, Debug, PartialEq, Eq, Structural)]
pub enum InstructionType {
    Misc,
    Arithmetic(ArithmeticArg),
    Load(LoadTarget, LoadSource),
    Jump(JumpCond),
    JumpHL,
    Push(RegisterPair),
    Pop(RegisterPair),
    Call(JumpCond),
    Return(JumpCond),
    RST(u8),
    Arithmetic16(RegisterPair),
    Unary16(Word16),
    Load16(Word16),
    LoadMemory16,
    Add16(Word16),
    AddSP,
    Rotate(Word8),
    Bit(Word8, u8),
    LoadHL,
    LoadSP,
    Unsupported,
}

#[derive(Clone, Copy, Debug, PartialEq, Eq, Structural)]
pub enum ArithmeticArg {
    A,
    B,
    C,
    D,
    E,
    H,
    L,
    HL,
    D8,
    /// The operation names its operand itself.
    Implied,
}

#[derive(Clone, Copy, Debug, PartialEq, Eq, Structural)]
pub enum Word8 {
    A,
    B,
    C,
    D,
    E,
    H,
    L,
    HL,
}

#[derive(Clone, Copy, Debug, PartialEq, Eq, Structural)]
pub enum LoadTarget {
    A,
    B,
    C,
    D,
    E,
    H,
    L,
    HL,
    HLI,
    HLD,
    BC,
    DE,
    A8,
    A16,
    CA,
}

#[derive(Clone, Copy, Debug, PartialEq, Eq, Structural)]
pub enum LoadSource {
    A,
    B,
    C,
    D,
    E,
    H,
    L,
    HL,
    HLI,
    HLD,
    BC,
    DE,
    D8,
    A8,
    A16,
    CA,
}

#[derive(Clone, Copy, Debug, PartialEq, Eq, Structural)]
pub enum RegisterPair {
    BC,
    DE,
    HL,
    AF,
}

#[derive(Clone, Copy, Debug, PartialEq, Eq, Structural)]
pub enum Word16 {
    BC,
    DE,
    HL,
    SP,
}

#[derive(Clone, Copy, Debug, PartialEq, Eq, Structural)]
pub enum JumpCond {
    Zero,
    NotZero,
    Carry,
    NotCarry,
    Always,
}

/// The 8-bit operand that the three low bits of an opcode select:
/// B, C, D, E, H, L, the cell at HL, A.
pub open spec fn word8_at(index: int) -> Word8 {
    if index == 0 {
        Word8::B
    } else if index == 1 {
        Word8::C
    } else if index == 2 {
        Word8::D
    } else if index == 3 {
        Word8::E
    } else if index == 4 {
        Word8::H
    } else if index == 5 {
        Word8::L
    } else if index == 6 {
        Word8::HL
    } else {
        Word8::A
    }
}

/// The same selection as `word8_at`, as an arithmetic operand.
pub open spec fn arithmetic_arg_at(index: int) -> ArithmeticArg {
    match word8_at(index) {
        Word8::A => ArithmeticArg::A,
        Word8::B => ArithmeticArg::B,
        Word8::C => ArithmeticArg::C,
        Word8::D => ArithmeticArg::D,
        Word8::E => ArithmeticArg::E,
        Word8::H => ArithmeticArg::H,
        Word8::L => ArithmeticArg::L,
        Word8::HL => ArithmeticArg::HL,
    }
}

/// The same selection as `word8_at`, as the destination of a load.
pub open spec fn load_target_at(index: int) -> LoadTarget {
    match word8_at(index) {
        Word8::A => LoadTarget::A,
        Word8::B => LoadTarget::B,
        Word8::C => LoadTarget::C,
        Word8::D => LoadTarget::D,
        Word8::E => LoadTarget::E,
        Word8::H => LoadTarget::H,
        Word8::L => LoadTarget::L,
        Word8::HL => LoadTarget::HL,
    }
}

/// The same selection as `word8_at`, as the origin of a load.
pub open spec fn load_source_at(index: int) -> LoadSource {
    match word8_at(index) {
        Word8::A => LoadSource::A,
        Word8::B => LoadSource::B,
        Word8::C => LoadSource::C,
        Word8::D => LoadSource::D,
        Word8::E => LoadSource::E,
        Word8::H => LoadSource::H,
        Word8::L => LoadSource::L,
        Word8::HL => LoadSource::HL,
    }
}

/// The 16-bit operand that a row of the first quarter selects:
/// BC, DE, HL, SP.
pub open spec fn word16_at(row: int) -> Word16 {
    if row == 0 {
        Word16::BC
    } else if row == 1 {
        Word16::DE
    } else if row == 2 {
        Word16::HL
    } else {
        Word16::SP
    }
}

/// The register pair that a row of the last quarter pushes or pops:
/// BC, DE, HL, AF.
pub open spec fn register_pair_at(row: int) -> RegisterPair {
    if row == 0 {
        RegisterPair::BC
    } else if row == 1 {
        RegisterPair::DE
    } else if row == 2 {
        RegisterPair::HL
    } else {
        RegisterPair::AF
    }
}

/// The indirect destination of the accumulator stores of the first quarter:
/// the cell at BC, at DE, at HL with increment, at HL with decrement.
pub open spec fn indirect_target_at(row: int) -> LoadTarget {
    if row == 0 {
        LoadTarget::BC
    } else if row == 1 {
        LoadTarget::DE
    } else if row == 2 {
        LoadTarget::HLI
    } else {
        LoadTarget::HLD
    }
}

/// The indirect origin of the accumulator loads of the first quarter.
pub open spec fn indirect_source_at(row: int) -> LoadSource {
    if row == 0 {
        LoadSource::BC
    } else if row == 1 {
        LoadSource::DE
    } else if row == 2 {
        LoadSource::HLI
    } else {
        LoadSource::HLD
    }
}

/// The four conditions that a jump can test, in opcode order: not zero,
/// zero, not carry, carry.
pub open spec fn condition_at(index: int) -> JumpCond {
    if index == 0 {
        JumpCond::NotZero
    } else if index == 1 {
        JumpCond::Zero
    } else if index == 2 {
        JumpCond::NotCarry
    } else {
        JumpCond::Carry
    }
}

/// The eight accumulator operations in opcode order.
pub open spec fn alu_op_at(index: int) -> Opcode {
    if index == 0 {
        Opcode::ADD
    } else if index == 1 {
        Opcode::ADC
    } else if index == 2 {
        Opcode::SUB
    } else if index == 3 {
        Opcode::SBC
    } else if index == 4 {
        Opcode::AND
    } else if index == 5 {
        Opcode::XOR
    } else if index == 6 {
        Opcode::OR
    } else {
        Opcode::CP
    }
}

/// The eight rotate, shift and swap operations of the extended space in
/// opcode order.
pub open spec fn shift_op_at(index: int) -> Opcode {
    if index == 0 {
        Opcode::RLC
    } else if index == 1 {
        Opcode::RRC
    } else if index == 2 {
        Opcode::RL
    } else if index == 3 {
        Opcode::RR
    } else if index == 4 {
        Opcode::SLA
    } else if index == 5 {
        Opcode::SRA
    } else if index == 6 {
        Opcode::SWAP
    } else {
        Opcode::SRL
    }
}

/// The eight one-byte accumulator and flag operations of the first quarter
/// in opcode order.
pub open spec fn accumulator_op_at(index: int) -> Opcode {
    if index == 0 {
        Opcode::RLCA
    } else if index == 1 {
        Opcode::RRCA
    } else if index == 2 {
        Opcode::RLA
    } else if index == 3 {
        Opcode::RRA
    } else if index == 4 {
        Opcode::DAA
    } else if index == 5 {
        Opcode::CPL
    } else if index == 6 {
        Opcode::SCF
    } else {
        Opcode::CCF
    }
}

/// The three single-bit operations of the extended space, by quarter.
pub open spec fn bit_op_at(quarter: int) -> Opcode {
    if quarter == 1 {
        Opcode::BIT
    } else if quarter == 2 {
        Opcode::RES
    } else {
        Opcode::SET
    }
}

/// The eleven bytes of the main opcode space that have no instruction
/// assigned.
pub open spec fn is_unassigned(byte: u8) -> bool {
    byte == 0xD3 || byte == 0xDB || byte == 0xDD || byte == 0xE3 || byte == 0xE4 || byte == 0xEB || byte == 0xEC
        || byte == 0xED || byte == 0xF4 || byte == 0xFC || byte == 0xFD
}

impl Instruction {
    /// A descriptor from its four parts.
    pub open spec fn of(op: Opcode, instr_type: InstructionType, instr_len: u16, cycle_len: u8) -> Instruction {
        Instruction { op, instr_type, instr_len, cycle_len }
    }

    /// The descriptor of a byte that has no instruction assigned.
    pub open spec fn unsupported() -> Instruction {
        Instruction::of(Opcode::NULL, InstructionType::Unsupported, 1, 0)
    }

    /// A descriptor can be executed when its bit index, if it has one,
    /// names one of the eight bits of a byte.
    pub open spec fn well_formed(&self) -> bool {
        match self.instr_type {
            InstructionType::Bit(_, bit) => bit < 8,
            _ => true,
        }
    }

    /// The extended opcode space. The three low bits select the operand,
    /// the rest the operation; an operand in memory doubles the cost.
    pub open spec fn decode_prefix(byte: u8) -> Instruction {
        let target = word8_at(byte as int % 8);
        let cycle_len: u8 = if byte % 8 == 6 {
            4
        } else {
            2
        };
        if byte < 0x40 {
            Instruction::of(shift_op_at(byte as int / 8), InstructionType::Rotate(target), 2, cycle_len)
        } else {
            Instruction::of(
                bit_op_at(byte as int / 64),
                InstructionType::Bit(target, ((byte as int / 8) % 8) as u8),
                2,
                cycle_len,
            )
        }
    }

    /// Bytes 0x00 to 0x3F: 16-bit loads and arithmetic, 8-bit increments,
    /// decrements and immediate loads, relative jumps, and the one-byte
    /// accumulator operations.
    pub open spec fn decode_first_quarter(byte: u8) -> Instruction {
        let row = byte as int / 16;
        let column = byte as int % 16;
        let register = byte as int / 8;
        let in_memory = register == 6;
        if byte % 8 == 4 {
            Instruction::of(
                Opcode::INC,
                InstructionType::Arithmetic(arithmetic_arg_at(register)),
                1,
                if in_memory { 3 } else { 1 },
            )
        } else if byte % 8 == 5 {
            Instruction::of(
                Opcode::DEC,
                InstructionType::Arithmetic(arithmetic_arg_at(register)),
                1,
                if in_memory { 3 } else { 1 },
            )
        } else if byte % 8 == 6 {
            Instruction::of(
                Opcode::LD,
                InstructionType::Load(load_target_at(register), LoadSource::D8),
                2,
                if in_memory { 3 } else { 2 },
            )
        } else if byte % 8 == 7 {
            Instruction::of(
                accumulator_op_at(register),
                if register < 4 {
                    InstructionType::Rotate(Word8::A)
                } else {
                    InstructionType::Arithmetic(ArithmeticArg::Implied)
                },
                1,
                1,
            )
        } else if column == 0x1 {
            Instruction::of(Opcode::LD, InstructionType::Load16(word16_at(row)), 3, 3)
        } else if column == 0x2 {
            Instruction::of(Opcode::LD, InstructionType::Load(indirect_target_at(row), LoadSource::A), 1, 2)
        } else if column == 0x3 {
            Instruction::of(Opcode::INC, InstructionType::Unary16(word16_at(row)), 1, 2)
        } else if column == 0x9 {
            Instruction::of(Opcode::ADD, InstructionType::Add16(word16_at(row)), 1, 2)
        } else if column == 0xA {
            Instruction::of(Opcode::LD, InstructionType::Load(LoadTarget::A, indirect_source_at(row)), 1, 2)
        } else if column == 0xB {
            Instruction::of(Opcode::DEC, InstructionType::Unary16(word16_at(row)), 1, 2)
        } else if byte == 0x00 {
            Instruction::of(Opcode::NOP, InstructionType::Misc, 1, 1)
        } else if byte == 0x08 {
            Instruction::of(Opcode::LD, InstructionType::LoadMemory16, 3, 5)
        } else if byte == 0x10 {
            Instruction::of(Opcode::STOP, InstructionType::Misc, 2, 1)
        } else if byte == 0x18 {
            Instruction::of(Opcode::JR, InstructionType::Jump(JumpCond::Always), 2, 3)
        } else {
            Instruction::of(Opcode::JR, InstructionType::Jump(condition_at(register - 4)), 2, 3)
        }
    }

    /// Bytes 0x40 to 0x7F: register-to-register loads, with the halt
    /// instruction in the place of the load from memory to memory.
    pub open spec fn decode_second_quarter(byte: u8) -> Instruction {
        let target = (byte as int - 0x40) / 8;
        let source = byte as int % 8;
        if byte == 0x76 {
            Instruction::of(Opcode::HALT, InstructionType::Misc, 1, 1)
        } else {
            Instruction::of(
                Opcode::LD,
                InstructionType::Load(load_target_at(target), load_source_at(source)),
                1,
                if target == 6 || source == 6 { 2 } else { 1 },
            )
        }
    }

    /// Bytes 0x80 to 0xBF: the eight accumulator operations on each of the
    /// eight 8-bit operands.
    pub open spec fn decode_third_quarter(byte: u8) -> Instruction {
        let operand = byte as int % 8;
        Instruction::of(
            alu_op_at((byte as int - 0x80) / 8),
            InstructionType::Arithmetic(arithmetic_arg_at(operand)),
            1,
            if operand == 6 { 2 } else { 1 },
        )
    }

    /// Bytes 0xC0 to 0xFF but the prefix byte: control flow, the stack,
    /// accumulator operations on an immediate byte, the high-memory loads
    /// and the interrupt switches. Eleven bytes have nothing assigned.
    pub open spec fn decode_fourth_quarter(byte: u8) -> Instruction {
        let row = (byte as int - 0xC0) / 16;
        let column = byte as int % 16;
        let eighth = (byte as int - 0xC0) / 8;
        if byte % 8 == 7 {
            Instruction::of(Opcode::RST, InstructionType::RST((byte - 0xC7) as u8), 1, 4)
        } else if byte % 8 == 6 {
            Instruction::of(alu_op_at(eighth), InstructionType::Arithmetic(ArithmeticArg::D8), 2, 2)
        } else if column == 0x1 {
            Instruction::of(Opcode::POP, InstructionType::Pop(register_pair_at(row)), 1, 3)
        } else if column == 0x5 {
            Instruction::of(Opcode::PUSH, InstructionType::Push(register_pair_at(row)), 1, 4)
        } else if byte < 0xE0 && byte % 8 == 0 {
            Instruction::of(Opcode::RET, InstructionType::Return(condition_at(eighth)), 1, 5)
        } else if byte < 0xE0 && byte % 8 == 2 {
            Instruction::of(Opcode::JP, InstructionType::Jump(condition_at(eighth)), 3, 4)
        } else if byte < 0xE0 && byte % 8 == 4 {
            Instruction::of(Opcode::CALL, InstructionType::Call(condition_at(eighth)), 3, 6)
        } else if byte == 0xC3 {
            Instruction::of(Opcode::JP, InstructionType::Jump(JumpCond::Always), 3, 4)
        } else if byte == 0xC9 {
            Instruction::of(Opcode::RET, InstructionType::Return(JumpCond::Always), 1, 4)
        } else if byte == 0xCD {
            Instruction::of(Opcode::CALL, InstructionType::Call(JumpCond::Always), 3, 6)
        } else if byte == 0xD9 {
            Instruction::of(Opcode::RETI, InstructionType::Return(JumpCond::Always), 1, 4)
        } else if byte == 0xE0 {
            Instruction::of(Opcode::LDH, InstructionType::Load(LoadTarget::A8, LoadSource::A), 2, 3)
        } else if byte == 0xE2 {
            Instruction::of(Opcode::LD, InstructionType::Load(LoadTarget::CA, LoadSource::A), 1, 2)
        } else if byte == 0xE8 {
            Instruction::of(Opcode::ADD, InstructionType::AddSP, 2, 4)
        } else if byte == 0xE9 {
            Instruction::of(Opcode::JP, InstructionType::JumpHL, 1, 1)
        } else if byte == 0xEA {
            Instruction::of(Opcode::LD, InstructionType::Load(LoadTarget::A16, LoadSource::A), 3, 4)
        } else if byte == 0xF0 {
            Instruction::of(Opcode::LDH, InstructionType::Load(LoadTarget::A, LoadSource::A8), 2, 3)
        } else if byte == 0xF2 {
            Instruction::of(Opcode::LD, InstructionType::Load(LoadTarget::A, LoadSource::CA), 2, 2)
        } else if byte == 0xF3 {
            Instruction::of(Opcode::DI, InstructionType::Misc, 1, 1)
        } else if byte == 0xF8 {
            Instruction::of(Opcode::LDHL, InstructionType::LoadHL, 2, 4)
        } else if byte == 0xF9 {
            Instruction::of(Opcode::LDSP, InstructionType::LoadSP, 1, 4)
        } else if byte == 0xFA {
            Instruction::of(Opcode::LD, InstructionType::Load(LoadTarget::A, LoadSource::A16), 3, 4)
        } else if byte == 0xFB {
            Instruction::of(Opcode::EI, InstructionType::Misc, 1, 1)
        } else {
            Instruction::unsupported()
        }
    }

    /// The descriptor of the instruction that starts with `byte`. The
    /// second byte is consulted only behind the prefix byte.
    pub open spec fn decode(byte: u8, next_byte: u8) -> Instruction {
        if byte == PREFIX_BYTE {
            Instruction::decode_prefix(next_byte)
        } else if byte < 0x40 {
            Instruction::decode_first_quarter(byte)
        } else if byte < 0x80 {
            Instruction::decode_second_quarter(byte)
        } else if byte < 0xC0 {
            Instruction::decode_third_quarter(byte)
        } else {
            Instruction::decode_fourth_quarter(byte)
        }
    }

    /// Every descriptor that the decoder yields can be executed.
    pub proof fn lemma_decode_well_formed(byte: u8, next_byte: u8)
        ensures
            Instruction::decode(byte, next_byte).well_formed(),
    {
    }

    /// The decoder yields the unsupported descriptor for the eleven
    /// unassigned bytes and for no other, and it never yields the operand
    /// shape of the 16-bit arithmetic that has no operation.
    pub proof fn lemma_decode_unsupported(byte: u8, next_byte: u8)
        ensures
            Instruction::decode(byte, next_byte).instr_type is Unsupported <==> is_unassigned(byte),
            is_unassigned(byte) ==> Instruction::decode(byte, next_byte) == Instruction::unsupported(),
            !(Instruction::decode(byte, next_byte).instr_type is Arithmetic16),
    {
    }

    /// Decodes the instruction that starts with `byte`; `next_byte` is the
    /// byte that follows it in memory.
    #[verifier::rlimit(30)]
    pub fn from_byte(byte: u8, next_byte: u8) -> (r: Instruction)
        ensures
            r == Instruction::decode(byte, next_byte),
            r.well_formed(),
    {
        match byte {
            0x00 => Instruction { op: Opcode::NOP, instr_type: InstructionType::Misc, instr_len: 1, cycle_len: 1 },
            0x01 => Instruction { op: Opcode::LD, instr_type: InstructionType::Load16(Word16::BC), instr_len: 3, cycle_len: 3 },
            0x02 => Instruction { op: Opcode::LD, instr_type: InstructionType::Load(LoadTarget::BC, LoadSource::A), instr_len: 1, cycle_len: 2 },
            0x03 => Instruction { op: Opcode::INC, instr_type: InstructionType::Unary16(Word16::BC), instr_len: 1, cycle_len: 2 },
            0x04 => Instruction { op: Opcode::INC, instr_type: InstructionType::Arithmetic(ArithmeticArg::B), instr_len: 1, cycle_len: 1 },
            0x05 => Instruction { op: Opcode::DEC, instr_type: InstructionType::Arithmetic(ArithmeticArg::B), instr_len: 1, cycle_len: 1 },
            0x06 => Instruction { op: Opcode::LD, instr_type: InstructionType::Load(LoadTarget::B, LoadSource::D8), instr_len: 2, cycle_len: 2 },
            0x07 => Instruction { op: Opcode::RLCA, instr_type: InstructionType::Rotate(Word8::A), instr_len: 1, cycle_len: 1 },
            0x08 => Instruction { op: Opcode::LD, instr_type: InstructionType::LoadMemory16, instr_len: 3, cycle_len: 5 },
            0x09 => Instruction { op: Opcode::ADD, instr_type: InstructionType::Add16(Word16::BC), instr_len: 1, cycle_len: 2 },
            0x0A => Instruction { op: Opcode::LD, instr_type: InstructionType::Load(LoadTarget::A, LoadSource::BC), instr_len: 1, cycle_len: 2 },
            0x0B => Instruction { op: Opcode::DEC, instr_type: InstructionType::Unary16(Word16::BC), instr_len: 1, cycle_len: 2 },
            0x0C => Instruction { op: Opcode::INC, instr_type: InstructionType::Arithmetic(ArithmeticArg::C), instr_len: 1, cycle_len: 1 },
            0x0D => Instruction { op: Opcode::DEC, instr_type: InstructionType::Arithmetic(ArithmeticArg::C), instr_len: 1, cycle_len: 1 },
            0x0E => Instruction { op: Opcode::LD, instr_type: InstructionType::Load(LoadTarget::C, LoadSource::D8), instr_len: 2, cycle_len: 2 },
            0x0F => Instruction { op: Opcode::RRCA, instr_type: InstructionType::Rotate(Word8::A), instr_len: 1, cycle_len: 1 },
            0x10 => Instruction { op: Opcode::STOP, instr_type: InstructionType::Misc, instr_len: 2, cycle_len: 1 },
            0x11 => Instruction { op: Opcode::LD, instr_type: InstructionType::Load16(Word16::DE), instr_len: 3, cycle_len: 3 },
            0x12 => Instruction { op: Opcode::LD, instr_type: InstructionType::Load(LoadTarget::DE, LoadSource::A), instr_len: 1, cycle_len: 2 },
            0x13 => Instruction { op: Opcode::INC, instr_type: InstructionType::Unary16(Word16::DE), instr_len: 1, cycle_len: 2 },
            0x14 => Instruction { op: Opcode::INC, instr_type: InstructionType::Arithmetic(ArithmeticArg::D), instr_len: 1, cycle_len: 1 },
            0x15 => Instruction { op: Opcode::DEC, instr_type: InstructionType::Arithmetic(ArithmeticArg::D), instr_len: 1, cycle_len: 1 },
            0x16 => Instruction { op: Opcode::LD, instr_type: InstructionType::Load(LoadTarget::D, LoadSource::D8), instr_len: 2, cycle_len: 2 },
            0x17 => Instruction { op: Opcode::RLA, instr_type: InstructionType::Rotate(Word8::A), instr_len: 1, cycle_len: 1 },
            0x18 => Instruction { op: Opcode::JR, instr_type: InstructionType::Jump(JumpCond::Always), instr_len: 2, cycle_len: 3 },
            0x19 => Instruction { op: Opcode::ADD, instr_type: InstructionType::Add16(Word16::DE), instr_len: 1, cycle_len: 2 },
            0x1A => Instruction { op: Opcode::LD, instr_type: InstructionType::Load(LoadTarget::A, LoadSource::DE), instr_len: 1, cycle_len: 2 },
            0x1B => Instruction { op: Opcode::DEC, instr_type: InstructionType::Unary16(Word16::DE), instr_len: 1, cycle_len: 2 },
            0x1C => Instruction { op: Opcode::INC, instr_type: InstructionType::Arithmetic(ArithmeticArg::E), instr_len: 1, cycle_len: 1 },
            0x1D => Instruction { op: Opcode::DEC, instr_type: InstructionType::Arithmetic(ArithmeticArg::E), instr_len: 1, cycle_len: 1 },
            0x1E => Instruction { op: Opcode::LD, instr_type: InstructionType::Load(LoadTarget::E, LoadSource::D8), instr_len: 2, cycle_len: 2 },
            0x1F => Instruction { op: Opcode::RRA, instr_type: InstructionType::Rotate(Word8::A), instr_len: 1, cycle_len: 1 },
            0x20 => Instruction { op: Opcode::JR, instr_type: InstructionType::Jump(JumpCond::NotZero), instr_len: 2, cycle_len: 3 },
            0x21 => Instruction { op: Opcode::LD, instr_type: InstructionType::Load16(Word16::HL), instr_len: 3, cycle_len: 3 },
            0x22 => Instruction { op: Opcode::LD, instr_type: InstructionType::Load(LoadTarget::HLI, LoadSource::A), instr_len: 1, cycle_len: 2 },
            0x23 => Instruction { op: Opcode::INC, instr_type: InstructionType::Unary16(Word16::HL), instr_len: 1, cycle_len: 2 },
            0x24 => Instruction { op: Opcode::INC, instr_type: InstructionType::Arithmetic(ArithmeticArg::H), instr_len: 1, cycle_len: 1 },
            0x25 => Instruction { op: Opcode::DEC, instr_type: InstructionType::Arithmetic(ArithmeticArg::H), instr_len: 1, cycle_len: 1 },
            0x26 => Instruction { op: Opcode::LD, instr_type: InstructionType::Load(LoadTarget::H, LoadSource::D8), instr_len: 2, cycle_len: 2 },
            0x27 => Instruction { op: Opcode::DAA, instr_type: InstructionType::Arithmetic(ArithmeticArg::Implied), instr_len: 1, cycle_len: 1 },
            0x28 => Instruction { op: Opcode::JR, instr_type: InstructionType::Jump(JumpCond::Zero), instr_len: 2, cycle_len: 3 },
            0x29 => Instruction { op: Opcode::ADD, instr_type: InstructionType::Add16(Word16::HL), instr_len: 1, cycle_len: 2 },
            0x2A => Instruction { op: Opcode::LD, instr_type: InstructionType::Load(LoadTarget::A, LoadSource::HLI), instr_len: 1, cycle_len: 2 },
            0x2B => Instruction { op: Opcode::DEC, instr_type: InstructionType::Unary16(Word16::HL), instr_len: 1, cycle_len: 2 },
            0x2C => Instruction { op: Opcode::INC, instr_type: InstructionType::Arithmetic(ArithmeticArg::L), instr_len: 1, cycle_len: 1 },
            0x2D => Instruction { op: Opcode::DEC, instr_type: InstructionType::Arithmetic(ArithmeticArg::L), instr_len: 1, cycle_len: 1 },
            0x2E => Instruction { op: Opcode::LD, instr_type: InstructionType::Load(LoadTarget::L, LoadSource::D8), instr_len: 2, cycle_len: 2 },
            0x2F => Instruction { op: Opcode::CPL, instr_type: InstructionType::Arithmetic(ArithmeticArg::Implied), instr_len: 1, cycle_len: 1 },
            0x30 => Instruction { op: Opcode::JR, instr_type: InstructionType::Jump(JumpCond::NotCarry), instr_len: 2, cycle_len: 3 },
            0x31 => Instruction { op: Opcode::LD, instr_type: InstructionType::Load16(Word16::SP), instr_len: 3, cycle_len: 3 },
            0x32 => Instruction { op: Opcode::LD, instr_type: InstructionType::Load(LoadTarget::HLD, LoadSource::A), instr_len: 1, cycle_len: 2 },
            0x33 => Instruction { op: Opcode::INC, instr_type: InstructionType::Unary16(Word16::SP), instr_len: 1, cycle_len: 2 },
            0x34 => Instruction { op: Opcode::INC, instr_type: InstructionType::Arithmetic(ArithmeticArg::HL), instr_len: 1, cycle_len: 3 },
            0x35 => Instruction { op: Opcode::DEC, instr_type: InstructionType::Arithmetic(ArithmeticArg::HL), instr_len: 1, cycle_len: 3 },
            0x36 => Instruction { op: Opcode::LD, instr_type: InstructionType::Load(LoadTarget::HL, LoadSource::D8), instr_len: 2, cycle_len: 3 },
            0x37 => Instruction { op: Opcode::SCF, instr_type: InstructionType::Arithmetic(ArithmeticArg::Implied), instr_len: 1, cycle_len: 1 },
            0x38 => Instruction { op: Opcode::JR, instr_type: InstructionType::Jump(JumpCond::Carry), instr_len: 2, cycle_len: 3 },
            0x39 => Instruction { op: Opcode::ADD, instr_type: InstructionType::Add16(Word16::SP), instr_len: 1, cycle_len: 2 },
            0x3A => Instruction { op: Opcode::LD, instr_type: InstructionType::Load(LoadTarget::A, LoadSource::HLD), instr_len: 1, cycle_len: 2 },
            0x3B => Instruction { op: Opcode::DEC, instr_type: InstructionType::Unary16(Word16::SP), instr_len: 1, cycle_len: 2 },
            0x3C => Instruction { op: Opcode::INC, instr_type: InstructionType::Arithmetic(ArithmeticArg::A), instr_len: 1, cycle_len: 1 },
            0x3D => Instruction { op: Opcode::DEC, instr_type: InstructionType::Arithmetic(ArithmeticArg::A), instr_len: 1, cycle_len: 1 },
            0x3E => Instruction { op: Opcode::LD, instr_type: InstructionType::Load(LoadTarget::A, LoadSource::D8), instr_len: 2, cycle_len: 2 },
            0x3F => Instruction { op: Opcode::CCF, instr_type: InstructionType::Arithmetic(ArithmeticArg::Implied), instr_len: 1, cycle_len: 1 },
            0x40 => Instruction { op: Opcode::LD, instr_type: InstructionType::Load(LoadTarget::B, LoadSource::B), instr_len: 1, cycle_len: 1 },
            0x41 => Instruction { op: Opcode::LD, instr_type: InstructionType::Load(LoadTarget::B, LoadSource::C), instr_len: 1, cycle_len: 1 },
            0x42 => Instruction { op: Opcode::LD, instr_type: InstructionType::Load(LoadTarget::B, LoadSource::D), instr_len: 1, cycle_len: 1 },
            0x43 => Instruction { op: Opcode::LD, instr_type: InstructionType::Load(LoadTarget::B, LoadSource::E), instr_len: 1, cycle_len: 1 },
            0x44 => Instruction { op: Opcode::LD, instr_type: InstructionType::Load(LoadTarget::B, LoadSource::H), instr_len: 1, cycle_len: 1 },
            0x45 => Instruction { op: Opcode::LD, instr_type: InstructionType::Load(LoadTarget::B, LoadSource::L), instr_len: 1, cycle_len: 1 },
            0x46 => Instruction { op: Opcode::LD, instr_type: InstructionType::Load(LoadTarget::B, LoadSource::HL), instr_len: 1, cycle_len: 2 },
            0x47 => Instruction { op: Opcode::LD, instr_type: InstructionType::Load(LoadTarget::B, LoadSource::A), instr_len: 1, cycle_len: 1 },
            0x48 => Instruction { op: Opcode::LD, instr_type: InstructionType::Load(LoadTarget::C, LoadSource::B), instr_len: 1, cycle_len: 1 },
            0x49 => Instruction { op: Opcode::LD, instr_type: InstructionType::Load(LoadTarget::C, LoadSource::C), instr_len: 1, cycle_len: 1 },
            0x4A => Instruction { op: Opcode::LD, instr_type: InstructionType::Load(LoadTarget::C, LoadSource::D), instr_len: 1, cycle_len: 1 },
            0x4B => Instruction { op: Opcode::LD, instr_type: InstructionType::Load(LoadTarget::C, LoadSource::E), instr_len: 1, cycle_len: 1 },
            0x4C => Instruction { op: Opcode::LD, instr_type: InstructionType::Load(LoadTarget::C, LoadSource::H), instr_len: 1, cycle_len: 1 },
            0x4D => Instruction { op: Opcode::LD, instr_type: InstructionType::Load(LoadTarget::C, LoadSource::L), instr_len: 1, cycle_len: 1 },
            0x4E => Instruction { op: Opcode::LD, instr_type: InstructionType::Load(LoadTarget::C, LoadSource::HL), instr_len: 1, cycle_len: 2 },
            0x4F => Instruction { op: Opcode::LD, instr_type: InstructionType::Load(LoadTarget::C, LoadSource::A), instr_len: 1, cycle_len: 1 },
            0x50 => Instruction { op: Opcode::LD, instr_type: InstructionType::Load(LoadTarget::D, LoadSource::B), instr_len: 1, cycle_len: 1 },
            0x51 => Instruction { op: Opcode::LD, instr_type: InstructionType::Load(LoadTarget::D, LoadSource::C), instr_len: 1, cycle_len: 1 },
            0x52 => Instruction { op: Opcode::LD, instr_type: InstructionType::Load(LoadTarget::D, LoadSource::D), instr_len: 1, cycle_len: 1 },
            0x53 => Instruction { op: Opcode::LD, instr_type: InstructionType::Load(LoadTarget::D, LoadSource::E), instr_len: 1, cycle_len: 1 },
            0x54 => Instruction { op: Opcode::LD, instr_type: InstructionType::Load(LoadTarget::D, LoadSource::H), instr_len: 1, cycle_len: 1 },
            0x55 => Instruction { op: Opcode::LD, instr_type: InstructionType::Load(LoadTarget::D, LoadSource::L), instr_len: 1, cycle_len: 1 },
            0x56 => Instruction { op: Opcode::LD, instr_type: InstructionType::Load(LoadTarget::D, LoadSource::HL), instr_len: 1, cycle_len: 2 },
            0x57 => Instruction { op: Opcode::LD, instr_type: InstructionType::Load(LoadTarget::D, LoadSource::A), instr_len: 1, cycle_len: 1 },
            0x58 => Instruction { op: Opcode::LD, instr_type: InstructionType::Load(LoadTarget::E, LoadSource::B), instr_len: 1, cycle_len: 1 },
            0x59 => Instruction { op: Opcode::LD, instr_type: InstructionType::Load(LoadTarget::E, LoadSource::C), instr_len: 1, cycle_len: 1 },
            0x5A => Instruction { op: Opcode::LD, instr_type: InstructionType::Load(LoadTarget::E, LoadSource::D), instr_len: 1, cycle_len: 1 },
            0x5B => Instruction { op: Opcode::LD, instr_type: InstructionType::Load(LoadTarget::E, LoadSource::E), instr_len: 1, cycle_len: 1 },
            0x5C => Instruction { op: Opcode::LD, instr_type: InstructionType::Load(LoadTarget::E, LoadSource::H), instr_len: 1, cycle_len: 1 },
            0x5D => Instruction { op: Opcode::LD, instr_type: InstructionType::Load(LoadTarget::E, LoadSource::L), instr_len: 1, cycle_len: 1 },
            0x5E => Instruction { op: Opcode::LD, instr_type: InstructionType::Load(LoadTarget::E, LoadSource::HL), instr_len: 1, cycle_len: 2 },
            0x5F => Instruction { op: Opcode::LD, instr_type: InstructionType::Load(LoadTarget::E, LoadSource::A), instr_len: 1, cycle_len: 1 },
            0x60 => Instruction { op: Opcode::LD, instr_type: InstructionType::Load(LoadTarget::H, LoadSource::B), instr_len: 1, cycle_len: 1 },
            0x61 => Instruction { op: Opcode::LD, instr_type: InstructionType::Load(LoadTarget::H, LoadSource::C), instr_len: 1, cycle_len: 1 },
            0x62 => Instruction { op: Opcode::LD, instr_type: InstructionType::Load(LoadTarget::H, LoadSource::D), instr_len: 1, cycle_len: 1 },
            0x63 => Instruction { op: Opcode::LD, instr_type: InstructionType::Load(LoadTarget::H, LoadSource::E), instr_len: 1, cycle_len: 1 },
            0x64 => Instruction { op: Opcode::LD, instr_type: InstructionType::Load(LoadTarget::H, LoadSource::H), instr_len: 1, cycle_len: 1 },
            0x65 => Instruction { op: Opcode::LD, instr_type: InstructionType::Load(LoadTarget::H, LoadSource::L), instr_len: 1, cycle_len: 1 },
            0x66 => Instruction { op: Opcode::LD, instr_type: InstructionType::Load(LoadTarget::H, LoadSource::HL), instr_len: 1, cycle_len: 2 },
            0x67 => Instruction { op: Opcode::LD, instr_type: InstructionType::Load(LoadTarget::H, LoadSource::A), instr_len: 1, cycle_len: 1 },
            0x68 => Instruction { op: Opcode::LD, instr_type: InstructionType::Load(LoadTarget::L, LoadSource::B), instr_len: 1, cycle_len: 1 },
            0x69 => Instruction { op: Opcode::LD, instr_type: InstructionType::Load(LoadTarget::L, LoadSource::C), instr_len: 1, cycle_len: 1 },
            0x6A => Instruction { op: Opcode::LD, instr_type: InstructionType::Load(LoadTarget::L, LoadSource::D), instr_len: 1, cycle_len: 1 },
            0x6B => Instruction { op: Opcode::LD, instr_type: InstructionType::Load(LoadTarget::L, LoadSource::E), instr_len: 1, cycle_len: 1 },
            0x6C => Instruction { op: Opcode::LD, instr_type: InstructionType::Load(LoadTarget::L, LoadSource::H), instr_len: 1, cycle_len: 1 },
            0x6D => Instruction { op: Opcode::LD, instr_type: InstructionType::Load(LoadTarget::L, LoadSource::L), instr_len: 1, cycle_len: 1 },
            0x6E => Instruction { op: Opcode::LD, instr_type: InstructionType::Load(LoadTarget::L, LoadSource::HL), instr_len: 1, cycle_len: 2 },
            0x6F => Instruction { op: Opcode::LD, instr_type: InstructionType::Load(LoadTarget::L, LoadSource::A), instr_len: 1, cycle_len: 1 },
            0x70 => Instruction { op: Opcode::LD, instr_type: InstructionType::Load(LoadTarget::HL, LoadSource::B), instr_len: 1, cycle_len: 2 },
            0x71 => Instruction { op: Opcode::LD, instr_type: InstructionType::Load(LoadTarget::HL, LoadSource::C), instr_len: 1, cycle_len: 2 },
            0x72 => Instruction { op: Opcode::LD, instr_type: InstructionType::Load(LoadTarget::HL, LoadSource::D), instr_len: 1, cycle_len: 2 },
            0x73 => Instruction { op: Opcode::LD, instr_type: InstructionType::Load(LoadTarget::HL, LoadSource::E), instr_len: 1, cycle_len: 2 },
            0x74 => Instruction { op: Opcode::LD, instr_type: InstructionType::Load(LoadTarget::HL, LoadSource::H), instr_len: 1, cycle_len: 2 },
            0x75 => Instruction { op: Opcode::LD, instr_type: InstructionType::Load(LoadTarget::HL, LoadSource::L), instr_len: 1, cycle_len: 2 },
            0x76 => Instruction { op: Opcode::HALT, instr_type: InstructionType::Misc, instr_len: 1, cycle_len: 1 },
            0x77 => Instruction { op: Opcode::LD, instr_type: InstructionType::Load(LoadTarget::HL, LoadSource::A), instr_len: 1, cycle_len: 2 },
            0x78 => Instruction { op: Opcode::LD, instr_type: InstructionType::Load(LoadTarget::A, LoadSource::B), instr_len: 1, cycle_len: 1 },
            0x79 => Instruction { op: Opcode::LD, instr_type: InstructionType::Load(LoadTarget::A, LoadSource::C), instr_len: 1, cycle_len: 1 },
            0x7A => Instruction { op: Opcode::LD, instr_type: InstructionType::Load(LoadTarget::A, LoadSource::D), instr_len: 1, cycle_len: 1 },
            0x7B => Instruction { op: Opcode::LD, instr_type: InstructionType::Load(LoadTarget::A, LoadSource::E), instr_len: 1, cycle_len: 1 },
            0x7C => Instruction { op: Opcode::LD, instr_type: InstructionType::Load(LoadTarget::A, LoadSource::H), instr_len: 1, cycle_len: 1 },
            0x7D => Instruction { op: Opcode::LD, instr_type: InstructionType::Load(LoadTarget::A, LoadSource::L), instr_len: 1, cycle_len: 1 },
            0x7E => Instruction { op: Opcode::LD, instr_type: InstructionType::Load(LoadTarget::A, LoadSource::HL), instr_len: 1, cycle_len: 2 },
            0x7F => Instruction { op: Opcode::LD, instr_type: InstructionType::Load(LoadTarget::A, LoadSource::A), instr_len: 1, cycle_len: 1 },
            0x80 => Instruction { op: Opcode::ADD, instr_type: InstructionType::Arithmetic(ArithmeticArg::B), instr_len: 1, cycle_len: 1 },
            0x81 => Instruction { op: Opcode::ADD, instr_type: InstructionType::Arithmetic(ArithmeticArg::C), instr_len: 1, cycle_len: 1 },
            0x82 => Instruction { op: Opcode::ADD, instr_type: InstructionType::Arithmetic(ArithmeticArg::D), instr_len: 1, cycle_len: 1 },
            0x83 => Instruction { op: Opcode::ADD, instr_type: InstructionType::Arithmetic(ArithmeticArg::E), instr_len: 1, cycle_len: 1 },
            0x84 => Instruction { op: Opcode::ADD, instr_type: InstructionType::Arithmetic(ArithmeticArg::H), instr_len: 1, cycle_len: 1 },
            0x85 => Instruction { op: Opcode::ADD, instr_type: InstructionType::Arithmetic(ArithmeticArg::L), instr_len: 1, cycle_len: 1 },
            0x86 => Instruction { op: Opcode::ADD, instr_type: InstructionType::Arithmetic(ArithmeticArg::HL), instr_len: 1, cycle_len: 2 },
            0x87 => Instruction { op: Opcode::ADD, instr_type: InstructionType::Arithmetic(ArithmeticArg::A), instr_len: 1, cycle_len: 1 },
            0x88 => Instruction { op: Opcode::ADC, instr_type: InstructionType::Arithmetic(ArithmeticArg::B), instr_len: 1, cycle_len: 1 },
            0x89 => Instruction { op: Opcode::ADC, instr_type: InstructionType::Arithmetic(ArithmeticArg::C), instr_len: 1, cycle_len: 1 },
            0x8A => Instruction { op: Opcode::ADC, instr_type: InstructionType::Arithmetic(ArithmeticArg::D), instr_len: 1, cycle_len: 1 },
            0x8B => Instruction { op: Opcode::ADC, instr_type: InstructionType::Arithmetic(ArithmeticArg::E), instr_len: 1, cycle_len: 1 },
            0x8C => Instruction { op: Opcode::ADC, instr_type: InstructionType::Arithmetic(ArithmeticArg::H), instr_len: 1, cycle_len: 1 },
            0x8D => Instruction { op: Opcode::ADC, instr_type: InstructionType::Arithmetic(ArithmeticArg::L), instr_len: 1, cycle_len: 1 },
            0x8E => Instruction { op: Opcode::ADC, instr_type: InstructionType::Arithmetic(ArithmeticArg::HL), instr_len: 1, cycle_len: 2 },
            0x8F => Instruction { op: Opcode::ADC, instr_type: InstructionType::Arithmetic(ArithmeticArg::A), instr_len: 1, cycle_len: 1 },
            0x90 => Instruction { op: Opcode::SUB, instr_type: InstructionType::Arithmetic(ArithmeticArg::B), instr_len: 1, cycle_len: 1 },
            0x91 => Instruction { op: Opcode::SUB, instr_type: InstructionType::Arithmetic(ArithmeticArg::C), instr_len: 1, cycle_len: 1 },
            0x92 => Instruction { op: Opcode::SUB, instr_type: InstructionType::Arithmetic(ArithmeticArg::D), instr_len: 1, cycle_len: 1 },
            0x93 => Instruction { op: Opcode::SUB, instr_type: InstructionType::Arithmetic(ArithmeticArg::E), instr_len: 1, cycle_len: 1 },
            0x94 => Instruction { op: Opcode::SUB, instr_type: InstructionType::Arithmetic(ArithmeticArg::H), instr_len: 1, cycle_len: 1 },
            0x95 => Instruction { op: Opcode::SUB, instr_type: InstructionType::Arithmetic(ArithmeticArg::L), instr_len: 1, cycle_len: 1 },
            0x96 => Instruction { op: Opcode::SUB, instr_type: InstructionType::Arithmetic(ArithmeticArg::HL), instr_len: 1, cycle_len: 2 },
            0x97 => Instruction { op: Opcode::SUB, instr_type: InstructionType::Arithmetic(ArithmeticArg::A), instr_len: 1, cycle_len: 1 },
            0x98 => Instruction { op: Opcode::SBC, instr_type: InstructionType::Arithmetic(ArithmeticArg::B), instr_len: 1, cycle_len: 1 },
            0x99 => Instruction { op: Opcode::SBC, instr_type: InstructionType::Arithmetic(ArithmeticArg::C), instr_len: 1, cycle_len: 1 },
            0x9A => Instruction { op: Opcode::SBC, instr_type: InstructionType::Arithmetic(ArithmeticArg::D), instr_len: 1, cycle_len: 1 },
            0x9B => Instruction { op: Opcode::SBC, instr_type: InstructionType::Arithmetic(ArithmeticArg::E), instr_len: 1, cycle_len: 1 },
            0x9C => Instruction { op: Opcode::SBC, instr_type: InstructionType::Arithmetic(ArithmeticArg::H), instr_len: 1, cycle_len: 1 },
            0x9D => Instruction { op: Opcode::SBC, instr_type: InstructionType::Arithmetic(ArithmeticArg::L), instr_len: 1, cycle_len: 1 },
            0x9E => Instruction { op: Opcode::SBC, instr_type: InstructionType::Arithmetic(ArithmeticArg::HL), instr_len: 1, cycle_len: 2 },
            0x9F => Instruction { op: Opcode::SBC, instr_type: InstructionType::Arithmetic(ArithmeticArg::A), instr_len: 1, cycle_len: 1 },
            0xA0 => Instruction { op: Opcode::AND, instr_type: InstructionType::Arithmetic(ArithmeticArg::B), instr_len: 1, cycle_len: 1 },
            0xA1 => Instruction { op: Opcode::AND, instr_type: InstructionType::Arithmetic(ArithmeticArg::C), instr_len: 1, cycle_len: 1 },
            0xA2 => Instruction { op: Opcode::AND, instr_type: InstructionType::Arithmetic(ArithmeticArg::D), instr_len: 1, cycle_len: 1 },
            0xA3 => Instruction { op: Opcode::AND, instr_type: InstructionType::Arithmetic(ArithmeticArg::E), instr_len: 1, cycle_len: 1 },
            0xA4 => Instruction { op: Opcode::AND, instr_type: InstructionType::Arithmetic(ArithmeticArg::H), instr_len: 1, cycle_len: 1 },
            0xA5 => Instruction { op: Opcode::AND, instr_type: InstructionType::Arithmetic(ArithmeticArg::L), instr_len: 1, cycle_len: 1 },
            0xA6 => Instruction { op: Opcode::AND, instr_type: InstructionType::Arithmetic(ArithmeticArg::HL), instr_len: 1, cycle_len: 2 },
            0xA7 => Instruction { op: Opcode::AND, instr_type: InstructionType::Arithmetic(ArithmeticArg::A), instr_len: 1, cycle_len: 1 },
            0xA8 => Instruction { op: Opcode::XOR, instr_type: InstructionType::Arithmetic(ArithmeticArg::B), instr_len: 1, cycle_len: 1 },
            0xA9 => Instruction { op: Opcode::XOR, instr_type: InstructionType::Arithmetic(ArithmeticArg::C), instr_len: 1, cycle_len: 1 },
            0xAA => Instruction { op: Opcode::XOR, instr_type: InstructionType::Arithmetic(ArithmeticArg::D), instr_len: 1, cycle_len: 1 },
            0xAB => Instruction { op: Opcode::XOR, instr_type: InstructionType::Arithmetic(ArithmeticArg::E), instr_len: 1, cycle_len: 1 },
            0xAC => Instruction { op: Opcode::XOR, instr_type: InstructionType::Arithmetic(ArithmeticArg::H), instr_len: 1, cycle_len: 1 },
            0xAD => Instruction { op: Opcode::XOR, instr_type: InstructionType::Arithmetic(ArithmeticArg::L), instr_len: 1, cycle_len: 1 },
            0xAE => Instruction { op: Opcode::XOR, instr_type: InstructionType::Arithmetic(ArithmeticArg::HL), instr_len: 1, cycle_len: 2 },
            0xAF => Instruction { op: Opcode::XOR, instr_type: InstructionType::Arithmetic(ArithmeticArg::A), instr_len: 1, cycle_len: 1 },
            0xB0 => Instruction { op: Opcode::OR, instr_type: InstructionType::Arithmetic(ArithmeticArg::B), instr_len: 1, cycle_len: 1 },
            0xB1 => Instruction { op: Opcode::OR, instr_type: InstructionType::Arithmetic(ArithmeticArg::C), instr_len: 1, cycle_len: 1 },
            0xB2 => Instruction { op: Opcode::OR, instr_type: InstructionType::Arithmetic(ArithmeticArg::D), instr_len: 1, cycle_len: 1 },
            0xB3 => Instruction { op: Opcode::OR, instr_type: InstructionType::Arithmetic(ArithmeticArg::E), instr_len: 1, cycle_len: 1 },
            0xB4 => Instruction { op: Opcode::OR, instr_type: InstructionType::Arithmetic(ArithmeticArg::H), instr_len: 1, cycle_len: 1 },
            0xB5 => Instruction { op: Opcode::OR, instr_type: InstructionType::Arithmetic(ArithmeticArg::L), instr_len: 1, cycle_len: 1 },
            0xB6 => Instruction { op: Opcode::OR, instr_type: InstructionType::Arithmetic(ArithmeticArg::HL), instr_len: 1, cycle_len: 2 },
            0xB7 => Instruction { op: Opcode::OR, instr_type: InstructionType::Arithmetic(ArithmeticArg::A), instr_len: 1, cycle_len: 1 },
            0xB8 => Instruction { op: Opcode::CP, instr_type: InstructionType::Arithmetic(ArithmeticArg::B), instr_len: 1, cycle_len: 1 },
            0xB9 => Instruction { op: Opcode::CP, instr_type: InstructionType::Arithmetic(ArithmeticArg::C), instr_len: 1, cycle_len: 1 },
            0xBA => Instruction { op: Opcode::CP, instr_type: InstructionType::Arithmetic(ArithmeticArg::D), instr_len: 1, cycle_len: 1 },
            0xBB => Instruction { op: Opcode::CP, instr_type: InstructionType::Arithmetic(ArithmeticArg::E), instr_len: 1, cycle_len: 1 },
            0xBC => Instruction { op: Opcode::CP, instr_type: InstructionType::Arithmetic(ArithmeticArg::H), instr_len: 1, cycle_len: 1 },
            0xBD => Instruction { op: Opcode::CP, instr_type: InstructionType::Arithmetic(ArithmeticArg::L), instr_len: 1, cycle_len: 1 },
            0xBE => Instruction { op: Opcode::CP, instr_type: InstructionType::Arithmetic(ArithmeticArg::HL), instr_len: 1, cycle_len: 2 },
            0xBF => Instruction { op: Opcode::CP, instr_type: InstructionType::Arithmetic(ArithmeticArg::A), instr_len: 1, cycle_len: 1 },
            0xC0 => Instruction { op: Opcode::RET, instr_type: InstructionType::Return(JumpCond::NotZero), instr_len: 1, cycle_len: 5 },
            0xC1 => Instruction { op: Opcode::POP, instr_type: InstructionType::Pop(RegisterPair::BC), instr_len: 1, cycle_len: 3 },
            0xC2 => Instruction { op: Opcode::JP, instr_type: InstructionType::Jump(JumpCond::NotZero), instr_len: 3, cycle_len: 4 },
            0xC3 => Instruction { op: Opcode::JP, instr_type: InstructionType::Jump(JumpCond::Always), instr_len: 3, cycle_len: 4 },
            0xC4 => Instruction { op: Opcode::CALL, instr_type: InstructionType::Call(JumpCond::NotZero), instr_len: 3, cycle_len: 6 },
            0xC5 => Instruction { op: Opcode::PUSH, instr_type: InstructionType::Push(RegisterPair::BC), instr_len: 1, cycle_len: 4 },
            0xC6 => Instruction { op: Opcode::ADD, instr_type: InstructionType::Arithmetic(ArithmeticArg::D8), instr_len: 2, cycle_len: 2 },
            0xC7 => Instruction { op: Opcode::RST, instr_type: InstructionType::RST(0x00), instr_len: 1, cycle_len: 4 },
            0xC8 => Instruction { op: Opcode::RET, instr_type: InstructionType::Return(JumpCond::Zero), instr_len: 1, cycle_len: 5 },
            0xC9 => Instruction { op: Opcode::RET, instr_type: InstructionType::Return(JumpCond::Always), instr_len: 1, cycle_len: 4 },
            0xCA => Instruction { op: Opcode::JP, instr_type: InstructionType::Jump(JumpCond::Zero), instr_len: 3, cycle_len: 4 },
            0xCC => Instruction { op: Opcode::CALL, instr_type: InstructionType::Call(JumpCond::Zero), instr_len: 3, cycle_len: 6 },
            0xCD => Instruction { op: Opcode::CALL, instr_type: InstructionType::Call(JumpCond::Always), instr_len: 3, cycle_len: 6 },
            0xCE => Instruction { op: Opcode::ADC, instr_type: InstructionType::Arithmetic(ArithmeticArg::D8), instr_len: 2, cycle_len: 2 },
            0xCF => Instruction { op: Opcode::RST, instr_type: InstructionType::RST(0x08), instr_len: 1, cycle_len: 4 },
            0xD0 => Instruction { op: Opcode::RET, instr_type: InstructionType::Return(JumpCond::NotCarry), instr_len: 1, cycle_len: 5 },
            0xD1 => Instruction { op: Opcode::POP, instr_type: InstructionType::Pop(RegisterPair::DE), instr_len: 1, cycle_len: 3 },
            0xD2 => Instruction { op: Opcode::JP, instr_type: InstructionType::Jump(JumpCond::NotCarry), instr_len: 3, cycle_len: 4 },
            0xD4 => Instruction { op: Opcode::CALL, instr_type: InstructionType::Call(JumpCond::NotCarry), instr_len: 3, cycle_len: 6 },
            0xD5 => Instruction { op: Opcode::PUSH, instr_type: InstructionType::Push(RegisterPair::DE), instr_len: 1, cycle_len: 4 },
            0xD6 => Instruction { op: Opcode::SUB, instr_type: InstructionType::Arithmetic(ArithmeticArg::D8), instr_len: 2, cycle_len: 2 },
            0xD7 => Instruction { op: Opcode::RST, instr_type: InstructionType::RST(0x10), instr_len: 1, cycle_len: 4 },
            0xD8 => Instruction { op: Opcode::RET, instr_type: InstructionType::Return(JumpCond::Carry), instr_len: 1, cycle_len: 5 },
            0xD9 => Instruction { op: Opcode::RETI, instr_type: InstructionType::Return(JumpCond::Always), instr_len: 1, cycle_len: 4 },
            0xDA => Instruction { op: Opcode::JP, instr_type: InstructionType::Jump(JumpCond::Carry), instr_len: 3, cycle_len: 4 },
            0xDC => Instruction { op: Opcode::CALL, instr_type: InstructionType::Call(JumpCond::Carry), instr_len: 3, cycle_len: 6 },
            0xDE => Instruction { op: Opcode::SBC, instr_type: InstructionType::Arithmetic(ArithmeticArg::D8), instr_len: 2, cycle_len: 2 },
            0xDF => Instruction { op: Opcode::RST, instr_type: InstructionType::RST(0x18), instr_len: 1, cycle_len: 4 },
            0xE0 => Instruction { op: Opcode::LDH, instr_type: InstructionType::Load(LoadTarget::A8, LoadSource::A), instr_len: 2, cycle_len: 3 },
            0xE1 => Instruction { op: Opcode::POP, instr_type: InstructionType::Pop(RegisterPair::HL), instr_len: 1, cycle_len: 3 },
            0xE2 => Instruction { op: Opcode::LD, instr_type: InstructionType::Load(LoadTarget::CA, LoadSource::A), instr_len: 1, cycle_len: 2 },
            0xE5 => Instruction { op: Opcode::PUSH, instr_type: InstructionType::Push(RegisterPair::HL), instr_len: 1, cycle_len: 4 },
            0xE6 => Instruction { op: Opcode::AND, instr_type: InstructionType::Arithmetic(ArithmeticArg::D8), instr_len: 2, cycle_len: 2 },
            0xE7 => Instruction { op: Opcode::RST, instr_type: InstructionType::RST(0x20), instr_len: 1, cycle_len: 4 },
            0xE8 => Instruction { op: Opcode::ADD, instr_type: InstructionType::AddSP, instr_len: 2, cycle_len: 4 },
            0xE9 => Instruction { op: Opcode::JP, instr_type: InstructionType::JumpHL, instr_len: 1, cycle_len: 1 },
            0xEA => Instruction { op: Opcode::LD, instr_type: InstructionType::Load(LoadTarget::A16, LoadSource::A), instr_len: 3, cycle_len: 4 },
            0xEE => Instruction { op: Opcode::XOR, instr_type: InstructionType::Arithmetic(ArithmeticArg::D8), instr_len: 2, cycle_len: 2 },
            0xEF => Instruction { op: Opcode::RST, instr_type: InstructionType::RST(0x28), instr_len: 1, cycle_len: 4 },
            0xF0 => Instruction { op: Opcode::LDH, instr_type: InstructionType::Load(LoadTarget::A, LoadSource::A8), instr_len: 2, cycle_len: 3 },
            0xF1 => Instruction { op: Opcode::POP, instr_type: InstructionType::Pop(RegisterPair::AF), instr_len: 1, cycle_len: 3 },
            0xF2 => Instruction { op: Opcode::LD, instr_type: InstructionType::Load(LoadTarget::A, LoadSource::CA), instr_len: 2, cycle_len: 2 },
            0xF3 => Instruction { op: Opcode::DI, instr_type: InstructionType::Misc, instr_len: 1, cycle_len: 1 },
            0xF5 => Instruction { op: Opcode::PUSH, instr_type: InstructionType::Push(RegisterPair::AF), instr_len: 1, cycle_len: 4 },
            0xF6 => Instruction { op: Opcode::OR, instr_type: InstructionType::Arithmetic(ArithmeticArg::D8), instr_len: 2, cycle_len: 2 },
            0xF7 => Instruction { op: Opcode::RST, instr_type: InstructionType::RST(0x30), instr_len: 1, cycle_len: 4 },
            0xF8 => Instruction { op: Opcode::LDHL, instr_type: InstructionType::LoadHL, instr_len: 2, cycle_len: 4 },
            0xF9 => Instruction { op: Opcode::LDSP, instr_type: InstructionType::LoadSP, instr_len: 1, cycle_len: 4 },
            0xFA => Instruction { op: Opcode::LD, instr_type: InstructionType::Load(LoadTarget::A, LoadSource::A16), instr_len: 3, cycle_len: 4 },
            0xFB => Instruction { op: Opcode::EI, instr_type: InstructionType::Misc, instr_len: 1, cycle_len: 1 },
            0xFE => Instruction { op: Opcode::CP, instr_type: InstructionType::Arithmetic(ArithmeticArg::D8), instr_len: 2, cycle_len: 2 },
            0xFF => Instruction { op: Opcode::RST, instr_type: InstructionType::RST(0x38), instr_len: 1, cycle_len: 4 },
            0xCB => Instruction::from_byte_prefix(next_byte),
            _ => Instruction { op: Opcode::NULL, instr_type: InstructionType::Unsupported, instr_len: 1, cycle_len: 0 },
        }
    }

    /// Decodes the byte that follows the prefix byte.
    #[verifier::rlimit(30)]
    pub fn from_byte_prefix(byte: u8) -> (r: Instruction)
        ensures
            r == Instruction::decode_prefix(byte),
            r.well_formed(),
    {
        match byte {
            0x00 => Instruction { op: Opcode::RLC, instr_type: InstructionType::Rotate(Word8::B), instr_len: 2, cycle_len: 2 },
            0x01 => Instruction { op: Opcode::RLC, instr_type: InstructionType::Rotate(Word8::C), instr_len: 2, cycle_len: 2 },
            0x02 => Instruction { op: Opcode::RLC, instr_type: InstructionType::Rotate(Word8::D), instr_len: 2, cycle_len: 2 },
            0x03 => Instruction { op: Opcode::RLC, instr_type: InstructionType::Rotate(Word8::E), instr_len: 2, cycle_len: 2 },
            0x04 => Instruction { op: Opcode::RLC, instr_type: InstructionType::Rotate(Word8::H), instr_len: 2, cycle_len: 2 },
            0x05 => Instruction { op: Opcode::RLC, instr_type: InstructionType::Rotate(Word8::L), instr_len: 2, cycle_len: 2 },
            0x06 => Instruction { op: Opcode::RLC, instr_type: InstructionType::Rotate(Word8::HL), instr_len: 2, cycle_len: 4 },
            0x07 => Instruction { op: Opcode::RLC, instr_type: InstructionType::Rotate(Word8::A), instr_len: 2, cycle_len: 2 },
            0x08 => Instruction { op: Opcode::RRC, instr_type: InstructionType::Rotate(Word8::B), instr_len: 2, cycle_len: 2 },
            0x09 => Instruction { op: Opcode::RRC, instr_type: InstructionType::Rotate(Word8::C), instr_len: 2, cycle_len: 2 },
            0x0A => Instruction { op: Opcode::RRC, instr_type: InstructionType::Rotate(Word8::D), instr_len: 2, cycle_len: 2 },
            0x0B => Instruction { op: Opcode::RRC, instr_type: InstructionType::Rotate(Word8::E), instr_len: 2, cycle_len: 2 },
            0x0C => Instruction { op: Opcode::RRC, instr_type: InstructionType::Rotate(Word8::H), instr_len: 2, cycle_len: 2 },
            0x0D => Instruction { op: Opcode::RRC, instr_type: InstructionType::Rotate(Word8::L), instr_len: 2, cycle_len: 2 },
            0x0E => Instruction { op: Opcode::RRC, instr_type: InstructionType::Rotate(Word8::HL), instr_len: 2, cycle_len: 4 },
            0x0F => Instruction { op: Opcode::RRC, instr_type: InstructionType::Rotate(Word8::A), instr_len: 2, cycle_len: 2 },
            0x10 => Instruction { op: Opcode::RL, instr_type: InstructionType::Rotate(Word8::B), instr_len: 2, cycle_len: 2 },
            0x11 => Instruction { op: Opcode::RL, instr_type: InstructionType::Rotate(Word8::C), instr_len: 2, cycle_len: 2 },
            0x12 => Instruction { op: Opcode::RL, instr_type: InstructionType::Rotate(Word8::D), instr_len: 2, cycle_len: 2 },
            0x13 => Instruction { op: Opcode::RL, instr_type: InstructionType::Rotate(Word8::E), instr_len: 2, cycle_len: 2 },
            0x14 => Instruction { op: Opcode::RL, instr_type: InstructionType::Rotate(Word8::H), instr_len: 2, cycle_len: 2 },
            0x15 => Instruction { op: Opcode::RL, instr_type: InstructionType::Rotate(Word8::L), instr_len: 2, cycle_len: 2 },
            0x16 => Instruction { op: Opcode::RL, instr_type: InstructionType::Rotate(Word8::HL), instr_len: 2, cycle_len: 4 },
            0x17 => Instruction { op: Opcode::RL, instr_type: InstructionType::Rotate(Word8::A), instr_len: 2, cycle_len: 2 },
            0x18 => Instruction { op: Opcode::RR, instr_type: InstructionType::Rotate(Word8::B), instr_len: 2, cycle_len: 2 },
            0x19 => Instruction { op: Opcode::RR, instr_type: InstructionType::Rotate(Word8::C), instr_len: 2, cycle_len: 2 },
            0x1A => Instruction { op: Opcode::RR, instr_type: InstructionType::Rotate(Word8::D), instr_len: 2, cycle_len: 2 },
            0x1B => Instruction { op: Opcode::RR, instr_type: InstructionType::Rotate(Word8::E), instr_len: 2, cycle_len: 2 },
            0x1C => Instruction { op: Opcode::RR, instr_type: InstructionType::Rotate(Word8::H), instr_len: 2, cycle_len: 2 },
            0x1D => Instruction { op: Opcode::RR, instr_type: InstructionType::Rotate(Word8::L), instr_len: 2, cycle_len: 2 },
            0x1E => Instruction { op: Opcode::RR, instr_type: InstructionType::Rotate(Word8::HL), instr_len: 2, cycle_len: 4 },
            0x1F => Instruction { op: Opcode::RR, instr_type: InstructionType::Rotate(Word8::A), instr_len: 2, cycle_len: 2 },
            0x20 => Instruction { op: Opcode::SLA, instr_type: InstructionType::Rotate(Word8::B), instr_len: 2, cycle_len: 2 },
            0x21 => Instruction { op: Opcode::SLA, instr_type: InstructionType::Rotate(Word8::C), instr_len: 2, cycle_len: 2 },
            0x22 => Instruction { op: Opcode::SLA, instr_type: InstructionType::Rotate(Word8::D), instr_len: 2, cycle_len: 2 },
            0x23 => Instruction { op: Opcode::SLA, instr_type: InstructionType::Rotate(Word8::E), instr_len: 2, cycle_len: 2 },
            0x24 => Instruction { op: Opcode::SLA, instr_type: InstructionType::Rotate(Word8::H), instr_len: 2, cycle_len: 2 },
            0x25 => Instruction { op: Opcode::SLA, instr_type: InstructionType::Rotate(Word8::L), instr_len: 2, cycle_len: 2 },
            0x26 => Instruction { op: Opcode::SLA, instr_type: InstructionType::Rotate(Word8::HL), instr_len: 2, cycle_len: 4 },
            0x27 => Instruction { op: Opcode::SLA, instr_type: InstructionType::Rotate(Word8::A), instr_len: 2, cycle_len: 2 },
            0x28 => Instruction { op: Opcode::SRA, instr_type: InstructionType::Rotate(Word8::B), instr_len: 2, cycle_len: 2 },
            0x29 => Instruction { op: Opcode::SRA, instr_type: InstructionType::Rotate(Word8::C), instr_len: 2, cycle_len: 2 },
            0x2A => Instruction { op: Opcode::SRA, instr_type: InstructionType::Rotate(Word8::D), instr_len: 2, cycle_len: 2 },
            0x2B => Instruction { op: Opcode::SRA, instr_type: InstructionType::Rotate(Word8::E), instr_len: 2, cycle_len: 2 },
            0x2C => Instruction { op: Opcode::SRA, instr_type: InstructionType::Rotate(Word8::H), instr_len: 2, cycle_len: 2 },
            0x2D => Instruction { op: Opcode::SRA, instr_type: InstructionType::Rotate(Word8::L), instr_len: 2, cycle_len: 2 },
            0x2E => Instruction { op: Opcode::SRA, instr_type: InstructionType::Rotate(Word8::HL), instr_len: 2, cycle_len: 4 },
            0x2F => Instruction { op: Opcode::SRA, instr_type: InstructionType::Rotate(Word8::A), instr_len: 2, cycle_len: 2 },
            0x30 => Instruction { op: Opcode::SWAP, instr_type: InstructionType::Rotate(Word8::B), instr_len: 2, cycle_len: 2 },
            0x31 => Instruction { op: Opcode::SWAP, instr_type: InstructionType::Rotate(Word8::C), instr_len: 2, cycle_len: 2 },
            0x32 => Instruction { op: Opcode::SWAP, instr_type: InstructionType::Rotate(Word8::D), instr_len: 2, cycle_len: 2 },
            0x33 => Instruction { op: Opcode::SWAP, instr_type: InstructionType::Rotate(Word8::E), instr_len: 2, cycle_len: 2 },
            0x34 => Instruction { op: Opcode::SWAP, instr_type: InstructionType::Rotate(Word8::H), instr_len: 2, cycle_len: 2 },
            0x35 => Instruction { op: Opcode::SWAP, instr_type: InstructionType::Rotate(Word8::L), instr_len: 2, cycle_len: 2 },
            0x36 => Instruction { op: Opcode::SWAP, instr_type: InstructionType::Rotate(Word8::HL), instr_len: 2, cycle_len: 4 },
            0x37 => Instruction { op: Opcode::SWAP, instr_type: InstructionType::Rotate(Word8::A), instr_len: 2, cycle_len: 2 },
            0x38 => Instruction { op: Opcode::SRL, instr_type: InstructionType::Rotate(Word8::B), instr_len: 2, cycle_len: 2 },
            0x39 => Instruction { op: Opcode::SRL, instr_type: InstructionType::Rotate(Word8::C), instr_len: 2, cycle_len: 2 },
            0x3A => Instruction { op: Opcode::SRL, instr_type: InstructionType::Rotate(Word8::D), instr_len: 2, cycle_len: 2 },
            0x3B => Instruction { op: Opcode::SRL, instr_type: InstructionType::Rotate(Word8::E), instr_len: 2, cycle_len: 2 },
            0x3C => Instruction { op: Opcode::SRL, instr_type: InstructionType::Rotate(Word8::H), instr_len: 2, cycle_len: 2 },
            0x3D => Instruction { op: Opcode::SRL, instr_type: InstructionType::Rotate(Word8::L), instr_len: 2, cycle_len: 2 },
            0x3E => Instruction { op: Opcode::SRL, instr_type: InstructionType::Rotate(Word8::HL), instr_len: 2, cycle_len: 4 },
            0x3F => Instruction { op: Opcode::SRL, instr_type: InstructionType::Rotate(Word8::A), instr_len: 2, cycle_len: 2 },
            0x40 => Instruction { op: Opcode::BIT, instr_type: InstructionType::Bit(Word8::B, 0), instr_len: 2, cycle_len: 2 },
            0x41 => Instruction { op: Opcode::BIT, instr_type: InstructionType::Bit(Word8::C, 0), instr_len: 2, cycle_len: 2 },
            0x42 => Instruction { op: Opcode::BIT, instr_type: InstructionType::Bit(Word8::D, 0), instr_len: 2, cycle_len: 2 },
            0x43 => Instruction { op: Opcode::BIT, instr_type: InstructionType::Bit(Word8::E, 0), instr_len: 2, cycle_len: 2 },
            0x44 => Instruction { op: Opcode::BIT, instr_type: InstructionType::Bit(Word8::H, 0), instr_len: 2, cycle_len: 2 },
            0x45 => Instruction { op: Opcode::BIT, instr_type: InstructionType::Bit(Word8::L, 0), instr_len: 2, cycle_len: 2 },
            0x46 => Instruction { op: Opcode::BIT, instr_type: InstructionType::Bit(Word8::HL, 0), instr_len: 2, cycle_len: 4 },
            0x47 => Instruction { op: Opcode::BIT, instr_type: InstructionType::Bit(Word8::A, 0), instr_len: 2, cycle_len: 2 },
            0x48 => Instruction { op: Opcode::BIT, instr_type: InstructionType::Bit(Word8::B, 1), instr_len: 2, cycle_len: 2 },
            0x49 => Instruction { op: Opcode::BIT, instr_type: InstructionType::Bit(Word8::C, 1), instr_len: 2, cycle_len: 2 },
            0x4A => Instruction { op: Opcode::BIT, instr_type: InstructionType::Bit(Word8::D, 1), instr_len: 2, cycle_len: 2 },
            0x4B => Instruction { op: Opcode::BIT, instr_type: InstructionType::Bit(Word8::E, 1), instr_len: 2, cycle_len: 2 },
            0x4C => Instruction { op: Opcode::BIT, instr_type: InstructionType::Bit(Word8::H, 1), instr_len: 2, cycle_len: 2 },
            0x4D => Instruction { op: Opcode::BIT, instr_type: InstructionType::Bit(Word8::L, 1), instr_len: 2, cycle_len: 2 },
            0x4E => Instruction { op: Opcode::BIT, instr_type: InstructionType::Bit(Word8::HL, 1), instr_len: 2, cycle_len: 4 },
            0x4F => Instruction { op: Opcode::BIT, instr_type: InstructionType::Bit(Word8::A, 1), instr_len: 2, cycle_len: 2 },
            0x50 => Instruction { op: Opcode::BIT, instr_type: InstructionType::Bit(Word8::B, 2), instr_len: 2, cycle_len: 2 },
            0x51 => Instruction { op: Opcode::BIT, instr_type: InstructionType::Bit(Word8::C, 2), instr_len: 2, cycle_len: 2 },
            0x52 => Instruction { op: Opcode::BIT, instr_type: InstructionType::Bit(Word8::D, 2), instr_len: 2, cycle_len: 2 },
            0x53 => Instruction { op: Opcode::BIT, instr_type: InstructionType::Bit(Word8::E, 2), instr_len: 2, cycle_len: 2 },
            0x54 => Instruction { op: Opcode::BIT, instr_type: InstructionType::Bit(Word8::H, 2), instr_len: 2, cycle_len: 2 },
            0x55 => Instruction { op: Opcode::BIT, instr_type: InstructionType::Bit(Word8::L, 2), instr_len: 2, cycle_len: 2 },
            0x56 => Instruction { op: Opcode::BIT, instr_type: InstructionType::Bit(Word8::HL, 2), instr_len: 2, cycle_len: 4 },
            0x57 => Instruction { op: Opcode::BIT, instr_type: InstructionType::Bit(Word8::A, 2), instr_len: 2, cycle_len: 2 },
            0x58 => Instruction { op: Opcode::BIT, instr_type: InstructionType::Bit(Word8::B, 3), instr_len: 2, cycle_len: 2 },
            0x59 => Instruction { op: Opcode::BIT, instr_type: InstructionType::Bit(Word8::C, 3), instr_len: 2, cycle_len: 2 },
            0x5A => Instruction { op: Opcode::BIT, instr_type: InstructionType::Bit(Word8::D, 3), instr_len: 2, cycle_len: 2 },
            0x5B => Instruction { op: Opcode::BIT, instr_type: InstructionType::Bit(Word8::E, 3), instr_len: 2, cycle_len: 2 },
            0x5C => Instruction { op: Opcode::BIT, instr_type: InstructionType::Bit(Word8::H, 3), instr_len: 2, cycle_len: 2 },
            0x5D => Instruction { op: Opcode::BIT, instr_type: InstructionType::Bit(Word8::L, 3), instr_len: 2, cycle_len: 2 },
            0x5E => Instruction { op: Opcode::BIT, instr_type: InstructionType::Bit(Word8::HL, 3), instr_len: 2, cycle_len: 4 },
            0x5F => Instruction { op: Opcode::BIT, instr_type: InstructionType::Bit(Word8::A, 3), instr_len: 2, cycle_len: 2 },
            0x60 => Instruction { op: Opcode::BIT, instr_type: InstructionType::Bit(Word8::B, 4), instr_len: 2, cycle_len: 2 },
            0x61 => Instruction { op: Opcode::BIT, instr_type: InstructionType::Bit(Word8::C, 4), instr_len: 2, cycle_len: 2 },
            0x62 => Instruction { op: Opcode::BIT, instr_type: InstructionType::Bit(Word8::D, 4), instr_len: 2, cycle_len: 2 },
            0x63 => Instruction { op: Opcode::BIT, instr_type: InstructionType::Bit(Word8::E, 4), instr_len: 2, cycle_len: 2 },
            0x64 => Instruction { op: Opcode::BIT, instr_type: InstructionType::Bit(Word8::H, 4), instr_len: 2, cycle_len: 2 },
            0x65 => Instruction { op: Opcode::BIT, instr_type: InstructionType::Bit(Word8::L, 4), instr_len: 2, cycle_len: 2 },
            0x66 => Instruction { op: Opcode::BIT, instr_type: InstructionType::Bit(Word8::HL, 4), instr_len: 2, cycle_len: 4 },
            0x67 => Instruction { op: Opcode::BIT, instr_type: InstructionType::Bit(Word8::A, 4), instr_len: 2, cycle_len: 2 },
            0x68 => Instruction { op: Opcode::BIT, instr_type: InstructionType::Bit(Word8::B, 5), instr_len: 2, cycle_len: 2 },
            0x69 => Instruction { op: Opcode::BIT, instr_type: InstructionType::Bit(Word8::C, 5), instr_len: 2, cycle_len: 2 },
            0x6A => Instruction { op: Opcode::BIT, instr_type: InstructionType::Bit(Word8::D, 5), instr_len: 2, cycle_len: 2 },
            0x6B => Instruction { op: Opcode::BIT, instr_type: InstructionType::Bit(Word8::E, 5), instr_len: 2, cycle_len: 2 },
            0x6C => Instruction { op: Opcode::BIT, instr_type: InstructionType::Bit(Word8::H, 5), instr_len: 2, cycle_len: 2 },
            0x6D => Instruction { op: Opcode::BIT, instr_type: InstructionType::Bit(Word8::L, 5), instr_len: 2, cycle_len: 2 },
            0x6E => Instruction { op: Opcode::BIT, instr_type: InstructionType::Bit(Word8::HL, 5), instr_len: 2, cycle_len: 4 },
            0x6F => Instruction { op: Opcode::BIT, instr_type: InstructionType::Bit(Word8::A, 5), instr_len: 2, cycle_len: 2 },
            0x70 => Instruction { op: Opcode::BIT, instr_type: InstructionType::Bit(Word8::B, 6), instr_len: 2, cycle_len: 2 },
            0x71 => Instruction { op: Opcode::BIT, instr_type: InstructionType::Bit(Word8::C, 6), instr_len: 2, cycle_len: 2 },
            0x72 => Instruction { op: Opcode::BIT, instr_type: InstructionType::Bit(Word8::D, 6), instr_len: 2, cycle_len: 2 },
            0x73 => Instruction { op: Opcode::BIT, instr_type: InstructionType::Bit(Word8::E, 6), instr_len: 2, cycle_len: 2 },
            0x74 => Instruction { op: Opcode::BIT, instr_type: InstructionType::Bit(Word8::H, 6), instr_len: 2, cycle_len: 2 },
            0x75 => Instruction { op: Opcode::BIT, instr_type: InstructionType::Bit(Word8::L, 6), instr_len: 2, cycle_len: 2 },
            0x76 => Instruction { op: Opcode::BIT, instr_type: InstructionType::Bit(Word8::HL, 6), instr_len: 2, cycle_len: 4 },
            0x77 => Instruction { op: Opcode::BIT, instr_type: InstructionType::Bit(Word8::A, 6), instr_len: 2, cycle_len: 2 },
            0x78 => Instruction { op: Opcode::BIT, instr_type: InstructionType::Bit(Word8::B, 7), instr_len: 2, cycle_len: 2 },
            0x79 => Instruction { op: Opcode::BIT, instr_type: InstructionType::Bit(Word8::C, 7), instr_len: 2, cycle_len: 2 },
            0x7A => Instruction { op: Opcode::BIT, instr_type: InstructionType::Bit(Word8::D, 7), instr_len: 2, cycle_len: 2 },
            0x7B => Instruction { op: Opcode::BIT, instr_type: InstructionType::Bit(Word8::E, 7), instr_len: 2, cycle_len: 2 },
            0x7C => Instruction { op: Opcode::BIT, instr_type: InstructionType::Bit(Word8::H, 7), instr_len: 2, cycle_len: 2 },
            0x7D => Instruction { op: Opcode::BIT, instr_type: InstructionType::Bit(Word8::L, 7), instr_len: 2, cycle_len: 2 },
            0x7E => Instruction { op: Opcode::BIT, instr_type: InstructionType::Bit(Word8::HL, 7), instr_len: 2, cycle_len: 4 },
            0x7F => Instruction { op: Opcode::BIT, instr_type: InstructionType::Bit(Word8::A, 7), instr_len: 2, cycle_len: 2 },
            0x80 => Instruction { op: Opcode::RES, instr_type: InstructionType::Bit(Word8::B, 0), instr_len: 2, cycle_len: 2 },
            0x81 => Instruction { op: Opcode::RES, instr_type: InstructionType::Bit(Word8::C, 0), instr_len: 2, cycle_len: 2 },
            0x82 => Instruction { op: Opcode::RES, instr_type: InstructionType::Bit(Word8::D, 0), instr_len: 2, cycle_len: 2 },
            0x83 => Instruction { op: Opcode::RES, instr_type: InstructionType::Bit(Word8::E, 0), instr_len: 2, cycle_len: 2 },
            0x84 => Instruction { op: Opcode::RES, instr_type: InstructionType::Bit(Word8::H, 0), instr_len: 2, cycle_len: 2 },
            0x85 => Instruction { op: Opcode::RES, instr_type: InstructionType::Bit(Word8::L, 0), instr_len: 2, cycle_len: 2 },
            0x86 => Instruction { op: Opcode::RES, instr_type: InstructionType::Bit(Word8::HL, 0), instr_len: 2, cycle_len: 4 },
            0x87 => Instruction { op: Opcode::RES, instr_type: InstructionType::Bit(Word8::A, 0), instr_len: 2, cycle_len: 2 },
            0x88 => Instruction { op: Opcode::RES, instr_type: InstructionType::Bit(Word8::B, 1), instr_len: 2, cycle_len: 2 },
            0x89 => Instruction { op: Opcode::RES, instr_type: InstructionType::Bit(Word8::C, 1), instr_len: 2, cycle_len: 2 },
            0x8A => Instruction { op: Opcode::RES, instr_type: InstructionType::Bit(Word8::D, 1), instr_len: 2, cycle_len: 2 },
            0x8B => Instruction { op: Opcode::RES, instr_type: InstructionType::Bit(Word8::E, 1), instr_len: 2, cycle_len: 2 },
            0x8C => Instruction { op: Opcode::RES, instr_type: InstructionType::Bit(Word8::H, 1), instr_len: 2, cycle_len: 2 },
            0x8D => Instruction { op: Opcode::RES, instr_type: InstructionType::Bit(Word8::L, 1), instr_len: 2, cycle_len: 2 },
            0x8E => Instruction { op: Opcode::RES, instr_type: InstructionType::Bit(Word8::HL, 1), instr_len: 2, cycle_len: 4 },
            0x8F => Instruction { op: Opcode::RES, instr_type: InstructionType::Bit(Word8::A, 1), instr_len: 2, cycle_len: 2 },
            0x90 => Instruction { op: Opcode::RES, instr_type: InstructionType::Bit(Word8::B, 2), instr_len: 2, cycle_len: 2 },
            0x91 => Instruction { op: Opcode::RES, instr_type: InstructionType::Bit(Word8::C, 2), instr_len: 2, cycle_len: 2 },
            0x92 => Instruction { op: Opcode::RES, instr_type: InstructionType::Bit(Word8::D, 2), instr_len: 2, cycle_len: 2 },
            0x93 => Instruction { op: Opcode::RES, instr_type: InstructionType::Bit(Word8::E, 2), instr_len: 2, cycle_len: 2 },
            0x94 => Instruction { op: Opcode::RES, instr_type: InstructionType::Bit(Word8::H, 2), instr_len: 2, cycle_len: 2 },
            0x95 => Instruction { op: Opcode::RES, instr_type: InstructionType::Bit(Word8::L, 2), instr_len: 2, cycle_len: 2 },
            0x96 => Instruction { op: Opcode::RES, instr_type: InstructionType::Bit(Word8::HL, 2), instr_len: 2, cycle_len: 4 },
            0x97 => Instruction { op: Opcode::RES, instr_type: InstructionType::Bit(Word8::A, 2), instr_len: 2, cycle_len: 2 },
            0x98 => Instruction { op: Opcode::RES, instr_type: InstructionType::Bit(Word8::B, 3), instr_len: 2, cycle_len: 2 },
            0x99 => Instruction { op: Opcode::RES, instr_type: InstructionType::Bit(Word8::C, 3), instr_len: 2, cycle_len: 2 },
            0x9A => Instruction { op: Opcode::RES, instr_type: InstructionType::Bit(Word8::D, 3), instr_len: 2, cycle_len: 2 },
            0x9B => Instruction { op: Opcode::RES, instr_type: InstructionType::Bit(Word8::E, 3), instr_len: 2, cycle_len: 2 },
            0x9C => Instruction { op: Opcode::RES, instr_type: InstructionType::Bit(Word8::H, 3), instr_len: 2, cycle_len: 2 },
            0x9D => Instruction { op: Opcode::RES, instr_type: InstructionType::Bit(Word8::L, 3), instr_len: 2, cycle_len: 2 },
            0x9E => Instruction { op: Opcode::RES, instr_type: InstructionType::Bit(Word8::HL, 3), instr_len: 2, cycle_len: 4 },
            0x9F => Instruction { op: Opcode::RES, instr_type: InstructionType::Bit(Word8::A, 3), instr_len: 2, cycle_len: 2 },
            0xA0 => Instruction { op: Opcode::RES, instr_type: InstructionType::Bit(Word8::B, 4), instr_len: 2, cycle_len: 2 },
            0xA1 => Instruction { op: Opcode::RES, instr_type: InstructionType::Bit(Word8::C, 4), instr_len: 2, cycle_len: 2 },
            0xA2 => Instruction { op: Opcode::RES, instr_type: InstructionType::Bit(Word8::D, 4), instr_len: 2, cycle_len: 2 },
            0xA3 => Instruction { op: Opcode::RES, instr_type: InstructionType::Bit(Word8::E, 4), instr_len: 2, cycle_len: 2 },
            0xA4 => Instruction { op: Opcode::RES, instr_type: InstructionType::Bit(Word8::H, 4), instr_len: 2, cycle_len: 2 },
            0xA5 => Instruction { op: Opcode::RES, instr_type: InstructionType::Bit(Word8::L, 4), instr_len: 2, cycle_len: 2 },
            0xA6 => Instruction { op: Opcode::RES, instr_type: InstructionType::Bit(Word8::HL, 4), instr_len: 2, cycle_len: 4 },
            0xA7 => Instruction { op: Opcode::RES, instr_type: InstructionType::Bit(Word8::A, 4), instr_len: 2, cycle_len: 2 },
            0xA8 => Instruction { op: Opcode::RES, instr_type: InstructionType::Bit(Word8::B, 5), instr_len: 2, cycle_len: 2 },
            0xA9 => Instruction { op: Opcode::RES, instr_type: InstructionType::Bit(Word8::C, 5), instr_len: 2, cycle_len: 2 },
            0xAA => Instruction { op: Opcode::RES, instr_type: InstructionType::Bit(Word8::D, 5), instr_len: 2, cycle_len: 2 },
            0xAB => Instruction { op: Opcode::RES, instr_type: InstructionType::Bit(Word8::E, 5), instr_len: 2, cycle_len: 2 },
            0xAC => Instruction { op: Opcode::RES, instr_type: InstructionType::Bit(Word8::H, 5), instr_len: 2, cycle_len: 2 },
            0xAD => Instruction { op: Opcode::RES, instr_type: InstructionType::Bit(Word8::L, 5), instr_len: 2, cycle_len: 2 },
            0xAE => Instruction { op: Opcode::RES, instr_type: InstructionType::Bit(Word8::HL, 5), instr_len: 2, cycle_len: 4 },
            0xAF => Instruction { op: Opcode::RES, instr_type: InstructionType::Bit(Word8::A, 5), instr_len: 2, cycle_len: 2 },
            0xB0 => Instruction { op: Opcode::RES, instr_type: InstructionType::Bit(Word8::B, 6), instr_len: 2, cycle_len: 2 },
            0xB1 => Instruction { op: Opcode::RES, instr_type: InstructionType::Bit(Word8::C, 6), instr_len: 2, cycle_len: 2 },
            0xB2 => Instruction { op: Opcode::RES, instr_type: InstructionType::Bit(Word8::D, 6), instr_len: 2, cycle_len: 2 },
            0xB3 => Instruction { op: Opcode::RES, instr_type: InstructionType::Bit(Word8::E, 6), instr_len: 2, cycle_len: 2 },
            0xB4 => Instruction { op: Opcode::RES, instr_type: InstructionType::Bit(Word8::H, 6), instr_len: 2, cycle_len: 2 },
            0xB5 => Instruction { op: Opcode::RES, instr_type: InstructionType::Bit(Word8::L, 6), instr_len: 2, cycle_len: 2 },
            0xB6 => Instruction { op: Opcode::RES, instr_type: InstructionType::Bit(Word8::HL, 6), instr_len: 2, cycle_len: 4 },
            0xB7 => Instruction { op: Opcode::RES, instr_type: InstructionType::Bit(Word8::A, 6), instr_len: 2, cycle_len: 2 },
            0xB8 => Instruction { op: Opcode::RES, instr_type: InstructionType::Bit(Word8::B, 7), instr_len: 2, cycle_len: 2 },
            0xB9 => Instruction { op: Opcode::RES, instr_type: InstructionType::Bit(Word8::C, 7), instr_len: 2, cycle_len: 2 },
            0xBA => Instruction { op: Opcode::RES, instr_type: InstructionType::Bit(Word8::D, 7), instr_len: 2, cycle_len: 2 },
            0xBB => Instruction { op: Opcode::RES, instr_type: InstructionType::Bit(Word8::E, 7), instr_len: 2, cycle_len: 2 },
            0xBC => Instruction { op: Opcode::RES, instr_type: InstructionType::Bit(Word8::H, 7), instr_len: 2, cycle_len: 2 },
            0xBD => Instruction { op: Opcode::RES, instr_type: InstructionType::Bit(Word8::L, 7), instr_len: 2, cycle_len: 2 },
            0xBE => Instruction { op: Opcode::RES, instr_type: InstructionType::Bit(Word8::HL, 7), instr_len: 2, cycle_len: 4 },
            0xBF => Instruction { op: Opcode::RES, instr_type: InstructionType::Bit(Word8::A, 7), instr_len: 2, cycle_len: 2 },
            0xC0 => Instruction { op: Opcode::SET, instr_type: InstructionType::Bit(Word8::B, 0), instr_len: 2, cycle_len: 2 },
            0xC1 => Instruction { op: Opcode::SET, instr_type: InstructionType::Bit(Word8::C, 0), instr_len: 2, cycle_len: 2 },
            0xC2 => Instruction { op: Opcode::SET, instr_type: InstructionType::Bit(Word8::D, 0), instr_len: 2, cycle_len: 2 },
            0xC3 => Instruction { op: Opcode::SET, instr_type: InstructionType::Bit(Word8::E, 0), instr_len: 2, cycle_len: 2 },
            0xC4 => Instruction { op: Opcode::SET, instr_type: InstructionType::Bit(Word8::H, 0), instr_len: 2, cycle_len: 2 },
            0xC5 => Instruction { op: Opcode::SET, instr_type: InstructionType::Bit(Word8::L, 0), instr_len: 2, cycle_len: 2 },
            0xC6 => Instruction { op: Opcode::SET, instr_type: InstructionType::Bit(Word8::HL, 0), instr_len: 2, cycle_len: 4 },
            0xC7 => Instruction { op: Opcode::SET, instr_type: InstructionType::Bit(Word8::A, 0), instr_len: 2, cycle_len: 2 },
            0xC8 => Instruction { op: Opcode::SET, instr_type: InstructionType::Bit(Word8::B, 1), instr_len: 2, cycle_len: 2 },
            0xC9 => Instruction { op: Opcode::SET, instr_type: InstructionType::Bit(Word8::C, 1), instr_len: 2, cycle_len: 2 },
            0xCA => Instruction { op: Opcode::SET, instr_type: InstructionType::Bit(Word8::D, 1), instr_len: 2, cycle_len: 2 },
            0xCB => Instruction { op: Opcode::SET, instr_type: InstructionType::Bit(Word8::E, 1), instr_len: 2, cycle_len: 2 },
            0xCC => Instruction { op: Opcode::SET, instr_type: InstructionType::Bit(Word8::H, 1), instr_len: 2, cycle_len: 2 },
            0xCD => Instruction { op: Opcode::SET, instr_type: InstructionType::Bit(Word8::L, 1), instr_len: 2, cycle_len: 2 },
            0xCE => Instruction { op: Opcode::SET, instr_type: InstructionType::Bit(Word8::HL, 1), instr_len: 2, cycle_len: 4 },
            0xCF => Instruction { op: Opcode::SET, instr_type: InstructionType::Bit(Word8::A, 1), instr_len: 2, cycle_len: 2 },
            0xD0 => Instruction { op: Opcode::SET, instr_type: InstructionType::Bit(Word8::B, 2), instr_len: 2, cycle_len: 2 },
            0xD1 => Instruction { op: Opcode::SET, instr_type: InstructionType::Bit(Word8::C, 2), instr_len: 2, cycle_len: 2 },
            0xD2 => Instruction { op: Opcode::SET, instr_type: InstructionType::Bit(Word8::D, 2), instr_len: 2, cycle_len: 2 },
            0xD3 => Instruction { op: Opcode::SET, instr_type: InstructionType::Bit(Word8::E, 2), instr_len: 2, cycle_len: 2 },
            0xD4 => Instruction { op: Opcode::SET, instr_type: InstructionType::Bit(Word8::H, 2), instr_len: 2, cycle_len: 2 },
            0xD5 => Instruction { op: Opcode::SET, instr_type: InstructionType::Bit(Word8::L, 2), instr_len: 2, cycle_len: 2 },
            0xD6 => Instruction { op: Opcode::SET, instr_type: InstructionType::Bit(Word8::HL, 2), instr_len: 2, cycle_len: 4 },
            0xD7 => Instruction { op: Opcode::SET, instr_type: InstructionType::Bit(Word8::A, 2), instr_len: 2, cycle_len: 2 },
            0xD8 => Instruction { op: Opcode::SET, instr_type: InstructionType::Bit(Word8::B, 3), instr_len: 2, cycle_len: 2 },
            0xD9 => Instruction { op: Opcode::SET, instr_type: InstructionType::Bit(Word8::C, 3), instr_len: 2, cycle_len: 2 },
            0xDA => Instruction { op: Opcode::SET, instr_type: InstructionType::Bit(Word8::D, 3), instr_len: 2, cycle_len: 2 },
            0xDB => Instruction { op: Opcode::SET, instr_type: InstructionType::Bit(Word8::E, 3), instr_len: 2, cycle_len: 2 },
            0xDC => Instruction { op: Opcode::SET, instr_type: InstructionType::Bit(Word8::H, 3), instr_len: 2, cycle_len: 2 },
            0xDD => Instruction { op: Opcode::SET, instr_type: InstructionType::Bit(Word8::L, 3), instr_len: 2, cycle_len: 2 },
            0xDE => Instruction { op: Opcode::SET, instr_type: InstructionType::Bit(Word8::HL, 3), instr_len: 2, cycle_len: 4 },
            0xDF => Instruction { op: Opcode::SET, instr_type: InstructionType::Bit(Word8::A, 3), instr_len: 2, cycle_len: 2 },
            0xE0 => Instruction { op: Opcode::SET, instr_type: InstructionType::Bit(Word8::B, 4), instr_len: 2, cycle_len: 2 },
            0xE1 => Instruction { op: Opcode::SET, instr_type: InstructionType::Bit(Word8::C, 4), instr_len: 2, cycle_len: 2 },
            0xE2 => Instruction { op: Opcode::SET, instr_type: InstructionType::Bit(Word8::D, 4), instr_len: 2, cycle_len: 2 },
            0xE3 => Instruction { op: Opcode::SET, instr_type: InstructionType::Bit(Word8::E, 4), instr_len: 2, cycle_len: 2 },
            0xE4 => Instruction { op: Opcode::SET, instr_type: InstructionType::Bit(Word8::H, 4), instr_len: 2, cycle_len: 2 },
            0xE5 => Instruction { op: Opcode::SET, instr_type: InstructionType::Bit(Word8::L, 4), instr_len: 2, cycle_len: 2 },
            0xE6 => Instruction { op: Opcode::SET, instr_type: InstructionType::Bit(Word8::HL, 4), instr_len: 2, cycle_len: 4 },
            0xE7 => Instruction { op: Opcode::SET, instr_type: InstructionType::Bit(Word8::A, 4), instr_len: 2, cycle_len: 2 },
            0xE8 => Instruction { op: Opcode::SET, instr_type: InstructionType::Bit(Word8::B, 5), instr_len: 2, cycle_len: 2 },
            0xE9 => Instruction { op: Opcode::SET, instr_type: InstructionType::Bit(Word8::C, 5), instr_len: 2, cycle_len: 2 },
            0xEA => Instruction { op: Opcode::SET, instr_type: InstructionType::Bit(Word8::D, 5), instr_len: 2, cycle_len: 2 },
            0xEB => Instruction { op: Opcode::SET, instr_type: InstructionType::Bit(Word8::E, 5), instr_len: 2, cycle_len: 2 },
            0xEC => Instruction { op: Opcode::SET, instr_type: InstructionType::Bit(Word8::H, 5), instr_len: 2, cycle_len: 2 },
            0xED => Instruction { op: Opcode::SET, instr_type: InstructionType::Bit(Word8::L, 5), instr_len: 2, cycle_len: 2 },
            0xEE => Instruction { op: Opcode::SET, instr_type: InstructionType::Bit(Word8::HL, 5), instr_len: 2, cycle_len: 4 },
            0xEF => Instruction { op: Opcode::SET, instr_type: InstructionType::Bit(Word8::A, 5), instr_len: 2, cycle_len: 2 },
            0xF0 => Instruction { op: Opcode::SET, instr_type: InstructionType::Bit(Word8::B, 6), instr_len: 2, cycle_len: 2 },
            0xF1 => Instruction { op: Opcode::SET, instr_type: InstructionType::Bit(Word8::C, 6), instr_len: 2, cycle_len: 2 },
            0xF2 => Instruction { op: Opcode::SET, instr_type: InstructionType::Bit(Word8::D, 6), instr_len: 2, cycle_len: 2 },
            0xF3 => Instruction { op: Opcode::SET, instr_type: InstructionType::Bit(Word8::E, 6), instr_len: 2, cycle_len: 2 },
            0xF4 => Instruction { op: Opcode::SET, instr_type: InstructionType::Bit(Word8::H, 6), instr_len: 2, cycle_len: 2 },
            0xF5 => Instruction { op: Opcode::SET, instr_type: InstructionType::Bit(Word8::L, 6), instr_len: 2, cycle_len: 2 },
            0xF6 => Instruction { op: Opcode::SET, instr_type: InstructionType::Bit(Word8::HL, 6), instr_len: 2, cycle_len: 4 },
            0xF7 => Instruction { op: Opcode::SET, instr_type: InstructionType::Bit(Word8::A, 6), instr_len: 2, cycle_len: 2 },
            0xF8 => Instruction { op: Opcode::SET, instr_type: InstructionType::Bit(Word8::B, 7), instr_len: 2, cycle_len: 2 },
            0xF9 => Instruction { op: Opcode::SET, instr_type: InstructionType::Bit(Word8::C, 7), instr_len: 2, cycle_len: 2 },
            0xFA => Instruction { op: Opcode::SET, instr_type: InstructionType::Bit(Word8::D, 7), instr_len: 2, cycle_len: 2 },
            0xFB => Instruction { op: Opcode::SET, instr_type: InstructionType::Bit(Word8::E, 7), instr_len: 2, cycle_len: 2 },
            0xFC => Instruction { op: Opcode::SET, instr_type: InstructionType::Bit(Word8::H, 7), instr_len: 2, cycle_len: 2 },
            0xFD => Instruction { op: Opcode::SET, instr_type: InstructionType::Bit(Word8::L, 7), instr_len: 2, cycle_len: 2 },
            0xFE => Instruction { op: Opcode::SET, instr_type: InstructionType::Bit(Word8::HL, 7), instr_len: 2, cycle_len: 4 },
            0xFF => Instruction { op: Opcode::SET, instr_type: InstructionType::Bit(Word8::A, 7), instr_len: 2, cycle_len: 2 },
        }
    }
}

} // verus!
