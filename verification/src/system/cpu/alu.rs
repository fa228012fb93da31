//! What the 8-bit operations compute: rotations, shifts and nibble swaps on
//! a byte, and the accumulator operations on a register file with the flags
//! that each of them leaves.

use vstd::prelude::*;
use crate::system::cpu::instruction::Opcode;
use crate::system::cpu::regfile::half_carry_add;
use crate::system::cpu::regfile::half_carry_sub;
use crate::system::cpu::regfile::Regfile;

verus! {

/// Bit 7 of `val`: what a rotation or shift to the left moves out.
pub open spec fn top_bit(val: u8) -> bool {
    val >= 0x80
}

/// Bit 0 of `val`: what a rotation or shift to the right moves out.
pub open spec fn bottom_bit(val: u8) -> bool {
    val % 2 == 1
}

/// `val` moved one bit to the left. A shift fills bit 0 with zero, a
/// circular rotation with the bit moved out, every other rotation with the
/// carry flag.
pub open spec fn rotated_left(opcode: Opcode, val: u8, carry: bool) -> u8 {
    let moved = (val as int * 2) % 256;
    let filled = if opcode == Opcode::SLA {
        false
    } else if opcode == Opcode::RLC || opcode == Opcode::RLCA {
        top_bit(val)
    } else {
        carry
    };
    (moved + if filled { 1int } else { 0int }) as u8
}

/// `val` moved one bit to the right. A logical shift fills bit 7 with
/// zero, the arithmetic shift with the old bit 7, a circular rotation with
/// the bit moved out, every other rotation with the carry flag.
pub open spec fn rotated_right(opcode: Opcode, val: u8, carry: bool) -> u8 {
    let moved = val as int / 2;
    let filled = if opcode == Opcode::SRL {
        false
    } else if opcode == Opcode::SRA {
        top_bit(val)
    } else if opcode == Opcode::RRC || opcode == Opcode::RRCA {
        bottom_bit(val)
    } else {
        carry
    };
    (moved + if filled { 128int } else { 0int }) as u8
}

/// `val` with its two nibbles exchanged.
pub open spec fn swapped(val: u8) -> u8 {
    ((val as int % 16) * 16 + val as int / 16) as u8
}

/// The byte with only bit `bit` set.
pub open spec fn bit_mask(bit: u8) -> u8 {
    1u8 << bit
}

/// The offset byte of a relative jump as a two's-complement number.
pub open spec fn signed_offset(r8: u8) -> int {
    if r8 >= 0x80 {
        r8 as int - 256
    } else {
        r8 as int
    }
}

/// The address `r8` away from `pc`, wrapping at both ends of the address
/// space.
pub open spec fn relative_target(pc: u16, r8: u8) -> u16 {
    ((pc as int + signed_offset(r8)) % 0x10000) as u16
}

/// Whether a byte holds two decimal digits, one in each nibble.
pub open spec fn is_bcd(val: u8) -> bool {
    val % 16 <= 9 && val / 16 <= 9
}

/// The number that the two decimal digits of `val` stand for.
pub open spec fn bcd_value(val: u8) -> int {
    (val as int / 16) * 10 + val as int % 16
}

/// The accumulator `a` after decimal adjustment, given the three flags that
/// the operation before it left. After a subtraction, 0x60 is taken off when
/// carry is set and 0x06 when half-carry is set. After an addition, 0x60 is
/// added when carry is set or `a` exceeds 0x99, and 0x06 when half-carry is
/// set or the low nibble exceeds 9.
pub open spec fn decimal_adjusted(a: u8, subtract: bool, half_carry: bool, carry: bool) -> u8 {
    if subtract {
        let high = if carry {
            (a - 0x60) % 256
        } else {
            a as int
        };
        (if half_carry {
            (high - 0x06) % 256
        } else {
            high
        }) as u8
    } else {
        let high = if carry || a > 0x99 {
            (a + 0x60) % 256
        } else {
            a as int
        };
        (if half_carry || high % 16 > 0x09 {
            (high + 0x06) % 256
        } else {
            high
        }) as u8
    }
}

/// Whether the sum of two nibbles, with what the nibble below carries,
/// adjusts to one decimal digit: it does up to 19, and again from 26 on,
/// where the adjusted nibble wraps a second time.
pub open spec fn digit_adjusts(sum: int) -> bool {
    sum <= 19 || sum >= 26
}

/// Whether decimal adjustment of `a + val` gives two decimal digits. The
/// sum of two packed decimal numbers always does: its nibble sums stay
/// below 20.
pub open spec fn sum_adjusts(a: u8, val: u8) -> bool {
    let low = a % 16 + val % 16;
    let carried: int = if low <= 9 {
        0
    } else if low <= 19 {
        1
    } else {
        2
    };
    digit_adjusts(low) && digit_adjusts(a / 16 + val / 16 + carried)
}

impl Regfile {
    /// A := A + val.
    pub open spec fn add8(self, val: u8) -> Regfile {
        let sum = self.r_a as int + val as int;
        (Regfile { r_a: (sum % 256) as u8, ..self }).with_flags(
            sum % 256 == 0,
            false,
            half_carry_add(self.r_a, val),
            sum > 0xFF,
        )
    }

    /// A := A - val, or only the flags of that subtraction when `compare`.
    pub open spec fn sub8(self, val: u8, compare: bool) -> Regfile {
        let difference = (self.r_a as int - val as int) % 256;
        (Regfile {
            r_a: if compare {
                self.r_a
            } else {
                difference as u8
            },
            ..self
        }).with_flags(difference == 0, true, half_carry_sub(self.r_a, val), self.r_a < val)
    }

    /// Addition with carry: a set carry flag is first added as an addition
    /// of 1 in its own right, flags included, and `val` is added to that.
    pub open spec fn adc(self, val: u8) -> Regfile {
        if self.carry() {
            self.add8(1).add8(val)
        } else {
            self.add8(val)
        }
    }

    /// Subtraction with carry: a set carry flag is first subtracted as a
    /// subtraction of 1 in its own right, flags included.
    pub open spec fn sbc(self, val: u8) -> Regfile {
        if self.carry() {
            self.sub8(1, false).sub8(val, false)
        } else {
            self.sub8(val, false)
        }
    }

    pub open spec fn and8(self, val: u8) -> Regfile {
        (Regfile { r_a: self.r_a & val, ..self }).with_flags(self.r_a & val == 0, false, true, false)
    }

    pub open spec fn or8(self, val: u8) -> Regfile {
        (Regfile { r_a: self.r_a | val, ..self }).with_flags(self.r_a | val == 0, false, false, false)
    }

    pub open spec fn xor8(self, val: u8) -> Regfile {
        (Regfile { r_a: self.r_a ^ val, ..self }).with_flags(self.r_a ^ val == 0, false, false, false)
    }

    /// The accumulator after decimal adjustment, before the flags are set.
    pub open spec fn daa_value(&self) -> u8 {
        decimal_adjusted(self.r_a, self.subtract(), self.half_carry(), self.carry())
    }

    /// The carry flag after decimal adjustment: after an addition it is set
    /// also when the accumulator exceeds 0x99.
    pub open spec fn daa_carry(&self) -> bool {
        self.carry() || (!self.subtract() && self.r_a > 0x99)
    }

    /// Decimal adjustment of the accumulator after an addition or a
    /// subtraction of two packed decimal numbers.
    pub open spec fn daa(self) -> Regfile {
        let value = self.daa_value();
        (Regfile { r_a: value, ..self }).with_flags(value == 0, self.subtract(), false, self.daa_carry())
    }

    /// The flags and registers that decimal adjustment leaves.
    pub proof fn lemma_daa_flags(self)
        ensures
            self.daa().zero() == (self.daa_value() == 0),
            self.daa().subtract() == self.subtract(),
            !self.daa().half_carry(),
            self.daa().carry() == self.daa_carry(),
            self.daa().r_f & 0x0F == self.r_f & 0x0F,
            self.daa().r_a == self.daa_value(),
            self.daa().r_b == self.r_b,
            self.daa().r_c == self.r_c,
            self.daa().r_d == self.r_d,
            self.daa().r_e == self.r_e,
            self.daa().r_h == self.r_h,
            self.daa().r_l == self.r_l,
            self.wf() ==> self.daa().wf(),
    {
        (Regfile { r_a: self.daa_value(), ..self }).lemma_with_flags(
            self.daa_value() == 0,
            self.subtract(),
            false,
            self.daa_carry(),
        );
    }

    /// Complement of the accumulator.
    pub open spec fn cpl(self) -> Regfile {
        (Regfile { r_a: self.r_a ^ 0xFF, ..self }).with_flags(self.zero(), true, true, self.carry())
    }

    /// Complement of the carry flag.
    pub open spec fn ccf(self) -> Regfile {
        self.with_flags(self.zero(), false, false, !self.carry())
    }

    /// Set the carry flag.
    pub open spec fn scf(self) -> Regfile {
        self.with_flags(self.zero(), false, false, true)
    }
}

/// One bit to the left, as the rotate and shift instructions to the left do
/// it.
pub fn rl(opcode: Opcode, current_val: u8, old_carry: bool) -> (val: u8)
    ensures
        val == rotated_left(opcode, current_val, old_carry),
{
    let turned = (current_val << 1) | (current_val >> 7);
    assert({
        &&& turned & 0xFE == (current_val as int * 2) % 256
        &&& turned | 0x01 == (current_val as int * 2) % 256 + 1
        &&& (current_val >= 0x80 ==> turned == (current_val as int * 2) % 256 + 1)
        &&& (current_val < 0x80 ==> turned == (current_val as int * 2) % 256)
    }) by (bit_vector)
        requires
            turned == (current_val << 1) | (current_val >> 7),
    ;
    if opcode == Opcode::SLA {
        // shift: bit 0 is always zeroed
        turned & 0xFE
    } else if opcode == Opcode::RLC || opcode == Opcode::RLCA {
        turned
    } else if old_carry {
        turned | 0x01
    } else {
        turned & 0xFE
    }
}

/// One bit to the right, as the rotate and shift instructions to the right
/// do it.
pub fn rr(opcode: Opcode, current_val: u8, old_carry: bool) -> (val: u8)
    ensures
        val == rotated_right(opcode, current_val, old_carry),
{
    let turned = (current_val >> 1) | (current_val << 7);
    assert({
        &&& turned & 0x7F == current_val / 2
        &&& turned | 0x80 == current_val / 2 + 128
        &&& (current_val % 2 == 1 ==> turned == current_val / 2 + 128)
        &&& (current_val % 2 == 0 ==> turned == current_val / 2)
        &&& (current_val >= 0x80 ==> (turned & 0x7F) | (current_val & 0x80) == current_val / 2 + 128)
        &&& (current_val < 0x80 ==> (turned & 0x7F) | (current_val & 0x80) == current_val / 2)
    }) by (bit_vector)
        requires
            turned == (current_val >> 1) | (current_val << 7),
    ;
    if opcode == Opcode::SRL {
        turned & 0x7F
    } else if opcode == Opcode::SRA {
        // bit 7 stays as it was
        (turned & 0x7F) | (current_val & 0x80)
    } else if opcode == Opcode::RRC || opcode == Opcode::RRCA {
        turned
    } else if old_carry {
        turned | 0x80
    } else {
        turned & 0x7F
    }
}

/// Decimal adjustment of `a` after an operation that left the three flags.
#[verifier::rlimit(30)]
pub fn decimal_adjust(a: u8, subtract: bool, half_carry: bool, carry: bool) -> (r: u8)
    ensures
        r == decimal_adjusted(a, subtract, half_carry, carry),
{
    if subtract {
        // subtraction, only adjust if (half-)carry occurred
        let high = if carry {
            a.wrapping_sub(0x60)
        } else {
            a
        };
        assert(high as int == if carry {
            (a - 0x60) % 256
        } else {
            a as int
        });
        if half_carry {
            high.wrapping_sub(0x06)
        } else {
            high
        }
    } else {
        // after an addition, adjust if (half-)carry occurred or if result is out of bounds
        let high = if carry || a > 0x99 {
            a.wrapping_add(0x60)
        } else {
            a
        };
        assert(high as int == if carry || a > 0x99 {
            (a + 0x60) % 256
        } else {
            a as int
        });
        assert((high & 0x0F) > 0x09 <==> high % 16 > 9) by (bit_vector);
        if half_carry || (high & 0x0F) > 0x09 {
            high.wrapping_add(0x06)
        } else {
            high
        }
    }
}

/// Exchanges the two nibbles of a byte.
pub fn swap_nibbles(val: u8) -> (r: u8)
    ensures
        r == swapped(val),
{
    assert((val << 4) | (val >> 4) == (val % 16) * 16 + val / 16) by (bit_vector);
    (val << 4) | (val >> 4)
}

} // verus!
