//! The register file: eight 8-bit cells, four 16-bit paired views and the
//! four flags packed into the high nibble of `F`.

use vstd::prelude::*;

verus! {

/// The 16-bit value whose high byte is `hi` and whose low byte is `lo`.
pub open spec fn pair(hi: u8, lo: u8) -> u16 {
    (hi as int * 256 + lo as int) as u16
}

/// The high byte of a 16-bit value.
pub open spec fn high_byte(val: u16) -> u8 {
    (val as int / 256) as u8
}

/// The low byte of a 16-bit value.
pub open spec fn low_byte(val: u16) -> u8 {
    (val as int % 256) as u8
}

/// Whether adding the low nibbles of `a` and `b` carries out of bit 3.
pub open spec fn half_carry_add(a: u8, b: u8) -> bool {
    (a & 0xF) + (b & 0xF) > 0xF
}

/// Whether subtracting the low nibble of `b` from that of `a` borrows.
pub open spec fn half_carry_sub(a: u8, b: u8) -> bool {
    (a & 0xF) < (b & 0xF)
}

/// The nibble sums and comparisons of the half-carry helpers, in arithmetic.
pub proof fn lemma_half_carry_arith(a: u8, b: u8)
    ensures
        half_carry_add(a, b) == (a % 16 + b % 16 > 15),
        half_carry_sub(a, b) == (a % 16 < b % 16),
{
    assert(a & 0xF == a % 16) by (bit_vector);
    assert(b & 0xF == b % 16) by (bit_vector);
}

/// Two flag bytes with the same four flags and the same low nibble are equal.
pub proof fn lemma_flag_byte_equal(f: u8, g: u8)
    requires
        (f & 0x80 != 0) == (g & 0x80 != 0),
        (f & 0x40 != 0) == (g & 0x40 != 0),
        (f & 0x20 != 0) == (g & 0x20 != 0),
        (f & 0x10 != 0) == (g & 0x10 != 0),
        f & 0x0F == g & 0x0F,
    ensures
        f == g,
{
    assert(f == g) by (bit_vector)
        requires
            (f & 0x80 != 0) == (g & 0x80 != 0),
            (f & 0x40 != 0) == (g & 0x40 != 0),
            (f & 0x20 != 0) == (g & 0x20 != 0),
            (f & 0x10 != 0) == (g & 0x10 != 0),
            f & 0x0F == g & 0x0F,
    ;
}

/// Eight 8-bit registers. `r_a` is the accumulator and `r_f` holds the
/// flags; they can also be read and written as the four 16-bit pairs AF, BC,
/// DE and HL, high byte first.
#[derive(Clone, Copy, Debug, PartialEq, Eq, Structural)]
pub struct Regfile {
    pub r_a: u8,
    pub r_b: u8,
    pub r_c: u8,
    pub r_d: u8,
    pub r_e: u8,
    pub r_f: u8,
    pub r_h: u8,
    pub r_l: u8,
}

impl Regfile {
    /// The low nibble of `F` is zero: only the four flags are stored there.
    pub open spec fn wf(&self) -> bool {
        self.r_f & 0x0F == 0
    }

    /// The register file with every cell zero.
    pub open spec fn zeroed() -> Regfile {
        Regfile { r_a: 0, r_b: 0, r_c: 0, r_d: 0, r_e: 0, r_f: 0, r_h: 0, r_l: 0 }
    }

    /// The pair AF: the accumulator and the flags.
    pub open spec fn af(&self) -> u16 {
        pair(self.r_a, self.r_f)
    }

    /// The pair BC.
    pub open spec fn bc(&self) -> u16 {
        pair(self.r_b, self.r_c)
    }

    /// The pair DE.
    pub open spec fn de(&self) -> u16 {
        pair(self.r_d, self.r_e)
    }

    /// The pair HL.
    pub open spec fn hl(&self) -> u16 {
        pair(self.r_h, self.r_l)
    }

    /// AF after a write of `val`: the low nibble of `F` is discarded.
    pub open spec fn with_af(self, val: u16) -> Regfile {
        Regfile { r_a: high_byte(val), r_f: low_byte(val) & 0xF0, ..self }
    }

    /// The register file after a write of `val` to BC.
    pub open spec fn with_bc(self, val: u16) -> Regfile {
        Regfile { r_b: high_byte(val), r_c: low_byte(val), ..self }
    }

    /// The register file after a write of `val` to DE.
    pub open spec fn with_de(self, val: u16) -> Regfile {
        Regfile { r_d: high_byte(val), r_e: low_byte(val), ..self }
    }

    /// The register file after a write of `val` to HL.
    pub open spec fn with_hl(self, val: u16) -> Regfile {
        Regfile { r_h: high_byte(val), r_l: low_byte(val), ..self }
    }

    /// The zero flag: bit 7 of `F`.
    pub open spec fn zero(&self) -> bool {
        self.r_f & 0x80 != 0
    }

    /// The subtract flag: bit 6 of `F`.
    pub open spec fn subtract(&self) -> bool {
        self.r_f & 0x40 != 0
    }

    /// The half-carry flag: bit 5 of `F`.
    pub open spec fn half_carry(&self) -> bool {
        self.r_f & 0x20 != 0
    }

    /// The carry flag: bit 4 of `F`.
    pub open spec fn carry(&self) -> bool {
        self.r_f & 0x10 != 0
    }

    /// The register file after a write of the zero flag.
    pub open spec fn with_zero(self, val: bool) -> Regfile {
        Regfile {
            r_f: if val {
                self.r_f | 0x80
            } else {
                self.r_f & 0x7F
            },
            ..self
        }
    }

    /// The register file after a write of the subtract flag.
    pub open spec fn with_subtract(self, val: bool) -> Regfile {
        Regfile {
            r_f: if val {
                self.r_f | 0x40
            } else {
                self.r_f & 0xBF
            },
            ..self
        }
    }

    /// The register file after a write of the half-carry flag.
    pub open spec fn with_half_carry(self, val: bool) -> Regfile {
        Regfile {
            r_f: if val {
                self.r_f | 0x20
            } else {
                self.r_f & 0xDF
            },
            ..self
        }
    }

    /// The register file after a write of the carry flag.
    pub open spec fn with_carry(self, val: bool) -> Regfile {
        Regfile {
            r_f: if val {
                self.r_f | 0x10
            } else {
                self.r_f & 0xEF
            },
            ..self
        }
    }

    /// The register file with all four flags replaced.
    pub open spec fn with_flags(self, zero: bool, subtract: bool, half_carry: bool, carry: bool) -> Regfile {
        self.with_zero(zero).with_subtract(subtract).with_half_carry(half_carry).with_carry(carry)
    }

    /// Two register files agree on the four flags and on the low nibble of `F`.
    pub open spec fn same_flags(&self, other: Regfile) -> bool {
        &&& self.zero() == other.zero()
        &&& self.subtract() == other.subtract()
        &&& self.half_carry() == other.half_carry()
        &&& self.carry() == other.carry()
        &&& self.r_f & 0x0F == other.r_f & 0x0F
    }

    /// Writing the zero flag changes that flag and nothing else.
    pub proof fn lemma_with_zero(self, val: bool)
        ensures
            self.with_zero(val).zero() == val,
            self.with_zero(val).subtract() == self.subtract(),
            self.with_zero(val).half_carry() == self.half_carry(),
            self.with_zero(val).carry() == self.carry(),
            self.with_zero(val).r_f & 0x0F == self.r_f & 0x0F,
    {
        let f = self.r_f;
        assert({
            &&& (f | 0x80) & 0x80 != 0
            &&& (f & 0x7F) & 0x80 == 0
            &&& (f | 0x80) & 0x40 == f & 0x40
            &&& (f & 0x7F) & 0x40 == f & 0x40
            &&& (f | 0x80) & 0x20 == f & 0x20
            &&& (f & 0x7F) & 0x20 == f & 0x20
            &&& (f | 0x80) & 0x10 == f & 0x10
            &&& (f & 0x7F) & 0x10 == f & 0x10
            &&& (f | 0x80) & 0x0F == f & 0x0F
            &&& (f & 0x7F) & 0x0F == f & 0x0F
        }) by (bit_vector);
    }

    /// Writing the subtract flag changes that flag and nothing else.
    pub proof fn lemma_with_subtract(self, val: bool)
        ensures
            self.with_subtract(val).zero() == self.zero(),
            self.with_subtract(val).subtract() == val,
            self.with_subtract(val).half_carry() == self.half_carry(),
            self.with_subtract(val).carry() == self.carry(),
            self.with_subtract(val).r_f & 0x0F == self.r_f & 0x0F,
    {
        let f = self.r_f;
        assert({
            &&& (f | 0x40) & 0x40 != 0
            &&& (f & 0xBF) & 0x40 == 0
            &&& (f | 0x40) & 0x80 == f & 0x80
            &&& (f & 0xBF) & 0x80 == f & 0x80
            &&& (f | 0x40) & 0x20 == f & 0x20
            &&& (f & 0xBF) & 0x20 == f & 0x20
            &&& (f | 0x40) & 0x10 == f & 0x10
            &&& (f & 0xBF) & 0x10 == f & 0x10
            &&& (f | 0x40) & 0x0F == f & 0x0F
            &&& (f & 0xBF) & 0x0F == f & 0x0F
        }) by (bit_vector);
    }

    /// Writing the half-carry flag changes that flag and nothing else.
    pub proof fn lemma_with_half_carry(self, val: bool)
        ensures
            self.with_half_carry(val).zero() == self.zero(),
            self.with_half_carry(val).subtract() == self.subtract(),
            self.with_half_carry(val).half_carry() == val,
            self.with_half_carry(val).carry() == self.carry(),
            self.with_half_carry(val).r_f & 0x0F == self.r_f & 0x0F,
    {
        let f = self.r_f;
        assert({
            &&& (f | 0x20) & 0x20 != 0
            &&& (f & 0xDF) & 0x20 == 0
            &&& (f | 0x20) & 0x80 == f & 0x80
            &&& (f & 0xDF) & 0x80 == f & 0x80
            &&& (f | 0x20) & 0x40 == f & 0x40
            &&& (f & 0xDF) & 0x40 == f & 0x40
            &&& (f | 0x20) & 0x10 == f & 0x10
            &&& (f & 0xDF) & 0x10 == f & 0x10
            &&& (f | 0x20) & 0x0F == f & 0x0F
            &&& (f & 0xDF) & 0x0F == f & 0x0F
        }) by (bit_vector);
    }

    /// Writing the carry flag changes that flag and nothing else.
    pub proof fn lemma_with_carry(self, val: bool)
        ensures
            self.with_carry(val).zero() == self.zero(),
            self.with_carry(val).subtract() == self.subtract(),
            self.with_carry(val).half_carry() == self.half_carry(),
            self.with_carry(val).carry() == val,
            self.with_carry(val).r_f & 0x0F == self.r_f & 0x0F,
    {
        let f = self.r_f;
        assert({
            &&& (f | 0x10) & 0x10 != 0
            &&& (f & 0xEF) & 0x10 == 0
            &&& (f | 0x10) & 0x80 == f & 0x80
            &&& (f & 0xEF) & 0x80 == f & 0x80
            &&& (f | 0x10) & 0x40 == f & 0x40
            &&& (f & 0xEF) & 0x40 == f & 0x40
            &&& (f | 0x10) & 0x20 == f & 0x20
            &&& (f & 0xEF) & 0x20 == f & 0x20
            &&& (f | 0x10) & 0x0F == f & 0x0F
            &&& (f & 0xEF) & 0x0F == f & 0x0F
        }) by (bit_vector);
    }

    /// The flags that all four writes leave, and what they leave alone.
    pub broadcast proof fn lemma_with_flags(self, zero: bool, subtract: bool, half_carry: bool, carry: bool)
        ensures
            #![trigger self.with_flags(zero, subtract, half_carry, carry)]
            self.with_flags(zero, subtract, half_carry, carry).zero() == zero,
            self.with_flags(zero, subtract, half_carry, carry).subtract() == subtract,
            self.with_flags(zero, subtract, half_carry, carry).half_carry() == half_carry,
            self.with_flags(zero, subtract, half_carry, carry).carry() == carry,
            self.with_flags(zero, subtract, half_carry, carry).r_f & 0x0F == self.r_f & 0x0F,
            self.with_flags(zero, subtract, half_carry, carry).r_a == self.r_a,
            self.with_flags(zero, subtract, half_carry, carry).r_b == self.r_b,
            self.with_flags(zero, subtract, half_carry, carry).r_c == self.r_c,
            self.with_flags(zero, subtract, half_carry, carry).r_d == self.r_d,
            self.with_flags(zero, subtract, half_carry, carry).r_e == self.r_e,
            self.with_flags(zero, subtract, half_carry, carry).r_h == self.r_h,
            self.with_flags(zero, subtract, half_carry, carry).r_l == self.r_l,
            self.wf() ==> self.with_flags(zero, subtract, half_carry, carry).wf(),
    {
        let z = self.with_zero(zero);
        let n = z.with_subtract(subtract);
        let h = n.with_half_carry(half_carry);
        self.lemma_with_zero(zero);
        z.lemma_with_subtract(subtract);
        n.lemma_with_half_carry(half_carry);
        h.lemma_with_carry(carry);
    }

    /// Two register files with the same cells but `F`, the same flags and
    /// the same low nibble of `F` are equal.
    pub proof fn lemma_equal_by_flags(self, other: Regfile)
        requires
            self.same_flags(other),
            self.r_a == other.r_a,
            self.r_b == other.r_b,
            self.r_c == other.r_c,
            self.r_d == other.r_d,
            self.r_e == other.r_e,
            self.r_h == other.r_h,
            self.r_l == other.r_l,
        ensures
            self == other,
    {
        lemma_flag_byte_equal(self.r_f, other.r_f);
    }

    /// AF round trip: a write of `val` to AF reads back as `val` with the low
    /// nibble of the low byte forced to zero, and leaves a well-formed file.
    pub proof fn lemma_af_round_trip(self, val: u16)
        ensures
            self.with_af(val).af() == val & 0xFFF0,
            self.with_af(val).wf(),
    {
        let lo = low_byte(val);
        let hi = high_byte(val);
        assert((lo & 0xF0) & 0x0F == 0) by (bit_vector);
        assert(pair(hi, lo) == val);
        assert(((hi as u16) * 256 + ((lo & 0xF0) as u16)) as u16 == ((hi as u16) * 256 + (lo as u16)) as u16
            & 0xFFF0) by (bit_vector);
    }

    /// Each of BC, DE and HL reads back what was written to it.
    pub proof fn lemma_pair_round_trip(self, val: u16)
        ensures
            self.with_bc(val).bc() == val,
            self.with_de(val).de() == val,
            self.with_hl(val).hl() == val,
    {
    }

    /// A register file with every cell zero.
    pub fn new() -> (r: Regfile)
        ensures
            r == Regfile::zeroed(),
            r.wf(),
    {
        let r_a: u8 = 0;
        let r_b: u8 = 0;
        let r_c: u8 = 0;
        let r_d: u8 = 0;
        let r_e: u8 = 0;
        let r_f: u8 = 0;
        let r_h: u8 = 0;
        let r_l: u8 = 0;
        assert(0u8 & 0x0F == 0) by (bit_vector);
        Regfile { r_a, r_b, r_c, r_d, r_e, r_f, r_h, r_l }
    }

    pub fn get_af(&self) -> (r: u16)
        ensures
            r == self.af(),
    {
        combine(self.r_a, self.r_f)
    }

    pub fn get_bc(&self) -> (r: u16)
        ensures
            r == self.bc(),
    {
        combine(self.r_b, self.r_c)
    }

    pub fn get_de(&self) -> (r: u16)
        ensures
            r == self.de(),
    {
        combine(self.r_d, self.r_e)
    }

    pub fn get_hl(&self) -> (r: u16)
        ensures
            r == self.hl(),
    {
        combine(self.r_h, self.r_l)
    }

    pub fn set_af(&mut self, val: u16)
        ensures
            *final(self) == old(self).with_af(val),
            final(self).af() == val & 0xFFF0,
            final(self).wf(),
    {
        proof {
            old(self).lemma_af_round_trip(val);
            assert((val & 0xF0) as u8 == ((val % 256) as u8) & 0xF0) by (bit_vector);
        }
        self.r_a = split_high(val);
        self.r_f = (val & 0xF0) as u8;
    }

    pub fn set_bc(&mut self, val: u16)
        ensures
            *final(self) == old(self).with_bc(val),
            final(self).bc() == val,
    {
        self.r_b = split_high(val);
        self.r_c = split_low(val);
    }

    pub fn set_de(&mut self, val: u16)
        ensures
            *final(self) == old(self).with_de(val),
            final(self).de() == val,
    {
        self.r_d = split_high(val);
        self.r_e = split_low(val);
    }

    pub fn set_hl(&mut self, val: u16)
        ensures
            *final(self) == old(self).with_hl(val),
            final(self).hl() == val,
    {
        self.r_h = split_high(val);
        self.r_l = split_low(val);
    }

    pub fn get_zero(&self) -> (r: bool)
        ensures
            r == self.zero(),
    {
        (self.r_f & 0x80) > 0
    }

    pub fn set_zero(&mut self, val: bool)
        ensures
            *final(self) == old(self).with_zero(val),
            final(self).zero() == val,
            final(self).subtract() == old(self).subtract(),
            final(self).half_carry() == old(self).half_carry(),
            final(self).carry() == old(self).carry(),
            final(self).r_f & 0x0F == old(self).r_f & 0x0F,
            old(self).wf() ==> final(self).wf(),
    {
        proof {
            old(self).lemma_with_zero(val);
        }
        if val {
            self.r_f = self.r_f | 0x80
        } else {
            self.r_f = self.r_f & 0x7F
        }
    }

    pub fn get_sub(&self) -> (r: bool)
        ensures
            r == self.subtract(),
    {
        (self.r_f & 0x40) > 0
    }

    pub fn set_sub(&mut self, val: bool)
        ensures
            *final(self) == old(self).with_subtract(val),
            final(self).zero() == old(self).zero(),
            final(self).subtract() == val,
            final(self).half_carry() == old(self).half_carry(),
            final(self).carry() == old(self).carry(),
            final(self).r_f & 0x0F == old(self).r_f & 0x0F,
            old(self).wf() ==> final(self).wf(),
    {
        proof {
            old(self).lemma_with_subtract(val);
        }
        if val {
            self.r_f = self.r_f | 0x40
        } else {
            self.r_f = self.r_f & 0xBF
        }
    }

    pub fn get_half_carry(&self) -> (r: bool)
        ensures
            r == self.half_carry(),
    {
        (self.r_f & 0x20) > 0
    }

    pub fn set_half_carry(&mut self, val: bool)
        ensures
            *final(self) == old(self).with_half_carry(val),
            final(self).zero() == old(self).zero(),
            final(self).subtract() == old(self).subtract(),
            final(self).half_carry() == val,
            final(self).carry() == old(self).carry(),
            final(self).r_f & 0x0F == old(self).r_f & 0x0F,
            old(self).wf() ==> final(self).wf(),
    {
        proof {
            old(self).lemma_with_half_carry(val);
        }
        if val {
            self.r_f = self.r_f | 0x20
        } else {
            self.r_f = self.r_f & 0xDF
        }
    }

    pub fn get_carry(&self) -> (r: bool)
        ensures
            r == self.carry(),
    {
        (self.r_f & 0x10) > 0
    }

    pub fn set_carry(&mut self, val: bool)
        ensures
            *final(self) == old(self).with_carry(val),
            final(self).zero() == old(self).zero(),
            final(self).subtract() == old(self).subtract(),
            final(self).half_carry() == old(self).half_carry(),
            final(self).carry() == val,
            final(self).r_f & 0x0F == old(self).r_f & 0x0F,
            old(self).wf() ==> final(self).wf(),
    {
        proof {
            old(self).lemma_with_carry(val);
        }
        if val {
            self.r_f = self.r_f | 0x10
        } else {
            self.r_f = self.r_f & 0xEF
        }
    }

    /// Inverts the carry flag.
    pub fn toggle_carry(&mut self)
        ensures
            *final(self) == old(self).with_carry(!old(self).carry()),
            final(self).zero() == old(self).zero(),
            final(self).subtract() == old(self).subtract(),
            final(self).half_carry() == old(self).half_carry(),
            final(self).carry() == !old(self).carry(),
            final(self).r_f & 0x0F == old(self).r_f & 0x0F,
            old(self).wf() ==> final(self).wf(),
    {
        let val = !self.get_carry();
        self.set_carry(val);
    }

    /// Sets the half-carry flag to the carry out of bit 3 of `a + b`. Called
    /// with the operands as they are before the addition.
    pub fn half_add(&mut self, a: u8, b: u8)
        ensures
            *final(self) == old(self).with_half_carry(half_carry_add(a, b)),
            final(self).half_carry() <==> (a & 0xF) + (b & 0xF) > 0xF,
            final(self).zero() == old(self).zero(),
            final(self).subtract() == old(self).subtract(),
            final(self).carry() == old(self).carry(),
            final(self).r_f & 0x0F == old(self).r_f & 0x0F,
            old(self).wf() ==> final(self).wf(),
    {
        proof {
            assert((a & 0xF) <= 15 && (b & 0xF) <= 15) by (bit_vector);
            let s: u8 = ((a & 0xF) + (b & 0xF)) as u8;
            assert(s <= 30 ==> ((s & 0x10) == 0x10 <==> s > 0xF)) by (bit_vector);
        }
        let flag = (((a & 0xF) + (b & 0xF)) & 0x10) == 0x10;
        self.set_half_carry(flag)
    }

    /// Sets the half-carry flag to the borrow into bit 3 of `a - b`. Called
    /// with the operands as they are before the subtraction.
    pub fn half_sub(&mut self, a: u8, b: u8)
        ensures
            *final(self) == old(self).with_half_carry(half_carry_sub(a, b)),
            final(self).half_carry() <==> (a & 0xF) < (b & 0xF),
            final(self).zero() == old(self).zero(),
            final(self).subtract() == old(self).subtract(),
            final(self).carry() == old(self).carry(),
            final(self).r_f & 0x0F == old(self).r_f & 0x0F,
            old(self).wf() ==> final(self).wf(),
    {
        let flag = (a & 0xF) < (b & 0xF);
        self.set_half_carry(flag);
    }
}

/// The high byte of `val`.
pub fn split_high(val: u16) -> (r: u8)
    ensures
        r == high_byte(val),
{
    assert(((val & 0xFF00) >> 8) == val / 256) by (bit_vector);
    ((val & 0xFF00) >> 8) as u8
}

/// The low byte of `val`.
pub fn split_low(val: u16) -> (r: u8)
    ensures
        r == low_byte(val),
{
    assert((val & 0xFF) == val % 256) by (bit_vector);
    (val & 0xFF) as u8
}

/// The 16-bit value with `hi` as its high byte and `lo` as its low byte.
pub fn combine(hi: u8, lo: u8) -> (r: u16)
    ensures
        r == pair(hi, lo),
{
    assert(((hi as u16) << 8) | (lo as u16) == (hi as u16) * 256 + (lo as u16)) by (bit_vector);
    ((hi as u16) << 8) | (lo as u16)
}

} // verus!
