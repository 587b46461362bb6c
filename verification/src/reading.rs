use vstd::arithmetic::power2::{
    lemma2_to64, lemma_pow2_adds, lemma_pow2_pos, lemma_pow2_strictly_increases,
    lemma_pow2_unfold, pow2,
};
use vstd::prelude::*;

verus! {

/// The bits of a reading with everything but the sign.
pub const MAGNITUDE_MASK: u32 = 0x7fff_ffff;

/// The sign bit of a reading.
pub const SIGN_MASK: u32 = 0x8000_0000;

/// The magnitude of positive infinity; every larger magnitude is not a number.
pub const INFINITE_MAGNITUDE: u32 = 0x7f80_0000;

/// A sensor reading or a threshold: a single-precision binary number of
/// IEEE 754, held by its 32 bits (sign, 8 bits of exponent, 23 bits of
/// fraction).
///
/// Readings are only ever compared. Two numbers of this format compare as
/// their sign-and-magnitude integers do, with both zeros equal, and a reading
/// that is not a number compares with nothing, not even with itself.
#[derive(Clone, Copy, Debug)]
pub struct Reading {
    pub bits: u32,
}

impl Reading {
    /// Whether the bits stand for no number at all.
    pub open spec fn spec_is_nan(self) -> bool {
        (self.bits & MAGNITUDE_MASK) > INFINITE_MAGNITUDE
    }

    /// The place of a number among all numbers of the format: the magnitude
    /// bits read as an integer, negated where the sign bit is set.
    pub open spec fn rank(self) -> int {
        if self.bits & SIGN_MASK == 0 {
            (self.bits & MAGNITUDE_MASK) as int
        } else {
            -((self.bits & MAGNITUDE_MASK) as int)
        }
    }

    /// `self <= other` as numbers.
    pub open spec fn spec_le(self, other: Reading) -> bool {
        !self.spec_is_nan() && !other.spec_is_nan() && self.rank() <= other.rank()
    }

    /// `self < other` as numbers.
    pub open spec fn spec_lt(self, other: Reading) -> bool {
        !self.spec_is_nan() && !other.spec_is_nan() && self.rank() < other.rank()
    }

    /// `self >= other` as numbers.
    pub open spec fn spec_ge(self, other: Reading) -> bool {
        other.spec_le(self)
    }

    /// `self > other` as numbers.
    pub open spec fn spec_gt(self, other: Reading) -> bool {
        other.spec_lt(self)
    }

    /// The reading with the given bits.
    pub fn from_bits(bits: u32) -> (r: Reading)
        ensures
            r.bits == bits,
    {
        Reading { bits }
    }

    /// The bits of the reading.
    pub fn to_bits(self) -> (bits: u32)
        ensures
            bits == self.bits,
    {
        self.bits
    }

    /// Whether the reading is not a number.
    #[verifier::when_used_as_spec(spec_is_nan)]
    pub fn is_nan(self) -> (r: bool)
        ensures
            r == self.spec_is_nan(),
    {
        (self.bits & MAGNITUDE_MASK) > INFINITE_MAGNITUDE
    }

    fn exec_rank(self) -> (r: i64)
        ensures
            r == self.rank(),
    {
        let magnitude: i64 = (self.bits & MAGNITUDE_MASK) as i64;
        if self.bits & SIGN_MASK == 0 {
            magnitude
        } else {
            -magnitude
        }
    }

    /// `self <= other`, false where either is not a number.
    #[verifier::when_used_as_spec(spec_le)]
    pub fn le(self, other: Reading) -> (r: bool)
        ensures
            r == self.spec_le(other),
    {
        !self.is_nan() && !other.is_nan() && self.exec_rank() <= other.exec_rank()
    }

    /// `self < other`, false where either is not a number.
    #[verifier::when_used_as_spec(spec_lt)]
    pub fn lt(self, other: Reading) -> (r: bool)
        ensures
            r == self.spec_lt(other),
    {
        !self.is_nan() && !other.is_nan() && self.exec_rank() < other.exec_rank()
    }

    /// `self >= other`, false where either is not a number.
    #[verifier::when_used_as_spec(spec_ge)]
    pub fn ge(self, other: Reading) -> (r: bool)
        ensures
            r == self.spec_ge(other),
    {
        other.le(self)
    }

    /// `self > other`, false where either is not a number.
    #[verifier::when_used_as_spec(spec_gt)]
    pub fn gt(self, other: Reading) -> (r: bool)
        ensures
            r == self.spec_gt(other),
    {
        other.lt(self)
    }
}


/// The bits of zero.
pub const ZERO: u32 = 0x0000_0000;

/// The bits of one hundred, the upper end of a load in percent.
pub const HUNDRED: u32 = 0x42c8_0000;

/// The bits of one hundred and ten, the highest temperature threshold taken,
/// in degrees Celsius.
pub const HUNDRED_AND_TEN: u32 = 0x42dc_0000;

/// Zero as a reading.
pub open spec fn zero() -> Reading {
    Reading { bits: ZERO }
}

/// One hundred as a reading.
pub open spec fn hundred() -> Reading {
    Reading { bits: HUNDRED }
}

/// One hundred and ten as a reading.
pub open spec fn hundred_and_ten() -> Reading {
    Reading { bits: HUNDRED_AND_TEN }
}

/// Two to the power of 23: the first magnitude with a non-zero exponent,
/// and the hidden bit of a fraction.
pub const HIDDEN_BIT: u32 = 0x80_0000;

/// The size of the number with the magnitude bits `m`, counted in units of
/// two to the power of -149, the smallest positive number of the format.
/// The exponent is `m` divided by two to the power of 23, the fraction the
/// remainder. With exponent zero the size is the fraction; with an exponent
/// `e` above zero it is the fraction with the hidden bit, times two to the
/// power of `e - 1`. The magnitude of infinity gets a size above every
/// number's.
pub open spec fn size(m: nat) -> nat {
    let e = m / (HIDDEN_BIT as nat);
    let f = m % (HIDDEN_BIT as nat);
    if e == 0 {
        f
    } else {
        ((HIDDEN_BIT as nat) + f) * pow2((e - 1) as nat)
    }
}

impl Reading {
    /// The number that the reading stands for, counted in units of two to
    /// the power of -149.
    pub open spec fn units(self) -> int {
        if self.bits & SIGN_MASK == 0 {
            size((self.bits & MAGNITUDE_MASK) as nat) as int
        } else {
            -(size((self.bits & MAGNITUDE_MASK) as nat) as int)
        }
    }

    /// Whether the reading stands for the whole number `n`.
    pub open spec fn stands_for(self, n: int) -> bool {
        !self.spec_is_nan() && self.units() == n * pow2(149)
    }
}

/// A larger magnitude is a larger size.
pub proof fn lemma_size_increases(m1: nat, m2: nat)
    requires
        m1 < m2,
    ensures
        size(m1) < size(m2),
{
    let k = HIDDEN_BIT as nat;
    let (e1, f1) = (m1 / k, m1 % k);
    let (e2, f2) = (m2 / k, m2 % k);
    assert(e1 <= e2);
    if e1 == e2 {
        assert(f1 < f2);
        if e1 > 0 {
            let p = pow2((e1 - 1) as nat);
            lemma_pow2_pos((e1 - 1) as nat);
            assert((k + f1) * p < (k + f2) * p) by (nonlinear_arith)
                requires
                    f1 < f2,
                    p > 0,
            ;
        }
    } else {
        let p2 = pow2((e2 - 1) as nat);
        lemma_pow2_pos((e2 - 1) as nat);
        assert(k * p2 <= (k + f2) * p2) by (nonlinear_arith)
            requires
                p2 > 0,
        ;
        if e1 == 0 {
            assert(k <= k * p2) by (nonlinear_arith)
                requires
                    p2 > 0,
            ;
        } else {
            let p1 = pow2((e1 - 1) as nat);
            lemma_pow2_pos((e1 - 1) as nat);
            lemma_pow2_unfold(e1);
            if e1 < e2 - 1 {
                lemma_pow2_strictly_increases(e1, (e2 - 1) as nat);
            }
            assert(2 * p1 <= p2);
            assert((k + f1) * p1 < k * p2) by (nonlinear_arith)
                requires
                    f1 < k,
                    p1 > 0,
                    2 * p1 <= p2,
            ;
        }
    }
}

/// The order of readings is the order of the numbers they stand for: ranks
/// compare as the numbers do.
pub proof fn lemma_order_is_numeric(a: Reading, b: Reading)
    ensures
        a.rank() <= b.rank() <==> a.units() <= b.units(),
        a.rank() < b.rank() <==> a.units() < b.units(),
        !a.spec_is_nan() && !b.spec_is_nan() ==> (a.spec_le(b) <==> a.units() <= b.units()),
        !a.spec_is_nan() && !b.spec_is_nan() ==> (a.spec_lt(b) <==> a.units() < b.units()),
{
    let ma = (a.bits & MAGNITUDE_MASK) as nat;
    let mb = (b.bits & MAGNITUDE_MASK) as nat;
    if ma < mb {
        lemma_size_increases(ma, mb);
    }
    if mb < ma {
        lemma_size_increases(mb, ma);
    }
    if 0 < ma {
        lemma_size_increases(0, ma);
    }
    if 0 < mb {
        lemma_size_increases(0, mb);
    }
    assert(size(0) == 0);
}

/// The readings named in this file and the usual thresholds stand for the
/// whole numbers that their names give.
pub proof fn lemma_named_readings()
    ensures
        zero().stands_for(0),
        hundred().stands_for(100),
        hundred_and_ten().stands_for(110),
        (Reading { bits: 0x428c_0000 }).stands_for(70),
        (Reading { bits: 0x41f0_0000 }).stands_for(30),
        (Reading { bits: 0x4296_0000 }).stands_for(75),
{
    lemma2_to64();
    lemma_pow2_adds(17, 132);
    lemma_pow2_adds(19, 130);
    assert(0x0000_0000u32 & 0x7fff_ffffu32 == 0 && 0x0000_0000u32 & 0x8000_0000u32 == 0)
        by (bit_vector);
    assert(0x42c8_0000u32 & 0x7fff_ffffu32 == 0x42c8_0000 && 0x42c8_0000u32 & 0x8000_0000u32 == 0)
        by (bit_vector);
    assert(0x42dc_0000u32 & 0x7fff_ffffu32 == 0x42dc_0000 && 0x42dc_0000u32 & 0x8000_0000u32 == 0)
        by (bit_vector);
    assert(0x428c_0000u32 & 0x7fff_ffffu32 == 0x428c_0000 && 0x428c_0000u32 & 0x8000_0000u32 == 0)
        by (bit_vector);
    assert(0x41f0_0000u32 & 0x7fff_ffffu32 == 0x41f0_0000 && 0x41f0_0000u32 & 0x8000_0000u32 == 0)
        by (bit_vector);
    assert(0x4296_0000u32 & 0x7fff_ffffu32 == 0x4296_0000 && 0x4296_0000u32 & 0x8000_0000u32 == 0)
        by (bit_vector);
    let p = pow2(132);
    let q = pow2(130);
    assert(size(0x42c8_0000) == 0xc8_0000 * p);
    assert(0xc8_0000 * p == 100 * (0x2_0000 * p)) by (nonlinear_arith);
    assert(size(0x42dc_0000) == 0xdc_0000 * p);
    assert(0xdc_0000 * p == 110 * (0x2_0000 * p)) by (nonlinear_arith);
    assert(size(0x428c_0000) == 0x8c_0000 * p);
    assert(0x8c_0000 * p == 70 * (0x2_0000 * p)) by (nonlinear_arith);
    assert(size(0x4296_0000) == 0x96_0000 * p);
    assert(0x96_0000 * p == 75 * (0x2_0000 * p)) by (nonlinear_arith);
    assert(size(0x41f0_0000) == 0xf0_0000 * q);
    assert(0xf0_0000 * q == 30 * (0x8_0000 * q)) by (nonlinear_arith);
    assert(0 * pow2(149) == 0);
}

} // verus!
