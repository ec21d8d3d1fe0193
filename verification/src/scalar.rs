//! Single-precision numbers of IEEE 754, held by their 32-bit encodings.
//!
//! An encoding is a sign bit, eight exponent bits and twenty-three fraction
//! bits. Every number that is encoded this way is an integer multiple of
//! 2^-149, so its value times 2^149 is an integer: that integer is the model
//! the contracts of this module are stated over.

use vstd::prelude::*;
use vstd::arithmetic::power2::pow2;
use vstd::arithmetic::power2::lemma_pow2_pos;
use vstd::arithmetic::power2::lemma_pow2_unfold;
use vstd::arithmetic::power2::lemma_pow2_strictly_increases;
use vstd::arithmetic::power2::lemma_pow2_adds;
use vstd::arithmetic::power2::lemma2_to64;
use vstd::arithmetic::div_mod::lemma_basic_div;
use vstd::arithmetic::div_mod::lemma_div_is_ordered;
use vstd::arithmetic::div_mod::lemma_div_multiples_vanish_quotient;
use vstd::arithmetic::div_mod::lemma_fundamental_div_mod_converse;

verus! {

/// The sign bit of an encoding.
pub const SIGN_BIT: u32 = 0x8000_0000;

/// The magnitude of the two infinities; every greater magnitude encodes no number.
pub const INFINITE: u32 = 0x7f80_0000;

/// The number of encodings that share one exponent.
pub const BINADE: u32 = 0x0080_0000;

/// A number held by its encoding.
///
/// `==` on two of them compares encodings: it tells `0.0` from `-0.0`, and an
/// encoding of no number is equal to itself.
#[derive(Clone, Copy, Debug, PartialEq, Eq, Structural)]
pub struct Scalar {
    pub bits: u32,
}

impl Scalar {
    /// The encoding without its sign bit.
    pub open spec fn magnitude(self) -> int {
        self.bits as int % 0x8000_0000
    }

    /// Whether the sign bit is set.
    pub open spec fn negative(self) -> bool {
        self.bits >= 0x8000_0000
    }

    /// Whether the encoding stands for no number at all.
    pub open spec fn not_a_number(self) -> bool {
        self.magnitude() > 0x7f80_0000
    }

    /// The exponent field.
    pub open spec fn exponent(self) -> int {
        self.magnitude() / 0x0080_0000
    }

    /// The fraction field.
    pub open spec fn fraction(self) -> int {
        self.magnitude() % 0x0080_0000
    }

    /// The absolute value of the number, times 2^149. An infinity weighs 2^277.
    pub open spec fn weight(self) -> int {
        if self.exponent() == 0 {
            self.fraction()
        } else {
            (0x0080_0000 + self.fraction()) * pow2((self.exponent() - 1) as nat)
        }
    }

    /// The number itself, times 2^149.
    pub open spec fn scaled(self) -> int {
        if self.negative() {
            -self.weight()
        } else {
            self.weight()
        }
    }

    /// `self < other`: both are numbers, and the first is the smaller one.
    pub open spec fn below(self, other: Scalar) -> bool {
        !self.not_a_number() && !other.not_a_number() && self.scaled() < other.scaled()
    }

    /// `self <= other`: both are numbers, and the first is not the greater one.
    pub open spec fn at_most(self, other: Scalar) -> bool {
        !self.not_a_number() && !other.not_a_number() && self.scaled() <= other.scaled()
    }

    /// The encoding with the sign bit flipped.
    pub open spec fn negated(self) -> Scalar {
        if self.bits >= 0x8000_0000 {
            Scalar { bits: (self.bits - 0x8000_0000) as u32 }
        } else {
            Scalar { bits: (self.bits + 0x8000_0000) as u32 }
        }
    }

    /// The smaller of two numbers; the other one where one of them is no
    /// number, and `other` where they compare equal.
    pub open spec fn lesser(self, other: Scalar) -> Scalar {
        if other.not_a_number() || self.below(other) {
            self
        } else {
            other
        }
    }

    /// The greater of two numbers; the other one where one of them is no
    /// number, and `other` where they compare equal.
    pub open spec fn greater(self, other: Scalar) -> Scalar {
        if other.not_a_number() || other.below(self) {
            self
        } else {
            other
        }
    }

    /// The number rounded to the nearest integer, a half rounded up, and
    /// kept within the range of a byte: 0 for every number below one half and
    /// for what is no number, 255 for every number from 254.5 on.
    pub open spec fn rounded_byte(self) -> int {
        if self.not_a_number() || self.negative() {
            0
        } else {
            let nearest = (2 * self.scaled() + pow2(149)) / (pow2(150) as int);
            if nearest > 255 {
                255
            } else {
                nearest
            }
        }
    }

    /// The magnitude with its sign: the integer by which encodings are compared.
    pub open spec fn rank(self) -> int {
        if self.negative() {
            -self.magnitude()
        } else {
            self.magnitude()
        }
    }

    /// `0.0`.
    pub open spec fn spec_zero() -> Scalar {
        Scalar { bits: 0 }
    }

    /// `1.0`.
    pub open spec fn spec_one() -> Scalar {
        Scalar { bits: 0x3f80_0000 }
    }

    /// `0.0`.
    #[verifier::when_used_as_spec(spec_zero)]
    pub fn zero() -> (r: Scalar)
        ensures
            r == Scalar::spec_zero(),
    {
        Scalar { bits: 0 }
    }

    /// `1.0`.
    #[verifier::when_used_as_spec(spec_one)]
    pub fn one() -> (r: Scalar)
        ensures
            r == Scalar::spec_one(),
    {
        Scalar { bits: 0x3f80_0000 }
    }

    /// The number with the given encoding.
    pub fn from_bits(bits: u32) -> (r: Scalar)
        ensures
            r.bits == bits,
    {
        Scalar { bits }
    }

    /// The encoding of the number.
    pub fn to_bits(self) -> (r: u32)
        ensures
            r == self.bits,
    {
        self.bits
    }

    /// Whether the encoding stands for no number.
    pub fn is_nan(self) -> (r: bool)
        ensures
            r == self.not_a_number(),
    {
        self.bits % SIGN_BIT > INFINITE
    }

    fn signed_magnitude(self) -> (r: i64)
        ensures
            r == self.rank(),
    {
        if self.bits >= SIGN_BIT {
            let m: u32 = self.bits - SIGN_BIT;
            -(m as i64)
        } else {
            self.bits as i64
        }
    }

    /// `self < other`, as the numbers compare: false when either is no number,
    /// and `-0.0` is not below `0.0`.
    pub fn lt(self, other: Scalar) -> (r: bool)
        ensures
            r == self.below(other),
            r == (!self.not_a_number() && !other.not_a_number() && self.rank() < other.rank()),
    {
        proof {
            lemma_rank_orders(self, other);
        }
        !self.is_nan() && !other.is_nan() && self.signed_magnitude() < other.signed_magnitude()
    }

    /// `self <= other`, as the numbers compare: false when either is no number.
    pub fn le(self, other: Scalar) -> (r: bool)
        ensures
            r == self.at_most(other),
            r == (!self.not_a_number() && !other.not_a_number() && self.rank() <= other.rank()),
    {
        proof {
            lemma_rank_orders(self, other);
        }
        !self.is_nan() && !other.is_nan() && self.signed_magnitude() <= other.signed_magnitude()
    }

    /// `self > other`, as the numbers compare.
    pub fn gt(self, other: Scalar) -> (r: bool)
        ensures
            r == other.below(self),
            r == (!self.not_a_number() && !other.not_a_number() && other.rank() < self.rank()),
    {
        other.lt(self)
    }

    /// `self >= other`, as the numbers compare.
    pub fn ge(self, other: Scalar) -> (r: bool)
        ensures
            r == other.at_most(self),
            r == (!self.not_a_number() && !other.not_a_number() && other.rank() <= self.rank()),
    {
        other.le(self)
    }

    /// `-self`: the same magnitude under the other sign, also for zero and for
    /// an encoding of no number.
    pub fn neg(self) -> (r: Scalar)
        ensures
            r == self.negated(),
    {
        if self.bits >= SIGN_BIT {
            Scalar { bits: self.bits - SIGN_BIT }
        } else {
            Scalar { bits: self.bits + SIGN_BIT }
        }
    }
}

impl Scalar {
    /// The smaller of two numbers, as `min` of the standard library gives it:
    /// where one of the two is no number, the other one.
    pub fn min(self, other: Scalar) -> (r: Scalar)
        ensures
            r == self.lesser(other),
    {
        if other.is_nan() || self.lt(other) {
            self
        } else {
            other
        }
    }

    /// The greater of two numbers, as `max` of the standard library gives it:
    /// where one of the two is no number, the other one.
    pub fn max(self, other: Scalar) -> (r: Scalar)
        ensures
            r == self.greater(other),
    {
        if other.is_nan() || self.gt(other) {
            self
        } else {
            other
        }
    }

    /// The byte nearest to the number: what rounding to the nearest integer
    /// and a saturating conversion give.
    pub fn to_byte(self) -> (b: u8)
        ensures
            b == self.rounded_byte(),
    {
        if self.bits >= SIGN_BIT || self.is_nan() {
            return 0;
        }
        let exponent: u32 = self.bits / BINADE;
        let fraction: u32 = self.bits % BINADE;
        if exponent < 126 {
            proof {
                lemma_rounds_to_zero(self);
            }
            0
        } else if exponent >= 135 {
            proof {
                lemma_rounds_beyond(self);
            }
            255
        } else {
            let unit: u32 = power_of_two(150 - exponent);
            proof {
                lemma_pow2_unfold((150 - exponent) as nat);
                lemma_rounds_within(self);
            }
            let nearest: u32 = (BINADE + fraction + unit / 2) / unit;
            if nearest > 255 {
                255
            } else {
                nearest as u8
            }
        }
    }
}

fn power_of_two(k: u32) -> (p: u32)
    requires
        1 <= k <= 24,
    ensures
        p == pow2(k as nat),
        2 <= p <= 0x100_0000,
{
    let mut p: u32 = 1;
    let mut i: u32 = 0;
    proof {
        lemma2_to64();
    }
    while i < k
        invariant
            i <= k <= 24,
            p == pow2(i as nat),
            1 <= p <= pow2(k as nat) <= 0x100_0000,
            i >= 1 ==> p >= 2,
        decreases k - i,
    {
        proof {
            lemma_pow2_unfold((i + 1) as nat);
            if i + 1 < k {
                lemma_pow2_strictly_increases((i + 1) as nat, k as nat);
            }
        }
        p = p * 2;
        i += 1;
    }
    p
}

/// A number below one half rounds to zero.
proof fn lemma_rounds_to_zero(x: Scalar)
    requires
        !x.negative(),
        x.exponent() < 126,
    ensures
        (2 * x.scaled() + pow2(149)) / (pow2(150) as int) == 0,
{
    let e = x.exponent();
    let f = x.fraction();
    lemma2_to64();
    lemma_pow2_adds(24, 124);
    lemma_pow2_unfold(149);
    lemma_pow2_unfold(150);
    lemma_pow2_pos(124);
    if e == 0 {
        assert(pow2(24) * pow2(124) >= pow2(24)) by (nonlinear_arith)
            requires
                pow2(124) >= 1,
        ;
    } else {
        let p = pow2((e - 1) as nat) as int;
        let top = pow2(124) as int;
        lemma_pow2_pos((e - 1) as nat);
        if e - 1 < 124 {
            lemma_pow2_strictly_increases((e - 1) as nat, 124);
        }
        assert((0x0080_0000 + f) * p < 0x100_0000 * top) by (nonlinear_arith)
            requires
                0 <= f < 0x0080_0000,
                0 < p <= top,
        ;
    }
    assert(x.scaled() < pow2(148));
    lemma_basic_div(2 * x.scaled() + pow2(149), pow2(150) as int);
}

/// A number from 256 on rounds to more than a byte holds.
proof fn lemma_rounds_beyond(x: Scalar)
    requires
        !x.negative(),
        x.exponent() >= 135,
    ensures
        (2 * x.scaled() + pow2(149)) / (pow2(150) as int) >= 256,
{
    let e = x.exponent();
    let f = x.fraction();
    let p = pow2((e - 1) as nat) as int;
    let low = pow2(134) as int;
    let d = pow2(150) as int;
    lemma2_to64();
    lemma_pow2_adds(23, 134);
    lemma_pow2_adds(7, 150);
    lemma_pow2_pos(149);
    lemma_pow2_pos(150);
    if 134 < e - 1 {
        lemma_pow2_strictly_increases(134, (e - 1) as nat);
    }
    assert((0x0080_0000 + f) * p >= 0x0080_0000 * low) by (nonlinear_arith)
        requires
            0 <= f,
            0 < low <= p,
    ;
    assert(x.scaled() >= pow2(157));
    assert(2 * x.scaled() + pow2(149) >= 256 * d);
    lemma_fundamental_div_mod_converse(256 * d, d, 256, 0);
    lemma_div_is_ordered(256 * d, 2 * x.scaled() + pow2(149), d);
}

/// Between one half and 256, rounding shifts the significand: the exponent
/// says by how many places.
proof fn lemma_rounds_within(x: Scalar)
    requires
        !x.negative(),
        126 <= x.exponent() <= 134,
    ensures
        (2 * x.scaled() + pow2(149)) / (pow2(150) as int) == (0x0080_0000 + x.fraction() + pow2(
            (149 - x.exponent()) as nat,
        )) / (pow2((150 - x.exponent()) as nat) as int),
{
    let e = x.exponent();
    let m = 0x0080_0000 + x.fraction();
    let half = pow2((149 - e) as nat) as int;
    let unit = pow2((150 - e) as nat) as int;
    let c = pow2(e as nat) as int;
    let p = pow2((e - 1) as nat) as int;
    lemma_pow2_adds((150 - e) as nat, e as nat);
    lemma_pow2_adds((149 - e) as nat, e as nat);
    lemma_pow2_unfold(e as nat);
    lemma_pow2_pos(e as nat);
    lemma_pow2_pos((150 - e) as nat);
    lemma_pow2_pos((149 - e) as nat);
    assert(pow2(150) == unit * c);
    assert(pow2(149) == half * c);
    assert(c == 2 * p);
    assert(2 * (m * p) + half * c == c * (m + half)) by (nonlinear_arith)
        requires
            c == 2 * p,
    ;
    assert(unit * c == c * unit) by (nonlinear_arith);
    lemma_div_multiples_vanish_quotient(c, m + half, unit);
}

/// Within one sign, a greater magnitude encodes a greater absolute value.
pub proof fn lemma_weight_increases(a: Scalar, b: Scalar)
    requires
        a.magnitude() < b.magnitude(),
    ensures
        a.weight() < b.weight(),
{
    let ea = a.exponent();
    let eb = b.exponent();
    let fa = a.fraction();
    let fb = b.fraction();
    if ea == eb {
        if ea != 0 {
            let p = pow2((ea - 1) as nat) as int;
            lemma_pow2_pos((ea - 1) as nat);
            assert((0x0080_0000 + fa) * p < (0x0080_0000 + fb) * p) by (nonlinear_arith)
                requires
                    fa < fb,
                    p > 0,
            ;
        }
    } else {
        assert(ea < eb);
        let q = pow2((eb - 1) as nat) as int;
        lemma_pow2_pos((eb - 1) as nat);
        // b weighs at least the least value of its binade
        assert((0x0080_0000 + fb) * q >= 0x0080_0000 * q) by (nonlinear_arith)
            requires
                fb >= 0,
                q > 0,
        ;
        if ea == 0 {
            assert(0x0080_0000 * q >= 0x0080_0000) by (nonlinear_arith)
                requires
                    q >= 1,
            ;
        } else {
            let p = pow2((ea - 1) as nat) as int;
            lemma_pow2_pos((ea - 1) as nat);
            lemma_pow2_unfold(ea as nat);
            if ea < eb - 1 {
                lemma_pow2_strictly_increases(ea as nat, (eb - 1) as nat);
            }
            assert(2 * p <= q);
            assert((0x0080_0000 + fa) * p < 0x0080_0000 * q) by (nonlinear_arith)
                requires
                    fa < 0x0080_0000,
                    p > 0,
                    2 * p <= q,
            ;
        }
    }
}

/// Comparing encodings by sign and magnitude compares the numbers.
pub proof fn lemma_rank_orders(a: Scalar, b: Scalar)
    ensures
        (a.rank() < b.rank()) == (a.scaled() < b.scaled()),
        (a.rank() <= b.rank()) == (a.scaled() <= b.scaled()),
        (a.rank() == b.rank()) == (a.scaled() == b.scaled()),
{
    let zero = Scalar { bits: 0 };
    assert(zero.weight() == 0);
    if a.magnitude() > 0 {
        lemma_weight_increases(zero, a);
    }
    if b.magnitude() > 0 {
        lemma_weight_increases(zero, b);
    }
    if a.magnitude() < b.magnitude() {
        lemma_weight_increases(a, b);
    }
    if b.magnitude() < a.magnitude() {
        lemma_weight_increases(b, a);
    }
    if a.magnitude() == b.magnitude() {
        assert(a.weight() == b.weight());
    }
}

/// Flipping the sign bit negates the number and keeps what is no number so.
pub proof fn lemma_negated(a: Scalar)
    ensures
        a.negated().scaled() == -a.scaled(),
        a.negated().not_a_number() == a.not_a_number(),
        a.negated().negated() == a,
{
}

} // verus!
