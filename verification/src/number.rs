//! Numbers of the language: IEEE 754 double-precision values, carried by
//! their 64-bit pattern.
//!
//! Everything here is decided on the bit pattern with integer arithmetic:
//! sign, zero, not-a-number, ordering, equality, negation and the whole
//! part used as a repetition count. Each is proved to agree with the
//! value that the pattern stands for. Sums, products and quotients, and
//! the conversion between numbers and decimal text, are the host's work.

use vstd::prelude::*;

verus! {

/// The sign bit of a pattern.
pub const SIGN_BIT: u64 = 0x8000_0000_0000_0000;

/// The pattern of positive infinity; larger magnitudes are not numbers.
pub const INFINITY_BITS: u64 = 0x7ff0_0000_0000_0000;

/// Two to the power 52: the number of patterns that share one exponent.
pub const FRACTION_SPAN: u64 = 0x10_0000_0000_0000;

/// The exponent field of one.
pub const EXPONENT_BIAS: u64 = 1023;

/// Two to the power `k`.
pub open spec fn pow2(k: nat) -> nat
    decreases k,
{
    if k == 0 {
        1
    } else {
        2 * pow2((k - 1) as nat)
    }
}

pub proof fn pow2_grows(a: nat, b: nat)
    requires
        a <= b,
    ensures
        pow2(a) <= pow2(b),
        pow2(a) >= 1,
    decreases b,
{
    if a < b {
        pow2_grows(a, (b - 1) as nat);
    } else if a > 0 {
        pow2_grows((a - 1) as nat, (a - 1) as nat);
    }
}

proof fn pow2_values()
    ensures
        pow2(12) == 4096,
        pow2(52) == 0x10_0000_0000_0000,
        pow2(63) == 0x8000_0000_0000_0000,
{
    reveal_with_fuel(pow2, 13);
    assert(pow2(12) == 4096);
    assert(pow2(24) == 4096 * 4096) by {
        pow2_sum(12, 12);
    }
    assert(pow2(48) == 0x1_0000_0000_0000) by {
        pow2_sum(24, 24);
    }
    assert(pow2(4) == 16);
    assert(pow2(52) == 0x10_0000_0000_0000) by {
        pow2_sum(48, 4);
    }
    assert(pow2(11) == 2048);
    assert(pow2(63) == 0x8000_0000_0000_0000) by {
        pow2_sum(52, 11);
    }
}

pub proof fn pow2_sum(a: nat, b: nat)
    ensures
        pow2(a + b) == pow2(a) * pow2(b),
    decreases b,
{
    if b == 0 {
        assert(pow2(a) * 1 == pow2(a));
    } else {
        pow2_sum(a, (b - 1) as nat);
        assert(pow2(a + b) == 2 * pow2((a + b - 1) as nat));
        assert(2 * (pow2(a) * pow2((b - 1) as nat)) == pow2(a) * (2 * pow2((b - 1) as nat)))
            by (nonlinear_arith);
    }
}

/// A number of the language.
#[derive(Debug, PartialEq, Eq, Clone, Copy, Structural)]
pub struct Number {
    pub bits: u64,
}

impl Number {
    /// The pattern without its sign bit.
    pub open spec fn magnitude(self) -> u64 {
        if self.bits >= SIGN_BIT {
            (self.bits - SIGN_BIT) as u64
        } else {
            self.bits
        }
    }

    pub open spec fn negative(self) -> bool {
        self.bits >= SIGN_BIT
    }

    /// Not a number: an all-ones exponent with a non-zero fraction.
    pub open spec fn nan(self) -> bool {
        self.magnitude() > INFINITY_BITS
    }

    /// Positive or negative zero.
    pub open spec fn zero(self) -> bool {
        self.magnitude() == 0
    }

    /// An integer that orders the values that are numbers as their real
    /// values are ordered: the magnitude, negated under the sign bit. Both
    /// zeros have key 0.
    pub open spec fn key(self) -> int {
        if self.negative() {
            -(self.magnitude() as int)
        } else {
            self.magnitude() as int
        }
    }

    /// Numeric equality: false when either side is not a number, and the
    /// two zeros are equal.
    pub open spec fn same(self, other: Number) -> bool {
        !self.nan() && !other.nan() && self.key() == other.key()
    }

    /// Numeric `<`: false when either side is not a number.
    pub open spec fn below(self, other: Number) -> bool {
        !self.nan() && !other.nan() && self.key() < other.key()
    }

    /// The value with its sign bit flipped.
    pub open spec fn opposite(self) -> Number {
        if self.bits >= SIGN_BIT {
            Number { bits: (self.bits - SIGN_BIT) as u64 }
        } else {
            Number { bits: (self.bits + SIGN_BIT) as u64 }
        }
    }

    /// The biased exponent field.
    pub open spec fn exponent(self) -> nat {
        (self.magnitude() / FRACTION_SPAN) as nat
    }

    /// The fraction field.
    pub open spec fn fraction(self) -> nat {
        (self.magnitude() % FRACTION_SPAN) as nat
    }

    /// The magnitude of the value that the pattern stands for, times two
    /// to the power 1074: a whole number for every pattern. With exponent
    /// field zero it is the fraction field, else
    /// `(2^52 + fraction) * 2^(exponent - 1)`. Infinity stands for a value
    /// above all others.
    pub open spec fn scaled(self) -> nat {
        if self.exponent() == 0 {
            self.fraction()
        } else {
            (FRACTION_SPAN as nat + self.fraction()) * pow2((self.exponent() - 1) as nat)
        }
    }

    /// The value that the pattern stands for, times two to the power 1074.
    pub open spec fn signed(self) -> int {
        if self.negative() {
            -(self.scaled() as int)
        } else {
            self.scaled() as int
        }
    }

    /// The whole part of the magnitude of the value:
    /// `(2^52 + fraction) * 2^(exponent - 1075)`, rounded down.
    pub open spec fn whole(self) -> nat {
        let e = self.exponent();
        let m = FRACTION_SPAN as nat + self.fraction();
        if e < EXPONENT_BIAS {
            0
        } else if e <= 1075 {
            m / pow2((1075 - e) as nat)
        } else {
            m * pow2((e - 1075) as nat)
        }
    }

    /// The value as a count: zero for what is negative or not a number,
    /// else the whole part, capped at `usize::MAX`.
    pub open spec fn count(self) -> nat {
        if self.negative() || self.nan() {
            0
        } else if self.whole() > usize::MAX {
            usize::MAX as nat
        } else {
            self.whole()
        }
    }

    pub fn from_bits(bits: u64) -> (n: Number)
        ensures
            n.bits == bits,
    {
        Number { bits }
    }

    /// Positive zero.
    pub fn zero_value() -> (n: Number)
        ensures
            n.bits == 0,
            n.zero(),
    {
        Number { bits: 0 }
    }

    fn magnitude_bits(&self) -> (m: u64)
        ensures
            m == self.magnitude(),
    {
        if self.bits >= SIGN_BIT {
            self.bits - SIGN_BIT
        } else {
            self.bits
        }
    }

    pub fn is_negative(&self) -> (b: bool)
        ensures
            b == self.negative(),
    {
        self.bits >= SIGN_BIT
    }

    pub fn is_nan(&self) -> (b: bool)
        ensures
            b == self.nan(),
    {
        self.magnitude_bits() > INFINITY_BITS
    }

    pub fn is_zero(&self) -> (b: bool)
        ensures
            b == self.zero(),
    {
        self.magnitude_bits() == 0
    }

    pub fn negate(&self) -> (n: Number)
        ensures
            n == self.opposite(),
    {
        if self.bits >= SIGN_BIT {
            Number { bits: self.bits - SIGN_BIT }
        } else {
            Number { bits: self.bits + SIGN_BIT }
        }
    }

    pub fn equals(&self, other: &Number) -> (b: bool)
        ensures
            b == self.same(*other),
    {
        if self.is_nan() || other.is_nan() {
            return false;
        }
        let a = self.magnitude_bits();
        let c = other.magnitude_bits();
        if a == 0 && c == 0 {
            true
        } else {
            self.bits == other.bits
        }
    }

    pub fn less(&self, other: &Number) -> (b: bool)
        ensures
            b == self.below(*other),
    {
        if self.is_nan() || other.is_nan() {
            return false;
        }
        let a = self.magnitude_bits();
        let c = other.magnitude_bits();
        if self.is_negative() {
            if other.is_negative() {
                a > c
            } else {
                a > 0 || c > 0
            }
        } else {
            if other.is_negative() {
                false
            } else {
                a < c
            }
        }
    }

    /// Numeric `<=`.
    pub fn at_most(&self, other: &Number) -> (b: bool)
        ensures
            b == (self.below(*other) || self.same(*other)),
    {
        self.less(other) || self.equals(other)
    }

    /// The value as a count of repetitions.
    pub fn to_count(&self) -> (n: usize)
        ensures
            n == self.count(),
    {
        if self.is_negative() || self.is_nan() {
            return 0;
        }
        let mag = self.magnitude_bits();
        let e = mag / FRACTION_SPAN;
        let m = FRACTION_SPAN + mag % FRACTION_SPAN;
        proof {
            pow2_values();
        }
        if e < EXPONENT_BIAS {
            0
        } else if e <= 1075 {
            let d = power_of_two(1075 - e);
            let w = m / d;
            if w > usize::MAX as u64 {
                usize::MAX
            } else {
                w as usize
            }
        } else if e <= 1086 {
            let d = power_of_two(e - 1075);
            proof {
                pow2_grows((e - 1075) as nat, 11);
                reveal_with_fuel(pow2, 12);
                assert(pow2(11) == 2048);
                assert(m * d <= 0x1f_ffff_ffff_ffff * 2048) by (nonlinear_arith)
                    requires
                        m <= 0x1f_ffff_ffff_ffff,
                        d <= 2048,
                ;
            }
            let w = m * d;
            if w > usize::MAX as u64 {
                usize::MAX
            } else {
                w as usize
            }
        } else {
            proof {
                pow2_grows(12, (e - 1075) as nat);
                let p = pow2((e - 1075) as nat);
                assert(m * p >= 0x10_0000_0000_0000 * 4096) by (nonlinear_arith)
                    requires
                        m >= 0x10_0000_0000_0000,
                        p >= 4096,
                ;
            }
            usize::MAX
        }
    }
}

/// Two to the power `k`, for an exponent that fits.
fn power_of_two(k: u64) -> (p: u64)
    requires
        k <= 63,
    ensures
        p == pow2(k as nat),
        p >= 1,
{
    let mut p: u64 = 1;
    let mut i: u64 = 0;
    while i < k
        invariant
            i <= k <= 63,
            p == pow2(i as nat),
            p >= 1,
        decreases k - i,
    {
        proof {
            pow2_grows((i + 1) as nat, 63);
            pow2_values();
        }
        p = p * 2;
        i += 1;
    }
    p
}

/// The pattern of the whole number `n`, for `n` below two to the power 53,
/// where every whole number has a pattern of its own: `log` is the position
/// of the leading binary digit of `n`.
pub open spec fn whole_number(n: nat, log: nat) -> Number {
    if n == 0 {
        Number { bits: 0 }
    } else {
        Number {
            bits: ((EXPONENT_BIAS + log) * FRACTION_SPAN + (n - pow2(log)) * pow2((52 - log) as nat)) as u64,
        }
    }
}

/// A whole number below two to the power 53 counts as itself, up to the
/// largest count there is.
pub proof fn whole_number_counts_as_itself(n: nat, log: nat)
    requires
        log <= 52,
        n == 0 || pow2(log) <= n < pow2(log + 1),
    ensures
        !whole_number(n, log).negative(),
        !whole_number(n, log).nan(),
        whole_number(n, log).count() == if n > usize::MAX { usize::MAX as nat } else { n },
{
    pow2_values();
    if n > 0 {
        let span = FRACTION_SPAN as int;
        let k = pow2((52 - log) as nat) as int;
        let p = pow2(log) as int;
        let f = (n - p) * k;
        let q = (EXPONENT_BIAS + log) as int;
        pow2_sum(log, (52 - log) as nat);
        pow2_grows(0, (52 - log) as nat);
        assert(p * k == span);
        assert(pow2(log + 1) == 2 * pow2(log)) by {
            pow2_sum(log, 1);
            reveal_with_fuel(pow2, 2);
        }
        assert(0 <= f < span) by (nonlinear_arith)
            requires
                f == (n - p) * k,
                p * k == span,
                p <= n < 2 * p,
                k >= 1,
        ;
        let bits = q * span + f;
        assert(bits < 1076 * span) by (nonlinear_arith)
            requires
                bits == q * span + f,
                f < span,
                q <= 1075,
                span > 0,
        ;
        assert(bits >= 0) by (nonlinear_arith)
            requires
                bits == q * span + f,
                f >= 0,
                q >= 0,
                span > 0,
        ;
        let w = whole_number(n, log);
        assert(w.bits == bits);
        assert(w.magnitude() == bits);
        vstd::arithmetic::div_mod::lemma_fundamental_div_mod_converse(bits, span, q, f);
        assert(w.exponent() == q);
        assert(w.fraction() == f);
        assert(span + f == n * k) by (nonlinear_arith)
            requires
                f == (n - p) * k,
                p * k == span,
        ;
        vstd::arithmetic::div_mod::lemma_fundamental_div_mod_converse(n * k, k, n as int, 0);
        assert((1075 - q) as nat == (52 - log) as nat);
        assert(w.whole() == n);
    }
}

/// A larger pattern stands for a larger magnitude.
proof fn scaled_grows(a: Number, b: Number)
    requires
        a.magnitude() < b.magnitude(),
    ensures
        a.scaled() < b.scaled(),
{
    let span = FRACTION_SPAN as int;
    let e1 = a.exponent() as int;
    let f1 = a.fraction() as int;
    let e2 = b.exponent() as int;
    let f2 = b.fraction() as int;
    vstd::arithmetic::div_mod::lemma_fundamental_div_mod(a.magnitude() as int, span);
    vstd::arithmetic::div_mod::lemma_fundamental_div_mod(b.magnitude() as int, span);
    assert(a.magnitude() == span * e1 + f1);
    assert(b.magnitude() == span * e2 + f2);
    assert(e1 <= e2);
    if e1 == e2 {
        if e1 != 0 {
            let p = pow2((e1 - 1) as nat) as int;
            pow2_grows(0, (e1 - 1) as nat);
            assert((span + f1) * p < (span + f2) * p) by (nonlinear_arith)
                requires
                    f1 < f2,
                    p >= 1,
            ;
        }
    } else {
        let p2 = pow2((e2 - 1) as nat) as int;
        pow2_grows(0, (e2 - 1) as nat);
        if e1 == 0 {
            assert(f1 < (span + f2) * p2) by (nonlinear_arith)
                requires
                    f1 < span,
                    span > 0,
                    f2 >= 0,
                    p2 >= 1,
            ;
        } else {
            let p1 = pow2((e1 - 1) as nat) as int;
            pow2_grows(e1 as nat, (e2 - 1) as nat);
            assert(pow2(e1 as nat) == 2 * pow2((e1 - 1) as nat));
            assert((span + f1) * p1 < (span + f2) * p2) by (nonlinear_arith)
                requires
                    0 <= f1 < span,
                    f2 >= 0,
                    p1 >= 0,
                    2 * p1 <= p2,
                    p2 >= 1,
            ;
        }
    }
}

/// The order of numbers is the order of the values they stand for, and
/// two numbers are equal where they stand for the same value.
pub proof fn order_is_the_order_of_values(a: Number, b: Number)
    requires
        !a.nan(),
        !b.nan(),
    ensures
        a.below(b) <==> a.signed() < b.signed(),
        a.same(b) <==> a.signed() == b.signed(),
        a.zero() <==> a.signed() == 0,
        a.opposite().signed() == -a.signed(),
{
    if a.magnitude() < b.magnitude() {
        scaled_grows(a, b);
    }
    if b.magnitude() < a.magnitude() {
        scaled_grows(b, a);
    }
    let nothing = Number { bits: 0 };
    if 0 < a.magnitude() {
        scaled_grows(nothing, a);
    }
    if 0 < b.magnitude() {
        scaled_grows(nothing, b);
    }
    assert(a.opposite().magnitude() == a.magnitude());
}

/// The whole part is the whole part of the magnitude of the value.
pub proof fn whole_is_the_whole_part(a: Number)
    ensures
        a.whole() == a.scaled() / pow2(1074),
{
    pow2_values();
    let span = FRACTION_SPAN as int;
    let e = a.exponent() as int;
    let m = span + a.fraction();
    pow2_grows(0, 1074);
    if e == 0 {
        pow2_grows(52, 1074);
        vstd::arithmetic::div_mod::lemma_fundamental_div_mod_converse(
            a.scaled() as int,
            pow2(1074) as int,
            0,
            a.scaled() as int,
        );
    } else if e < 1075 {
        let low = pow2((e - 1) as nat) as int;
        let high = pow2((1075 - e) as nat) as int;
        pow2_sum((e - 1) as nat, (1075 - e) as nat);
        pow2_grows(0, (e - 1) as nat);
        pow2_grows(0, (1075 - e) as nat);
        assert(low * high == pow2(1074));
        vstd::arithmetic::div_mod::lemma_div_multiples_vanish_quotient(low, m, high);
        assert(low * m == m * low) by (nonlinear_arith);
        assert(a.scaled() / pow2(1074) == m / high);
        if e < EXPONENT_BIAS {
            pow2_grows(53, (1075 - e) as nat);
            pow2_sum(52, 1);
            reveal_with_fuel(pow2, 2);
            assert(m < high);
            vstd::arithmetic::div_mod::lemma_fundamental_div_mod_converse(m, high, 0, m);
        }
    } else {
        let over = pow2((e - 1075) as nat) as int;
        pow2_sum((e - 1075) as nat, 1074);
        assert(pow2((e - 1) as nat) == over * pow2(1074));
        assert(m * (over * pow2(1074)) == (m * over) * pow2(1074)) by (nonlinear_arith);
        assert(m * over >= 0) by (nonlinear_arith)
            requires
                m >= 0,
                over >= 0,
        ;
        vstd::arithmetic::div_mod::lemma_fundamental_div_mod_converse(
            a.scaled() as int,
            pow2(1074) as int,
            m * over,
            0,
        );
        assert(a.scaled() / pow2(1074) == m * over);
        if e == 1075 {
            assert(over == 1);
            assert(m * 1 == m);
            assert(m / 1 == m);
        }
    }
}

/// The order of numbers is strict: nothing is below itself, and of two
/// numbers at most one is below the other.
pub proof fn order_is_strict(a: Number, b: Number)
    ensures
        !a.below(a),
        !(a.below(b) && b.below(a)),
        a.below(b) ==> !a.same(b),
{
}

/// Negation is its own inverse, and reverses the order.
pub proof fn negation_mirrors(a: Number, b: Number)
    ensures
        a.opposite().opposite() == a,
        a.below(b) <==> b.opposite().below(a.opposite()),
        a.zero() <==> a.opposite().zero(),
        a.nan() <==> a.opposite().nan(),
{
}

} // verus!
