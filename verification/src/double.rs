//! IEEE 754 doubles, kept as bit patterns and compared as numbers.

use vstd::prelude::*;

verus! {

/// The weight of the sign bit.
pub const SIGN: u64 = 0x8000_0000_0000_0000;

/// The weight of the lowest bit of the exponent: the fraction lies below it.
pub const FRACTION: u64 = 0x0010_0000_0000_0000;

/// The magnitude of an infinity; a NaN has a greater one.
pub const INFINITE: u64 = 0x7ff0_0000_0000_0000;

/// A double by its bit pattern.
#[derive(Clone, Copy, Debug, PartialEq, Eq, Structural)]
pub struct Double {
    pub bits: u64,
}

/// The absolute value, times two to the 1074th, of the double whose bits without the sign are
/// `m`. Every finite double is a whole multiple of that unit; an infinity gets what the next
/// exponent would give, which is above every finite one.
pub open spec fn units(m: nat) -> nat {
    let exponent = m / FRACTION as nat;
    let fraction = m % FRACTION as nat;
    if exponent == 0 {
        fraction
    } else {
        (FRACTION as nat + fraction) * vstd::arithmetic::power2::pow2((exponent - 1) as nat)
    }
}

impl Double {
    /// The bits without the sign.
    pub open spec fn magnitude(self) -> nat {
        if self.bits >= SIGN {
            (self.bits - SIGN) as nat
        } else {
            self.bits as nat
        }
    }

    /// Not a number.
    pub open spec fn is_nan(self) -> bool {
        self.magnitude() > INFINITE
    }

    /// The number, in units of two to the minus 1074th.
    pub open spec fn value(self) -> int {
        if self.bits >= SIGN {
            -(units(self.magnitude()) as int)
        } else {
            units(self.magnitude()) as int
        }
    }

    /// `self >= other` as numbers; nothing compares with a NaN.
    pub open spec fn at_least(self, other: Double) -> bool {
        !self.is_nan() && !other.is_nan() && self.value() >= other.value()
    }

    /// `self > 0` as numbers.
    pub open spec fn positive(self) -> bool {
        !self.is_nan() && self.value() > 0
    }

    /// Positive zero.
    pub fn zero() -> (r: Double)
        ensures
            r.bits == 0,
            r.value() == 0,
            !r.is_nan(),
    {
        Double { bits: 0 }
    }

    fn magnitude_bits(self) -> (r: u64)
        ensures
            r == self.magnitude(),
    {
        if self.bits >= SIGN {
            self.bits - SIGN
        } else {
            self.bits
        }
    }

    /// Whether `self >= other` as numbers.
    pub fn ge(self, other: Double) -> (r: bool)
        ensures
            r == self.at_least(other),
    {
        let a = self.magnitude_bits();
        let b = other.magnitude_bits();
        proof {
            lemma_units_order(self.magnitude(), other.magnitude());
            lemma_units_order(other.magnitude(), self.magnitude());
            lemma_units_order(0, self.magnitude());
            lemma_units_order(0, other.magnitude());
            assert(units(0) == 0);
        }
        if a > INFINITE || b > INFINITE {
            false
        } else if self.bits >= SIGN {
            if other.bits >= SIGN {
                a <= b
            } else {
                a == 0 && b == 0
            }
        } else {
            other.bits >= SIGN || a >= b
        }
    }

    /// Whether `self > 0` as numbers.
    pub fn is_positive(self) -> (r: bool)
        ensures
            r == self.positive(),
    {
        proof {
            lemma_units_order(0, self.magnitude());
            assert(units(0) == 0);
        }
        0 < self.bits && self.bits <= INFINITE
    }
}

/// One bit pattern up is more.
proof fn lemma_units_step(m: nat)
    ensures
        units(m) < units(m + 1),
{
    let f = FRACTION as nat;
    let e = m / f;
    let r = m % f;
    assert(m == e * f + r) by {
        vstd::arithmetic::div_mod::lemma_fundamental_div_mod(m as int, f as int);
    }
    if r + 1 < f {
        assert((m + 1) / f == e && (m + 1) % f == r + 1);
        if e > 0 {
            let p = vstd::arithmetic::power2::pow2((e - 1) as nat);
            vstd::arithmetic::power2::lemma_pow2_pos((e - 1) as nat);
            assert((f + r) * p < (f + (r + 1)) * p) by (nonlinear_arith)
                requires
                    p > 0,
            ;
        }
    } else {
        assert((m + 1) / f == e + 1 && (m + 1) % f == 0);
        if e > 0 {
            let p = vstd::arithmetic::power2::pow2((e - 1) as nat);
            vstd::arithmetic::power2::lemma_pow2_pos((e - 1) as nat);
            vstd::arithmetic::power2::lemma_pow2_unfold(e);
            assert((f + r) * p < (f + 0) * (2 * p)) by (nonlinear_arith)
                requires
                    p > 0,
                    r < f,
            ;
            assert(units(m + 1) == (f + 0) * vstd::arithmetic::power2::pow2(e));
        } else {
            vstd::arithmetic::power2::lemma2_to64();
            assert(units(m + 1) == (f + 0) * vstd::arithmetic::power2::pow2(0));
        }
    }
}

/// Doubles without a sign are in the order of their bit patterns.
pub proof fn lemma_units_order(a: nat, b: nat)
    ensures
        a < b <==> units(a) < units(b),
        a == b <==> units(a) == units(b),
{
    if a < b {
        lemma_units_increasing(a, b);
    } else if b < a {
        lemma_units_increasing(b, a);
    }
}

proof fn lemma_units_increasing(a: nat, b: nat)
    requires
        a < b,
    ensures
        units(a) < units(b),
    decreases b,
{
    lemma_units_step((b - 1) as nat);
    if a < b - 1 {
        lemma_units_increasing(a, (b - 1) as nat);
    }
}

} // verus!
