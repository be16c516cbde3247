//! The order of doubles, by their bits and as numbers.

use crate::double::Double;
use crate::double;
use vstd::prelude::*;

verus! {

/// Doubles compare by their bits: those above zero in the order of the bits, those below in the
/// reverse order, the two zeros equal, and a NaN with none.
pub proof fn doubles_compare_by_their_bits(a: Double, b: Double)
    ensures
        a.at_least(b) <==> {
            let (x, y) = (
                a.bits % 0x8000_0000_0000_0000,
                b.bits % 0x8000_0000_0000_0000,
            );
            let (below, other_below) = (
                a.bits >= 0x8000_0000_0000_0000,
                b.bits >= 0x8000_0000_0000_0000,
            );
            &&& x <= 0x7ff0_0000_0000_0000
            &&& y <= 0x7ff0_0000_0000_0000
            &&& match (below, other_below) {
                (false, false) => x >= y,
                (false, true) => true,
                (true, false) => x == 0 && y == 0,
                (true, true) => x <= y,
            }
        },
        a.positive() <==> 0 < a.bits <= 0x7ff0_0000_0000_0000,
{
    double::lemma_units_order(a.magnitude(), b.magnitude());
    double::lemma_units_order(b.magnitude(), a.magnitude());
    double::lemma_units_order(0, a.magnitude());
    double::lemma_units_order(0, b.magnitude());
    assert(double::units(0) == 0);
    assert(a.magnitude() == a.bits % 0x8000_0000_0000_0000);
    assert(b.magnitude() == b.bits % 0x8000_0000_0000_0000);
}

/// Of any two numbers one is at least the other, and what is at least a second is at least a third
/// that the second is at least.
pub proof fn doubles_are_ordered(a: Double, b: Double, c: Double)
    ensures
        a.is_nan() || b.is_nan() || a.at_least(b) || b.at_least(a),
        a.at_least(b) && b.at_least(c) ==> a.at_least(c),
        a.at_least(b) && b.at_least(a) ==> a.value() == b.value(),
        a.is_nan() ==> !a.at_least(b) && !b.at_least(a) && !a.positive(),
{
}

/// Up to the first exponent a double counts units, and a double with the next exponent and the same
/// fraction is twice as large.
pub proof fn exponents_double(m: nat)
    ensures
        m < 0x0020_0000_0000_0000 ==> double::units(m) == m,
        m >= 0x0010_0000_0000_0000 ==> double::units(m + 0x0010_0000_0000_0000) == 2
            * double::units(m),
{
    let f: nat = 0x0010_0000_0000_0000;
    let e = m / f;
    let r = m % f;
    vstd::arithmetic::power2::lemma2_to64();
    if m < 2 * f && m >= f {
        assert(e == 1 && r == m - f);
        assert(double::units(m) == (f + r) * vstd::arithmetic::power2::pow2(0));
    }
    if m >= f {
        assert((m + f) / f == e + 1 && (m + f) % f == r);
        let p = vstd::arithmetic::power2::pow2((e - 1) as nat);
        vstd::arithmetic::power2::lemma_pow2_unfold(e);
        assert((f + r) * (2 * p) == 2 * ((f + r) * p)) by (nonlinear_arith);
        assert(double::units(m + f) == (f + r) * vstd::arithmetic::power2::pow2(e));
    }
}

} // verus!
