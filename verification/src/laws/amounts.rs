//! Laws of amounts.
use vstd::prelude::*;

use crate::amount::Amount;

verus! {

/// The lowest bit pattern with a negative sign.
pub open spec fn sign() -> int {
    0x8000_0000_0000_0000
}

/// The bit pattern of infinity, the largest of those that are numbers.
pub open spec fn infinity() -> int {
    0x7FF0_0000_0000_0000
}

/// Whether a bit pattern is that of a number from zero up.
pub open spec fn is_natural(a: Amount) -> bool {
    a.bits <= infinity()
}

/// Whether a bit pattern is that of a number from zero down.
pub open spec fn is_opposite(a: Amount) -> bool {
    sign() <= a.bits <= sign() + infinity()
}

/// Numbers from zero up are ordered as their bit patterns, numbers from zero down against them, and
/// a number below zero is below every number from zero up. The two zeros are the same number.
pub proof fn numbers_compare_by_sign_and_size(a: Amount, b: Amount)
    ensures
        is_natural(a) && is_natural(b) ==> (a.below(b) <==> a.bits < b.bits),
        is_natural(a) && is_natural(b) ==> (a.at_most(b) <==> a.bits <= b.bits),
        is_opposite(a) && is_opposite(b) ==> (a.below(b) <==> b.bits < a.bits),
        is_opposite(a) && is_opposite(b) ==> (a.at_most(b) <==> b.bits <= a.bits),
        is_opposite(a) && is_natural(b) ==> a.at_most(b) && !b.below(a) && (a.below(b) <==> !(a.bits
            == sign() && b.bits == 0)),
{
}

/// What is not a number compares with nothing.
pub proof fn only_numbers_compare(a: Amount, b: Amount)
    requires
        !is_natural(a),
        !is_opposite(a),
    ensures
        !a.below(b),
        !b.below(a),
        !a.at_most(b),
        !b.at_most(a),
        !a.above_zero(),
        !a.zero_or_below(),
{
}

/// A number is above zero, or zero or below it, and never both.
pub proof fn numbers_lie_on_one_side_of_zero(a: Amount)
    ensures
        a.above_zero() <==> is_natural(a) && a.bits != 0,
        a.zero_or_below() <==> a.bits == 0 || is_opposite(a),
        a.above_zero() <==> (Amount { bits: 0 }).below(a),
        a.zero_or_below() <==> a.at_most(Amount { bits: 0 }),
{
}

/// The larger of two numbers is one of them and at least as large as both; the smaller likewise.
/// Against what is not a number, the number wins.
pub proof fn extremes_are_taken(a: Amount, b: Amount)
    requires
        is_natural(b) || is_opposite(b),
    ensures
        is_natural(a) || is_opposite(a) ==> {
            &&& a.larger_of(b) == a || a.larger_of(b) == b
            &&& a.at_most(a.larger_of(b)) && b.at_most(a.larger_of(b))
            &&& a.smaller_of(b) == a || a.smaller_of(b) == b
            &&& a.smaller_of(b).at_most(a) && a.smaller_of(b).at_most(b)
        },
        !(is_natural(a) || is_opposite(a)) ==> a.larger_of(b) == b && a.smaller_of(b) == b,
        !(is_natural(a) || is_opposite(a)) ==> b.larger_of(a) == b && b.smaller_of(a) == b,
{
}

/// The negative of a number is as far from zero on the other side.
pub proof fn negation_mirrors(a: Amount)
    ensures
        a.bits < sign() ==> a.negated_spec().bits == a.bits + sign(),
        a.bits >= sign() ==> a.negated_spec().bits == a.bits - sign(),
        a.above_zero() ==> a.negated_spec().below(Amount { bits: 0 }),
{
}

} // verus!
