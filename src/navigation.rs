use vstd::prelude::*;

verus! {

/// The signed shortest arc from `b` to `a`, in whole degrees, in `(-180, 180]`.
/// Clockwise is positive; a half turn counts as `+180`.
pub open spec fn directed_angle_deg(a: int, b: int) -> int {
    let r = (a - b) % 360;
    if r > 180 {
        r - 360
    } else {
        r
    }
}

/// Returns the algebraic difference `a - b` of two angles in degrees,
/// folded onto the shortest arc; clockwise is positive.
pub fn angle_difference_deg(a: i32, b: i32) -> (r: i32)
    ensures
        r == directed_angle_deg(a as int, b as int),
        -180 < r <= 180,
        (r - (a - b)) % 360 == 0,
{
    let difference: i64 = a as i64 - b as i64;
    let mut folded: i64 = difference % 360;
    if folded < 0 {
        folded = folded + 360;
    }
    assert(folded == (a - b) % 360);
    if folded > 180 {
        (folded - 360) as i32
    } else {
        folded as i32
    }
}

/// The difference from `a` to `b` and the difference from `b` to `a` add
/// up to a whole number of turns.
pub proof fn lemma_angle_difference_antisymmetric(a: int, b: int)
    ensures
        (directed_angle_deg(a, b) + directed_angle_deg(b, a)) % 360 == 0,
{
    let r = (a - b) % 360;
    let s = (b - a) % 360;
    assert(r == 0 ==> s == 0);
    assert(r != 0 ==> s == 360 - r);
}

} // verus!
