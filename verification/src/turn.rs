//! The mathematical model: angles as integers, and what it means for two of
//! them to point the same way.

use vstd::prelude::*;
use vstd::arithmetic::div_mod::{lemma_mod_bound, lemma_mod_equivalence, lemma_small_mod};

verus! {

/// Whether `half_turn` can be the number of steps in half a turn: it is
/// positive, and the full turn still fits in an `i64`.
pub open spec fn valid_half_turn(half_turn: int) -> bool {
    0 < half_turn && 2 * half_turn <= i64::MAX
}

/// Whether `angle` lies in the canonical range `[-half_turn, half_turn)`.
pub open spec fn is_canonical(angle: int, half_turn: int) -> bool {
    -half_turn <= angle < half_turn
}

/// Whether `a` and `b` point the same way: they differ by a whole number of
/// turns.
pub open spec fn same_direction(a: int, b: int, half_turn: int) -> bool {
    (a - b) % (2 * half_turn) == 0
}

/// The canonical angle that points the same way as `angle`.
pub open spec fn canonical(angle: int, half_turn: int) -> int {
    (angle + half_turn) % (2 * half_turn) - half_turn
}

/// The angle that points the same way as `new` and is nearest to `previous`.
/// Where two are equally near, half a turn to either side, it is the one on
/// the side where `new` itself lies.
pub open spec fn unwrapped(previous: int, new: int, half_turn: int) -> int {
    let offset = canonical(new - previous, half_turn);
    if offset == -half_turn && new > previous {
        previous + half_turn
    } else {
        previous + offset
    }
}

/// `canonical` lands in the canonical range.
pub proof fn lemma_canonical_in_range(angle: int, half_turn: int)
    requires
        0 < half_turn,
    ensures
        is_canonical(canonical(angle, half_turn), half_turn),
{
    lemma_mod_bound(angle + half_turn, 2 * half_turn);
}

/// `canonical` leaves a canonical angle as it is.
pub proof fn lemma_canonical_fixes_canonical(angle: int, half_turn: int)
    requires
        0 < half_turn,
        is_canonical(angle, half_turn),
    ensures
        canonical(angle, half_turn) == angle,
{
    lemma_small_mod((angle + half_turn) as nat, (2 * half_turn) as nat);
}

/// Every angle points the same way as itself.
pub proof fn lemma_same_direction_reflexive(angle: int, half_turn: int)
    requires
        0 < half_turn,
    ensures
        same_direction(angle, angle, half_turn),
{
    lemma_small_mod(0, (2 * half_turn) as nat);
}

/// Two angles point the same way exactly when they have the same canonical
/// angle.
pub proof fn lemma_same_direction_iff_same_canonical(a: int, b: int, half_turn: int)
    requires
        0 < half_turn,
    ensures
        same_direction(a, b, half_turn) <==> canonical(a, half_turn) == canonical(b, half_turn),
{
    lemma_mod_equivalence(a + half_turn, b + half_turn, 2 * half_turn);
}

/// `canonical(angle)` points the same way as `angle`.
pub proof fn lemma_canonical_same_direction(angle: int, half_turn: int)
    requires
        0 < half_turn,
    ensures
        same_direction(canonical(angle, half_turn), angle, half_turn),
{
    lemma_canonical_in_range(angle, half_turn);
    lemma_canonical_fixes_canonical(canonical(angle, half_turn), half_turn);
    lemma_same_direction_iff_same_canonical(canonical(angle, half_turn), angle, half_turn);
}

} // verus!
