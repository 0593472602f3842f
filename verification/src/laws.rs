//! What holds of normalizing and unwrapping, for every angle.
//!
//! Each statement is over the mathematical integers, so it covers every
//! `i64` that the executable functions take, and sums of angles that would
//! not fit in one.

use vstd::prelude::*;
use vstd::arithmetic::div_mod::{lemma_mod_add_multiples_vanish, lemma_mod_multiples_vanish, lemma_mod_self_0};
use crate::turn::{
    canonical, is_canonical, lemma_canonical_fixes_canonical, lemma_canonical_in_range,
    lemma_canonical_same_direction, lemma_same_direction_iff_same_canonical, same_direction,
    unwrapped,
};

verus! {

/// Normalizing is idempotent: a normalized angle normalizes to itself.
pub proof fn normalize_is_idempotent(angle: int, half_turn: int)
    requires
        0 < half_turn,
    ensures
        canonical(canonical(angle, half_turn), half_turn) == canonical(angle, half_turn),
{
    lemma_canonical_in_range(angle, half_turn);
    lemma_canonical_fixes_canonical(canonical(angle, half_turn), half_turn);
}

/// A normalized angle lies in `[-half_turn, half_turn)`.
pub proof fn normalize_stays_in_range(angle: int, half_turn: int)
    requires
        0 < half_turn,
    ensures
        -half_turn <= canonical(angle, half_turn) < half_turn,
{
    lemma_canonical_in_range(angle, half_turn);
}

/// Normalizing is periodic: adding any whole number of full turns to an angle,
/// in either direction, does not change what it normalizes to.
pub proof fn normalize_is_periodic(angle: int, turns: int, half_turn: int)
    requires
        0 < half_turn,
    ensures
        canonical(angle + turns * (2 * half_turn), half_turn) == canonical(angle, half_turn),
{
    let full_turn = 2 * half_turn;
    assert(turns * full_turn == full_turn * turns) by (nonlinear_arith);
    assert(angle + turns * full_turn + half_turn == full_turn * turns + (angle + half_turn));
    lemma_mod_multiples_vanish(turns, angle + half_turn, full_turn);
}

/// The unwrapped angle points the same way as the new one, lies within half
/// a turn of the previous one, and is the new angle itself where that one
/// already lies so.
pub proof fn denormalize_is_anchored(previous: int, new: int, half_turn: int)
    requires
        0 < half_turn,
    ensures
        previous - half_turn <= unwrapped(previous, new, half_turn) <= previous + half_turn,
        same_direction(unwrapped(previous, new, half_turn), new, half_turn),
        previous - half_turn <= new <= previous + half_turn
            ==> unwrapped(previous, new, half_turn) == new,
{
    let offset = canonical(new - previous, half_turn);
    let result = unwrapped(previous, new, half_turn);
    lemma_canonical_in_range(new - previous, half_turn);
    lemma_canonical_same_direction(new - previous, half_turn);
    assert(same_direction(result, new, half_turn)) by {
        if result == previous + offset {
            assert(result - new == offset - (new - previous));
        } else {
            assert(result - new == (offset - (new - previous)) + 2 * half_turn);
            lemma_mod_add_multiples_vanish(offset - (new - previous), 2 * half_turn);
        }
    }
    if previous - half_turn <= new <= previous + half_turn {
        if new == previous + half_turn {
            lemma_mod_self_0(2 * half_turn);
        } else {
            lemma_canonical_fixes_canonical(new - previous, half_turn);
        }
    }
}

/// Normalizing undoes unwrapping: whatever the previous angle, the unwrapped
/// angle normalizes back to the canonical angle it was made from.
pub proof fn normalize_undoes_denormalize(previous: int, new: int, half_turn: int)
    requires
        0 < half_turn,
        is_canonical(new, half_turn),
    ensures
        canonical(unwrapped(previous, new, half_turn), half_turn) == new,
{
    denormalize_is_anchored(previous, new, half_turn);
    lemma_same_direction_iff_same_canonical(
        unwrapped(previous, new, half_turn),
        new,
        half_turn,
    );
    lemma_canonical_fixes_canonical(new, half_turn);
}

} // verus!
