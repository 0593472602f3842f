//! Unwrapping: aligning a newly measured angle with the previous, unbounded
//! one.

use vstd::prelude::*;
use vstd::arithmetic::div_mod::{lemma_mod_add_multiples_vanish, lemma_mod_self_0, lemma_mod_sub_multiples_vanish};
use crate::error::AngleError;
use crate::turn::{
    lemma_canonical_fixes_canonical, lemma_same_direction_iff_same_canonical,
    lemma_same_direction_reflexive, same_direction, unwrapped, valid_half_turn,
};

verus! {

/// Whether the window of half a turn to either side of `previous` fits in an
/// `i64`, so that an angle within it can be returned.
pub open spec fn window_fits(previous: int, half_turn: int) -> bool {
    i64::MIN <= previous - half_turn && previous + half_turn <= i64::MAX
}

/// A full turn more or less keeps the direction.
proof fn lemma_turn_keeps_direction(angle: int, new: int, half_turn: int)
    requires
        0 < half_turn,
        same_direction(angle, new, half_turn),
    ensures
        same_direction(angle - 2 * half_turn, new, half_turn),
        same_direction(angle + 2 * half_turn, new, half_turn),
{
    lemma_mod_sub_multiples_vanish(angle - new, 2 * half_turn);
    lemma_mod_add_multiples_vanish(angle - new, 2 * half_turn);
}

/// An angle within half a turn of `previous` that points the same way as
/// `new`, and sits at an end of the window only on the side of `new`, is the
/// unwrapped angle.
proof fn lemma_in_window_is_unwrapped(angle: int, previous: int, new: int, half_turn: int)
    requires
        0 < half_turn,
        same_direction(angle, new, half_turn),
        previous - half_turn <= angle <= previous + half_turn,
        angle == previous + half_turn ==> new > previous,
        angle == previous - half_turn ==> new < previous,
    ensures
        angle == unwrapped(previous, new, half_turn),
{
    assert(same_direction(angle - previous, new - previous, half_turn));
    lemma_same_direction_iff_same_canonical(angle - previous, new - previous, half_turn);
    if angle == previous + half_turn {
        lemma_mod_self_0(2 * half_turn);
    } else {
        lemma_canonical_fixes_canonical(angle - previous, half_turn);
    }
}

/// Returns the angle that points the same way as `new` and lies within half a
/// turn of `previous`.
///
/// `previous` is an unbounded angle, such as an accumulated rotation; `new` is
/// the measurement that follows it, usually canonical. Starting from `new`,
/// the angle is moved down by full turns while it is more than half a turn
/// above `previous`, then up by full turns while it is more than half a turn
/// below. An angle that already lies in the window comes back unchanged. The
/// walk takes one step for each full turn between `new` and the window.
///
/// Every `new` is accepted. `half_turn` must be positive with a full turn that
/// fits in an `i64`, and so must the window of half a turn to either side of
/// `previous`, since the result lies in it.
pub fn denormalize_angle(previous: i64, new: i64, half_turn: i64) -> (denormalized: i64)
    requires
        valid_half_turn(half_turn as int),
        window_fits(previous as int, half_turn as int),
    ensures
        denormalized == unwrapped(previous as int, new as int, half_turn as int),
        previous - half_turn <= denormalized <= previous + half_turn,
        same_direction(denormalized as int, new as int, half_turn as int),
        previous - half_turn <= new <= previous + half_turn ==> denormalized == new,
{
    let full_turn: i64 = 2 * half_turn;
    let upper: i64 = previous + half_turn;
    let lower: i64 = previous - half_turn;
    let mut denormalized_angle: i64 = new;
    proof {
        lemma_same_direction_reflexive(new as int, half_turn as int);
    }
    while denormalized_angle > upper
        invariant
            valid_half_turn(half_turn as int),
            window_fits(previous as int, half_turn as int),
            full_turn == 2 * half_turn,
            upper == previous + half_turn,
            lower == previous - half_turn,
            same_direction(denormalized_angle as int, new as int, half_turn as int),
            denormalized_angle <= new,
            denormalized_angle > lower || denormalized_angle == new,
            new <= upper ==> denormalized_angle == new,
        decreases denormalized_angle - lower,
    {
        proof {
            lemma_turn_keeps_direction(denormalized_angle as int, new as int, half_turn as int);
        }
        denormalized_angle -= full_turn;
    }
    while denormalized_angle < lower
        invariant
            valid_half_turn(half_turn as int),
            window_fits(previous as int, half_turn as int),
            full_turn == 2 * half_turn,
            upper == previous + half_turn,
            lower == previous - half_turn,
            same_direction(denormalized_angle as int, new as int, half_turn as int),
            denormalized_angle <= upper,
            denormalized_angle < upper || denormalized_angle <= new,
            denormalized_angle > lower || denormalized_angle >= new,
            lower <= new <= upper ==> denormalized_angle == new,
        decreases upper - denormalized_angle,
    {
        proof {
            lemma_turn_keeps_direction(denormalized_angle as int, new as int, half_turn as int);
        }
        denormalized_angle += full_turn;
    }
    proof {
        lemma_in_window_is_unwrapped(
            denormalized_angle as int,
            previous as int,
            new as int,
            half_turn as int,
        );
    }
    denormalized_angle
}

/// Unwraps `new` as [`denormalize_angle`] does, for any input: a `half_turn`
/// that cannot be the number of steps in half a turn, or a `previous` so near
/// the limits of `i64` that the window around it does not fit, is reported as
/// invalid input.
pub fn try_denormalize_angle(previous: i64, new: i64, half_turn: i64) -> (outcome: Result<
    i64,
    AngleError,
>)
    ensures
        outcome is Ok <==> valid_half_turn(half_turn as int) && window_fits(
            previous as int,
            half_turn as int,
        ),
        outcome is Ok ==> outcome->Ok_0 == unwrapped(
            previous as int,
            new as int,
            half_turn as int,
        ),
        outcome is Ok ==> previous - half_turn <= outcome->Ok_0 <= previous + half_turn,
        outcome is Ok ==> same_direction(outcome->Ok_0 as int, new as int, half_turn as int),
        outcome is Err ==> outcome->Err_0 == AngleError::InvalidInput,
{
    if half_turn <= 0 || half_turn > i64::MAX / 2 {
        return Err(AngleError::InvalidInput);
    }
    if previous < i64::MIN + half_turn || previous > i64::MAX - half_turn {
        return Err(AngleError::InvalidInput);
    }
    Ok(denormalize_angle(previous, new, half_turn))
}

} // verus!
