//! Normalizing an angle into the canonical range.

use vstd::prelude::*;
use vstd::arithmetic::div_mod::{lemma_fundamental_div_mod, lemma_fundamental_div_mod_converse, lemma_mod_bound};
use crate::error::AngleError;
use crate::turn::{canonical, is_canonical, valid_half_turn};

verus! {

/// The remainder of `angle` by `modulus` that keeps the sign of `angle`: the
/// magnitude is reduced into `[0, modulus)` and the sign put back.
spec fn signed_remainder(angle: int, modulus: int) -> int {
    if angle >= 0 {
        angle % modulus
    } else {
        -((-angle) % modulus)
    }
}

/// After the sign-keeping remainder by a full turn, at most one correction by
/// a full turn reaches the canonical angle.
proof fn lemma_correction_reaches_canonical(angle: int, half_turn: int)
    requires
        0 < half_turn,
    ensures
        ({
            let wrapped = signed_remainder(angle, 2 * half_turn);
            &&& -2 * half_turn < wrapped < 2 * half_turn
            &&& wrapped >= half_turn ==> canonical(angle, half_turn) == wrapped - 2 * half_turn
            &&& wrapped < -half_turn ==> canonical(angle, half_turn) == wrapped + 2 * half_turn
            &&& -half_turn <= wrapped < half_turn ==> canonical(angle, half_turn) == wrapped
        }),
{
    let full_turn = 2 * half_turn;
    let wrapped = signed_remainder(angle, full_turn);
    if angle >= 0 {
        let q = angle / full_turn;
        lemma_fundamental_div_mod(angle, full_turn);
        lemma_mod_bound(angle, full_turn);
        assert(full_turn * (q + 1) == full_turn * q + full_turn) by (nonlinear_arith);
        if wrapped >= half_turn {
            lemma_fundamental_div_mod_converse(angle + half_turn, full_turn, q + 1, wrapped - half_turn);
        } else {
            lemma_fundamental_div_mod_converse(angle + half_turn, full_turn, q, wrapped + half_turn);
        }
    } else {
        let q = (-angle) / full_turn;
        lemma_fundamental_div_mod(-angle, full_turn);
        lemma_mod_bound(-angle, full_turn);
        assert((-q) * full_turn == -(full_turn * q)) by (nonlinear_arith);
        assert((-q - 1) * full_turn == -(full_turn * q) - full_turn) by (nonlinear_arith);
        if wrapped < -half_turn {
            lemma_fundamental_div_mod_converse(angle + half_turn, full_turn, -q - 1, wrapped + 3 * half_turn);
        } else {
            lemma_fundamental_div_mod_converse(angle + half_turn, full_turn, -q, wrapped + half_turn);
        }
    }
}

/// Normalizes `angle` into the canonical range `[-half_turn, half_turn)`.
///
/// The magnitude of the angle is first reduced below a full turn, keeping the
/// sign; a result at or beyond half a turn is then brought back by one full
/// turn. Half a turn itself maps to `-half_turn`: the range is closed below
/// and open above.
///
/// Every `angle` is accepted. `half_turn` must be positive, and a full turn,
/// twice `half_turn`, must fit in an `i64`.
pub fn normalize_angle(angle: i64, half_turn: i64) -> (normalized: i64)
    requires
        valid_half_turn(half_turn as int),
    ensures
        normalized == canonical(angle as int, half_turn as int),
        is_canonical(normalized as int, half_turn as int),
{
    let full_turn: i64 = 2 * half_turn;
    proof {
        lemma_correction_reaches_canonical(angle as int, half_turn as int);
    }
    let mut normalized_angle: i64 = angle % full_turn;
    if normalized_angle >= half_turn {
        normalized_angle -= full_turn;
    } else if normalized_angle < -half_turn {
        normalized_angle += full_turn;
    }
    normalized_angle
}

/// Normalizes `angle` as [`normalize_angle`] does, for any `half_turn`: one
/// that cannot be the number of steps in half a turn is reported as invalid
/// input.
pub fn try_normalize_angle(angle: i64, half_turn: i64) -> (outcome: Result<i64, AngleError>)
    ensures
        outcome is Ok <==> valid_half_turn(half_turn as int),
        outcome is Ok ==> outcome->Ok_0 == canonical(angle as int, half_turn as int),
        outcome is Ok ==> is_canonical(outcome->Ok_0 as int, half_turn as int),
        outcome is Err ==> outcome->Err_0 == AngleError::InvalidInput,
{
    if half_turn <= 0 || half_turn > i64::MAX / 2 {
        return Err(AngleError::InvalidInput);
    }
    Ok(normalize_angle(angle, half_turn))
}

} // verus!
