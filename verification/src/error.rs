//! The error of the functions that check their input.

use vstd::prelude::*;

verus! {

/// Why an angle could not be computed.
#[derive(Clone, Copy, Debug, PartialEq, Eq)]
pub enum AngleError {
    /// The input admits no answer: the half-turn is not positive, a full turn
    /// does not fit in an `i64`, or the angles within half a turn of the
    /// previous one do not all fit in an `i64`.
    InvalidInput,
}

} // verus!
