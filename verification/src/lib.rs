//! Wrapping and unwrapping of fixed-point angles.
//!
//! An angle is a signed count of equal steps. The caller says how many steps
//! make half a turn (`half_turn`, the place that π takes for an angle in
//! radians); a full turn is twice that. Counting in whole steps keeps every
//! operation exact, so each function here is proved to return precisely the
//! angle that its contract names.
//!
//! * [`normalize_angle`] maps any angle to the one in
//!   `[-half_turn, half_turn)` that points the same way.
//! * [`denormalize_angle`] shifts a newly measured angle by whole turns until
//!   it lies within half a turn of the previous, unbounded one.
//!
//! The module [`laws`] states what holds between the two.

pub mod error;
pub mod turn;
pub mod normalize;
pub mod denormalize;
pub mod laws;

pub use denormalize::{denormalize_angle, try_denormalize_angle};
pub use error::AngleError;
pub use normalize::{normalize_angle, try_normalize_angle};
