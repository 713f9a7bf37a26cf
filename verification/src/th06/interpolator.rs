//! Paths of values over frames.
//!
//! An interpolator records where a value starts, where it ends, over which
//! frames and along which easing. Evaluating one is arithmetic on scalars and
//! is left to the caller; the interpreters install and carry them.

use vstd::prelude::*;

verus! {

/// The easing of a path, as a function of the share `t` of the way done.
#[derive(Clone, Copy, Debug, PartialEq, Eq, Structural)]
pub enum Formula {
    /// `t`
    Linear,
    /// `t * t`: accelerating.
    Power2,
    /// `1 - (1 - t) * (1 - t)`: decelerating.
    InvertPower2,
}

/// A path from `start_values` at `start_frame` to `end_values` at `end_frame`.
#[derive(Clone, Copy, Debug)]
pub struct Interpolator<V> {
    pub start_values: V,
    pub start_frame: u32,
    pub end_values: V,
    pub end_frame: u32,
    pub formula: Formula,
}

impl<V> Interpolator<V> {
    /// The path with these ends.
    pub fn new(start_values: V, start_frame: u32, end_values: V, end_frame: u32, formula: Formula) -> (r:
        Interpolator<V>)
        ensures
            r == (Interpolator { start_values, start_frame, end_values, end_frame, formula }),
    {
        Interpolator { start_values, start_frame, end_values, end_frame, formula }
    }
}

} // verus!
