//! A pair of bounds, `min` and `max`, used throughout the configuration
//! and the fused battery record.

use vstd::prelude::*;

verus! {

/// An inclusive range of values of `T`. The ordering invariant
/// (`min <= max`) is stated where the pair is used, over the concrete
/// integer types, since `T` itself carries no order here.
#[derive(Clone, Copy, Debug, PartialEq, Eq, Structural)]
pub struct MinMax<T> {
    pub min: T,
    pub max: T,
}

impl<T> MinMax<T> {
    pub fn new(min: T, max: T) -> (r: MinMax<T>)
        ensures
            r == (MinMax { min, max }),
    {
        MinMax { min, max }
    }

    /// The lower bound.
    pub fn minimum(&self) -> (r: &T)
        ensures
            r == self.min,
    {
        &self.min
    }

    /// The upper bound.
    pub fn maximum(&self) -> (r: &T)
        ensures
            r == self.max,
    {
        &self.max
    }
}

} // verus!
