use vstd::prelude::*;

verus! {

/// A half-line `origin + t * direction`, generic over the point type used by the caller.
#[derive(Debug, Clone, Copy)]
pub struct Ray<P> {
    pub origin: P,
    pub direction: P,
}

impl<P> Ray<P> {
    /// Makes the ray starting at `origin` and heading along `direction`.
    pub fn new(origin: P, direction: P) -> (r: Ray<P>)
        ensures
            r.origin == origin,
            r.direction == direction,
    {
        Ray { origin, direction }
    }
}

} // verus!
