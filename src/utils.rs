use vstd::prelude::*;
use vstd::std_specs::cmp::{PartialOrdIs, PartialOrdSpec};

verus! {

/// `x` held within `[min, max]`: `min` below it, `max` above it, `x` itself
/// otherwise.
pub open spec fn clamp_spec<T: PartialOrd>(x: T, min: T, max: T) -> T {
    if x.is_lt(&min) {
        min
    } else if x.is_gt(&max) {
        max
    } else {
        x
    }
}

/// Limits `x` to the range `[min, max]`. The lower bound is tested first, so
/// with `min > max` a value below `min` gives `min`.
pub fn clamp<T: PartialOrd>(x: T, min: T, max: T) -> (r: T)
    ensures
        r == x || r == min || r == max,
        T::obeys_partial_cmp_spec() ==> r == clamp_spec(x, min, max),
{
    if x < min {
        return min;
    }
    if x > max {
        return max;
    }
    x
}

} // verus!
