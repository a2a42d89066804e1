use vstd::prelude::*;
use vstd::std_specs::ops::{AddSpec, MulSpec};

use crate::base::point3::Point3;
use crate::base::vec3::Vec3;
use crate::base::{add3, add3_req, add_total, mul_total, scale3, scale3_req};

verus! {

/// A half-line: a starting point and a direction of travel.
#[derive(Debug, Default, Clone, Copy)]
pub struct Ray<T> {
    pub origin: Point3<T>,
    pub direction: Vec3<T>,
}

/// The point reached after travelling `t` times the direction from the origin.
pub open spec fn at_spec<T: Copy + core::ops::Mul<T, Output = T> + core::ops::Add<T, Output = T>>(
    ray: Ray<T>,
    t: T,
) -> Point3<T> {
    Point3(add3(ray.origin.0, scale3(ray.direction.0, t)))
}

/// Every step of `at_spec(ray, t)` is defined: on the values that it goes
/// through where the scalar's arithmetic is exact, and on all values otherwise.
pub open spec fn at_req<T: Copy + core::ops::Mul<T, Output = T> + core::ops::Add<T, Output = T>>(
    ray: Ray<T>,
    t: T,
) -> bool {
    &&& scale3_req(ray.direction.0, t)
    &&& {
        ||| T::obeys_mul_spec() && add3_req(ray.origin.0, scale3(ray.direction.0, t))
        ||| add_total::<T>() && mul_total::<T>()
    }
}

impl<T: Copy + core::ops::Mul<T, Output = T> + core::ops::Add<T, Output = T>> Ray<T> {
    /// The point `origin + direction·t`.
    pub fn at(&self, t: T) -> (r: Point3<T>)
        requires
            at_req(*self, t),
        ensures
            T::obeys_add_spec() && T::obeys_mul_spec() ==> r == at_spec(*self, t),
    {
        self.origin + self.direction * t
    }
}

} // verus!
