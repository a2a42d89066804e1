use vstd::prelude::*;
use vstd::std_specs::ops::{AddSpec, SubSpec};

use crate::base::vec3::Vec3;
use crate::base::{add3, add3_req, sub3, sub3_req, Base3, XYZ};

verus! {

/// A location in space.
#[derive(Debug, Default, Clone, Copy)]
pub struct Point3<T>(pub Base3<T>);

impl<T: Copy + core::ops::Sub<T, Output = T>> Point3<T> {
    /// The displacement that leads from `origin` to this point.
    pub fn vec_from(&self, origin: &Point3<T>) -> (r: Vec3<T>)
        requires
            sub3_req(self.0, origin.0),
        ensures
            T::obeys_sub_spec() ==> r.0 == sub3(self.0, origin.0),
    {
        Vec3(self.0 - origin.0)
    }
}

impl<T> From<[T; 3]> for Point3<T> {
    fn from(base: [T; 3]) -> (r: Point3<T>) {
        Point3(Base3(base))
    }
}

impl<T> vstd::std_specs::convert::FromSpecImpl<[T; 3]> for Point3<T> {
    open spec fn obeys_from_spec() -> bool {
        true
    }

    open spec fn from_spec(base: [T; 3]) -> Point3<T> {
        Point3(Base3(base))
    }
}

impl<T> core::ops::Index<usize> for Point3<T> {
    type Output = T;

    fn index(&self, index: usize) -> (r: &T)
        ensures
            *r == self.0.0[index as int],
    {
        &self.0.0[index]
    }
}

impl<T> vstd::std_specs::core::IndexSpecImpl<usize> for Point3<T> {
    open spec fn index_req(&self, index: &usize) -> bool {
        *index < 3
    }
}

impl<'a, T> XYZ for &'a Point3<T> {
    type Item = &'a T;

    fn x(self) -> (r: &'a T)
        ensures
            *r == self.0.0[0],
    {
        &self.0.0[0]
    }

    fn y(self) -> (r: &'a T)
        ensures
            *r == self.0.0[1],
    {
        &self.0.0[1]
    }

    fn z(self) -> (r: &'a T)
        ensures
            *r == self.0.0[2],
    {
        &self.0.0[2]
    }
}

/// Moving a point along a direction.
impl<T: Copy + core::ops::Add<T, Output = T>> core::ops::Add<Vec3<T>> for Point3<T> {
    type Output = Point3<T>;

    fn add(self, other: Vec3<T>) -> (r: Point3<T>) {
        Point3(self.0 + other.0)
    }
}

impl<T: Copy + core::ops::Add<T, Output = T>> vstd::std_specs::ops::AddSpecImpl<Vec3<T>> for Point3<T> {
    open spec fn obeys_add_spec() -> bool {
        T::obeys_add_spec()
    }

    open spec fn add_req(self, other: Vec3<T>) -> bool {
        add3_req(self.0, other.0)
    }

    open spec fn add_spec(self, other: Vec3<T>) -> Point3<T> {
        Point3(add3(self.0, other.0))
    }
}

/// Moving a point against a direction.
impl<T: Copy + core::ops::Sub<T, Output = T>> core::ops::Sub<Vec3<T>> for Point3<T> {
    type Output = Point3<T>;

    fn sub(self, other: Vec3<T>) -> (r: Point3<T>) {
        Point3(self.0 - other.0)
    }
}

impl<T: Copy + core::ops::Sub<T, Output = T>> vstd::std_specs::ops::SubSpecImpl<Vec3<T>> for Point3<T> {
    open spec fn obeys_sub_spec() -> bool {
        T::obeys_sub_spec()
    }

    open spec fn sub_req(self, other: Vec3<T>) -> bool {
        sub3_req(self.0, other.0)
    }

    open spec fn sub_spec(self, other: Vec3<T>) -> Point3<T> {
        Point3(sub3(self.0, other.0))
    }
}

} // verus!
