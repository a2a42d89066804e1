use vstd::prelude::*;
use vstd::std_specs::ops::{AddSpec, DivSpec, MulSpec, NegSpec, SubSpec};

use crate::base::color::{AsColor, Color};
use crate::base::{
    add3, add3_req, add_total, div3, div3_req, mul3_req, mul_total, neg3, neg3_req, scale3,
    scale3_req, sub3, sub3_req, sub_total, Base3, XYZ,
};

verus! {

/// A free vector: a direction, or a displacement between two points.
#[derive(Debug, Default, Clone, Copy)]
pub struct Vec3<T>(pub Base3<T>);

/// The scalar product `a·b`, summed left to right as the code does.
pub open spec fn dot_spec<T: Copy + core::ops::Add<T, Output = T> + core::ops::Mul<T, Output = T>>(
    a: Base3<T>,
    b: Base3<T>,
) -> T {
    a.0[0].mul_spec(b.0[0]).add_spec(a.0[1].mul_spec(b.0[1])).add_spec(a.0[2].mul_spec(b.0[2]))
}

/// Every step of `dot_spec(a, b)` is defined: on the values that it goes
/// through where the scalar's arithmetic is exact, and on all values otherwise.
pub open spec fn dot_req<T: Copy + core::ops::Add<T, Output = T> + core::ops::Mul<T, Output = T>>(
    a: Base3<T>,
    b: Base3<T>,
) -> bool {
    ||| {
        &&& T::obeys_add_spec()
        &&& T::obeys_mul_spec()
        &&& mul3_req(a, b)
        &&& a.0[0].mul_spec(b.0[0]).add_req(a.0[1].mul_spec(b.0[1]))
        &&& a.0[0].mul_spec(b.0[0]).add_spec(a.0[1].mul_spec(b.0[1])).add_req(
            a.0[2].mul_spec(b.0[2]),
        )
    }
    ||| add_total::<T>() && mul_total::<T>()
}

/// The vector product `a×b`.
pub open spec fn cross_spec<T: Copy + core::ops::Sub<T, Output = T> + core::ops::Mul<T, Output = T>>(
    a: Base3<T>,
    b: Base3<T>,
) -> Base3<T> {
    Base3(
        [
            a.0[1].mul_spec(b.0[2]).sub_spec(a.0[2].mul_spec(b.0[1])),
            a.0[2].mul_spec(b.0[0]).sub_spec(a.0[0].mul_spec(b.0[2])),
            a.0[0].mul_spec(b.0[1]).sub_spec(a.0[1].mul_spec(b.0[0])),
        ],
    )
}

/// Every step of `cross_spec(a, b)` is defined: on the values that it goes
/// through where the scalar's arithmetic is exact, and on all values otherwise.
pub open spec fn cross_req<T: Copy + core::ops::Sub<T, Output = T> + core::ops::Mul<T, Output = T>>(
    a: Base3<T>,
    b: Base3<T>,
) -> bool {
    ||| {
        &&& T::obeys_sub_spec()
        &&& T::obeys_mul_spec()
        &&& forall|i: int, j: int| 0 <= i < 3 && 0 <= j < 3 ==> #[trigger] a.0[i].mul_req(b.0[j])
        &&& a.0[1].mul_spec(b.0[2]).sub_req(a.0[2].mul_spec(b.0[1]))
        &&& a.0[2].mul_spec(b.0[0]).sub_req(a.0[0].mul_spec(b.0[2]))
        &&& a.0[0].mul_spec(b.0[1]).sub_req(a.0[1].mul_spec(b.0[0]))
    }
    ||| sub_total::<T>() && mul_total::<T>()
}

/// Mirror image of `v` about the plane whose normal is `n`: `v - n·(2·(v·n))`,
/// with the doubling written as `d + d`.
pub open spec fn reflect_spec<
    T: Copy + core::ops::Add<T, Output = T> + core::ops::Sub<T, Output = T> + core::ops::Mul<T, Output = T>,
>(v: Base3<T>, n: Base3<T>) -> Base3<T> {
    let d = dot_spec(v, n);
    sub3(v, scale3(n, d.add_spec(d)))
}

/// Every step of `reflect_spec(v, n)` is defined: on the values that it goes
/// through where the scalar's arithmetic is exact, and on all values otherwise.
pub open spec fn reflect_req<
    T: Copy + core::ops::Add<T, Output = T> + core::ops::Sub<T, Output = T> + core::ops::Mul<T, Output = T>,
>(v: Base3<T>, n: Base3<T>) -> bool {
    let d = dot_spec(v, n);
    ||| {
        &&& T::obeys_add_spec()
        &&& T::obeys_sub_spec()
        &&& T::obeys_mul_spec()
        &&& dot_req(v, n)
        &&& d.add_req(d)
        &&& scale3_req(n, d.add_spec(d))
        &&& sub3_req(v, scale3(n, d.add_spec(d)))
    }
    ||| add_total::<T>() && sub_total::<T>() && mul_total::<T>()
}

impl<T: Copy + core::ops::Add<T, Output = T> + core::ops::Mul<T, Output = T>> Vec3<T> {
    /// Scalar product with `other`.
    pub fn dot(&self, other: &Vec3<T>) -> (r: T)
        requires
            dot_req(self.0, other.0),
        ensures
            T::obeys_add_spec() && T::obeys_mul_spec() ==> r == dot_spec(self.0, other.0),
    {
        let a = self.0.0;
        let b = other.0.0;
        a[0] * b[0] + a[1] * b[1] + a[2] * b[2]
    }

    /// Squared Euclidean length: the scalar product of the vector with itself.
    pub fn length_squared(&self) -> (r: T)
        requires
            dot_req(self.0, self.0),
        ensures
            T::obeys_add_spec() && T::obeys_mul_spec() ==> r == dot_spec(self.0, self.0),
    {
        self.dot(self)
    }
}

impl<T: Copy + core::ops::Sub<T, Output = T> + core::ops::Mul<T, Output = T>> Vec3<T> {
    /// Vector product with `other`.
    pub fn cross(&self, other: &Vec3<T>) -> (r: Vec3<T>)
        requires
            cross_req(self.0, other.0),
        ensures
            T::obeys_sub_spec() && T::obeys_mul_spec() ==> r.0 == cross_spec(self.0, other.0),
    {
        let a = self.0.0;
        let b = other.0.0;
        Vec3(
            Base3(
                [
                    a[1] * b[2] - a[2] * b[1],
                    a[2] * b[0] - a[0] * b[2],
                    a[0] * b[1] - a[1] * b[0],
                ],
            ),
        )
    }
}

impl<
    T: Copy + core::ops::Add<T, Output = T> + core::ops::Sub<T, Output = T> + core::ops::Mul<
        T,
        Output = T,
    >,
> Vec3<T> {
    /// Reflection of this direction off a surface with normal `normal`.
    pub fn reflect(&self, normal: &Vec3<T>) -> (r: Vec3<T>)
        requires
            reflect_req(self.0, normal.0),
        ensures
            T::obeys_add_spec() && T::obeys_sub_spec() && T::obeys_mul_spec() ==> r.0
                == reflect_spec(self.0, normal.0),
    {
        let d = self.dot(normal);
        Vec3(self.0 - normal.0 * (d + d))
    }
}

impl<T> From<[T; 3]> for Vec3<T> {
    fn from(base: [T; 3]) -> (r: Vec3<T>) {
        Vec3(Base3(base))
    }
}

impl<T> vstd::std_specs::convert::FromSpecImpl<[T; 3]> for Vec3<T> {
    open spec fn obeys_from_spec() -> bool {
        true
    }

    open spec fn from_spec(base: [T; 3]) -> Vec3<T> {
        Vec3(Base3(base))
    }
}

impl<T> core::ops::Index<usize> for Vec3<T> {
    type Output = T;

    fn index(&self, index: usize) -> (r: &T)
        ensures
            *r == self.0.0[index as int],
    {
        &self.0.0[index]
    }
}

impl<T> vstd::std_specs::core::IndexSpecImpl<usize> for Vec3<T> {
    open spec fn index_req(&self, index: &usize) -> bool {
        *index < 3
    }
}

impl<'a, T> XYZ for &'a Vec3<T> {
    type Item = &'a T;

    fn x(self) -> (r: &'a T)
        ensures
            *r == self.0.0[0],
    {
        &self.0.0[0]
    }

    fn y(self) -> (r: &'a T)
        ensures
            *r == self.0.0[1],
    {
        &self.0.0[1]
    }

    fn z(self) -> (r: &'a T)
        ensures
            *r == self.0.0[2],
    {
        &self.0.0[2]
    }
}

impl<T> AsColor<T> for Vec3<T> {
    fn as_color(self) -> (r: Color<T>)
        ensures
            r.0 == self.0,
    {
        Color(self.0)
    }
}

impl<T: Copy + core::ops::Add<T, Output = T>> core::ops::Add for Vec3<T> {
    type Output = Vec3<T>;

    fn add(self, other: Vec3<T>) -> (r: Vec3<T>) {
        Vec3(self.0 + other.0)
    }
}

impl<T: Copy + core::ops::Add<T, Output = T>> vstd::std_specs::ops::AddSpecImpl for Vec3<T> {
    open spec fn obeys_add_spec() -> bool {
        T::obeys_add_spec()
    }

    open spec fn add_req(self, other: Vec3<T>) -> bool {
        add3_req(self.0, other.0)
    }

    open spec fn add_spec(self, other: Vec3<T>) -> Vec3<T> {
        Vec3(add3(self.0, other.0))
    }
}

impl<T: Copy + core::ops::Sub<T, Output = T>> core::ops::Sub for Vec3<T> {
    type Output = Vec3<T>;

    fn sub(self, other: Vec3<T>) -> (r: Vec3<T>) {
        Vec3(self.0 - other.0)
    }
}

impl<T: Copy + core::ops::Sub<T, Output = T>> vstd::std_specs::ops::SubSpecImpl for Vec3<T> {
    open spec fn obeys_sub_spec() -> bool {
        T::obeys_sub_spec()
    }

    open spec fn sub_req(self, other: Vec3<T>) -> bool {
        sub3_req(self.0, other.0)
    }

    open spec fn sub_spec(self, other: Vec3<T>) -> Vec3<T> {
        Vec3(sub3(self.0, other.0))
    }
}

impl<T: Copy + core::ops::Neg<Output = T>> core::ops::Neg for Vec3<T> {
    type Output = Vec3<T>;

    fn neg(self) -> (r: Vec3<T>) {
        Vec3(self.0.neg())
    }
}

impl<T: Copy + core::ops::Neg<Output = T>> vstd::std_specs::ops::NegSpecImpl for Vec3<T> {
    open spec fn obeys_neg_spec() -> bool {
        T::obeys_neg_spec()
    }

    open spec fn neg_req(self) -> bool {
        neg3_req(self.0)
    }

    open spec fn neg_spec(self) -> Vec3<T> {
        Vec3(neg3(self.0))
    }
}

impl<T: Copy + core::ops::Mul<T, Output = T>> core::ops::Mul<T> for Vec3<T> {
    type Output = Vec3<T>;

    fn mul(self, multiplier: T) -> (r: Vec3<T>) {
        Vec3(self.0 * multiplier)
    }
}

impl<T: Copy + core::ops::Mul<T, Output = T>> vstd::std_specs::ops::MulSpecImpl<T> for Vec3<T> {
    open spec fn obeys_mul_spec() -> bool {
        T::obeys_mul_spec()
    }

    open spec fn mul_req(self, multiplier: T) -> bool {
        scale3_req(self.0, multiplier)
    }

    open spec fn mul_spec(self, multiplier: T) -> Vec3<T> {
        Vec3(scale3(self.0, multiplier))
    }
}

impl<T: Copy + core::ops::Div<T, Output = T>> core::ops::Div<T> for Vec3<T> {
    type Output = Vec3<T>;

    fn div(self, divider: T) -> (r: Vec3<T>) {
        Vec3(self.0 / divider)
    }
}

impl<T: Copy + core::ops::Div<T, Output = T>> vstd::std_specs::ops::DivSpecImpl<T> for Vec3<T> {
    open spec fn obeys_div_spec() -> bool {
        T::obeys_div_spec()
    }

    open spec fn div_req(self, divider: T) -> bool {
        div3_req(self.0, divider)
    }

    open spec fn div_spec(self, divider: T) -> Vec3<T> {
        Vec3(div3(self.0, divider))
    }
}

} // verus!
