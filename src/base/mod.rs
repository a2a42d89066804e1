use vstd::prelude::*;
use vstd::std_specs::ops::{AddSpec, DivSpec, MulSpec, NegSpec, SubSpec};

pub mod color;
pub mod point3;
pub mod vec3;

verus! {

/// A triple of numeric components, stored in order.
///
/// Every arithmetic operation works component by component. Its contract is
/// stated through the scalar's own operator specification: it is required
/// where each component operation is defined, and it is exact wherever the
/// scalar type's arithmetic is (integers, for instance).
#[derive(Debug, Default, Clone, Copy)]
pub struct Base3<T>(pub [T; 3]);

/// `+` is defined on every pair of values of the scalar type.
pub open spec fn add_total<T: core::ops::Add<T, Output = T>>() -> bool {
    forall|x: T, y: T| #[trigger] x.add_req(y)
}

/// `-` is defined on every pair of values of the scalar type.
pub open spec fn sub_total<T: core::ops::Sub<T, Output = T>>() -> bool {
    forall|x: T, y: T| #[trigger] x.sub_req(y)
}

/// `*` is defined on every pair of values of the scalar type.
pub open spec fn mul_total<T: core::ops::Mul<T, Output = T>>() -> bool {
    forall|x: T, y: T| #[trigger] x.mul_req(y)
}

/// Unary `-` is defined on every value of the scalar type.
pub open spec fn neg_total<T: core::ops::Neg<Output = T>>() -> bool {
    forall|x: T| #[trigger] x.neg_req()
}

/// `/` is defined on every pair of values of the scalar type.
pub open spec fn div_total<T: core::ops::Div<T, Output = T>>() -> bool {
    forall|x: T, y: T| #[trigger] x.div_req(y)
}

/// Component-wise sum.
pub open spec fn add3<T: core::ops::Add<T, Output = T>>(a: Base3<T>, b: Base3<T>) -> Base3<T> {
    Base3([a.0[0].add_spec(b.0[0]), a.0[1].add_spec(b.0[1]), a.0[2].add_spec(b.0[2])])
}

/// Each component sum of `add3(a, b)` is defined.
pub open spec fn add3_req<T: core::ops::Add<T, Output = T>>(a: Base3<T>, b: Base3<T>) -> bool {
    &&& a.0[0].add_req(b.0[0])
    &&& a.0[1].add_req(b.0[1])
    &&& a.0[2].add_req(b.0[2])
}

/// Component-wise difference.
pub open spec fn sub3<T: core::ops::Sub<T, Output = T>>(a: Base3<T>, b: Base3<T>) -> Base3<T> {
    Base3([a.0[0].sub_spec(b.0[0]), a.0[1].sub_spec(b.0[1]), a.0[2].sub_spec(b.0[2])])
}

/// Each component difference of `sub3(a, b)` is defined.
pub open spec fn sub3_req<T: core::ops::Sub<T, Output = T>>(a: Base3<T>, b: Base3<T>) -> bool {
    &&& a.0[0].sub_req(b.0[0])
    &&& a.0[1].sub_req(b.0[1])
    &&& a.0[2].sub_req(b.0[2])
}

/// Component-wise negation.
pub open spec fn neg3<T: core::ops::Neg<Output = T>>(a: Base3<T>) -> Base3<T> {
    Base3([a.0[0].neg_spec(), a.0[1].neg_spec(), a.0[2].neg_spec()])
}

/// Each component negation of `neg3(a)` is defined.
pub open spec fn neg3_req<T: core::ops::Neg<Output = T>>(a: Base3<T>) -> bool {
    &&& a.0[0].neg_req()
    &&& a.0[1].neg_req()
    &&& a.0[2].neg_req()
}

/// Every component multiplied by the scalar `k`.
pub open spec fn scale3<T: core::ops::Mul<T, Output = T>>(a: Base3<T>, k: T) -> Base3<T> {
    Base3([a.0[0].mul_spec(k), a.0[1].mul_spec(k), a.0[2].mul_spec(k)])
}

/// Each product of `scale3(a, k)` is defined.
pub open spec fn scale3_req<T: core::ops::Mul<T, Output = T>>(a: Base3<T>, k: T) -> bool {
    &&& a.0[0].mul_req(k)
    &&& a.0[1].mul_req(k)
    &&& a.0[2].mul_req(k)
}

/// Component-wise product.
pub open spec fn mul3<T: core::ops::Mul<T, Output = T>>(a: Base3<T>, b: Base3<T>) -> Base3<T> {
    Base3([a.0[0].mul_spec(b.0[0]), a.0[1].mul_spec(b.0[1]), a.0[2].mul_spec(b.0[2])])
}

/// Each component product of `mul3(a, b)` is defined.
pub open spec fn mul3_req<T: core::ops::Mul<T, Output = T>>(a: Base3<T>, b: Base3<T>) -> bool {
    &&& a.0[0].mul_req(b.0[0])
    &&& a.0[1].mul_req(b.0[1])
    &&& a.0[2].mul_req(b.0[2])
}

/// Every component divided by the scalar `k`.
pub open spec fn div3<T: core::ops::Div<T, Output = T>>(a: Base3<T>, k: T) -> Base3<T> {
    Base3([a.0[0].div_spec(k), a.0[1].div_spec(k), a.0[2].div_spec(k)])
}

/// Each quotient of `div3(a, k)` is defined.
pub open spec fn div3_req<T: core::ops::Div<T, Output = T>>(a: Base3<T>, k: T) -> bool {
    &&& a.0[0].div_req(k)
    &&& a.0[1].div_req(k)
    &&& a.0[2].div_req(k)
}

impl<T> Base3<T> {
    /// The three components as a sequence.
    pub open spec fn view_seq(self) -> Seq<T> {
        seq![self.0[0], self.0[1], self.0[2]]
    }

    /// Iterates over the components, in order.
    pub fn iter(&self) -> (r: core::slice::Iter<'_, T>)
        ensures
            vstd::std_specs::slice::into_iter_elts(r) == self.view_seq(),
    {
        self.0.iter()
    }
}

impl<T> From<[T; 3]> for Base3<T> {
    fn from(base: [T; 3]) -> (r: Base3<T>) {
        Base3(base)
    }
}

impl<T> vstd::std_specs::convert::FromSpecImpl<[T; 3]> for Base3<T> {
    open spec fn obeys_from_spec() -> bool {
        true
    }

    open spec fn from_spec(base: [T; 3]) -> Base3<T> {
        Base3(base)
    }
}

impl<T> core::ops::Index<usize> for Base3<T> {
    type Output = T;

    fn index(&self, index: usize) -> (r: &T)
        ensures
            *r == self.0[index as int],
    {
        &self.0[index]
    }
}

impl<T> vstd::std_specs::core::IndexSpecImpl<usize> for Base3<T> {
    open spec fn index_req(&self, index: &usize) -> bool {
        *index < 3
    }
}

impl<T: Copy + core::ops::Add<T, Output = T>> core::ops::Add for Base3<T> {
    type Output = Base3<T>;

    fn add(self, other: Base3<T>) -> (r: Base3<T>) {
        Base3([self.0[0] + other.0[0], self.0[1] + other.0[1], self.0[2] + other.0[2]])
    }
}

impl<T: Copy + core::ops::Add<T, Output = T>> vstd::std_specs::ops::AddSpecImpl for Base3<T> {
    open spec fn obeys_add_spec() -> bool {
        T::obeys_add_spec()
    }

    open spec fn add_req(self, other: Base3<T>) -> bool {
        add3_req(self, other)
    }

    open spec fn add_spec(self, other: Base3<T>) -> Base3<T> {
        add3(self, other)
    }
}

impl<T: Copy + core::ops::Sub<T, Output = T>> core::ops::Sub for Base3<T> {
    type Output = Base3<T>;

    fn sub(self, other: Base3<T>) -> (r: Base3<T>) {
        Base3([self.0[0] - other.0[0], self.0[1] - other.0[1], self.0[2] - other.0[2]])
    }
}

impl<T: Copy + core::ops::Sub<T, Output = T>> vstd::std_specs::ops::SubSpecImpl for Base3<T> {
    open spec fn obeys_sub_spec() -> bool {
        T::obeys_sub_spec()
    }

    open spec fn sub_req(self, other: Base3<T>) -> bool {
        sub3_req(self, other)
    }

    open spec fn sub_spec(self, other: Base3<T>) -> Base3<T> {
        sub3(self, other)
    }
}

impl<T: Copy + core::ops::Neg<Output = T>> core::ops::Neg for Base3<T> {
    type Output = Base3<T>;

    fn neg(self) -> (r: Base3<T>) {
        Base3([self.0[0].neg(), self.0[1].neg(), self.0[2].neg()])
    }
}

impl<T: Copy + core::ops::Neg<Output = T>> vstd::std_specs::ops::NegSpecImpl for Base3<T> {
    open spec fn obeys_neg_spec() -> bool {
        T::obeys_neg_spec()
    }

    open spec fn neg_req(self) -> bool {
        neg3_req(self)
    }

    open spec fn neg_spec(self) -> Base3<T> {
        neg3(self)
    }
}

impl<T: Copy + core::ops::Mul<T, Output = T>> core::ops::Mul<T> for Base3<T> {
    type Output = Base3<T>;

    fn mul(self, multiplier: T) -> (r: Base3<T>) {
        Base3([self.0[0] * multiplier, self.0[1] * multiplier, self.0[2] * multiplier])
    }
}

impl<T: Copy + core::ops::Mul<T, Output = T>> vstd::std_specs::ops::MulSpecImpl<T> for Base3<T> {
    open spec fn obeys_mul_spec() -> bool {
        T::obeys_mul_spec()
    }

    open spec fn mul_req(self, multiplier: T) -> bool {
        scale3_req(self, multiplier)
    }

    open spec fn mul_spec(self, multiplier: T) -> Base3<T> {
        scale3(self, multiplier)
    }
}

impl<T: Copy + core::ops::Div<T, Output = T>> core::ops::Div<T> for Base3<T> {
    type Output = Base3<T>;

    fn div(self, divider: T) -> (r: Base3<T>) {
        Base3([self.0[0] / divider, self.0[1] / divider, self.0[2] / divider])
    }
}

impl<T: Copy + core::ops::Div<T, Output = T>> vstd::std_specs::ops::DivSpecImpl<T> for Base3<T> {
    open spec fn obeys_div_spec() -> bool {
        T::obeys_div_spec()
    }

    open spec fn div_req(self, divider: T) -> bool {
        div3_req(self, divider)
    }

    open spec fn div_spec(self, divider: T) -> Base3<T> {
        div3(self, divider)
    }
}

/// Access to the components of a point or a direction by name.
pub trait XYZ {
    type Item;

    fn x(self) -> Self::Item;

    fn y(self) -> Self::Item;

    fn z(self) -> Self::Item;
}

} // verus!
