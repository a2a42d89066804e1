use vstd::prelude::*;
use vstd::std_specs::ops::{AddSpec, DivSpec, MulSpec};

use crate::base::{add3, add3_req, div3, div3_req, mul3, mul3_req, scale3, scale3_req, Base3};

verus! {

/// Linear radiance, one component per channel in the order red, green, blue.
#[derive(Debug, Default, Clone, Copy)]
pub struct Color<T>(pub Base3<T>);

/// Access to the channels of a color by name.
pub trait RGB {
    type Item;

    fn r(self) -> Self::Item;

    fn g(self) -> Self::Item;

    fn b(self) -> Self::Item;
}

/// Reading a triple as a color, channel for component.
pub trait AsColor<T> {
    fn as_color(self) -> Color<T>;
}

impl<'a, T> RGB for &'a Color<T> {
    type Item = &'a T;

    fn r(self) -> (r: &'a T)
        ensures
            *r == self.0.0[0],
    {
        &self.0.0[0]
    }

    fn g(self) -> (r: &'a T)
        ensures
            *r == self.0.0[1],
    {
        &self.0.0[1]
    }

    fn b(self) -> (r: &'a T)
        ensures
            *r == self.0.0[2],
    {
        &self.0.0[2]
    }
}

impl<T> From<[T; 3]> for Color<T> {
    fn from(base: [T; 3]) -> (r: Color<T>) {
        Color(Base3(base))
    }
}

impl<T> vstd::std_specs::convert::FromSpecImpl<[T; 3]> for Color<T> {
    open spec fn obeys_from_spec() -> bool {
        true
    }

    open spec fn from_spec(base: [T; 3]) -> Color<T> {
        Color(Base3(base))
    }
}

impl<T> core::ops::Index<usize> for Color<T> {
    type Output = T;

    fn index(&self, index: usize) -> (r: &T)
        ensures
            *r == self.0.0[index as int],
    {
        &self.0.0[index]
    }
}

impl<T> vstd::std_specs::core::IndexSpecImpl<usize> for Color<T> {
    open spec fn index_req(&self, index: &usize) -> bool {
        *index < 3
    }
}

impl<T: Copy + core::ops::Add<T, Output = T>> core::ops::Add for Color<T> {
    type Output = Color<T>;

    fn add(self, other: Color<T>) -> (r: Color<T>) {
        Color(self.0 + other.0)
    }
}

impl<T: Copy + core::ops::Add<T, Output = T>> vstd::std_specs::ops::AddSpecImpl for Color<T> {
    open spec fn obeys_add_spec() -> bool {
        T::obeys_add_spec()
    }

    open spec fn add_req(self, other: Color<T>) -> bool {
        add3_req(self.0, other.0)
    }

    open spec fn add_spec(self, other: Color<T>) -> Color<T> {
        Color(add3(self.0, other.0))
    }
}

impl<T: Copy + core::ops::Mul<T, Output = T>> core::ops::Mul<T> for Color<T> {
    type Output = Color<T>;

    fn mul(self, multiplier: T) -> (r: Color<T>) {
        Color(self.0 * multiplier)
    }
}

impl<T: Copy + core::ops::Mul<T, Output = T>> vstd::std_specs::ops::MulSpecImpl<T> for Color<T> {
    open spec fn obeys_mul_spec() -> bool {
        T::obeys_mul_spec()
    }

    open spec fn mul_req(self, multiplier: T) -> bool {
        scale3_req(self.0, multiplier)
    }

    open spec fn mul_spec(self, multiplier: T) -> Color<T> {
        Color(scale3(self.0, multiplier))
    }
}

/// Channel-wise product of two colors: how an attenuation filters incoming light.
impl<T: Copy + core::ops::Mul<T, Output = T>> core::ops::Mul<Color<T>> for Color<T> {
    type Output = Color<T>;

    fn mul(self, other: Color<T>) -> (r: Color<T>) {
        let a = self.0.0;
        let b = other.0.0;
        Color(Base3([a[0] * b[0], a[1] * b[1], a[2] * b[2]]))
    }
}

impl<T: Copy + core::ops::Mul<T, Output = T>> vstd::std_specs::ops::MulSpecImpl<Color<T>> for Color<T> {
    open spec fn obeys_mul_spec() -> bool {
        T::obeys_mul_spec()
    }

    open spec fn mul_req(self, other: Color<T>) -> bool {
        mul3_req(self.0, other.0)
    }

    open spec fn mul_spec(self, other: Color<T>) -> Color<T> {
        Color(mul3(self.0, other.0))
    }
}

impl<T: Copy + core::ops::Div<T, Output = T>> core::ops::Div<T> for Color<T> {
    type Output = Color<T>;

    fn div(self, divider: T) -> (r: Color<T>) {
        Color(self.0 / divider)
    }
}

impl<T: Copy + core::ops::Div<T, Output = T>> vstd::std_specs::ops::DivSpecImpl<T> for Color<T> {
    open spec fn obeys_div_spec() -> bool {
        T::obeys_div_spec()
    }

    open spec fn div_req(self, divider: T) -> bool {
        div3_req(self.0, divider)
    }

    open spec fn div_spec(self, divider: T) -> Color<T> {
        Color(div3(self.0, divider))
    }
}

} // verus!
