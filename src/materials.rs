use core::ops::Neg;
use vstd::prelude::*;
use vstd::std_specs::cmp::{PartialOrdIs, PartialOrdSpec};
use vstd::std_specs::ops::{AddSpec, MulSpec, NegSpec, SubSpec};

use crate::base::color::Color;
use crate::base::vec3::{dot_req, dot_spec, reflect_req, reflect_spec, Vec3};
use crate::base::{
    add3, add3_req, add_total, mul_total, neg_total, scale3, scale3_req, sub_total, Base3,
};
use crate::hittable::HitRecord;
use crate::ray::Ray;

verus! {

/// A diffuse surface.
#[derive(Debug, Clone, Copy)]
pub struct Lambertian<T> {
    pub albedo: Color<T>,
}

/// A reflecting surface; `fuzz` blurs the reflection.
#[derive(Debug, Clone, Copy)]
pub struct Metal<T> {
    pub albedo: Color<T>,
    pub fuzz: T,
}

/// A clear surface that reflects or refracts, with refractive index `ref_idx`.
#[derive(Debug, Clone, Copy)]
pub struct Dielectric<T> {
    pub ref_idx: T,
}

/// The materials a surface can have.
#[derive(Debug, Clone, Copy)]
pub enum Materials<T> {
    Lambertian(Lambertian<T>),
    Metal(Metal<T>),
    Dielectric(Dielectric<T>),
}

/// The direction a diffuse bounce leaves in: the surface normal plus a
/// random unit vector.
pub open spec fn diffuse_direction<T: Copy + core::ops::Add<T, Output = T>>(
    normal: Base3<T>,
    random_unit: Base3<T>,
) -> Base3<T> {
    add3(normal, random_unit)
}

impl<T: Copy + core::ops::Add<T, Output = T>> Lambertian<T> {
    /// Scatters a ray that met this surface. `random_unit` is a vector drawn
    /// uniformly on the unit sphere. A diffuse surface never absorbs: the
    /// ray leaves from the hit point, attenuated by the albedo.
    pub fn scatter(&self, hit_record: &HitRecord<'_, T>, random_unit: &Vec3<T>) -> (r: Option<
        (Ray<T>, Color<T>),
    >)
        requires
            add3_req(hit_record.normal.0, random_unit.0),
        ensures
            r is Some,
            r->Some_0.0.origin == hit_record.point,
            r->Some_0.1 == self.albedo,
            T::obeys_add_spec() ==> r->Some_0.0.direction.0 == diffuse_direction(
                hit_record.normal.0,
                random_unit.0,
            ),
    {
        let scatter_direction = hit_record.normal + *random_unit;
        Some((Ray { origin: hit_record.point, direction: scatter_direction }, self.albedo))
    }
}

/// The direction a metal bounce leaves in: the mirror reflection of the unit
/// incoming direction, pushed by `fuzz` times a random unit vector.
pub open spec fn metal_direction<
    T: Copy + core::ops::Add<T, Output = T> + core::ops::Sub<T, Output = T> + core::ops::Mul<T, Output = T>,
>(unit_direction: Base3<T>, normal: Base3<T>, random_unit: Base3<T>, fuzz: T) -> Base3<T> {
    add3(reflect_spec(unit_direction, normal), scale3(random_unit, fuzz))
}

/// `v` leaves the surface with normal `n`: their scalar product `d` is
/// positive, tested as `d > -d`.
pub open spec fn points_out<
    T: Copy + core::ops::Add<T, Output = T> + core::ops::Mul<T, Output = T> + core::ops::Neg<
        Output = T,
    > + PartialOrd,
>(v: Base3<T>, n: Base3<T>) -> bool {
    let d = dot_spec(v, n);
    d.is_gt(&d.neg_spec())
}

/// Every step of a metal bounce is defined: on the values that it goes
/// through where the scalar's arithmetic is exact, and on all values otherwise.
pub open spec fn metal_req<
    T: Copy + core::ops::Add<T, Output = T> + core::ops::Sub<T, Output = T> + core::ops::Mul<
        T,
        Output = T,
    > + core::ops::Neg<Output = T>,
>(unit_direction: Base3<T>, normal: Base3<T>, random_unit: Base3<T>, fuzz: T) -> bool {
    let reflected = reflect_spec(unit_direction, normal);
    let direction = metal_direction(unit_direction, normal, random_unit, fuzz);
    ||| {
        &&& T::obeys_add_spec()
        &&& T::obeys_sub_spec()
        &&& T::obeys_mul_spec()
        &&& reflect_req(unit_direction, normal)
        &&& scale3_req(random_unit, fuzz)
        &&& add3_req(reflected, scale3(random_unit, fuzz))
        &&& dot_req(direction, normal)
        &&& dot_spec(direction, normal).neg_req()
    }
    ||| add_total::<T>() && sub_total::<T>() && mul_total::<T>() && neg_total::<T>()
}

impl<
    T: Copy + core::ops::Add<T, Output = T> + core::ops::Sub<T, Output = T> + core::ops::Mul<
        T,
        Output = T,
    > + core::ops::Neg<Output = T> + PartialOrd,
> Metal<T> {
    /// Scatters a ray that met this surface. `unit_direction` is the incoming
    /// direction scaled to unit length, and `random_unit` a vector drawn
    /// uniformly on the unit sphere. The ray is absorbed when the fuzzed
    /// reflection would not leave the surface.
    pub fn scatter(
        &self,
        unit_direction: &Vec3<T>,
        hit_record: &HitRecord<'_, T>,
        random_unit: &Vec3<T>,
    ) -> (r: Option<(Ray<T>, Color<T>)>)
        requires
            metal_req(unit_direction.0, hit_record.normal.0, random_unit.0, self.fuzz),
        ensures
            r is Some ==> r->Some_0.0.origin == hit_record.point && r->Some_0.1 == self.albedo,
            T::obeys_add_spec() && T::obeys_sub_spec() && T::obeys_mul_spec() ==> {
                let direction = metal_direction(
                    unit_direction.0,
                    hit_record.normal.0,
                    random_unit.0,
                    self.fuzz,
                );
                &&& r is Some ==> r->Some_0.0.direction.0 == direction
                &&& T::obeys_neg_spec() && T::obeys_partial_cmp_spec() ==> (r is Some
                    <==> points_out(direction, hit_record.normal.0))
            },
    {
        let reflected = unit_direction.reflect(&hit_record.normal);
        let scattered = Ray {
            origin: hit_record.point,
            direction: reflected + *random_unit * self.fuzz,
        };
        let d = scattered.direction.dot(&hit_record.normal);
        if d > d.neg() {
            Some((scattered, self.albedo))
        } else {
            None
        }
    }
}

} // verus!
