use core::cmp::Ordering;
use core::ops::Neg;
use vstd::laws_cmp::obeys_partial_cmp_spec_properties;
use vstd::prelude::*;
use vstd::std_specs::cmp::{PartialOrdIs, PartialOrdSpec};
use vstd::std_specs::ops::{AddSpec, DivSpec, MulSpec, NegSpec, SubSpec};

use crate::base::point3::Point3;
use crate::base::vec3::{dot_req, dot_spec, Vec3};
use crate::base::{
    add_total, div3, div3_req, div_total, mul_total, neg3, neg3_req, neg_total, sub3, sub3_req,
    sub_total, Base3,
};
use crate::materials::Materials;
use crate::ray::{at_req, at_spec, Ray};

verus! {

/// What a ray met: where, at which parameter, the surface normal turned to
/// face the ray, whether the ray came from outside, and the material there.
#[derive(Debug, Clone, Copy)]
pub struct HitRecord<'a, T> {
    pub point: Point3<T>,
    pub normal: Vec3<T>,
    pub material: &'a Materials<T>,
    pub t: T,
    pub front_face: bool,
}

/// A ball, the one primitive of a scene.
#[derive(Debug, Clone)]
pub struct Sphere<T> {
    pub center: Point3<T>,
    pub radius: T,
    pub material: Materials<T>,
}

/// A scene element: a sphere, or a group of elements.
#[derive(Debug)]
pub enum Hittable<T> {
    Sphere(Sphere<T>),
    HittableVec(HittableVec<T>),
}

/// An ordered group of scene elements.
#[derive(Debug, Default)]
pub struct HittableVec<T> {
    pub objects: Vec<Hittable<T>>,
}

impl<T> HittableVec<T> {
    /// Appends `value` after the elements already held.
    pub fn push(&mut self, value: Hittable<T>)
        ensures
            final(self).objects@ == old(self).objects@.push(value),
    {
        self.objects.push(value)
    }
}

/// The scalar type's `+`, `-`, `*`, `/`, unary `-` and comparisons are exact,
/// as vstd specifies them for the integer types.
pub open spec fn exact_scalar<
    T: core::ops::Add<T, Output = T> + core::ops::Sub<T, Output = T> + core::ops::Mul<
        T,
        Output = T,
    > + core::ops::Div<T, Output = T> + core::ops::Neg<Output = T> + PartialOrd,
>() -> bool {
    &&& T::obeys_add_spec()
    &&& T::obeys_sub_spec()
    &&& T::obeys_mul_spec()
    &&& T::obeys_div_spec()
    &&& T::obeys_neg_spec()
    &&& T::obeys_partial_cmp_spec()
}

/// Every arithmetic operation of the scalar type is defined on all values.
pub open spec fn total_scalar<
    T: core::ops::Add<T, Output = T> + core::ops::Sub<T, Output = T> + core::ops::Mul<
        T,
        Output = T,
    > + core::ops::Div<T, Output = T> + core::ops::Neg<Output = T>,
>() -> bool {
    &&& add_total::<T>()
    &&& sub_total::<T>()
    &&& mul_total::<T>()
    &&& div_total::<T>()
    &&& neg_total::<T>()
}

/// The ray meets the surface from outside: the scalar product `d` of its
/// direction with the outward normal is negative. It is tested as `d < -d`,
/// which holds of exactly the negative values and needs no zero of `T`.
pub open spec fn faces_front<
    T: Copy + core::ops::Add<T, Output = T> + core::ops::Mul<T, Output = T> + core::ops::Neg<
        Output = T,
    > + PartialOrd,
>(direction: Base3<T>, outward: Base3<T>) -> bool {
    let d = dot_spec(direction, outward);
    d.is_lt(&d.neg_spec())
}

/// The normal that a hit reports: the outward one where the ray comes from
/// outside, its opposite where it comes from inside.
pub open spec fn facing_normal<T: core::ops::Neg<Output = T>>(
    outward: Base3<T>,
    front_face: bool,
) -> Base3<T> {
    if front_face {
        outward
    } else {
        neg3(outward)
    }
}

/// What orienting `outward` against `direction` needs of the scalar type.
pub open spec fn orient_req<
    T: Copy + core::ops::Add<T, Output = T> + core::ops::Mul<T, Output = T> + core::ops::Neg<
        Output = T,
    >,
>(direction: Base3<T>, outward: Base3<T>) -> bool {
    &&& dot_req(direction, outward)
    &&& neg3_req(outward)
    &&& {
        ||| T::obeys_add_spec() && T::obeys_mul_spec() && dot_spec(direction, outward).neg_req()
        ||| neg_total::<T>()
    }
}

impl<'a, T: Copy + core::ops::Add<T, Output = T> + core::ops::Mul<T, Output = T> + core::ops::Neg<
    Output = T,
> + PartialOrd> HitRecord<'a, T> {
    /// Records a hit, turning `outward_normal` to face the incoming ray.
    pub fn new(
        point: Point3<T>,
        t: T,
        ray: &Ray<T>,
        outward_normal: Vec3<T>,
        material: &'a Materials<T>,
    ) -> (r: HitRecord<'a, T>)
        requires
            orient_req(ray.direction.0, outward_normal.0),
        ensures
            r.point == point,
            r.t == t,
            r.material == material,
            r.front_face ==> r.normal == outward_normal,
            T::obeys_neg_spec() ==> r.normal.0 == facing_normal(outward_normal.0, r.front_face),
            T::obeys_add_spec() && T::obeys_mul_spec() && T::obeys_neg_spec()
                && T::obeys_partial_cmp_spec() ==> r.front_face == faces_front(
                ray.direction.0,
                outward_normal.0,
            ),
    {
        let d = ray.direction.dot(&outward_normal);
        let front_face = d < d.neg();
        let normal = if front_face {
            outward_normal
        } else {
            outward_normal.neg()
        };
        HitRecord { point, normal, material, t, front_face }
    }
}

/// `t` lies within `[t_min, t_max]`: neither below the one nor above the other.
pub open spec fn in_range<T: PartialOrd>(t: T, t_min: T, t_max: T) -> bool {
    !t.is_lt(&t_min) && !t.is_gt(&t_max)
}

/// The root that a hit is reported at: the near one if it lies within range,
/// else the far one if it does, else none.
pub open spec fn nearest_root_spec<T: PartialOrd>(near: T, far: T, t_min: T, t_max: T) -> Option<
    T,
> {
    if in_range(near, t_min, t_max) {
        Some(near)
    } else if in_range(far, t_min, t_max) {
        Some(far)
    } else {
        None
    }
}

/// Picks between the two roots of a ray's quadratic with a sphere, `near`
/// being the smaller one.
pub fn nearest_root<T: Copy + PartialOrd>(near: T, far: T, t_min: T, t_max: T) -> (r: Option<T>)
    ensures
        r == Some(near) || r == Some(far) || r == None::<T>,
        T::obeys_partial_cmp_spec() ==> r == nearest_root_spec(near, far, t_min, t_max),
{
    let temp = if near < t_min || near > t_max {
        far
    } else {
        near
    };
    if temp < t_min || temp > t_max {
        return None;
    }
    Some(temp)
}

/// The coefficients of `|O + tD - C|² = r²` in reduced form: `a = |D|²`,
/// `half_b = (O-C)·D`, and the reduced discriminant `half_b² - a·c` with
/// `c = |O-C|² - r²`.
#[derive(Debug, Clone, Copy)]
pub struct Quadratic<T> {
    pub a: T,
    pub half_b: T,
    pub discriminant: T,
}

/// `Quadratic` of a sphere and a ray, computed in the scalar's own arithmetic.
pub open spec fn quadratic_spec<
    T: Copy + core::ops::Add<T, Output = T> + core::ops::Sub<T, Output = T> + core::ops::Mul<
        T,
        Output = T,
    >,
>(center: Base3<T>, radius: T, ray: Ray<T>) -> Quadratic<T> {
    let oc = sub3(ray.origin.0, center);
    let a = dot_spec(ray.direction.0, ray.direction.0);
    let half_b = dot_spec(oc, ray.direction.0);
    let c = dot_spec(oc, oc).sub_spec(radius.mul_spec(radius));
    Quadratic { a, half_b, discriminant: half_b.mul_spec(half_b).sub_spec(a.mul_spec(c)) }
}

/// Every step of `quadratic_spec` is defined: on the values that it goes
/// through where the scalar's arithmetic is exact, and on all values otherwise.
pub open spec fn quadratic_req<
    T: Copy + core::ops::Add<T, Output = T> + core::ops::Sub<T, Output = T> + core::ops::Mul<
        T,
        Output = T,
    >,
>(center: Base3<T>, radius: T, ray: Ray<T>) -> bool {
    let oc = sub3(ray.origin.0, center);
    let a = dot_spec(ray.direction.0, ray.direction.0);
    let half_b = dot_spec(oc, ray.direction.0);
    let c = dot_spec(oc, oc).sub_spec(radius.mul_spec(radius));
    ||| {
        &&& T::obeys_add_spec()
        &&& T::obeys_sub_spec()
        &&& T::obeys_mul_spec()
        &&& sub3_req(ray.origin.0, center)
        &&& dot_req(ray.direction.0, ray.direction.0)
        &&& dot_req(oc, ray.direction.0)
        &&& dot_req(oc, oc)
        &&& radius.mul_req(radius)
        &&& dot_spec(oc, oc).sub_req(radius.mul_spec(radius))
        &&& half_b.mul_req(half_b)
        &&& a.mul_req(c)
        &&& half_b.mul_spec(half_b).sub_req(a.mul_spec(c))
    }
    ||| add_total::<T>() && sub_total::<T>() && mul_total::<T>()
}

/// The outward unit normal at `point`: `(point - center) / radius`.
pub open spec fn outward_spec<T: Copy + core::ops::Sub<T, Output = T> + core::ops::Div<T, Output = T>>(
    center: Base3<T>,
    radius: T,
    point: Base3<T>,
) -> Base3<T> {
    div3(sub3(point, center), radius)
}

/// Every step of building the record of a hit at `t` is defined: on the
/// values that it goes through where the scalar's arithmetic is exact, and on
/// all values otherwise.
pub open spec fn hit_at_req<
    T: Copy + core::ops::Add<T, Output = T> + core::ops::Sub<T, Output = T> + core::ops::Mul<
        T,
        Output = T,
    > + core::ops::Div<T, Output = T> + core::ops::Neg<Output = T> + PartialOrd,
>(center: Base3<T>, radius: T, ray: Ray<T>, t: T) -> bool {
    let point = at_spec(ray, t).0;
    ||| {
        &&& exact_scalar::<T>()
        &&& at_req(ray, t)
        &&& sub3_req(point, center)
        &&& div3_req(sub3(point, center), radius)
        &&& orient_req(ray.direction.0, outward_spec(center, radius, point))
    }
    ||| total_scalar::<T>()
}

impl<T: Copy + core::ops::Add<T, Output = T> + core::ops::Sub<T, Output = T> + core::ops::Mul<
    T,
    Output = T,
>> Sphere<T> {
    /// The reduced quadratic whose roots are the parameters at which `ray`
    /// meets the sphere's surface.
    pub fn quadratic(&self, ray: &Ray<T>) -> (r: Quadratic<T>)
        requires
            quadratic_req(self.center.0, self.radius, *ray),
        ensures
            T::obeys_add_spec() && T::obeys_sub_spec() && T::obeys_mul_spec() ==> r
                == quadratic_spec(self.center.0, self.radius, *ray),
    {
        let oc = ray.origin.vec_from(&self.center);
        let a = ray.direction.length_squared();
        let half_b = oc.dot(&ray.direction);
        let c = oc.length_squared() - self.radius * self.radius;
        let discriminant = half_b * half_b - a * c;
        Quadratic { a, half_b, discriminant }
    }
}

/// `rec` records `ray` meeting `sphere` at parameter `t`: at that
/// parameter, with the sphere's material, and, where the scalar's arithmetic
/// is exact, at the point `ray.at(t)` with the outward normal
/// `(point − center)/radius` turned to face the ray.
pub open spec fn is_record_at<
    'a,
    T: Copy + core::ops::Add<T, Output = T> + core::ops::Sub<T, Output = T> + core::ops::Mul<
        T,
        Output = T,
    > + core::ops::Div<T, Output = T> + core::ops::Neg<Output = T> + PartialOrd,
>(rec: HitRecord<'a, T>, sphere: &'a Sphere<T>, ray: Ray<T>, t: T) -> bool {
    &&& rec.t == t
    &&& rec.material == &sphere.material
    &&& exact_scalar::<T>() ==> {
        let outward = outward_spec(sphere.center.0, sphere.radius, at_spec(ray, t).0);
        &&& rec.point == at_spec(ray, t)
        &&& rec.front_face == faces_front(ray.direction.0, outward)
        &&& rec.normal.0 == facing_normal(outward, rec.front_face)
    }
}

/// The smaller root `(−half_b − root)/a` of a reduced quadratic.
pub open spec fn near_root<
    T: Copy + core::ops::Add<T, Output = T> + core::ops::Sub<T, Output = T> + core::ops::Div<
        T,
        Output = T,
    > + core::ops::Neg<Output = T>,
>(q: Quadratic<T>, root: T) -> T {
    q.half_b.neg_spec().sub_spec(root).div_spec(q.a)
}

/// The larger root `(−half_b + root)/a` of a reduced quadratic.
pub open spec fn far_root<
    T: Copy + core::ops::Add<T, Output = T> + core::ops::Sub<T, Output = T> + core::ops::Div<
        T,
        Output = T,
    > + core::ops::Neg<Output = T>,
>(q: Quadratic<T>, root: T) -> T {
    q.half_b.neg_spec().add_spec(root).div_spec(q.a)
}

/// The parameter of the nearest hit on a sphere whose quadratic with the ray
/// is `q`, with `root` the square root of its discriminant: none when the
/// discriminant is not positive (tested as `d > −d`), else the root that
/// `nearest_root` picks.
pub open spec fn sphere_hit_t<
    T: Copy + core::ops::Add<T, Output = T> + core::ops::Sub<T, Output = T> + core::ops::Div<
        T,
        Output = T,
    > + core::ops::Neg<Output = T> + PartialOrd,
>(q: Quadratic<T>, root: T, t_min: T, t_max: T) -> Option<T> {
    if q.discriminant.is_gt(&q.discriminant.neg_spec()) {
        nearest_root_spec(near_root(q, root), far_root(q, root), t_min, t_max)
    } else {
        None
    }
}

/// Every step of `hit_with_root` is defined: on the values that it goes
/// through where the scalar's arithmetic is exact, and on all values otherwise.
pub open spec fn hit_with_root_req<
    T: Copy + core::ops::Add<T, Output = T> + core::ops::Sub<T, Output = T> + core::ops::Mul<
        T,
        Output = T,
    > + core::ops::Div<T, Output = T> + core::ops::Neg<Output = T> + PartialOrd,
>(center: Base3<T>, radius: T, ray: Ray<T>, q: Quadratic<T>, root: T) -> bool {
    let neg_b = q.half_b.neg_spec();
    ||| {
        &&& exact_scalar::<T>()
        &&& q.discriminant.neg_req()
        &&& q.half_b.neg_req()
        &&& neg_b.sub_req(root)
        &&& neg_b.add_req(root)
        &&& neg_b.sub_spec(root).div_req(q.a)
        &&& neg_b.add_spec(root).div_req(q.a)
        &&& hit_at_req(center, radius, ray, near_root(q, root))
        &&& hit_at_req(center, radius, ray, far_root(q, root))
    }
    ||| total_scalar::<T>()
}

impl<T: Copy + core::ops::Add<T, Output = T> + core::ops::Sub<T, Output = T> + core::ops::Mul<
    T,
    Output = T,
> + core::ops::Div<T, Output = T> + core::ops::Neg<Output = T> + PartialOrd> Sphere<T> {
    /// The record of the ray meeting this sphere at parameter `t`.
    pub fn hit_at<'a>(&'a self, ray: &Ray<T>, t: T) -> (r: HitRecord<'a, T>)
        requires
            hit_at_req(self.center.0, self.radius, *ray, t),
        ensures
            is_record_at(r, self, *ray, t),
    {
        let hit_point = ray.at(t);
        let outward_normal = hit_point.vec_from(&self.center) / self.radius;
        HitRecord::new(hit_point, t, ray, outward_normal, &self.material)
    }

    /// The nearest hit of `ray` on this sphere within `[t_min, t_max]`, given
    /// `q`, the ray's quadratic with the sphere, and `root`, the square root of
    /// its discriminant. A discriminant that is not positive means no hit.
    /// Otherwise the roots are `(−half_b ∓ root)/a`, and the hit is at the
    /// near one if it lies within range, else at the far one if it does.
    pub fn hit_with_root<'a>(
        &'a self,
        ray: &Ray<T>,
        q: &Quadratic<T>,
        root: T,
        t_min: T,
        t_max: T,
    ) -> (r: Option<HitRecord<'a, T>>)
        requires
            hit_with_root_req(self.center.0, self.radius, *ray, *q, root),
        ensures
            r is Some ==> r->Some_0.material == &self.material,
            exact_scalar::<T>() ==> match sphere_hit_t(*q, root, t_min, t_max) {
                Some(t) => r is Some && is_record_at(r->Some_0, self, *ray, t),
                None => r is None,
            },
    {
        if !(q.discriminant > q.discriminant.neg()) {
            return None;
        }
        let neg_b = q.half_b.neg();
        let near = (neg_b - root) / q.a;
        let far = (neg_b + root) / q.a;
        match nearest_root(near, far, t_min, t_max) {
            Some(t) => Some(self.hit_at(ray, t)),
            None => None,
        }
    }
}

/// The comparison of the scalar type is a total order whose equal values are
/// identical (as for the integer types).
pub open spec fn strict_total_order<T: PartialOrd>() -> bool {
    &&& T::obeys_partial_cmp_spec()
    &&& obeys_partial_cmp_spec_properties::<T>()
    &&& forall|x: T, y: T| #[trigger] x.partial_cmp_spec(&y) is Some
    &&& forall|x: T, y: T| #[trigger] x.partial_cmp_spec(&y) == Some(Ordering::Equal) ==> x == y
}

/// The nearest of the hits in `candidates`, which holds what each element of
/// a group reported for one ray, in scan order. A later hit replaces the best
/// so far only when it is strictly nearer, so of equally near hits the first
/// one found is kept.
pub fn nearest_hit<'a, T: Copy + PartialOrd>(candidates: &Vec<Option<HitRecord<'a, T>>>) -> (r:
    Option<HitRecord<'a, T>>)
    ensures
        r is None <==> forall|i: int| 0 <= i < candidates@.len() ==> candidates@[i] is None,
        r is Some ==> exists|k: int|
            {
                &&& 0 <= k < candidates@.len()
                &&& candidates@[k] == r
                &&& strict_total_order::<T>() ==> forall|j: int|
                    0 <= j < k && #[trigger] candidates@[j] is Some ==> r->Some_0.t.is_lt(
                        &candidates@[j]->Some_0.t,
                    )
            },
        T::obeys_partial_cmp_spec() && obeys_partial_cmp_spec_properties::<T>() && r is Some
            ==> forall|i: int|
            0 <= i < candidates@.len() && #[trigger] candidates@[i] is Some ==> !candidates@[i]->Some_0.t.is_lt(
                &r->Some_0.t,
            ),
{
    let mut best: Option<HitRecord<'a, T>> = None;
    let ghost mut k: int = 0;
    let mut i: usize = 0;
    while i < candidates.len()
        invariant
            0 <= i <= candidates@.len(),
            best is None <==> forall|j: int| 0 <= j < i ==> candidates@[j] is None,
            best is Some ==> {
                &&& 0 <= k < i
                &&& candidates@[k] == best
                &&& strict_total_order::<T>() ==> forall|j: int|
                    0 <= j < k && #[trigger] candidates@[j] is Some ==> best->Some_0.t.is_lt(
                        &candidates@[j]->Some_0.t,
                    )
            },
            T::obeys_partial_cmp_spec() && obeys_partial_cmp_spec_properties::<T>() && best is Some
                ==> forall|j: int|
                0 <= j < i && #[trigger] candidates@[j] is Some ==> !candidates@[j]->Some_0.t.is_lt(
                    &best->Some_0.t,
                ),
        decreases candidates@.len() - i,
    {
        if let Some(candidate) = candidates[i] {
            let nearer = match best {
                None => true,
                Some(current) => candidate.t < current.t,
            };
            if nearer {
                proof {
                    if T::obeys_partial_cmp_spec() && obeys_partial_cmp_spec_properties::<T>() {
                        reveal(obeys_partial_cmp_spec_properties);
                    }
                    if strict_total_order::<T>() && best is Some {
                        lemma_replacement_is_nearest(candidates@, best->Some_0, k, candidate, i as int);
                    }
                    k = i as int;
                }
                best = Some(candidate);
            }
        }
        i = i + 1;
    }
    best
}

/// When `candidate`, found at `i`, is strictly nearer than `best`, found at
/// `k` and no farther than anything before `i`, it is strictly nearer than
/// every hit before it.
proof fn lemma_replacement_is_nearest<'a, T: Copy + PartialOrd>(
    candidates: Seq<Option<HitRecord<'a, T>>>,
    best: HitRecord<'a, T>,
    k: int,
    candidate: HitRecord<'a, T>,
    i: int,
)
    requires
        strict_total_order::<T>(),
        0 <= k < i <= candidates.len(),
        candidates[k] == Some(best),
        candidate.t.is_lt(&best.t),
        forall|j: int|
            0 <= j < k && #[trigger] candidates[j] is Some ==> best.t.is_lt(&candidates[j]->Some_0.t),
        forall|j: int|
            0 <= j < i && #[trigger] candidates[j] is Some ==> !candidates[j]->Some_0.t.is_lt(&best.t),
    ensures
        forall|j: int|
            0 <= j < i && #[trigger] candidates[j] is Some ==> candidate.t.is_lt(
                &candidates[j]->Some_0.t,
            ),
{
    reveal(obeys_partial_cmp_spec_properties);
    assert forall|j: int| 0 <= j < i && #[trigger] candidates[j] is Some implies candidate.t.is_lt(
        &candidates[j]->Some_0.t,
    ) by {
        let c = candidates[j]->Some_0.t;
        if j < k {
            assert(best.t.is_lt(&c));
        } else if j == k {
        } else {
            assert(!c.is_lt(&best.t));
            assert(c.partial_cmp_spec(&best.t) is Some);
            if c.partial_cmp_spec(&best.t) == Some(Ordering::Equal) {
                assert(c == best.t);
            } else {
                assert(c.partial_cmp_spec(&best.t) == Some(Ordering::Greater));
                assert(best.t.is_lt(&c));
            }
        }
    }
}

} // verus!
