//! The sphere geometry in exact integer arithmetic, where the scalar
//! operations are those of mathematics: what the discriminant says about how
//! a ray passes a sphere, and which way a reported normal faces.
use vstd::arithmetic::mul::{lemma_mul_is_distributive_add, lemma_mul_is_distributive_add_other_way};
use vstd::prelude::*;
use vstd::std_specs::ops::{AddSpec, MulSpec, NegSpec, SubSpec};

use crate::base::vec3::{dot_req, dot_spec};
use crate::base::{add_total, mul_total, neg3, neg_total, sub3, sub_total, Base3};
use crate::hittable::{faces_front, facing_normal, orient_req, quadratic_req, quadratic_spec};
use crate::ray::Ray;

verus! {

/// The squared length of the vector product `a×b`, in exact arithmetic.
pub open spec fn cross_norm2(a: Base3<i64>, b: Base3<i64>) -> int {
    let x = a.0[1] * b.0[2] - a.0[2] * b.0[1];
    let y = a.0[2] * b.0[0] - a.0[0] * b.0[2];
    let z = a.0[0] * b.0[1] - a.0[1] * b.0[0];
    x * x + y * y + z * z
}

/// The scalar product `a·b`, in exact arithmetic.
pub open spec fn dot_int(a: Base3<i64>, b: Base3<i64>) -> int {
    a.0[0] * b.0[0] + a.0[1] * b.0[1] + a.0[2] * b.0[2]
}

/// `i64` arithmetic is bounded: none of its operations is defined everywhere.
proof fn lemma_i64_bounded()
    ensures
        !add_total::<i64>(),
        !sub_total::<i64>(),
        !mul_total::<i64>(),
        !neg_total::<i64>(),
{
    assert(!(i64::MAX).add_req(1i64));
    assert(!(i64::MIN).sub_req(1i64));
    assert(!(i64::MAX).mul_req(2i64));
    assert(!(i64::MIN).neg_req());
}

proof fn lemma_dot_i64(a: Base3<i64>, b: Base3<i64>)
    requires
        dot_req(a, b),
    ensures
        dot_spec(a, b) as int == dot_int(a, b),
{
    lemma_i64_bounded();
}

proof fn lemma_product_of_sums(a: int, b: int, c: int, x: int, y: int, z: int)
    ensures
        (a + b + c) * (x + y + z) == a * x + a * y + a * z + b * x + b * y + b * z + c * x + c * y
            + c * z,
{
    lemma_mul_is_distributive_add_other_way(x + y + z, a + b, c);
    lemma_mul_is_distributive_add_other_way(x + y + z, a, b);
    lemma_mul_is_distributive_add(a, x + y, z);
    lemma_mul_is_distributive_add(a, x, y);
    lemma_mul_is_distributive_add(b, x + y, z);
    lemma_mul_is_distributive_add(b, x, y);
    lemma_mul_is_distributive_add(c, x + y, z);
    lemma_mul_is_distributive_add(c, x, y);
}

proof fn lemma_square_of_sum(p: int, q: int, r: int)
    ensures
        (p + q + r) * (p + q + r) == p * p + q * q + r * r + 2 * (p * q) + 2 * (p * r) + 2 * (q * r),
{
    assert((p + q + r) * (p + q + r) == p * p + q * q + r * r + 2 * (p * q) + 2 * (p * r) + 2 * (q
        * r)) by (nonlinear_arith);
}

proof fn lemma_square_of_difference(p: int, q: int)
    ensures
        (p - q) * (p - q) == p * p + q * q - 2 * (p * q),
{
    assert((p - q) * (p - q) == p * p + q * q - 2 * (p * q)) by (nonlinear_arith);
}

proof fn lemma_rearrange(a: int, b: int, c: int, d: int)
    ensures
        (a * b) * (c * d) == (a * d) * (c * b),
        (a * a) * (c * c) == (c * a) * (c * a),
{
    assert((a * b) * (c * d) == (a * d) * (c * b)) by (nonlinear_arith);
    assert((a * a) * (c * c) == (c * a) * (c * a)) by (nonlinear_arith);
}

/// Lagrange's identity: `|d|²·|o|² − (o·d)² = |o×d|²`.
proof fn lemma_lagrange(o0: int, o1: int, o2: int, d0: int, d1: int, d2: int)
    ensures
        (d0 * d0 + d1 * d1 + d2 * d2) * (o0 * o0 + o1 * o1 + o2 * o2) - (o0 * d0 + o1 * d1 + o2 * d2)
            * (o0 * d0 + o1 * d1 + o2 * d2) == (o1 * d2 - o2 * d1) * (o1 * d2 - o2 * d1) + (o2 * d0
            - o0 * d2) * (o2 * d0 - o0 * d2) + (o0 * d1 - o1 * d0) * (o0 * d1 - o1 * d0),
{
    lemma_product_of_sums(d0 * d0, d1 * d1, d2 * d2, o0 * o0, o1 * o1, o2 * o2);
    lemma_square_of_sum(o0 * d0, o1 * d1, o2 * d2);
    lemma_square_of_difference(o1 * d2, o2 * d1);
    lemma_square_of_difference(o2 * d0, o0 * d2);
    lemma_square_of_difference(o0 * d1, o1 * d0);
    lemma_rearrange(o0, d0, o1, d1);
    lemma_rearrange(o0, d0, o2, d2);
    lemma_rearrange(o1, d1, o2, d2);
    lemma_rearrange(d0, d0, o0, o0);
    lemma_rearrange(d0, d0, o1, o1);
    lemma_rearrange(d0, d0, o2, o2);
    lemma_rearrange(d1, d1, o0, o0);
    lemma_rearrange(d1, d1, o1, o1);
    lemma_rearrange(d1, d1, o2, o2);
    lemma_rearrange(d2, d2, o0, o0);
    lemma_rearrange(d2, d2, o1, o1);
    lemma_rearrange(d2, d2, o2, o2);
}

/// A sphere's discriminant tells how far a ray passes from its center.
/// With `oc` the offset of the ray's origin from the center and `D` its
/// direction, the reduced discriminant is `|D|²·r² − |oc×D|²`, and
/// `|oc×D|²/|D|²` is the squared distance between the center and the ray's
/// line. So a ray aimed to pass farther than the radius from the center has a
/// negative discriminant and misses, and one aimed straight at the center has
/// discriminant `|D|²·r²`.
pub proof fn lemma_discriminant_measures_offset(center: Base3<i64>, radius: i64, ray: Ray<i64>)
    requires
        quadratic_req(center, radius, ray),
    ensures
        ({
            let q = quadratic_spec(center, radius, ray);
            let oc = sub3(ray.origin.0, center);
            let d = ray.direction.0;
            &&& q.a as int == dot_int(d, d)
            &&& q.half_b as int == dot_int(oc, d)
            &&& q.discriminant as int == dot_int(d, d) * (radius * radius) - cross_norm2(oc, d)
            &&& cross_norm2(oc, d) > dot_int(d, d) * (radius * radius) ==> q.discriminant < 0
        }),
{
    let oc = sub3(ray.origin.0, center);
    let d = ray.direction.0;
    lemma_dot_i64(d, d);
    lemma_dot_i64(oc, d);
    lemma_dot_i64(oc, oc);
    let (o0, o1, o2) = (oc.0[0] as int, oc.0[1] as int, oc.0[2] as int);
    let (d0, d1, d2) = (d.0[0] as int, d.0[1] as int, d.0[2] as int);
    let r = radius as int;
    assert((d0 * d0 + d1 * d1 + d2 * d2) * (o0 * o0 + o1 * o1 + o2 * o2 - r * r) == (d0 * d0 + d1
        * d1 + d2 * d2) * (o0 * o0 + o1 * o1 + o2 * o2) - (d0 * d0 + d1 * d1 + d2 * d2) * (r * r))
        by (nonlinear_arith);
    lemma_lagrange(o0, o1, o2, d0, d1, d2);
}

/// A ray that starts outside a sphere at distance `k` from its center and
/// heads straight at the center along a unit direction meets the surface
/// first at `t = k − r`: its quadratic has `a = 1`, `half_b = −k` and
/// discriminant `r²`, so the near root `(−half_b − √disc)/a` is `k − r`.
pub proof fn lemma_head_on_hit(center: Base3<i64>, radius: i64, ray: Ray<i64>, k: i64)
    requires
        quadratic_req(center, radius, ray),
        dot_int(ray.direction.0, ray.direction.0) == 1,
        forall|i: int|
            0 <= i < 3 ==> #[trigger] ray.origin.0.0[i] - center.0[i] == -(k * ray.direction.0.0[i]),
    ensures
        ({
            let q = quadratic_spec(center, radius, ray);
            &&& q.a == 1
            &&& q.half_b == -k
            &&& q.discriminant == radius * radius
        }),
{
    lemma_discriminant_measures_offset(center, radius, ray);
    let oc = sub3(ray.origin.0, center);
    let d = ray.direction.0;
    let (d0, d1, d2) = (d.0[0] as int, d.0[1] as int, d.0[2] as int);
    let kk = k as int;
    assert(oc.0[0] == -(kk * d0) && oc.0[1] == -(kk * d1) && oc.0[2] == -(kk * d2)) by {
        assert(ray.origin.0.0[0] - center.0[0] == -(k * d.0[0]));
        assert(ray.origin.0.0[1] - center.0[1] == -(k * d.0[1]));
        assert(ray.origin.0.0[2] - center.0[2] == -(k * d.0[2]));
    }
    lemma_parallel(kk, d0, d1, d2);
}

/// For `o = −k·d`: `o·d = −k·|d|²`, and every component of `o×d` is zero.
proof fn lemma_parallel(k: int, d0: int, d1: int, d2: int)
    ensures
        (-(k * d0)) * d0 + (-(k * d1)) * d1 + (-(k * d2)) * d2 == -k * (d0 * d0 + d1 * d1 + d2 * d2),
        (-(k * d1)) * d2 - (-(k * d2)) * d1 == 0,
        (-(k * d2)) * d0 - (-(k * d0)) * d2 == 0,
        (-(k * d0)) * d1 - (-(k * d1)) * d0 == 0,
{
    assert((-(k * d0)) * d0 + (-(k * d1)) * d1 + (-(k * d2)) * d2 == -k * (d0 * d0 + d1 * d1 + d2
        * d2)) by (nonlinear_arith);
    assert((-(k * d1)) * d2 - (-(k * d2)) * d1 == 0) by (nonlinear_arith);
    assert((-(k * d2)) * d0 - (-(k * d0)) * d2 == 0) by (nonlinear_arith);
    assert((-(k * d0)) * d1 - (-(k * d1)) * d0 == 0) by (nonlinear_arith);
}

/// The normal a hit reports always faces the incoming ray, in exact
/// arithmetic: `front_face` holds exactly when the scalar product of the
/// direction with the outward normal is negative, and the scalar product of
/// the direction with the reported normal is never positive.
pub proof fn lemma_normal_faces_ray(direction: Base3<i64>, outward: Base3<i64>)
    requires
        orient_req(direction, outward),
        dot_req(direction, neg3(outward)),
    ensures
        faces_front(direction, outward) <==> dot_int(direction, outward) < 0,
        dot_int(direction, facing_normal(outward, faces_front(direction, outward))) <= 0,
{
    lemma_dot_i64(direction, outward);
    lemma_dot_i64(direction, neg3(outward));
    let n = neg3(outward);
    assert(dot_int(direction, n) == -dot_int(direction, outward)) by (nonlinear_arith)
        requires
            n.0[0] == -outward.0[0],
            n.0[1] == -outward.0[1],
            n.0[2] == -outward.0[2],
    ;
}

} // verus!
