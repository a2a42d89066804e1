use raytracer::{
    nearest_hit, nearest_root, Dielectric, HitRecord, Hittable, HittableVec, Lambertian, Materials,
    Point3, Ray, Sphere, Vec3,
};
use raytracer::Color;

fn grey() -> Materials<f64> {
    Materials::Lambertian(Lambertian { albedo: Color::from([0.5, 0.5, 0.5]) })
}

fn ray(origin: [f64; 3], direction: [f64; 3]) -> Ray<f64> {
    Ray { origin: Point3::from(origin), direction: Vec3::from(direction) }
}

fn hit_sphere<'a>(s: &'a Sphere<f64>, r: &Ray<f64>, t_min: f64, t_max: f64) -> Option<HitRecord<'a, f64>> {
    let q = s.quadratic(r);
    s.hit_with_root(r, &q, q.discriminant.sqrt(), t_min, t_max)
}

#[test]
fn ray_at_advances_along_the_direction() {
    let r = Ray { origin: Point3::from([1i64, 2, 3]), direction: Vec3::from([1i64, 0, -1]) };
    assert_eq!(r.at(4).0 .0, [5, 2, -1]);
    assert_eq!(r.at(-1).0 .0, [0, 2, 4]);
    assert_eq!(r.at(0).0 .0, [1, 2, 3]);
}

#[test]
fn sphere_quadratic_coefficients() {
    let s = Sphere { center: Point3::from([0i64, 0, 0]), radius: 1i64, material: Materials::Dielectric(Dielectric { ref_idx: 1 }) };
    let r = Ray { origin: Point3::from([0i64, 0, -5]), direction: Vec3::from([0i64, 0, 1]) };
    let q = s.quadratic(&r);
    assert_eq!((q.a, q.half_b, q.discriminant), (1, -5, 1));
}

#[test]
fn discriminant_is_negative_when_the_offset_exceeds_the_radius() {
    let s = Sphere { center: Point3::from([0i64, 0, 0]), radius: 2i64, material: Materials::Dielectric(Dielectric { ref_idx: 1 }) };
    let r = Ray { origin: Point3::from([0i64, 3, -5]), direction: Vec3::from([0i64, 0, 2]) };
    let q = s.quadratic(&r);
    // |D|^2 r^2 - |oc x D|^2 = 4*4 - 36
    assert_eq!(q.discriminant, -20);
}

#[test]
fn head_on_ray_hits_at_distance_minus_radius() {
    let s = Sphere { center: Point3::from([0.0, 0.0, 0.0]), radius: 0.5, material: grey() };
    let r = ray([0.0, 0.0, -3.0], [0.0, 0.0, 1.0]);
    let h = hit_sphere(&s, &r, 1e-4, f64::INFINITY).expect("a head-on ray hits");
    assert!((h.t - 2.5).abs() < 1e-9);
    assert!((h.point[2] + 0.5).abs() < 1e-9);
}

#[test]
fn ray_offset_beyond_radius_misses() {
    let s = Sphere { center: Point3::from([0.0, 0.0, 0.0]), radius: 1.0, material: grey() };
    let r = ray([0.0, 1.5, -3.0], [0.0, 0.0, 1.0]);
    assert!(hit_sphere(&s, &r, 1e-4, f64::INFINITY).is_none());
}

#[test]
fn nearest_root_prefers_the_near_root() {
    assert_eq!(nearest_root(4i64, 6, 0, 100), Some(4));
    assert_eq!(nearest_root(-1i64, 6, 0, 100), Some(6));
    assert_eq!(nearest_root(-3i64, -1, 0, 100), None);
    assert_eq!(nearest_root(4i64, 6, 0, 5), Some(4));
    assert_eq!(nearest_root(4i64, 6, 5, 6), Some(6));
    assert_eq!(nearest_root(4i64, 6, 7, 9), None);
}

#[test]
fn normal_faces_the_ray_from_outside() {
    let m = grey();
    let r = ray([0.0, 0.0, -3.0], [0.0, 0.0, 1.0]);
    let h = HitRecord::new(Point3::from([0.0, 0.0, -1.0]), 2.0, &r, Vec3::from([0.0, 0.0, -1.0]), &m);
    assert!(h.front_face);
    assert_eq!(h.normal.0 .0, [0.0, 0.0, -1.0]);
    assert!(r.direction.dot(&h.normal) <= 0.0);
}

#[test]
fn normal_is_flipped_from_inside() {
    let m = grey();
    let r = ray([0.0, 0.0, 0.0], [0.0, 0.0, 1.0]);
    let h = HitRecord::new(Point3::from([0.0, 0.0, 1.0]), 1.0, &r, Vec3::from([0.0, 0.0, 1.0]), &m);
    assert!(!h.front_face);
    assert_eq!(h.normal.0 .0, [-0.0, -0.0, -1.0]);
    assert!(r.direction.dot(&h.normal) <= 0.0);
}

#[test]
fn grazing_ray_is_not_front_facing() {
    let m = grey();
    let r = ray([0.0, 0.0, 0.0], [1.0, 0.0, 0.0]);
    let h = HitRecord::new(Point3::from([1.0, 0.0, 0.0]), 1.0, &r, Vec3::from([0.0, 1.0, 0.0]), &m);
    assert!(!h.front_face);
}

#[test]
fn hit_at_orients_the_sphere_normal() {
    let s = Sphere { center: Point3::from([0.0, 0.0, 0.0]), radius: 2.0, material: grey() };
    let outside = ray([0.0, 0.0, -5.0], [0.0, 0.0, 1.0]);
    let h = s.hit_at(&outside, 3.0);
    assert!(h.front_face);
    assert_eq!(h.normal.0 .0, [0.0, 0.0, -1.0]);
    let inside = ray([0.0, 0.0, 0.0], [0.0, 0.0, 1.0]);
    let h = s.hit_at(&inside, 2.0);
    assert!(!h.front_face);
    assert_eq!(h.normal[2], -1.0);
    assert_eq!(h.t, 2.0);
}

#[test]
fn nearest_hit_picks_the_smaller_t_of_overlapping_spheres() {
    let far = Sphere { center: Point3::from([0.0, 0.0, 1.0]), radius: 1.0, material: grey() };
    let near = Sphere { center: Point3::from([0.0, 0.0, 0.0]), radius: 1.0, material: grey() };
    let r = ray([0.0, 0.0, -5.0], [0.0, 0.0, 1.0]);
    let candidates = vec![
        hit_sphere(&far, &r, 1e-4, f64::INFINITY),
        hit_sphere(&near, &r, 1e-4, f64::INFINITY),
    ];
    let best = nearest_hit(&candidates).expect("both spheres are hit");
    assert!((best.t - 4.0).abs() < 1e-9);
    let reversed = vec![candidates[1], candidates[0]];
    let best = nearest_hit(&reversed).expect("both spheres are hit");
    assert!((best.t - 4.0).abs() < 1e-9);
}

#[test]
fn nearest_hit_keeps_the_first_of_equal_hits() {
    let a = Materials::Dielectric(Dielectric { ref_idx: 1.5 });
    let b = grey();
    let r = ray([0.0, 0.0, 0.0], [0.0, 0.0, 1.0]);
    let n = Vec3::from([0.0, 0.0, -1.0]);
    let first = HitRecord::new(Point3::from([0.0, 0.0, 2.0]), 2.0, &r, n, &a);
    let second = HitRecord::new(Point3::from([0.0, 0.0, 2.0]), 2.0, &r, n, &b);
    let best = nearest_hit(&vec![None, Some(first), Some(second)]).unwrap();
    assert!(matches!(best.material, Materials::Dielectric(_)));
}

#[test]
fn nearest_hit_of_no_hits_is_none() {
    let none: Vec<Option<HitRecord<'_, f64>>> = vec![None, None];
    assert!(nearest_hit(&none).is_none());
    assert!(nearest_hit::<f64>(&vec![]).is_none());
}

#[test]
fn hittable_vec_push_appends() {
    let mut group = HittableVec::<f64> { objects: Vec::new() };
    group.push(Hittable::Sphere(Sphere { center: Point3::from([0.0, 0.0, 0.0]), radius: 1.0, material: grey() }));
    group.push(Hittable::HittableVec(HittableVec { objects: Vec::new() }));
    assert_eq!(group.objects.len(), 2);
    assert!(matches!(group.objects[0], Hittable::Sphere(_)));
    assert!(matches!(group.objects[1], Hittable::HittableVec(_)));
}

#[test]
fn hit_with_root_takes_the_near_root_in_range() {
    let s = Sphere { center: Point3::from([0i64, 0, 0]), radius: 1i64, material: Materials::Dielectric(Dielectric { ref_idx: 1 }) };
    let r = Ray { origin: Point3::from([0i64, 0, -5]), direction: Vec3::from([0i64, 0, 1]) };
    let q = s.quadratic(&r);
    let h = s.hit_with_root(&r, &q, 1, 0, 100).unwrap();
    assert_eq!(h.t, 4);
    assert_eq!(h.point.0 .0, [0, 0, -1]);
    assert_eq!(h.normal.0 .0, [0, 0, -1]);
    assert!(h.front_face);
    let h = s.hit_with_root(&r, &q, 1, 5, 100).unwrap();
    assert_eq!(h.t, 6);
    assert!(!h.front_face);
    assert_eq!(h.normal.0 .0, [0, 0, -1]);
    assert!(s.hit_with_root(&r, &q, 1, 7, 100).is_none());
}

#[test]
fn hit_with_root_needs_a_positive_discriminant() {
    let s = Sphere { center: Point3::from([0i64, 0, 0]), radius: 1i64, material: Materials::Dielectric(Dielectric { ref_idx: 1 }) };
    let tangent = Ray { origin: Point3::from([0i64, 1, -5]), direction: Vec3::from([0i64, 0, 1]) };
    let q = s.quadratic(&tangent);
    assert_eq!(q.discriminant, 0);
    assert!(s.hit_with_root(&tangent, &q, 0, 0, 100).is_none());
}
