use raytracer::{Color, HitRecord, Lambertian, Materials, Metal, Point3, Ray, Vec3};

fn record<'a>(m: &'a Materials<f64>, normal: [f64; 3]) -> HitRecord<'a, f64> {
    HitRecord { point: Point3::from([1.0, 2.0, 3.0]), normal: Vec3::from(normal), material: m, t: 1.0, front_face: true }
}

#[test]
fn lambertian_always_scatters_around_the_normal() {
    let lam = Lambertian { albedo: Color::from([0.9, 0.5, 0.1]) };
    let m = Materials::Lambertian(lam);
    let rec = record(&m, [0.0, 1.0, 0.0]);
    let (scattered, attenuation) = lam.scatter(&rec, &Vec3::from([0.6, 0.0, 0.8])).unwrap();
    assert_eq!(scattered.origin.0 .0, [1.0, 2.0, 3.0]);
    assert_eq!(scattered.direction.0 .0, [0.6, 1.0, 0.8]);
    assert_eq!(attenuation.0 .0, [0.9, 0.5, 0.1]);
}

#[test]
fn lambertian_attenuation_never_amplifies() {
    let lam = Lambertian { albedo: Color::from([0.9, 0.5, 0.1]) };
    let m = Materials::Lambertian(lam);
    let rec = record(&m, [0.0, 1.0, 0.0]);
    let incoming = Color::from([1.0, 2.0, 0.5]);
    let (_, attenuation) = lam.scatter(&rec, &Vec3::from([0.0, 0.0, 1.0])).unwrap();
    let out = attenuation * incoming;
    for i in 0..3 {
        assert!(out[i] <= incoming[i]);
    }
}

#[test]
fn metal_reflects_off_the_surface() {
    let metal = Metal { albedo: Color::from([0.8, 0.6, 0.5]), fuzz: 0.0 };
    let m = Materials::Metal(metal);
    let rec = record(&m, [0.0, 1.0, 0.0]);
    let incoming = Vec3::from([0.6, -0.8, 0.0]);
    let (scattered, attenuation) = metal.scatter(&incoming, &rec, &Vec3::from([1.0, 0.0, 0.0])).unwrap();
    assert_eq!(scattered.origin.0 .0, [1.0, 2.0, 3.0]);
    assert!((scattered.direction[0] - 0.6).abs() < 1e-12);
    assert!((scattered.direction[1] - 0.8).abs() < 1e-12);
    assert_eq!(attenuation.0 .0, [0.8, 0.6, 0.5]);
}

#[test]
fn metal_absorbs_a_reflection_below_the_surface() {
    let metal = Metal { albedo: Color::from([0.8, 0.6, 0.5]), fuzz: 1.0 };
    let m = Materials::Metal(metal);
    let rec = record(&m, [0.0, 1.0, 0.0]);
    let incoming = Vec3::from([0.6, -0.8, 0.0]);
    // reflected (0.6, 0.8, 0) pushed by (0, -1, 0) leaves along (0.6, -0.2, 0)
    let r = metal.scatter(&incoming, &rec, &Vec3::from([0.0, -1.0, 0.0]));
    assert!(r.is_none());
}

#[test]
fn metal_absorbs_a_reflection_along_the_surface() {
    let metal = Metal { albedo: Color::from([1i64, 1, 1]), fuzz: 1i64 };
    let m = Materials::Metal(metal);
    let rec = HitRecord { point: Point3::from([0i64, 0, 0]), normal: Vec3::from([0i64, 1, 0]), material: &m, t: 1, front_face: true };
    // reflected (1, 1, 0) pushed by (0, -1, 0) runs along the surface
    let r = metal.scatter(&Vec3::from([1i64, -1, 0]), &rec, &Vec3::from([0i64, -1, 0]));
    assert!(r.is_none());
    let r = metal.scatter(&Vec3::from([1i64, -1, 0]), &rec, &Vec3::from([0i64, 0, 1]));
    let (scattered, _): (Ray<i64>, Color<i64>) = r.unwrap();
    assert_eq!(scattered.direction.0 .0, [1, 1, 1]);
}
