use rand::rngs::StdRng;
use rand::{Rng, SeedableRng};

use raytracer::{
    nearest_hit, Bounce, Color, Path, PathStep, Radiance, HitRecord, Hittable, HittableVec, Lambertian, Materials,
    Point3, Ray, Sphere, Vec3, XYZ,
};

fn unit(v: &Vec3<f64>) -> Vec3<f64> {
    *v / v.length_squared().sqrt()
}

fn random_unit(rng: &mut StdRng) -> Vec3<f64> {
    let a: f64 = rng.gen_range(0.0, 2.0 * std::f64::consts::PI);
    let z: f64 = rng.gen_range(-1.0, 1.0);
    let r = (1.0 - z * z).sqrt();
    Vec3::from([r * a.cos(), r * a.sin(), z])
}

fn hit<'a>(object: &'a Hittable<f64>, ray: &Ray<f64>, t_min: f64, t_max: f64) -> Option<HitRecord<'a, f64>> {
    match object {
        Hittable::Sphere(s) => {
            let q = s.quadratic(ray);
            s.hit_with_root(ray, &q, q.discriminant.sqrt(), t_min, t_max)
        }
        Hittable::HittableVec(group) => {
            let candidates: Vec<_> = group.objects.iter().map(|o| hit(o, ray, t_min, t_max)).collect();
            nearest_hit(&candidates)
        }
    }
}

fn bounce(ray: &Ray<f64>, world: &Hittable<f64>, rng: &mut StdRng) -> Bounce<f64> {
    match hit(world, ray, 0.0001, f64::INFINITY) {
        Some(rec) => {
            let scattered = match rec.material {
                Materials::Lambertian(lam) => lam.scatter(&rec, &random_unit(rng)),
                Materials::Metal(m) => m.scatter(&unit(&ray.direction), &rec, &random_unit(rng)),
                Materials::Dielectric(_) => None,
            };
            match scattered {
                Some((scattered, attenuation)) => Bounce::Scattered { scattered, attenuation },
                None => Bounce::Absorbed,
            }
        }
        None => {
            let t = 0.5 * (*(&unit(&ray.direction)).y() + 1.0);
            Bounce::Escaped {
                background: Color::from([1.0, 1.0, 1.0]) * (1.0 - t) + Color::from([0.5, 0.7, 1.0]) * t,
            }
        }
    }
}

fn ray_color(ray: &Ray<f64>, world: &Hittable<f64>, depth: u16, rng: &mut StdRng) -> Color<f64> {
    let mut path = Path::new(depth);
    let mut step = path.begin(*ray);
    loop {
        match step {
            PathStep::Trace(r) => step = path.advance(bounce(&r, world, rng)),
            PathStep::Done(Radiance::Black) => return Color::from([0.0, 0.0, 0.0]),
            PathStep::Done(Radiance::Light(c)) => return c,
        }
    }
}

#[test]
fn small_scene_renders_a_visible_sphere() {
    let mut group = HittableVec { objects: Vec::new() };
    let red = Materials::Lambertian(Lambertian { albedo: Color::from([0.7, 0.1, 0.1]) });
    let ground = Materials::Lambertian(Lambertian { albedo: Color::from([0.5, 0.5, 0.5]) });
    group.push(Hittable::Sphere(Sphere { center: Point3::from([0.0, 0.0, 1.0]), radius: 0.5, material: red }));
    group.push(Hittable::Sphere(Sphere { center: Point3::from([0.0, -100.5, 1.0]), radius: 100.0, material: ground }));
    let world = Hittable::HittableVec(group);

    let (width, height, samples, depth) = (40u32, 20u32, 16u32, 8u16);
    let origin = Point3::from([0.0, 0.0, 0.0]);
    let corner = Point3::from([-2.0, 1.0, 1.0]);
    let horizontal = Vec3::from([4.0, 0.0, 0.0]);
    let vertical = Vec3::from([0.0, -2.0, 0.0]);
    let mut rng = StdRng::seed_from_u64(7);
    let mut pixels = Vec::new();
    for y in 0..height {
        for x in 0..width {
            let mut sum = Color::from([0.0, 0.0, 0.0]);
            for _ in 0..samples {
                let u = (x as f64 + rng.gen_range(0.0, 1.0)) / width as f64;
                let v = (y as f64 + rng.gen_range(0.0, 1.0)) / height as f64;
                let target = corner + (horizontal * u + vertical * v);
                let ray = Ray { origin, direction: target.vec_from(&origin) };
                sum = sum + ray_color(&ray, &world, depth, &mut rng);
            }
            pixels.push(sum / samples as f64);
        }
    }
    for p in &pixels {
        for i in 0..3 {
            assert!(!p[i].is_nan() && p[i] >= 0.0);
        }
    }
    let center = pixels[(height / 2 * width + width / 2) as usize];
    let sky = pixels[(width / 2) as usize];
    assert!(center[0] > center[2], "the red sphere fills the image center");
    assert!(sky[2] > sky[0], "the top of the image shows the sky");
}

#[test]
fn background_runs_from_white_below_to_sky_blue_above() {
    let empty = Hittable::HittableVec(HittableVec { objects: Vec::new() });
    let mut rng = StdRng::seed_from_u64(1);
    let origin = Point3::from([0.0, 0.0, 0.0]);
    let up = ray_color(&Ray { origin, direction: Vec3::from([0.0, 1.0, 0.0]) }, &empty, 5, &mut rng);
    assert_eq!(up.0 .0, [0.5, 0.7, 1.0]);
    let down = ray_color(&Ray { origin, direction: Vec3::from([0.0, -1.0, 0.0]) }, &empty, 5, &mut rng);
    assert_eq!(down.0 .0, [1.0, 1.0, 1.0]);
}

#[test]
fn no_depth_left_gives_black() {
    let mut group = HittableVec { objects: Vec::new() };
    let white = Materials::Lambertian(Lambertian { albedo: Color::from([1.0, 1.0, 1.0]) });
    group.push(Hittable::Sphere(Sphere { center: Point3::from([0.0, 0.0, 1.0]), radius: 0.5, material: white }));
    let world = Hittable::HittableVec(group);
    let mut rng = StdRng::seed_from_u64(3);
    let r = Ray { origin: Point3::from([0.0, 0.0, 0.0]), direction: Vec3::from([0.0, 1.0, 0.0]) };
    assert_eq!(ray_color(&r, &world, 0, &mut rng).0 .0, [0.0, 0.0, 0.0]);
}
