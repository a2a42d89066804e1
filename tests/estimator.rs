use raytracer::{Bounce, Color, Path, PathStep, Point3, Radiance, Ray, Vec3};

fn ray(z: i64) -> Ray<i64> {
    Ray { origin: Point3::from([0, 0, z]), direction: Vec3::from([0, 0, 1]) }
}

#[test]
fn no_depth_means_black_before_tracing() {
    let path: Path<i64> = Path::new(0);
    assert!(matches!(path.begin(ray(0)), PathStep::Done(Radiance::Black)));
}

#[test]
fn first_step_traces_the_given_ray() {
    let path: Path<i64> = Path::new(3);
    match path.begin(ray(7)) {
        PathStep::Trace(r) => assert_eq!(r.origin.0 .0, [0, 0, 7]),
        PathStep::Done(_) => panic!("a path with depth left traces its ray"),
    }
}

#[test]
fn escaped_light_is_filtered_by_every_attenuation() {
    let mut path = Path::new(3);
    let step = path.advance(Bounce::Scattered { scattered: ray(1), attenuation: Color::from([2i64, 3, 1]) });
    assert!(matches!(step, PathStep::Trace(_)));
    let step = path.advance(Bounce::Scattered { scattered: ray(2), attenuation: Color::from([5i64, 1, 0]) });
    match step {
        PathStep::Trace(r) => assert_eq!(r.origin.0 .0, [0, 0, 2]),
        PathStep::Done(_) => panic!("one unit of depth is left"),
    }
    assert_eq!(path.depth, 1);
    match path.advance(Bounce::Escaped { background: Color::from([1i64, 2, 3]) }) {
        PathStep::Done(Radiance::Light(c)) => assert_eq!(c.0 .0, [10, 6, 0]),
        _ => panic!("an escaped ray ends the path with light"),
    }
}

#[test]
fn escape_without_bounces_gives_the_background() {
    let mut path = Path::new(1);
    match path.advance(Bounce::Escaped { background: Color::from([0.5f64, 0.7, 1.0]) }) {
        PathStep::Done(Radiance::Light(c)) => assert_eq!(c.0 .0, [0.5, 0.7, 1.0]),
        _ => panic!("an escaped ray ends the path with light"),
    }
}

#[test]
fn absorption_gives_black() {
    let mut path: Path<i64> = Path::new(4);
    path.advance(Bounce::Scattered { scattered: ray(1), attenuation: Color::from([1, 1, 1]) });
    assert!(matches!(path.advance(Bounce::Absorbed), PathStep::Done(Radiance::Black)));
}

#[test]
fn spending_the_depth_gives_black() {
    let mut path: Path<i64> = Path::new(1);
    let step = path.advance(Bounce::Scattered { scattered: ray(1), attenuation: Color::from([1, 1, 1]) });
    assert!(matches!(step, PathStep::Done(Radiance::Black)));
    assert_eq!(path.depth, 0);
}
