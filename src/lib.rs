//! The geometric core of a sphere ray tracer, generic over its scalar type:
//! triples and their algebra, rays, ray–sphere intersection, the choice of
//! the nearest hit, and how diffuse and metal surfaces scatter light.
pub mod base;
pub mod estimator;
pub mod exact;
pub mod hittable;
pub mod materials;
pub mod ray;
pub mod utils;

pub use crate::base::color::{AsColor, Color, RGB};
pub use crate::base::point3::Point3;
pub use crate::base::vec3::Vec3;
pub use crate::base::{Base3, XYZ};
pub use crate::estimator::{Bounce, Path, PathStep, Radiance};
pub use crate::hittable::{nearest_hit, nearest_root, HitRecord, Hittable, HittableVec, Quadratic, Sphere};
pub use crate::materials::{Dielectric, Lambertian, Materials, Metal};
pub use crate::ray::Ray;
pub use crate::utils::clamp;
