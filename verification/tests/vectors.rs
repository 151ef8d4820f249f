use nbody::body::Body;
use nbody::error::SimError;
use nbody::scalar::Scalar;
use nbody::vec3::{Vec3, EPSILON_BITS};

fn s(x: f64) -> Scalar {
    Scalar::from_bits(x.to_bits())
}

fn f(x: Scalar) -> f64 {
    f64::from_bits(x.to_bits())
}

fn v(x: f64, y: f64, z: f64) -> Vec3 {
    Vec3 { x: s(x), y: s(y), z: s(z) }
}

fn parts(p: Vec3) -> [f64; 3] {
    [f(p.x), f(p.y), f(p.z)]
}

#[test]
fn epsilon_is_one_ten_billionth() {
    assert_eq!(f64::from_bits(EPSILON_BITS), 1e-10);
}

#[test]
fn zero_vector_is_all_zero() {
    let z = Vec3::zero();
    assert_eq!([z.x.to_bits(), z.y.to_bits(), z.z.to_bits()], [0, 0, 0]);
}

#[test]
fn add_is_componentwise() {
    assert_eq!(parts(v(1.0, 2.0, 3.0) + v(0.5, -2.0, 10.0)), [1.5, 0.0, 13.0]);
}

#[test]
fn scale_multiplies_every_component() {
    assert_eq!(parts(v(1.0, -2.0, 3.0).scale(s(2.5))), [2.5, -5.0, 7.5]);
    assert_eq!(parts(v(1.0, 2.0, 3.0).scale(s(0.0))), [0.0, 0.0, 0.0]);
}

#[test]
fn distance_is_the_euclidean_norm_of_the_difference() {
    assert_eq!(f(v(0.0, 0.0, 0.0).distance(v(3.0, 4.0, 0.0))), 5.0);
    assert_eq!(f(v(1.0, 1.0, 1.0).distance(v(1.0, 1.0, 1.0))), 0.0);
    assert_eq!(f(v(1.0, 2.0, 3.0).distance(v(3.0, 5.0, 9.0))), 7.0);
    let a: [f64; 3] = [0.3, -1.7, 2.9];
    let b: [f64; 3] = [4.1, 0.2, -0.6];
    let (dx, dy, dz) = (a[0] - b[0], a[1] - b[1], a[2] - b[2]);
    let expected: f64 = (dx * dx + dy * dy + dz * dz).sqrt();
    assert_eq!(f(v(a[0], a[1], a[2]).distance(v(b[0], b[1], b[2]))), expected);
}

#[test]
fn distance_is_symmetric() {
    let a = v(0.3, -1.7, 2.9);
    let b = v(4.1, 0.2, -0.6);
    assert_eq!(a.distance(b).to_bits(), b.distance(a).to_bits());
}

#[test]
fn direction_points_at_the_target() {
    let d = parts(v(-1.0, 0.0, 0.0).direction_to(v(1.0, 0.0, 0.0)));
    assert_eq!(d, [2.0 / (2.0 + 1e-10), 0.0, 0.0]);
    let a: [f64; 3] = [0.3, -1.7, 2.9];
    let b: [f64; 3] = [4.1, 0.2, -0.6];
    let (dx, dy, dz) = (b[0] - a[0], b[1] - a[1], b[2] - a[2]);
    let dist: f64 = (dx * dx + dy * dy + dz * dz).sqrt() + 1e-10;
    let d = parts(v(a[0], a[1], a[2]).direction_to(v(b[0], b[1], b[2])));
    assert_eq!(d, [dx / dist, dy / dist, dz / dist]);
    let norm = (d[0] * d[0] + d[1] * d[1] + d[2] * d[2]).sqrt();
    assert!((norm - 1.0).abs() < 1e-9);
}

#[test]
fn direction_between_coincident_points_is_defined() {
    let p = v(0.25, -3.0, 8.0);
    let d = p.direction_to(p);
    assert!(d.x.is_finite() && d.y.is_finite() && d.z.is_finite());
    assert_eq!(parts(d), [0.0, 0.0, 0.0]);
}

#[test]
fn new_body_is_at_rest() {
    let b = Body::new(v(1.0, 2.0, 3.0), s(4.5)).unwrap();
    assert_eq!(parts(b.position), [1.0, 2.0, 3.0]);
    assert_eq!(parts(b.velocity), [0.0, 0.0, 0.0]);
    assert_eq!(f(b.mass), 4.5);
}

#[test]
fn body_refuses_a_mass_that_is_not_positive() {
    let p = v(0.0, 0.0, 0.0);
    assert_eq!(Body::new(p, s(0.0)).err(), Some(SimError::NonPositiveMass));
    assert_eq!(Body::new(p, s(-0.0)).err(), Some(SimError::NonPositiveMass));
    assert_eq!(Body::new(p, s(-1.0)).err(), Some(SimError::NonPositiveMass));
    assert_eq!(Body::new(p, s(f64::NAN)).err(), Some(SimError::NonPositiveMass));
    assert_eq!(Body::new(p, s(f64::NEG_INFINITY)).err(), Some(SimError::NonPositiveMass));
    assert!(Body::new(p, s(5e-324)).is_ok());
}
