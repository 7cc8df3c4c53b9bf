#![allow(dead_code)]
use rtchallenge::fx::Fx;
use rtchallenge::ray::ray;
use rtchallenge::transform::Transform;
use rtchallenge::tuple::{point3, vector3};

fn fx(n: i64, d: i64) -> Fx {
    Fx::from_ratio(n, d)
}

fn fxi(n: i64) -> Fx {
    Fx::from_int(n)
}

#[test]
fn creating_and_querying_a_ray() {
    let origin = point3(fxi(1), fxi(2), fxi(3));
    let direction = vector3(fxi(4), fxi(5), fxi(6));
    let r = ray(origin, direction);
    assert_eq!(r.origin, origin);
    assert_eq!(r.direction, direction);
}

#[test]
fn computing_a_point_from_a_distance() {
    let r = ray(point3(fxi(2), fxi(3), fxi(4)), vector3(fxi(1), fxi(0), fxi(0)));
    assert_eq!(r.position(fxi(0)), point3(fxi(2), fxi(3), fxi(4)));
    assert_eq!(r.position(fxi(1)), point3(fxi(3), fxi(3), fxi(4)));
    assert_eq!(r.position(fxi(-1)), point3(fxi(1), fxi(3), fxi(4)));
    assert_eq!(r.position(fx(5, 2)), point3(fx(9, 2), fxi(3), fxi(4)));
}

#[test]
fn translating_a_ray() {
    let r = ray(point3(fxi(1), fxi(2), fxi(3)), vector3(fxi(0), fxi(1), fxi(0)));
    let m = Transform::new().translate(fxi(3), fxi(4), fxi(5)).local_to_world;
    let r2 = r.transform(m);
    assert_eq!(r2.origin, point3(fxi(4), fxi(6), fxi(8)));
    assert_eq!(r2.direction, vector3(fxi(0), fxi(1), fxi(0)));
}

#[test]
fn scaling_a_ray() {
    let r = ray(point3(fxi(1), fxi(2), fxi(3)), vector3(fxi(0), fxi(1), fxi(0)));
    let m = Transform::new().scale(fxi(2), fxi(3), fxi(4)).local_to_world;
    let r2 = r.transform(m);
    assert_eq!(r2.origin, point3(fxi(2), fxi(6), fxi(12)));
    assert_eq!(r2.direction, vector3(fxi(0), fxi(3), fxi(0)));
}
