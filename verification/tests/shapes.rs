#![allow(dead_code)]
use rtchallenge::fx::Fx;
use rtchallenge::geometry::{Geometry, cube, plane, sphere};
use rtchallenge::ray::ray;
use rtchallenge::tuple::{point3, vector3, Tuple4};

fn fx(n: i64, d: i64) -> Fx {
    Fx::from_ratio(n, d)
}

fn fxi(n: i64) -> Fx {
    Fx::from_int(n)
}

fn p3(x: i64, y: i64, z: i64) -> Tuple4 {
    point3(fxi(x), fxi(y), fxi(z))
}

fn v3(x: i64, y: i64, z: i64) -> Tuple4 {
    vector3(fxi(x), fxi(y), fxi(z))
}

#[test]
fn the_default_minimum_and_maximum_for_a_cylinder() {
    let cyl = Geometry::cylinder();
    if let Geometry::Cylinder { min, max, closed: _ } = cyl {
        assert_eq!(min.raw, i64::MIN);
        assert_eq!(max.raw, i64::MAX);
    } else {
        panic!();
    }
}

#[test]
fn the_default_closed_value_for_a_cylinder() {
    let cyl = Geometry::cylinder();
    if let Geometry::Cylinder { min: _, max: _, closed } = cyl {
        assert_eq!(closed, false);
    } else {
        panic!();
    }
}

#[test]
fn intersect_with_a_ray_parallel_to_the_plane() {
    let r = ray(p3(0, 10, 0), v3(0, 0, 1));
    let xs = plane::intersect(r);
    assert_eq!(xs.len(), 0);
}

#[test]
fn intersect_with_a_coplanar_ray() {
    let r = ray(p3(0, 0, 0), v3(0, 0, 1));
    let xs = plane::intersect(r);
    assert_eq!(xs.len(), 0);
}

#[test]
fn a_ray_intersecting_a_plane_from_above() {
    let r = ray(p3(0, 1, 0), v3(0, -1, 0));
    let xs = plane::intersect(r);
    assert_eq!(xs.len(), 1);
    assert_eq!(xs.t0, fxi(1));
}

#[test]
fn a_ray_intersecting_a_plane_from_below() {
    let r = ray(p3(0, -1, 0), v3(0, 1, 0));
    let xs = plane::intersect(r);
    assert_eq!(xs.len(), 1);
    assert_eq!(xs.t0, fxi(1));
}

#[test]
fn the_normal_of_a_plane_is_constant_everywhere() {
    let n1 = plane::normal_at(p3(0, 0, 0));
    let n2 = plane::normal_at(p3(10, 0, -10));
    let n3 = plane::normal_at(p3(-5, 0, 150));
    assert_eq!(n1, v3(0, 1, 0));
    assert_eq!(n2, v3(0, 1, 0));
    assert_eq!(n3, v3(0, 1, 0));
}

#[test]
fn a_nearly_parallel_ray_misses_the_plane() {
    // The vertical motion is below the parallel tolerance of 1e-5, so the
    // ray counts as parallel and never meets the plane.
    let r = ray(p3(0, 10, 0), vector3(fxi(0), Fx { raw: 50 }, fxi(1)));
    let xs = plane::intersect(r);
    assert_eq!(xs.len(), 0);
}

#[test]
fn a_ray_intersects_a_sphere_at_two_points() {
    let r = ray(p3(0, 0, -5), v3(0, 0, 1));
    let xs = sphere::intersect(r);
    assert_eq!(xs.len(), 2);
    assert_eq!(xs.t0, fxi(4));
    assert_eq!(xs.t1, fxi(6));
}

#[test]
fn a_ray_intersects_a_sphere_at_a_tangent() {
    let r = ray(p3(0, 1, -5), v3(0, 0, 1));
    let xs = sphere::intersect(r);
    assert_eq!(xs.len(), 2);
    assert_eq!(xs.t0, fxi(5));
    assert_eq!(xs.t1, fxi(5));
}

#[test]
fn a_ray_misses_a_sphere() {
    let r = ray(p3(0, 2, -5), v3(0, 0, 1));
    let xs = sphere::intersect(r);
    assert_eq!(xs.len(), 0);
}

#[test]
fn a_ray_originates_inside_a_sphere() {
    let r = ray(p3(0, 0, 0), v3(0, 0, 1));
    let xs = sphere::intersect(r);
    assert_eq!(xs.len(), 2);
    assert_eq!(xs.t0, fxi(-1));
    assert_eq!(xs.t1, fxi(1));
}

#[test]
fn a_sphere_is_behind_a_ray() {
    let r = ray(p3(0, 0, 5), v3(0, 0, 1));
    let xs = sphere::intersect(r);
    assert_eq!(xs.len(), 2);
    assert_eq!(xs.t0, fxi(-6));
    assert_eq!(xs.t1, fxi(-4));
}

#[test]
fn a_nearly_tangent_ray_still_grazes_the_sphere() {
    // Quantization pushes this ray's discriminant slightly negative; the
    // snap to zero keeps the tangent hit instead of reporting a miss.
    let r = ray(point3(fxi(0), Fx { raw: 10_000_001 }, fxi(-5)), v3(0, 0, 1));
    let xs = sphere::intersect(r);
    assert_eq!(xs.len(), 2);
    assert_eq!(xs.t0, fxi(5));
    assert_eq!(xs.t1, fxi(5));
}

#[test]
fn the_normal_on_a_sphere_at_a_point_on_the_x_axis() {
    let n = sphere::normal_at(p3(1, 0, 0));
    assert_eq!(n, v3(1, 0, 0));
}

#[test]
fn the_normal_on_a_sphere_at_a_point_on_the_y_axis() {
    let n = sphere::normal_at(p3(0, 1, 0));
    assert_eq!(n, v3(0, 1, 0));
}

#[test]
fn the_normal_on_a_sphere_at_a_point_on_the_z_axis() {
    let n = sphere::normal_at(p3(0, 0, 1));
    assert_eq!(n, v3(0, 0, 1));
}

#[test]
fn the_normal_on_a_sphere_at_a_nonaxial_point() {
    // sqrt(3)/3 = 0.5773503...
    let root3over3 = fx(5773503, 10000000);
    let n = sphere::normal_at(point3(root3over3, root3over3, root3over3));
    assert_eq!(n.x, root3over3);
    assert_eq!(n.y, root3over3);
    assert_eq!(n.z, root3over3);
}

#[test]
fn a_ray_intersects_a_cube() {
    let examples = vec![
        (p3(5, 0, 0), v3(-1, 0, 0), 4i64, 6i64),
        (p3(-5, 0, 0), v3(1, 0, 0), 4, 6),
        (p3(0, 5, 0), v3(0, -1, 0), 4, 6),
        (p3(0, -5, 0), v3(0, 1, 0), 4, 6),
        (p3(0, 0, 5), v3(0, 0, -1), 4, 6),
        (p3(0, 0, -5), v3(0, 0, 1), 4, 6),
    ];
    for (mut origin, direction, t0, t1) in examples {
        // each axis-aligned approach passes through the cube off-center
        if direction.x.raw != 0 {
            origin.y = fx(1, 2);
        } else {
            origin.x = fx(1, 2);
        }
        let r = ray(origin, direction);
        let xs = cube::intersect(r);
        assert_eq!(xs.len(), 2);
        assert_eq!(xs.t0, fxi(t0));
        assert_eq!(xs.t1, fxi(t1));
    }
    // a ray from the interior
    let r = ray(point3(fxi(0), fx(1, 2), fxi(0)), v3(0, 0, 1));
    let xs = cube::intersect(r);
    assert_eq!(xs.len(), 2);
    assert_eq!(xs.t0, fxi(-1));
    assert_eq!(xs.t1, fxi(1));
}

#[test]
fn a_ray_misses_a_cube() {
    let examples = vec![
        (p3(-2, 0, 0), vector3(fx(2673, 10000), fx(5345, 10000), fx(8018, 10000))),
        (p3(0, -2, 0), vector3(fx(8018, 10000), fx(2673, 10000), fx(5345, 10000))),
        (p3(0, 0, -2), vector3(fx(5345, 10000), fx(8018, 10000), fx(2673, 10000))),
        (p3(2, 0, 2), v3(0, 0, -1)),
        (p3(0, 2, 2), v3(0, -1, 0)),
        (p3(2, 2, 0), v3(-1, 0, 0)),
    ];
    for (origin, direction) in examples {
        let r = ray(origin, direction);
        let xs = cube::intersect(r);
        assert_eq!(xs.len(), 0);
    }
}

#[test]
fn the_normal_on_the_surface_of_a_cube() {
    let examples = vec![
        (point3(fxi(1), fx(1, 2), fx(-8, 10)), v3(1, 0, 0)),
        (point3(fxi(-1), fx(-2, 10), fx(9, 10)), v3(-1, 0, 0)),
        (point3(fx(-4, 10), fxi(1), fx(-1, 10)), v3(0, 1, 0)),
        (point3(fx(3, 10), fxi(-1), fx(-7, 10)), v3(0, -1, 0)),
        (point3(fx(-6, 10), fx(3, 10), fxi(1)), v3(0, 0, 1)),
        (point3(fx(4, 10), fx(4, 10), fxi(-1)), v3(0, 0, -1)),
        (p3(1, 1, 1), v3(1, 0, 0)),
        (p3(-1, -1, -1), v3(-1, 0, 0)),
    ];
    for (point, normal) in examples {
        assert_eq!(cube::normal_at(point), normal);
    }
}
