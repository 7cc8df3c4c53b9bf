#![allow(dead_code)]
use rtchallenge::fx::Fx;
use rtchallenge::matrix::identity4;
use rtchallenge::transform::Transform;
use rtchallenge::tuple::{point3, vector3, Tuple4};

fn fx(n: i64, d: i64) -> Fx {
    Fx::from_ratio(n, d)
}

fn fxi(n: i64) -> Fx {
    Fx::from_int(n)
}

fn near(a: Fx, b: Fx, tol: i64) -> bool {
    (a.raw - b.raw).abs() <= tol
}

fn near3(p: Tuple4, x: Fx, y: Fx, z: Fx, tol: i64) -> bool {
    near(p.x, x, tol) && near(p.y, y, tol) && near(p.z, z, tol)
}

fn frac_pi_4() -> Fx {
    Fx { raw: 7_853_982 }
}

fn frac_pi_2() -> Fx {
    Fx { raw: 15_707_963 }
}

fn root2over2() -> Fx {
    Fx { raw: 7_071_068 }
}

#[test]
fn multiplying_by_a_translation_matrix() {
    let transform = Transform::new().translate(fxi(5), fxi(-3), fxi(2));
    let p = point3(fxi(-3), fxi(4), fxi(5));
    assert_eq!(transform.local_to_world.mul_tuple(p), point3(fxi(2), fxi(1), fxi(7)));
}

#[test]
fn multiplying_by_the_inverse_of_a_translation_matrix() {
    let transform = Transform::new().translate(fxi(5), fxi(-3), fxi(2));
    let p = point3(fxi(-3), fxi(4), fxi(5));
    assert_eq!(transform.world_to_local.mul_tuple(p), point3(fxi(-8), fxi(7), fxi(3)));
}

#[test]
fn translation_does_not_affect_vectors() {
    let transform = Transform::new().translate(fxi(5), fxi(-3), fxi(2));
    let v = vector3(fxi(-3), fxi(4), fxi(5));
    assert_eq!(transform.local_to_world.mul_tuple(v), v);
}

#[test]
fn scaling_matrix_applied_to_a_point() {
    let transform = Transform::new().scale(fxi(2), fxi(3), fxi(4));
    let p = point3(fxi(-4), fxi(6), fxi(8));
    assert_eq!(transform.local_to_world.mul_tuple(p), point3(fxi(-8), fxi(18), fxi(32)));
}

#[test]
fn scaling_matrix_applied_to_a_vector() {
    let transform = Transform::new().scale(fxi(2), fxi(3), fxi(4));
    let v = vector3(fxi(-4), fxi(6), fxi(8));
    assert_eq!(transform.local_to_world.mul_tuple(v), vector3(fxi(-8), fxi(18), fxi(32)));
}

#[test]
fn multiplying_by_the_inverse_of_a_scaling_matrix() {
    let transform = Transform::new().scale(fxi(2), fxi(3), fxi(4));
    let v = vector3(fxi(-4), fxi(6), fxi(8));
    let r = transform.world_to_local.mul_tuple(v);
    assert!(near3(r, fxi(-2), fxi(2), fxi(2), 5));
}

#[test]
fn reflection_is_scaling_by_a_negative_value() {
    let transform = Transform::new().scale(fxi(-1), fxi(1), fxi(1));
    let p = point3(fxi(2), fxi(3), fxi(4));
    assert_eq!(transform.local_to_world.mul_tuple(p), point3(fxi(-2), fxi(3), fxi(4)));
}

#[test]
fn rotating_a_point_around_the_x_axis() {
    let p = point3(fxi(0), fxi(1), fxi(0));
    let half_quarter = Transform::new().rotate_x(frac_pi_4());
    let full_quarter = Transform::new().rotate_x(frac_pi_2());

    let half_rotation = half_quarter.local_to_world.mul_tuple(p);
    assert!(near3(half_rotation, fxi(0), root2over2(), root2over2(), 10));

    let full_rotation = full_quarter.local_to_world.mul_tuple(p);
    assert!(near3(full_rotation, fxi(0), fxi(0), fxi(1), 10));
}

#[test]
fn rotating_a_point_around_the_y_axis() {
    let p = point3(fxi(0), fxi(0), fxi(1));
    let half_quarter = Transform::new().rotate_y(frac_pi_4());
    let full_quarter = Transform::new().rotate_y(frac_pi_2());

    let half_rotation = half_quarter.local_to_world.mul_tuple(p);
    assert!(near3(half_rotation, root2over2(), fxi(0), root2over2(), 10));

    let full_rotation = full_quarter.local_to_world.mul_tuple(p);
    assert!(near3(full_rotation, fxi(1), fxi(0), fxi(0), 10));
}

#[test]
fn rotating_a_point_around_the_z_axis() {
    let p = point3(fxi(0), fxi(1), fxi(0));
    let half_quarter = Transform::new().rotate_z(frac_pi_4());
    let full_quarter = Transform::new().rotate_z(frac_pi_2());

    let half_rotation = half_quarter.local_to_world.mul_tuple(p);
    assert!(near3(half_rotation, root2over2().neg(), root2over2(), fxi(0), 10));

    let full_rotation = full_quarter.local_to_world.mul_tuple(p);
    assert!(near3(full_rotation, fxi(-1), fxi(0), fxi(0), 10));
}

#[test]
fn shearing_transformation_moves_x_in_proportion_to_y() {
    let transform = Transform::new().shear(fxi(1), fxi(0), fxi(0), fxi(0), fxi(0), fxi(0));
    let p = point3(fxi(2), fxi(3), fxi(4));
    assert_eq!(transform.local_to_world.mul_tuple(p), point3(fxi(5), fxi(3), fxi(4)));
}

#[test]
fn shearing_transformation_moves_x_in_proportion_to_z() {
    let transform = Transform::new().shear(fxi(0), fxi(1), fxi(0), fxi(0), fxi(0), fxi(0));
    let p = point3(fxi(2), fxi(3), fxi(4));
    assert_eq!(transform.local_to_world.mul_tuple(p), point3(fxi(6), fxi(3), fxi(4)));
}

#[test]
fn shearing_transformation_moves_y_in_proportion_to_x() {
    let transform = Transform::new().shear(fxi(0), fxi(0), fxi(1), fxi(0), fxi(0), fxi(0));
    let p = point3(fxi(2), fxi(3), fxi(4));
    assert_eq!(transform.local_to_world.mul_tuple(p), point3(fxi(2), fxi(5), fxi(4)));
}

#[test]
fn shearing_transformation_moves_y_in_proportion_to_z() {
    let transform = Transform::new().shear(fxi(0), fxi(0), fxi(0), fxi(1), fxi(0), fxi(0));
    let p = point3(fxi(2), fxi(3), fxi(4));
    assert_eq!(transform.local_to_world.mul_tuple(p), point3(fxi(2), fxi(7), fxi(4)));
}

#[test]
fn shearing_transformation_moves_z_in_proportion_to_x() {
    let transform = Transform::new().shear(fxi(0), fxi(0), fxi(0), fxi(0), fxi(1), fxi(0));
    let p = point3(fxi(2), fxi(3), fxi(4));
    assert_eq!(transform.local_to_world.mul_tuple(p), point3(fxi(2), fxi(3), fxi(6)));
}

#[test]
fn shearing_transformation_moves_z_in_proportion_to_y() {
    let transform = Transform::new().shear(fxi(0), fxi(0), fxi(0), fxi(0), fxi(0), fxi(1));
    let p = point3(fxi(2), fxi(3), fxi(4));
    assert_eq!(transform.local_to_world.mul_tuple(p), point3(fxi(2), fxi(3), fxi(7)));
}

#[test]
fn individual_transformations_are_applied_in_sequence() {
    let p = point3(fxi(1), fxi(0), fxi(1));
    let a = Transform::new().rotate_x(frac_pi_2());
    let b = Transform::new().scale(fxi(5), fxi(5), fxi(5));
    let c = Transform::new().translate(fxi(10), fxi(5), fxi(7));

    // Apply rotation first
    let p2 = a.local_to_world.mul_tuple(p);
    assert!(near3(p2, fxi(1), fxi(-1), fxi(0), 10));

    // Then apply scaling
    let p3 = b.local_to_world.mul_tuple(p2);
    assert!(near3(p3, fxi(5), fxi(-5), fxi(0), 50));

    // Then apply translation
    let p4 = c.local_to_world.mul_tuple(p3);
    assert!(near3(p4, fxi(15), fxi(0), fxi(7), 50));
}

#[test]
fn chained_transformations_must_be_applied_in_reverse_order() {
    let p = point3(fxi(1), fxi(0), fxi(1));
    let a = Transform::new().rotate_x(frac_pi_2());
    let b = Transform::new().scale(fxi(5), fxi(5), fxi(5));
    let c = Transform::new().translate(fxi(10), fxi(5), fxi(7));

    let t = c.local_to_world.mul(b.local_to_world).mul(a.local_to_world);
    let p2 = t.mul_tuple(p);
    assert!(near3(p2, fxi(15), fxi(0), fxi(7), 50));
}

#[test]
fn chained_transformation_methods_must_be_applied_in_trs_order() {
    let p = point3(fxi(1), fxi(0), fxi(1));
    let t = Transform::new()
        .translate(fxi(10), fxi(5), fxi(7))
        .rotate_x(frac_pi_2())
        .scale(fxi(5), fxi(5), fxi(5));

    let p2 = t.local_to_world.mul_tuple(p);
    assert!(near3(p2, fxi(15), fxi(0), fxi(7), 50));
}

#[test]
fn the_transformation_matrix_for_the_default_orientation() {
    let from = point3(fxi(0), fxi(0), fxi(0));
    let to = point3(fxi(0), fxi(0), fxi(-1));
    let up = vector3(fxi(0), fxi(1), fxi(0));
    let t = Transform::look_at(from, to, up);
    assert_eq!(t.local_to_world, identity4());
}

#[test]
fn a_view_transformation_matrix_looking_in_positive_z_direction() {
    let from = point3(fxi(0), fxi(0), fxi(0));
    let to = point3(fxi(0), fxi(0), fxi(1));
    let up = vector3(fxi(0), fxi(1), fxi(0));
    let t = Transform::look_at(from, to, up);
    assert_eq!(t, Transform::new().scale(fxi(-1), fxi(1), fxi(-1)));
}

#[test]
fn the_view_transformation_moves_the_world() {
    let from = point3(fxi(0), fxi(0), fxi(8));
    let to = point3(fxi(0), fxi(0), fxi(0));
    let up = vector3(fxi(0), fxi(1), fxi(0));
    let t = Transform::look_at(from, to, up);
    assert_eq!(t, Transform::new().translate(fxi(0), fxi(0), fxi(-8)));
}

#[test]
fn an_arbitrary_view_transformation() {
    let from = point3(fxi(1), fxi(3), fxi(2));
    let to = point3(fxi(4), fxi(-2), fxi(8));
    let up = vector3(fxi(1), fxi(1), fxi(0));
    let t = Transform::look_at(from, to, up).local_to_world;

    assert!(near(t.x0, fx(-50709, 100000), 100));
    assert!(near(t.x1, fx(50709, 100000), 100));
    assert!(near(t.x2, fx(67612, 100000), 100));
    assert!(near(t.x3, fx(-236643, 100000), 100));
    assert!(near(t.y0, fx(76772, 100000), 100));
    assert!(near(t.y1, fx(60609, 100000), 100));
    assert!(near(t.y2, fx(12122, 100000), 100));
    assert!(near(t.y3, fx(-282843, 100000), 100));
    assert!(near(t.z0, fx(-35857, 100000), 100));
    assert!(near(t.z1, fx(59761, 100000), 100));
    assert!(near(t.z2, fx(-71714, 100000), 100));
    assert!(near(t.z3, fx(0, 1), 100));
    assert!(near(t.w0, fx(0, 1), 100));
    assert!(near(t.w1, fx(0, 1), 100));
    assert!(near(t.w2, fx(0, 1), 100));
    assert!(near(t.w3, fx(1, 1), 100));
}
