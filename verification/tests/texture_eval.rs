#![allow(dead_code)]
use rand::rngs::SmallRng;
use rand::SeedableRng;
use rtchallenge::color::Color;
use rtchallenge::fx::{Fx, FX_SCALE};
use rtchallenge::texture::{
    checkerboard_2d, checkerboard_3d, linear_gradient, radial_gradient, ring, stripe, white_noise,
    Texture, TextureSpec,
};
use rtchallenge::transform::Transform;
use rtchallenge::tuple::{point3, Tuple4};

fn fx(n: i64, d: i64) -> Fx {
    Fx::from_ratio(n, d)
}

fn fxi(n: i64) -> Fx {
    Fx::from_int(n)
}

fn near(a: Fx, b: Fx, tol: i64) -> bool {
    (a.raw - b.raw).abs() <= tol
}

fn white() -> Color {
    Color::white()
}

fn black() -> Color {
    Color::black()
}

fn p(n: i64, d: i64) -> Tuple4 {
    point3(fx(n, d), fxi(0), fxi(0))
}

#[test]
fn a_stripe_pattern_is_constant_in_y() {
    assert_eq!(stripe::evaluate(point3(fxi(0), fxi(0), fxi(0)), white(), black()), white());
    assert_eq!(stripe::evaluate(point3(fxi(0), fxi(1), fxi(0)), white(), black()), white());
    assert_eq!(stripe::evaluate(point3(fxi(0), fxi(2), fxi(0)), white(), black()), white());
}

#[test]
fn a_stripe_pattern_is_constant_in_z() {
    assert_eq!(stripe::evaluate(point3(fxi(0), fxi(0), fxi(0)), white(), black()), white());
    assert_eq!(stripe::evaluate(point3(fxi(0), fxi(0), fxi(1)), white(), black()), white());
    assert_eq!(stripe::evaluate(point3(fxi(0), fxi(0), fxi(2)), white(), black()), white());
}

#[test]
fn a_stripe_pattern_alternates_in_x() {
    assert_eq!(stripe::evaluate(p(0, 1), white(), black()), white());
    assert_eq!(stripe::evaluate(p(9, 10), white(), black()), white());
    assert_eq!(stripe::evaluate(p(1, 1), white(), black()), black());
    assert_eq!(stripe::evaluate(p(-1, 10), white(), black()), black());
    assert_eq!(stripe::evaluate(p(-1, 1), white(), black()), black());
    assert_eq!(stripe::evaluate(p(-11, 10), white(), black()), white());
}

#[test]
fn linear_gradient_a_gradient_linearly_interpolates_between_colors() {
    assert_eq!(linear_gradient::evaluate(p(0, 1), white(), black()), white());
    assert_eq!(
        linear_gradient::evaluate(p(1, 4), white(), black()),
        Color::new(fx(75, 100), fx(75, 100), fx(75, 100))
    );
    assert_eq!(
        linear_gradient::evaluate(p(1, 2), white(), black()),
        Color::new(fx(1, 2), fx(1, 2), fx(1, 2))
    );
    assert_eq!(
        linear_gradient::evaluate(p(3, 4), white(), black()),
        Color::new(fx(25, 100), fx(25, 100), fx(25, 100))
    );
}

#[test]
fn ring_a_ring_should_extend_in_both_x_and_z() {
    assert_eq!(ring::evaluate(point3(fxi(0), fxi(0), fxi(0)), white(), black()), white());
    assert_eq!(ring::evaluate(point3(fxi(1), fxi(0), fxi(0)), white(), black()), black());
    assert_eq!(ring::evaluate(point3(fxi(0), fxi(0), fxi(1)), white(), black()), black());
    assert_eq!(
        ring::evaluate(point3(fx(708, 1000), fxi(0), fx(708, 1000)), white(), black()),
        black()
    );
}

#[test]
fn radial_gradient_a_radial_gradient_should_interpolate_in_both_x_and_z() {
    assert_eq!(radial_gradient::evaluate(point3(fxi(0), fxi(0), fxi(0)), white(), black()), white());
    let c1 = radial_gradient::evaluate(point3(fx(3, 4), fxi(0), fxi(0)), white(), black());
    assert!(near(c1.r, fx(25, 100), 10));
    assert!(near(c1.g, fx(25, 100), 10));
    assert!(near(c1.b, fx(25, 100), 10));
}

#[test]
fn checkerboard_2d_should_repeat_in_x() {
    assert_eq!(checkerboard_2d::evaluate(p(0, 1), white(), black()), white());
    assert_eq!(checkerboard_2d::evaluate(p(99, 100), white(), black()), white());
    assert_eq!(checkerboard_2d::evaluate(p(101, 100), white(), black()), black());
}

#[test]
fn checkerboard_2d_should_not_repeat_in_y() {
    assert_eq!(checkerboard_2d::evaluate(point3(fxi(0), fxi(0), fxi(0)), white(), black()), white());
    assert_eq!(
        checkerboard_2d::evaluate(point3(fxi(0), fx(99, 100), fxi(0)), white(), black()),
        white()
    );
    assert_eq!(
        checkerboard_2d::evaluate(point3(fxi(0), fx(101, 100), fxi(0)), white(), black()),
        white()
    );
}

#[test]
fn checkerboard_2d_should_repeat_in_z() {
    assert_eq!(checkerboard_2d::evaluate(point3(fxi(0), fxi(0), fxi(0)), white(), black()), white());
    assert_eq!(
        checkerboard_2d::evaluate(point3(fxi(0), fxi(0), fx(99, 100)), white(), black()),
        white()
    );
    assert_eq!(
        checkerboard_2d::evaluate(point3(fxi(0), fxi(0), fx(101, 100)), white(), black()),
        black()
    );
}

#[test]
fn checkerboard_3d_should_repeat_in_x() {
    assert_eq!(checkerboard_3d::evaluate(p(0, 1), white(), black()), white());
    assert_eq!(checkerboard_3d::evaluate(p(99, 100), white(), black()), white());
    assert_eq!(checkerboard_3d::evaluate(p(101, 100), white(), black()), black());
}

#[test]
fn checkerboard_3d_should_repeat_in_y() {
    assert_eq!(checkerboard_3d::evaluate(point3(fxi(0), fxi(0), fxi(0)), white(), black()), white());
    assert_eq!(
        checkerboard_3d::evaluate(point3(fxi(0), fx(99, 100), fxi(0)), white(), black()),
        white()
    );
    assert_eq!(
        checkerboard_3d::evaluate(point3(fxi(0), fx(101, 100), fxi(0)), white(), black()),
        black()
    );
}

#[test]
fn checkerboard_3d_should_repeat_in_z() {
    assert_eq!(checkerboard_3d::evaluate(point3(fxi(0), fxi(0), fxi(0)), white(), black()), white());
    assert_eq!(
        checkerboard_3d::evaluate(point3(fxi(0), fxi(0), fx(99, 100)), white(), black()),
        white()
    );
    assert_eq!(
        checkerboard_3d::evaluate(point3(fxi(0), fxi(0), fx(101, 100)), white(), black()),
        black()
    );
}

#[test]
fn white_noise_is_random() {
    let mut rng = SmallRng::seed_from_u64(0);
    let green = Color::new(fxi(0), fxi(1), fxi(0));

    let a = white_noise::evaluate(&mut rng, green);
    let b = white_noise::evaluate(&mut rng, green);
    let c = white_noise::evaluate(&mut rng, green);
    let d = white_noise::evaluate(&mut rng, green);

    for v in [a, b, c, d] {
        assert_eq!(v.r, fxi(0));
        assert_eq!(v.b, fxi(0));
        assert!(0 <= v.g.raw && v.g.raw < FX_SCALE);
    }
    assert!(a != b || b != c || c != d);
}

#[test]
fn creating_a_stripe_texture() {
    let texture = Texture::stripe(Color::white(), Color::black());
    assert_eq!(texture.kind, TextureSpec::Stripe(Color::white(), Color::black()));
}

#[test]
fn texture_stripes_with_an_object_transformation() {
    let mut rng = SmallRng::seed_from_u64(0);
    let texture = Texture::stripe(Color::white(), Color::black());
    let c = texture.evaluate(
        &mut rng,
        Transform::new().scale(fxi(2), fxi(2), fxi(2)),
        point3(fx(3, 2), fxi(0), fxi(0)),
    );
    assert_eq!(c, Color::white());
}

#[test]
fn stripes_with_a_texture_transformation() {
    let mut rng = SmallRng::seed_from_u64(0);
    let mut texture = Texture::stripe(Color::white(), Color::black());
    texture.transform.scale(fxi(2), fxi(2), fxi(2));
    let c = texture.evaluate(&mut rng, Transform::new(), point3(fx(3, 2), fxi(0), fxi(0)));
    assert_eq!(c, Color::white());
}

#[test]
fn stripes_with_both_an_object_and_a_texture_transformation() {
    let mut rng = SmallRng::seed_from_u64(0);
    let mut texture = Texture::stripe(Color::white(), Color::black());
    texture.transform.translate(fx(1, 2), fxi(0), fxi(0));
    let c = texture.evaluate(
        &mut rng,
        Transform::new().scale(fxi(2), fxi(2), fxi(2)),
        point3(fx(5, 2), fxi(0), fxi(0)),
    );
    assert_eq!(c, Color::white());
}

#[test]
fn a_texture_with_an_object_transformation() {
    let mut rng = SmallRng::seed_from_u64(0);
    let texture = Texture::test_pattern();
    let c = texture.evaluate(
        &mut rng,
        Transform::new().scale(fxi(2), fxi(2), fxi(2)),
        point3(fxi(2), fxi(3), fxi(4)),
    );

    assert!(near(c.r, fxi(1), 10));
    assert!(near(c.g, fx(3, 2), 10));
    assert!(near(c.b, fxi(2), 10));
}

#[test]
fn a_texture_with_a_texture_transformation() {
    let mut rng = SmallRng::seed_from_u64(0);
    let mut texture = Texture::test_pattern();
    texture.transform.scale(fxi(2), fxi(2), fxi(2));
    let c = texture.evaluate(&mut rng, Transform::new(), point3(fxi(2), fxi(3), fxi(4)));

    assert!(near(c.r, fxi(1), 10));
    assert!(near(c.g, fx(3, 2), 10));
    assert!(near(c.b, fxi(2), 10));
}

#[test]
fn a_texture_with_an_object_transformation_and_a_texture_transformation() {
    let mut rng = SmallRng::seed_from_u64(0);
    let mut texture = Texture::test_pattern();
    texture.transform.translate(fx(1, 2), fxi(1), fx(3, 2));
    let c = texture.evaluate(
        &mut rng,
        Transform::new().scale(fxi(2), fxi(2), fxi(2)),
        point3(fx(5, 2), fxi(3), fx(7, 2)),
    );

    assert!(near(c.r, fx(75, 100), 10));
    assert!(near(c.g, fx(1, 2), 10));
    assert!(near(c.b, fx(25, 100), 10));
}
