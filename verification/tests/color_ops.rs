#![allow(dead_code)]
use rtchallenge::color::Color;
use rtchallenge::fx::Fx;

fn fx(n: i64, d: i64) -> Fx {
    Fx::from_ratio(n, d)
}

fn near(a: Fx, b: Fx, tol: i64) -> bool {
    (a.raw - b.raw).abs() <= tol
}

#[test]
fn colors_are_rgb_tuples() {
    let c = Color::new(fx(-5, 10), fx(4, 10), fx(17, 10));
    assert_eq!(c.r, fx(-5, 10));
    assert_eq!(c.g, fx(4, 10));
    assert_eq!(c.b, fx(17, 10));
}

#[test]
fn adding_colors() {
    let c1 = Color::new(fx(9, 10), fx(6, 10), fx(75, 100));
    let c2 = Color::new(fx(7, 10), fx(1, 10), fx(25, 100));
    let res = c1.add(c2);
    assert!(near(res.r, fx(16, 10), 2));
    assert!(near(res.g, fx(7, 10), 2));
    assert!(near(res.b, fx(1, 1), 2));
}

#[test]
fn subtracting_colors() {
    let c1 = Color::new(fx(9, 10), fx(6, 10), fx(75, 100));
    let c2 = Color::new(fx(7, 10), fx(1, 10), fx(25, 100));
    let res = c1.sub(c2);
    assert!(near(res.r, fx(2, 10), 2));
    assert!(near(res.g, fx(5, 10), 2));
    assert!(near(res.b, fx(5, 10), 2));
}

#[test]
fn multiplying_a_color_by_a_scalar() {
    let c = Color::new(fx(2, 10), fx(3, 10), fx(4, 10));
    let res = c.scale(fx(2, 1));
    assert!(near(res.r, fx(4, 10), 2));
    assert!(near(res.g, fx(6, 10), 2));
    assert!(near(res.b, fx(8, 10), 2));
}

#[test]
fn multiplying_colors() {
    let c1 = Color::new(fx(1, 1), fx(2, 10), fx(4, 10));
    let c2 = Color::new(fx(9, 10), fx(1, 1), fx(1, 10));
    let res = c1.mul(c2);
    assert!(near(res.r, fx(9, 10), 2));
    assert!(near(res.g, fx(2, 10), 2));
    assert!(near(res.b, fx(4, 100), 2));
}
