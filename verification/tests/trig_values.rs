#![allow(dead_code)]
use rtchallenge::fx::Fx;
use rtchallenge::trig::{HALF_PI_RAW, PI_RAW, TWO_PI_RAW};

fn fxi(n: i64) -> Fx {
    Fx::from_int(n)
}

fn near(a: Fx, b: Fx, tol: i64) -> bool {
    (a.raw - b.raw).abs() <= tol
}

#[test]
fn sine_of_the_quarter_points() {
    assert_eq!(fxi(0).sin(), fxi(0));
    assert!(near(Fx { raw: HALF_PI_RAW }.sin(), fxi(1), 5));
    assert!(near(Fx { raw: PI_RAW }.sin(), fxi(0), 5));
    assert!(near(Fx { raw: PI_RAW + HALF_PI_RAW }.sin(), fxi(-1), 5));
    assert!(near(Fx { raw: TWO_PI_RAW }.sin(), fxi(0), 5));
}

#[test]
fn cosine_of_the_quarter_points() {
    assert_eq!(fxi(0).cos(), fxi(1));
    assert!(near(Fx { raw: HALF_PI_RAW }.cos(), fxi(0), 5));
    assert!(near(Fx { raw: PI_RAW }.cos(), fxi(-1), 5));
}

#[test]
fn sine_of_an_eighth_turn_is_half_root_two() {
    // pi / 4 and sqrt(2) / 2 = 0.7071068
    let v = Fx { raw: 7_853_982 }.sin();
    assert!(near(v, Fx { raw: 7_071_068 }, 5));
}

#[test]
fn sine_is_odd_and_periodic() {
    let a = Fx { raw: 3_000_000 };
    assert!(near(a.neg().sin(), a.sin().neg(), 2));
    assert!(near(a.add(Fx { raw: TWO_PI_RAW }).sin(), a.sin(), 2));
}

#[test]
fn tangent_of_an_eighth_turn_is_one() {
    let v = Fx { raw: 7_853_982 }.tan();
    assert!(near(v, fxi(1), 10));
}
