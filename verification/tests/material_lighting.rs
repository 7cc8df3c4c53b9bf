#![allow(dead_code)]
use rand::rngs::SmallRng;
use rand::SeedableRng;
use rtchallenge::color::Color;
use rtchallenge::fx::Fx;
use rtchallenge::light::Light;
use rtchallenge::material::Material;
use rtchallenge::texture::{Texture, TextureSpec};
use rtchallenge::transform::Transform;
use rtchallenge::tuple::{point3, vector3};

fn fx(n: i64, d: i64) -> Fx {
    Fx::from_ratio(n, d)
}

fn fxi(n: i64) -> Fx {
    Fx::from_int(n)
}

fn near(a: Fx, b: Fx, tol: i64) -> bool {
    (a.raw - b.raw).abs() <= tol
}

fn white() -> Color {
    Color::white()
}

fn root2over2() -> Fx {
    Fx { raw: 7_071_068 }
}

#[test]
fn the_default_material() {
    let m = Material::new();
    assert_eq!(m.texture, Texture::constant(Color::white()));
    assert_eq!(m.ambient, fx(1, 10));
    assert_eq!(m.diffuse, fx(9, 10));
    assert_eq!(m.specular, fx(9, 10));
    assert_eq!(m.shininess, 200);
    assert_eq!(m.reflective, fxi(0));
    assert_eq!(m.transparency, fxi(0));
    assert_eq!(m.refractive_index, fxi(1));
}

#[test]
fn lighting_with_the_eye_between_the_light_and_the_surface() {
    let mut rng = SmallRng::seed_from_u64(0);
    let m = Material::new();
    let position = point3(fxi(0), fxi(0), fxi(0));
    let eyev = vector3(fxi(0), fxi(0), fxi(-1));
    let normalv = vector3(fxi(0), fxi(0), fxi(-1));
    let light = Light::new(point3(fxi(0), fxi(0), fxi(-10)), white());
    let result = m.lighting(&mut rng, Transform::new(), light, position, eyev, normalv, false);
    assert_eq!(result, Color::new(fx(19, 10), fx(19, 10), fx(19, 10)));
}

#[test]
fn lighting_with_the_eye_between_the_light_and_the_surface_eye_offset_45_degrees() {
    let mut rng = SmallRng::seed_from_u64(0);
    let m = Material::new();
    let position = point3(fxi(0), fxi(0), fxi(0));
    let eyev = vector3(fxi(0), root2over2(), root2over2().neg());
    let normalv = vector3(fxi(0), fxi(0), fxi(-1));
    let light = Light::new(point3(fxi(0), fxi(0), fxi(-10)), white());
    let result = m.lighting(&mut rng, Transform::new(), light, position, eyev, normalv, false);
    assert_eq!(result, Color::new(fxi(1), fxi(1), fxi(1)));
}

#[test]
fn lighting_with_the_eye_opposite_surface_light_offset_45_degrees() {
    let mut rng = SmallRng::seed_from_u64(0);
    let m = Material::new();
    let position = point3(fxi(0), fxi(0), fxi(0));
    let eyev = vector3(fxi(0), fxi(0), fxi(-1));
    let normalv = vector3(fxi(0), fxi(0), fxi(-1));
    let light = Light::new(point3(fxi(0), fxi(10), fxi(-10)), white());
    let result = m.lighting(&mut rng, Transform::new(), light, position, eyev, normalv, false);
    assert!(near(result.r, fx(7364, 10000), 100));
    assert!(near(result.g, fx(7364, 10000), 100));
    assert!(near(result.b, fx(7364, 10000), 100));
}

#[test]
fn lighting_with_eye_in_the_path_of_the_reflection_vector() {
    let mut rng = SmallRng::seed_from_u64(0);
    let m = Material::new();
    let position = point3(fxi(0), fxi(0), fxi(0));
    let eyev = vector3(fxi(0), root2over2().neg(), root2over2().neg());
    let normalv = vector3(fxi(0), fxi(0), fxi(-1));
    let light = Light::new(point3(fxi(0), fxi(10), fxi(-10)), white());
    let result = m.lighting(&mut rng, Transform::new(), light, position, eyev, normalv, false);
    assert!(near(result.r, fx(16364, 10000), 1000));
    assert!(near(result.g, fx(16364, 10000), 1000));
    assert!(near(result.b, fx(16364, 10000), 1000));
}

#[test]
fn lighting_with_the_light_behind_the_surface() {
    let mut rng = SmallRng::seed_from_u64(0);
    let m = Material::new();
    let position = point3(fxi(0), fxi(0), fxi(0));
    let eyev = vector3(fxi(0), fxi(0), fxi(-1));
    let normalv = vector3(fxi(0), fxi(0), fxi(-1));
    let light = Light::new(point3(fxi(0), fxi(0), fxi(10)), white());
    let result = m.lighting(&mut rng, Transform::new(), light, position, eyev, normalv, false);
    assert!(near(result.r, fx(1, 10), 100));
    assert!(near(result.g, fx(1, 10), 100));
    assert!(near(result.b, fx(1, 10), 100));
}

#[test]
fn lighting_with_the_surface_in_shadow() {
    let mut rng = SmallRng::seed_from_u64(0);
    let m = Material::new();
    let position = point3(fxi(0), fxi(0), fxi(0));
    let eyev = vector3(fxi(0), fxi(0), fxi(-1));
    let normalv = vector3(fxi(0), fxi(0), fxi(-1));
    let light = Light::new(point3(fxi(0), fxi(0), fxi(-10)), white());
    let result = m.lighting(&mut rng, Transform::new(), light, position, eyev, normalv, true);
    assert!(near(result.r, fx(1, 10), 100));
    assert!(near(result.g, fx(1, 10), 100));
    assert!(near(result.b, fx(1, 10), 100));
}

#[test]
fn lighting_with_a_texture_applied() {
    let mut rng = SmallRng::seed_from_u64(0);
    let mut m = Material::new();
    m.texture = Texture::stripe(Color::white(), Color::black());
    m.ambient = fxi(1);
    m.diffuse = fxi(0);
    m.specular = fxi(0);
    let eyev = vector3(fxi(0), fxi(0), fxi(-1));
    let normalv = vector3(fxi(0), fxi(0), fxi(-1));
    let light = Light::new(point3(fxi(0), fxi(0), fxi(-10)), white());
    let c1 = m.lighting(
        &mut rng,
        Transform::new(),
        light,
        point3(fx(9, 10), fxi(0), fxi(0)),
        eyev,
        normalv,
        false,
    );
    let c2 = m.lighting(
        &mut rng,
        Transform::new(),
        light,
        point3(fx(11, 10), fxi(0), fxi(0)),
        eyev,
        normalv,
        false,
    );
    assert_eq!(c1, Color::white());
    assert_eq!(c2, Color::black());
}

#[test]
fn a_point_light_has_a_position_and_intensity() {
    let intensity = Color::new(fxi(1), fxi(1), fxi(1));
    let position = point3(fxi(0), fxi(0), fxi(0));
    let light = Light::new(position, intensity);
    assert_eq!(light.position, position);
    assert_eq!(light.intensity, intensity);
}

#[test]
fn an_objects_default_transformation() {
    let o = rtchallenge::object::Object::new();
    assert_eq!(o.transform, Transform::new());
}

#[test]
fn changing_an_objects_transformation() {
    let o = rtchallenge::object::Object::new()
        .transform(Transform::new().translate(fxi(2), fxi(3), fxi(4)));
    assert_eq!(o.transform, Transform::new().translate(fxi(2), fxi(3), fxi(4)));
}

#[test]
fn an_object_has_a_default_material() {
    let s = rtchallenge::object::Object::new();
    assert_eq!(s.material, Material::new());
}

#[test]
fn an_object_may_be_assigned_a_material() {
    let m = Material::new().ambient(fxi(1));
    let s = rtchallenge::object::Object::new().material(m);
    assert_eq!(s.material, m);
}

#[test]
fn texture_kinds_carry_their_colors() {
    let t = Texture::stripe(Color::white(), Color::black());
    assert_eq!(t.kind, TextureSpec::Stripe(Color::white(), Color::black()));
}
