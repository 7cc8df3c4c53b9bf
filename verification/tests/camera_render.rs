#![allow(dead_code)]
use rand::rngs::SmallRng;
use rand::SeedableRng;
use rtchallenge::camera::Camera;
use rtchallenge::color::Color;
use rtchallenge::fx::Fx;
use rtchallenge::geometry::Geometry;
use rtchallenge::light::Light;
use rtchallenge::material::Material;
use rtchallenge::object::Object;
use rtchallenge::scene::Scene;
use rtchallenge::transform::Transform;
use rtchallenge::tuple::{point3, vector3};

fn fx(n: i64, d: i64) -> Fx {
    Fx::from_ratio(n, d)
}

fn fxi(n: i64) -> Fx {
    Fx::from_int(n)
}

fn near(a: Fx, b: Fx, tol: i64) -> bool {
    (a.raw - b.raw).abs() <= tol
}

fn rng0() -> SmallRng {
    SmallRng::seed_from_u64(0)
}

fn frac_pi_2() -> Fx {
    Fx { raw: 15_707_963 }
}

fn frac_pi_4() -> Fx {
    Fx { raw: 7_853_982 }
}

fn root2over2() -> Fx {
    Fx { raw: 7_071_068 }
}

#[test]
fn constructing_a_camera() {
    let hsize = 160;
    let vsize = 120;
    let fov = frac_pi_2();
    let c = Camera::new(hsize, vsize, fov);

    assert_eq!(c.hsize, hsize);
    assert_eq!(c.vsize, vsize);
    assert_eq!(c.fov, fov);
    assert_eq!(c.transform, Transform::new());
}

#[test]
fn the_pixel_size_for_a_horizontal_canvas() {
    let c = Camera::new(200, 125, frac_pi_2());
    assert!(near(c.pixel_size, fx(1, 100), 5));
}

#[test]
fn the_pixel_size_for_a_vertical_canvas() {
    let c = Camera::new(125, 200, frac_pi_2());
    assert!(near(c.pixel_size, fx(1, 100), 5));
}

#[test]
fn constructing_a_ray_through_the_center_of_the_canvas() {
    let c = Camera::new(201, 101, frac_pi_2());
    let r = c.ray(100, 50);

    assert!(near(r.origin.x, fxi(0), 100));
    assert!(near(r.origin.y, fxi(0), 100));
    assert!(near(r.origin.z, fxi(0), 100));
    assert!(near(r.direction.x, fxi(0), 100));
    assert!(near(r.direction.y, fxi(0), 100));
    assert!(near(r.direction.z, fxi(-1), 100));
}

#[test]
fn constructing_a_ray_through_a_corner_of_the_canvas() {
    let c = Camera::new(201, 101, frac_pi_2());
    let r = c.ray(0, 0);

    assert!(near(r.origin.x, fxi(0), 100));
    assert!(near(r.origin.y, fxi(0), 100));
    assert!(near(r.origin.z, fxi(0), 100));
    assert!(near(r.direction.x, fx(66519, 100000), 100));
    assert!(near(r.direction.y, fx(33259, 100000), 100));
    assert!(near(r.direction.z, fx(-66851, 100000), 100));
}

#[test]
fn constructing_a_ray_when_the_camera_is_transformed() {
    let mut c = Camera::new(201, 101, frac_pi_2());
    c.set_transform(
        Transform::new().rotate_y(frac_pi_4()).translate(fxi(0), fxi(-2), fxi(5)),
    );
    let r = c.ray(100, 50);

    assert!(near(r.origin.x, fxi(0), 100));
    assert!(near(r.origin.y, fxi(2), 100));
    assert!(near(r.origin.z, fxi(-5), 100));
    assert!(near(r.direction.x, root2over2(), 100));
    assert!(near(r.direction.y, fxi(0), 100));
    assert!(near(r.direction.z, root2over2().neg(), 100));
}

#[test]
fn rendering_a_scene_with_a_camera() {
    let mut scene = Scene::new();
    scene.add_light(Light::new(
        point3(fxi(-10), fxi(10), fxi(-10)),
        Color::new(fxi(1), fxi(1), fxi(1)),
    ));
    scene.add_object(
        Object::new().geometry(Geometry::sphere()).material(
            Material::new()
                .color(Color::new(fx(8, 10), fxi(1), fx(6, 10)))
                .diffuse(fx(7, 10))
                .specular(fx(2, 10)),
        ),
    );
    scene.add_object(
        Object::new()
            .geometry(Geometry::sphere())
            .transform(Transform::new().scale(fx(1, 2), fx(1, 2), fx(1, 2))),
    );

    let mut camera = Camera::new(11, 11, frac_pi_2());
    let from = point3(fxi(0), fxi(0), fxi(-5));
    let to = point3(fxi(0), fxi(0), fxi(0));
    let up = vector3(fxi(0), fxi(1), fxi(0));
    camera.set_transform(Transform::look_at(from, to, up));

    let image = camera.render(&mut rng0(), &scene);
    let pixel = image.get_color(5, 5);

    assert!(near(pixel.r, fx(38066, 100000), 100000));
    assert!(near(pixel.g, fx(47583, 100000), 100000));
    assert!(near(pixel.b, fx(2855, 10000), 100000));
}
