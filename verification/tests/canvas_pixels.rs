#![allow(dead_code)]
use rtchallenge::canvas::Canvas;
use rtchallenge::color::Color;
use rtchallenge::fx::Fx;
use rtchallenge::ppm::canvas_to_ppm;

fn fx(n: i64, d: i64) -> Fx {
    Fx::from_ratio(n, d)
}

#[test]
fn creating_a_canvas() {
    let c = Canvas::new(10, 20);
    assert_eq!(c.width, 10);
    assert_eq!(c.height, 20);
    for component in c.data {
        assert_eq!(component, 0);
    }
}

#[test]
fn writing_pixels_to_a_canvas() {
    let mut c = Canvas::new(10, 20);
    let red = Color::new(fx(1, 1), fx(0, 1), fx(0, 1));
    c.set_color(2, 3, red);
    assert_eq!(c.get_color(2, 3), red);
}

#[test]
fn constructing_the_ppm_header() {
    let c = Canvas::new(5, 3);
    let ppm = canvas_to_ppm(c);
    assert!(ppm.starts_with("P3\n5 3\n255\n"));
}

#[test]
fn constructing_the_ppm_pixel_data() {
    let mut c = Canvas::new(5, 3);
    let c1 = Color::new(fx(15, 10), fx(0, 1), fx(0, 1));
    let c2 = Color::new(fx(0, 1), fx(5, 10), fx(0, 1));
    let c3 = Color::new(fx(-5, 10), fx(0, 1), fx(1, 1));

    c.set_color(0, 0, c1);
    c.set_color(2, 1, c2);
    c.set_color(4, 2, c3);

    let ppm = canvas_to_ppm(c);
    assert!(ppm.ends_with(
        "255 0 0 0 0 0 0 0 0 0 0 0 0 0 0\n0 0 0 0 0 0 0 128 0 0 0 0 0 0 0\n0 0 0 0 0 0 0 0 0 0 0 0 0 0 255\n"
    ));
}

#[test]
fn splitting_long_lines_in_ppm_files() {
    let mut c = Canvas::new(10, 2);

    for x in 0..c.width {
        for y in 0..c.height {
            c.set_color(x, y, Color::new(fx(1, 1), fx(8, 10), fx(6, 10)));
        }
    }

    let ppm = canvas_to_ppm(c);
    println!("{}", ppm);
    assert!(ppm.ends_with(
        "255 204 153 255 204 153 255 204 153 255 204 153 255 204 153 255 204\n153 255 204 153 255 204 153 255 204 153 255 204 153\n255 204 153 255 204 153 255 204 153 255 204 153 255 204 153 255 204\n153 255 204 153 255 204 153 255 204 153 255 204 153\n"
    ));
}

#[test]
fn ppm_files_are_terminated_by_a_newline() {
    let c = Canvas::new(5, 3);
    let ppm = canvas_to_ppm(c);
    assert!(ppm.ends_with("\n"));
}
