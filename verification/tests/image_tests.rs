use raytracer::camera::Camera;
use raytracer::color::{channel, write_color, BRIGHTEST_BITS};
use raytracer::ppm::{ppm_header, push_decimal, push_digits};
use raytracer::scalar::Scalar;
use raytracer::vec3::Vec3;

fn s(x: f64) -> Scalar {
    Scalar::from_bits(x.to_bits())
}

fn v(x: f64, y: f64, z: f64) -> Vec3 {
    Vec3::vec3(s(x), s(y), s(z))
}

fn gamma(raw: f64, samples_per_pixel: i32) -> f64 {
    let scale = 1.0 / samples_per_pixel as f64;
    (raw * scale).sqrt()
}

fn line(encoded: Vec3) -> String {
    let mut out = Vec::new();
    write_color(&mut out, encoded);
    String::from_utf8(out).unwrap()
}

fn by_the_hardware(encoded: f64) -> i32 {
    let clamped = if encoded < 0.0 {
        0.0
    } else if encoded > 0.999 {
        0.999
    } else {
        encoded
    };
    (256.0 * clamped) as i32
}

#[test]
fn brightest_intensity_is_just_below_one() {
    assert_eq!(BRIGHTEST_BITS, 0.999f64.to_bits());
}

#[test]
fn white_is_written_as_255() {
    let g = gamma(1.0, 1);
    assert_eq!(line(v(g, g, g)), "255 255 255\n");
}

#[test]
fn black_is_written_as_0() {
    let g = gamma(0.0, 1);
    assert_eq!(line(v(g, g, g)), "0 0 0\n");
}

#[test]
fn no_level_reaches_256() {
    assert_eq!(channel(s(gamma(0.999999, 1))), 255);
    assert_eq!(channel(s(0.999)), 255);
    assert_eq!(channel(s(0.9999999999)), 255);
    assert_eq!(channel(s(1.0)), 255);
    assert_eq!(channel(s(1.0000001)), 255);
    assert_eq!(channel(s(1e300)), 255);
    assert_eq!(channel(s(f64::INFINITY)), 255);
}

#[test]
fn what_is_not_a_colour_is_written_as_0() {
    assert_eq!(channel(s(-0.5)), 0);
    assert_eq!(channel(s(-0.0)), 0);
    assert_eq!(channel(s(f64::NEG_INFINITY)), 0);
    assert_eq!(channel(s(f64::NAN)), 0);
    assert_eq!(channel(s(5e-324)), 0);
}

#[test]
fn levels_are_the_integer_part_of_256_times_the_intensity() {
    assert_eq!(channel(s(0.5)), 128);
    assert_eq!(channel(s(0.25)), 64);
    assert_eq!(channel(s(1.0 / 256.0)), 1);
    assert_eq!(channel(s(0.99 / 256.0)), 0);
    assert_eq!(channel(s(254.999 / 256.0)), 254);
    assert_eq!(channel(s(0.7)), 179);
}

#[test]
fn levels_agree_with_the_hardware() {
    let mut i = -2000;
    while i <= 12000 {
        let x = i as f64 / 10000.0;
        assert_eq!(channel(s(x)) as i32, by_the_hardware(x), "{}", x);
        let y = x.abs().sqrt();
        assert_eq!(channel(s(y)) as i32, by_the_hardware(y), "{}", y);
        i += 1;
    }
    let mut k = 0;
    while k <= 256 {
        let edge = k as f64 / 256.0;
        for x in [edge, f64::from_bits(edge.to_bits() + 1), f64::from_bits(edge.to_bits().wrapping_sub(1))] {
            assert_eq!(channel(s(x)) as i32, by_the_hardware(x), "{}", x);
        }
        k += 1;
    }
}

#[test]
fn averaging_and_gamma_come_before_the_levels() {
    let encoded = v(gamma(50.0, 100), gamma(25.0, 100), gamma(100.0, 100));
    assert_eq!(line(encoded), "181 128 255\n");
}

#[test]
fn write_color_appends() {
    let mut out = b"P3\n".to_vec();
    write_color(&mut out, v(0.0, 0.5, 1.0));
    write_color(&mut out, v(0.25, 0.0, 0.0));
    assert_eq!(String::from_utf8(out).unwrap(), "P3\n0 128 255\n64 0 0\n");
}

#[test]
fn digits_are_decimal() {
    for (n, want) in [(0u32, "0"), (7, "7"), (10, "10"), (255, "255"), (1009, "1009"), (u32::MAX, "4294967295")] {
        let mut out = Vec::new();
        push_digits(&mut out, n);
        assert_eq!(String::from_utf8(out).unwrap(), want);
    }
}

#[test]
fn decimal_carries_a_sign() {
    for n in [0, 1, -1, 9, 10, -10, 400, 225, -12345, i32::MAX, i32::MIN] {
        let mut out = b"x".to_vec();
        push_decimal(&mut out, n);
        assert_eq!(String::from_utf8(out).unwrap(), format!("x{}", n));
    }
}

#[test]
fn header_names_the_format_the_size_and_the_depth() {
    assert_eq!(String::from_utf8(ppm_header(400, 225)).unwrap(), "P3\n400 225\n255\n");
    assert_eq!(String::from_utf8(ppm_header(1, 1)).unwrap(), "P3\n1 1\n255\n");
    assert_eq!(String::from_utf8(ppm_header(-3, 0)).unwrap(), "P3\n-3 0\n255\n");
}

#[test]
fn render_writes_the_header_and_a_line_for_each_pixel() {
    let mut cam = Camera::camera();
    cam.set_image_width(&3);
    cam.set_image_height(s(2.0));
    let colours = vec![
        v(0.0, 0.0, 0.0),
        v(0.5, 0.5, 0.5),
        v(1.0, 1.0, 1.0),
        v(0.25, 0.5, 0.75),
        v(2.0, -1.0, f64::NAN),
        v(0.999, 0.001, 0.1),
    ];
    let text = String::from_utf8(cam.render(&colours).unwrap()).unwrap();
    assert_eq!(
        text,
        "P3\n3 2\n255\n0 0 0\n128 128 128\n255 255 255\n64 128 192\n255 0 0\n255 0 25\n"
    );
}

#[test]
fn render_wants_one_colour_for_each_pixel() {
    let mut cam = Camera::camera();
    cam.set_image_width(&3);
    cam.set_image_height(s(2.0));
    assert!(cam.render(&vec![v(0.0, 0.0, 0.0); 5]).is_none());
    assert!(cam.render(&vec![v(0.0, 0.0, 0.0); 7]).is_none());
    assert!(cam.render(&vec![v(0.0, 0.0, 0.0); 6]).is_some());
}

#[test]
fn render_of_an_image_without_width_is_the_header() {
    let mut cam = Camera::camera();
    cam.set_image_width(&0);
    cam.set_image_height(s(0.0));
    let text = String::from_utf8(cam.render(&Vec::new()).unwrap()).unwrap();
    assert_eq!(text, "P3\n0 1\n255\n");
}

#[test]
fn black_image_is_lines_of_zeros() {
    let mut cam = Camera::camera();
    cam.set_image_width(&4);
    cam.set_image_height(s(3.0));
    let mut colours = vec![v(0.0, 0.0, 0.0); 12];
    colours[5] = v(-0.0, 0.0, -0.0);
    let text = String::from_utf8(cam.render(&colours).unwrap()).unwrap();
    assert_eq!(text, format!("P3\n4 3\n255\n{}", "0 0 0\n".repeat(12)));
}
