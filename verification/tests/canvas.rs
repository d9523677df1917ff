use raytracer::canvas::wrap_string;
use raytracer::canvas::Canvas;
use raytracer::canvas::CanvasError;
use raytracer::canvas::ColorU8;
use raytracer::color::Color;
use raytracer::UNIT;

/// The grid scalar of a real value.
fn s(x: f64) -> i64 {
    (x * UNIT as f64).round() as i64
}

#[test]
fn creating_a_canvas() {
    let canvas = Canvas::new(10, 20);

    assert_eq!(canvas.width, 10);
    assert_eq!(canvas.height, 20);

    for c in canvas.pixels {
        assert!(c.approx_eq(&Color::new(0, 0, 0)));
    }
}

#[test]
fn write_pixels_to_canvas() {
    let mut canvas = Canvas::new(10, 20);
    let color_red = Color::new(s(1.0), 0, 0);

    canvas
        .set_pixel_at(2, 3, &color_red)
        .expect("Should be able to assign color to canvas pixel");

    let pixel = canvas
        .get_color_at(2, 3)
        .expect("Should be able to get pixel from canvas");

    assert!(pixel.approx_eq(&color_red));
}

#[test]
fn wrap_a_text() {
    let input_str = String::from(
        "255 204 153 255 204 153 255 204 153 255 204 153 255 204 153 255 204 153 255 204 153 255 204 153 255 204 153 255 204 153",
    );
    let line_length: usize = 70;
    let expected_str = String::from(
        "255 204 153 255 204 153 255 204 153 255 204 153 255 204 153 255 204\n153 255 204 153 255 204 153 255 204 153 255 204 153",
    );

    assert_eq!(wrap_string(&input_str, line_length), expected_str);
}

#[test]
fn constructing_ppm_header() {
    let canvas = Canvas::new(5, 3);
    let ppm = canvas.to_ppm();

    let mut lines = ppm.lines();
    assert_eq!(lines.next(), Some("P3"));
    assert_eq!(lines.next(), Some("5 3"));
    assert_eq!(lines.next(), Some("255"));
}

#[test]
fn constructing_ppm_pixel_data() {
    let mut canvas = Canvas::new(5, 3);
    let c1 = Color::new(s(1.5), 0, 0);
    let c2 = Color::new(0, s(0.5), 0);
    let c3 = Color::new(s(-0.5), 0, s(1.0));

    canvas
        .set_pixel_at(0, 0, &c1)
        .expect("Should be able to set color to canvas");
    canvas
        .set_pixel_at(2, 1, &c2)
        .expect("Should be able to set color to canvas");
    canvas
        .set_pixel_at(4, 2, &c3)
        .expect("Should be able to set color to canvas");

    let ppm = canvas.to_ppm();
    let mut lines = ppm.lines();

    assert_eq!(lines.nth(3), Some("255 0 0 0 0 0 0 0 0 0 0 0 0 0 0"));
    assert_eq!(lines.next(), Some("0 0 0 0 0 0 0 128 0 0 0 0 0 0 0"));
    assert_eq!(lines.next(), Some("0 0 0 0 0 0 0 0 0 0 0 0 0 0 255"));
}

#[test]
fn splitting_long_lines_in_ppm_data() {
    let canvas_width = 10;
    let canvas_height = 2;
    let mut canvas = Canvas::new(canvas_width, canvas_height);
    let color = Color::new(s(1.0), s(0.8), s(0.6));

    for i in 0..canvas_height {
        for j in 0..canvas_width {
            canvas
                .set_pixel_at(j, i, &color)
                .expect(&format!("Should be able to set color at ({},{})", j, i));
        }
    }

    let ppm = canvas.to_ppm();
    let mut lines = ppm.lines();

    assert_eq!(
        lines.nth(3),
        Some("255 204 153 255 204 153 255 204 153 255 204 153 255 204 153 255 204")
    );
    assert_eq!(
        lines.next(),
        Some("153 255 204 153 255 204 153 255 204 153 255 204 153")
    );
    assert_eq!(
        lines.next(),
        Some("255 204 153 255 204 153 255 204 153 255 204 153 255 204 153 255 204")
    );
    assert_eq!(
        lines.next(),
        Some("153 255 204 153 255 204 153 255 204 153 255 204 153")
    );
}

#[test]
fn ppm_ends_with_newline() {
    let canvas_width = 10;
    let canvas_height = 2;
    let mut canvas = Canvas::new(canvas_width, canvas_height);
    let color = Color::new(s(1.0), s(0.8), s(0.6));

    for i in 0..canvas_height {
        for j in 0..canvas_width {
            canvas
                .set_pixel_at(j, i, &color)
                .expect(&format!("Should be able to set color at ({},{})", j, i));
        }
    }

    let ppm = canvas.to_ppm();
    let last_char = ppm.get(ppm.len() - 1..);

    assert_eq!(last_char, Some("\n"));
}

#[test]
// An untouched canvas serializes every pixel row as zero triplets.
fn ppm_of_untouched_canvas() {
    let canvas = Canvas::new(5, 3);
    let ppm = canvas.to_ppm();

    let mut lines = ppm.lines();
    assert_eq!(lines.next(), Some("P3"));
    assert_eq!(lines.next(), Some("5 3"));
    assert_eq!(lines.next(), Some("255"));
    for _ in 0..3 {
        assert_eq!(lines.next(), Some("0 0 0 0 0 0 0 0 0 0 0 0 0 0 0"));
    }
    assert_eq!(lines.next(), None);
}

#[test]
// Out-of-range pixel access reports the coordinates and the bounds, and
// the canvas is unchanged; out-of-range reads give None.
fn canvas_out_of_bounds() {
    let mut canvas = Canvas::new(4, 3);
    let color = Color::new(s(1.0), 0, 0);

    assert_eq!(canvas.get_color_at(4, 0), None);
    assert_eq!(canvas.get_color_at(0, 3), None);

    let result = canvas.set_pixel_at(7, 9, &color);
    assert!(matches!(
        result,
        Err(CanvasError::OutOfBounds { x: 7, y: 9, width: 4, height: 3 })
    ));
    assert!(canvas.get_color_at(0, 0).unwrap().approx_eq(&Color::new(0, 0, 0)));
}

#[test]
// Channel bytes: the clamped intensity scaled to 255 and rounded.
fn channel_quantization() {
    let c = ColorU8::from_color(&Color::new(s(1.0), s(0.8), s(0.6)));
    assert_eq!(c, ColorU8::new(255, 204, 153));

    let c = ColorU8::from_color(&Color::new(s(1.5), s(0.5), s(-0.5)));
    assert_eq!(c, ColorU8::new(255, 128, 0));

    assert_eq!(ColorU8::new(12, 34, 56).to_triplet_string(), "12 34 56");
}

#[test]
// A canvas with no rows serializes to just the header.
fn empty_canvas_ppm() {
    let canvas = Canvas::new(5, 0);
    assert_eq!(canvas.to_ppm(), "P3\n5 0\n255\n");
    assert_eq!(canvas.size(), 0);
}

#[test]
// A block of more than a line's width without any space ends the
// wrapped output.
fn wrap_unbreakable_block() {
    assert_eq!(wrap_string("abcdef", 3), "");
    assert_eq!(wrap_string("ab cdef", 3), "ab\n");
    assert_eq!(wrap_string("ab", 3), "ab");
    assert_eq!(wrap_string("", 3), "");
}
