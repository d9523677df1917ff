use raytracer::color::Color;
use raytracer::UNIT;

/// The grid scalar of a real value.
fn s(x: f64) -> i64 {
    (x * UNIT as f64).round() as i64
}

#[test]
fn color_tuple() {
    let color = Color::new(s(-0.5), s(0.4), s(1.7));
    assert_eq!(color.red, s(-0.5));
    assert_eq!(color.green, s(0.4));
    assert_eq!(color.blue, s(1.7));
}

#[test]
fn color_addition() {
    let color_a = Color::new(s(0.9), s(0.6), s(0.75));
    let color_b = Color::new(s(0.7), s(0.1), s(0.25));
    let color_result = Color::new(s(1.6), s(0.7), s(1.0));
    assert!(Color::add(&color_a, &color_b).approx_eq(&color_result));
    assert!(Color::add(&color_a, &color_b).approx_eq(&color_result));

    let color_a = Color::new(s(0.9), s(0.6), s(0.75));
    assert!(Color::add(&color_a, &color_b).approx_eq(&color_result));
}

#[test]
fn subtraction() {
    let color_a = Color::new(s(0.9), s(0.6), s(0.75));
    let color_b = Color::new(s(0.7), s(0.1), s(0.25));
    assert!(Color::sub(&color_a, &color_b).approx_eq(&Color::new(s(0.2), s(0.5), s(0.5))));
    assert!(Color::sub(&color_a, &color_b).approx_eq(&Color::new(s(0.2), s(0.5), s(0.5))));

    let color_a = Color::new(s(0.9), s(0.6), s(0.75));
    assert!(Color::sub(&color_a, &color_b).approx_eq(&Color::new(s(0.2), s(0.5), s(0.5))));
}

#[test]
fn mult_with_scalar() {
    let color = Color::new(s(0.2), s(0.3), s(0.4));
    assert!(color.mul_scal(s(2.0)).approx_eq(&Color::new(s(0.4), s(0.6), s(0.8))));
}

#[test]
fn mult_two_colors() {
    let color_a = Color::new(s(1.0), s(0.2), s(0.4));
    let color_b = Color::new(s(0.9), s(1.0), s(0.1));
    assert!(Color::hadamard_product(&color_a, &color_b).approx_eq(&Color::new(
        s(0.9),
        s(0.2),
        s(0.04)
    )));
}

#[test]
// Dividing a color by a scalar halves every channel.
fn color_scalar_division() {
    let color = Color::new(s(0.4), s(0.6), s(0.8));
    assert!(color.div_scal(s(2.0)).approx_eq(&Color::new(s(0.2), s(0.3), s(0.4))));
}

#[test]
// Negating a color negates every channel.
fn color_negation() {
    let color = Color::new(s(0.4), s(-0.6), s(0.8));
    assert!(color.neg().approx_eq(&Color::new(s(-0.4), s(0.6), s(-0.8))));
}
