use raytracer::matrix4::Matrix4;
use raytracer::transform;
use raytracer::tuple::Tuple;
use raytracer::UNIT;
use std::f64::consts;

/// The grid scalar of a real value.
fn s(x: f64) -> i64 {
    (x * UNIT as f64).round() as i64
}

/// The rotation constructors take the angle's cosine and sine as grid
/// scalars.
fn cos_sin(rad: f64) -> (i64, i64) {
    (s(rad.cos()), s(rad.sin()))
}

#[test]
fn multiply_by_translation_matrix() {
    let transform = transform::translation(s(5.0), s(-3.0), s(2.0));
    let point_p = Tuple::new_point(s(-3.0), s(4.0), s(5.0));
    assert!(Matrix4::mult_vec(&transform, &point_p).approx_eq(&Tuple::new_point(
        s(2.0),
        s(1.0),
        s(7.0)
    )));
}

#[test]
fn multiply_by_inverse_translation_matrix() {
    let transform = transform::translation(s(5.0), s(-3.0), s(2.0));
    let inverse = transform.inverse().unwrap();
    let point_p = Tuple::new_point(s(-3.0), s(4.0), s(5.0));
    assert!(Matrix4::mult_vec(&inverse, &point_p).approx_eq(&Tuple::new_point(
        s(-8.0),
        s(7.0),
        s(3.0)
    )));
}

#[test]
fn translation_does_not_affect_vectors() {
    let transform = transform::translation(s(5.0), s(-3.0), s(2.0));
    let vector_v = Tuple::new_vector(s(-3.0), s(4.0), s(5.0));
    assert!(Matrix4::mult_vec(&transform, &vector_v).approx_eq(&vector_v));
}

#[test]
fn scaling_applied_to_a_point() {
    let transform = transform::scaling(s(2.), s(3.), s(4.));
    let point_p = Tuple::new_point(s(-4.), s(6.), s(8.));
    assert!(Matrix4::mult_vec(&transform, &point_p).approx_eq(&Tuple::new_point(
        s(-8.),
        s(18.),
        s(32.)
    )));
}

#[test]
fn scaling_applied_to_a_vector() {
    let transform = transform::scaling(s(2.), s(3.), s(4.));
    let vector_v = Tuple::new_vector(s(-4.), s(6.), s(8.));
    assert!(Matrix4::mult_vec(&transform, &vector_v).approx_eq(&Tuple::new_vector(
        s(-8.),
        s(18.),
        s(32.)
    )));
}

#[test]
fn apply_inverse_scaling_to_a_vector() {
    let transform = transform::scaling(s(2.), s(3.), s(4.));
    let inverse = transform.inverse().unwrap();
    let point_p = Tuple::new_point(s(-4.), s(6.), s(8.));
    assert!(Matrix4::mult_vec(&inverse, &point_p).approx_eq(&Tuple::new_point(
        s(-2.),
        s(2.),
        s(2.)
    )));
}

#[test]
fn rotating_x_axis() {
    let point_p = Tuple::new_point(0, s(1.), 0);
    let (hc, hs) = cos_sin(consts::PI / 4.0);
    let half_quarter = transform::rotation_x(hc, hs);
    let (fc, fs) = cos_sin(consts::PI / 2.0);
    let full_quarter = transform::rotation_x(fc, fs);

    assert!(Matrix4::mult_vec(&half_quarter, &point_p).approx_eq(&Tuple::new_point(
        0,
        s(2.0_f64.sqrt() / 2.0),
        s(2.0_f64.sqrt() / 2.0)
    )));
    assert!(Matrix4::mult_vec(&full_quarter, &point_p).approx_eq(&Tuple::new_point(
        0,
        0,
        s(1.)
    )));
}

#[test]
fn rotating_x_axis_inverse() {
    let point_p = Tuple::new_point(0, s(1.), 0);
    let (hc, hs) = cos_sin(consts::PI / 4.0);
    let half_quarter = transform::rotation_x(hc, hs);
    let inverse = half_quarter.inverse().unwrap();

    assert!(Matrix4::mult_vec(&inverse, &point_p).approx_eq(&Tuple::new_point(
        0,
        s(1.0 / 2.0_f64.sqrt()),
        s(-1.0 / 2.0_f64.sqrt())
    )));
}

#[test]
fn rotating_y_axis() {
    let point_p = Tuple::new_point(0, 0, s(1.));
    let (hc, hs) = cos_sin(consts::PI / 4.0);
    let half_quarter = transform::rotation_y(hc, hs);
    let (fc, fs) = cos_sin(consts::PI / 2.0);
    let full_quarter = transform::rotation_y(fc, fs);

    assert!(Matrix4::mult_vec(&half_quarter, &point_p).approx_eq(&Tuple::new_point(
        s(2.0_f64.sqrt() / 2.0),
        0,
        s(2.0_f64.sqrt() / 2.0)
    )));
    assert!(Matrix4::mult_vec(&full_quarter, &point_p).approx_eq(&Tuple::new_point(
        s(1.),
        0,
        0
    )));
}

#[test]
fn rotating_z_axis() {
    let point_p = Tuple::new_point(0, s(1.), 0);
    let (hc, hs) = cos_sin(consts::PI / 4.0);
    let half_quarter = transform::rotation_z(hc, hs);
    let (fc, fs) = cos_sin(consts::PI / 2.0);
    let full_quarter = transform::rotation_z(fc, fs);

    assert!(Matrix4::mult_vec(&half_quarter, &point_p).approx_eq(&Tuple::new_point(
        s(-(2.0_f64.sqrt()) / 2.0),
        s(2.0_f64.sqrt() / 2.0),
        0
    )));
    assert!(Matrix4::mult_vec(&full_quarter, &point_p).approx_eq(&Tuple::new_point(
        s(-1.),
        0,
        0
    )));
}

#[test]
fn shear_transform() {
    // A shearing transformation moves x in proportion to y
    let shear = transform::shear(s(1.), 0, 0, 0, 0, 0);
    let point_p = Tuple::new_point(s(2.), s(3.), s(4.));
    assert!(Matrix4::mult_vec(&shear, &point_p).approx_eq(&Tuple::new_point(
        s(5.),
        s(3.),
        s(4.)
    )));

    // A shearing transformation moves x in proportion to z
    let shear = transform::shear(0, s(1.), 0, 0, 0, 0);
    let point_p = Tuple::new_point(s(2.), s(3.), s(4.));
    assert!(Matrix4::mult_vec(&shear, &point_p).approx_eq(&Tuple::new_point(
        s(6.),
        s(3.),
        s(4.)
    )));

    // A shearing transformation moves y in proportion to x
    let shear = transform::shear(0, 0, s(1.), 0, 0, 0);
    let point_p = Tuple::new_point(s(2.), s(3.), s(4.));
    assert!(Matrix4::mult_vec(&shear, &point_p).approx_eq(&Tuple::new_point(
        s(2.),
        s(5.),
        s(4.)
    )));

    // A shearing transformation moves y in proportion to z
    let shear = transform::shear(0, 0, 0, s(1.), 0, 0);
    let point_p = Tuple::new_point(s(2.), s(3.), s(4.));
    assert!(Matrix4::mult_vec(&shear, &point_p).approx_eq(&Tuple::new_point(
        s(2.),
        s(7.),
        s(4.)
    )));

    // A shearing transformation moves z in proportion to x
    let shear = transform::shear(0, 0, 0, 0, s(1.), 0);
    let point_p = Tuple::new_point(s(2.), s(3.), s(4.));
    assert!(Matrix4::mult_vec(&shear, &point_p).approx_eq(&Tuple::new_point(
        s(2.),
        s(3.),
        s(6.)
    )));

    // A shearing transformation moves z in proportion to y
    let shear = transform::shear(0, 0, 0, 0, 0, s(1.));
    let point_p = Tuple::new_point(s(2.), s(3.), s(4.));
    assert!(Matrix4::mult_vec(&shear, &point_p).approx_eq(&Tuple::new_point(
        s(2.),
        s(3.),
        s(7.)
    )));
}

#[test]
fn chaining_transformation() {
    let point_p = Tuple::new_point(s(1.), 0, s(1.));
    let (c, si) = cos_sin(consts::PI / 2.);
    let matrix_r = transform::rotation_x(c, si);
    let matrix_s = transform::scaling(s(5.), s(5.), s(5.));
    let matrix_t = transform::translation(s(10.), s(5.), s(7.));

    // Apply rotation first
    let point_p = Matrix4::mult_vec(&matrix_r, &point_p);
    assert!(point_p.approx_eq(&Tuple::new_point(s(1.), s(-1.), 0)));

    // Then apply scaling
    let point_p = Matrix4::mult_vec(&matrix_s, &point_p);
    assert!(point_p.approx_eq(&Tuple::new_point(s(5.), s(-5.), 0)));

    // Then apply translation
    let point_p = Matrix4::mult_vec(&matrix_t, &point_p);
    assert!(point_p.approx_eq(&Tuple::new_point(s(15.), 0, s(7.))));

    // Chained transformation must be applied in reverse order
    let point_p = Tuple::new_point(s(1.), 0, s(1.));
    let matrix_r = transform::rotation_x(c, si);
    let matrix_s = transform::scaling(s(5.), s(5.), s(5.));
    let matrix_t = transform::translation(s(10.), s(5.), s(7.));

    // Applying rotation, scaling, and translation
    let matrix = Matrix4::mult_mat(&Matrix4::mult_mat(&matrix_t, &matrix_s), &matrix_r);
    assert!(Matrix4::mult_vec(&matrix, &point_p).approx_eq(&Tuple::new_point(
        s(15.),
        0,
        s(7.)
    )));
}

#[test]
// A translation times its own inverse is the identity matrix.
fn translation_inverse_roundtrip() {
    let transform = transform::translation(s(5.0), s(-3.0), s(2.0));
    let inverse = transform.inverse().unwrap();
    let product = Matrix4::mult_mat(&transform, &inverse);
    assert_eq!(product, Matrix4::identity());
}
