use raytracer::fixed::close_strict;
use raytracer::tuple::Tuple;
use raytracer::UNIT;

/// The grid scalar of a real value.
fn s(x: f64) -> i64 {
    (x * UNIT as f64).round() as i64
}

#[test]
// A tuple with w=1.0 is a point
fn point() {
    let point = Tuple::new(s(4.3), s(-4.2), s(3.1), s(1.0));
    assert_eq!(point.x, s(4.3));
    assert_eq!(point.y, s(-4.2));
    assert_eq!(point.z, s(3.1));
    assert_eq!(point.w, s(1.0));
    assert!(point.is_point());
    assert!(!point.is_vector());
}

#[test]
// A tuple with w=0.0 is a vector
fn vector() {
    let point = Tuple::new(s(4.3), s(-4.2), s(3.1), 0);
    assert_eq!(point.x, s(4.3));
    assert_eq!(point.y, s(-4.2));
    assert_eq!(point.z, s(3.1));
    assert_eq!(point.w, 0);
    assert!(!point.is_point());
    assert!(point.is_vector());
}

#[test]
// A point is equal to a tuple with w = 1
fn point_eq() {
    let point = Tuple::new_point(s(4.0), s(-4.0), s(3.0));
    assert!(point.approx_eq(&Tuple::new(s(4.0), s(-4.0), s(3.0), s(1.0))));
}

#[test]
// A vector is equal to a tuple with w = 0
fn vector_eq() {
    let vector = Tuple::new_vector(s(4.0), s(-4.0), s(3.0));
    assert!(vector.approx_eq(&Tuple::new(s(4.0), s(-4.0), s(3.0), 0)));
}

#[test]
fn tuple_addition() {
    let tuple_a = Tuple::new(s(3.0), s(-2.0), s(5.0), s(1.0));
    let tuple_b = Tuple::new(s(-2.0), s(3.0), s(1.0), 0);

    assert!(Tuple::add(&tuple_a, &tuple_b).approx_eq(&Tuple::new(s(1.0), s(1.0), s(6.0), s(1.0))));
}

#[test]
fn subtracting_two_points() {
    let point_a = Tuple::new_point(s(3.0), s(2.0), s(1.0));
    let point_b = Tuple::new_point(s(5.0), s(6.0), s(7.0));

    assert!(Tuple::sub(&point_a, &point_b).approx_eq(&Tuple::new_vector(
        s(-2.0),
        s(-4.0),
        s(-6.0)
    )));
}

#[test]
fn subtracting_a_vector_from_a_point() {
    let point = Tuple::new_point(s(3.0), s(2.0), s(1.0));
    let vector = Tuple::new_vector(s(5.0), s(6.0), s(7.0));

    assert!(Tuple::sub(&point, &vector).approx_eq(&Tuple::new_point(s(-2.0), s(-4.0), s(-6.0))));
}

#[test]
fn subtracting_two_vectors() {
    let vector_a = Tuple::new_vector(s(3.0), s(2.0), s(1.0));
    let vector_b = Tuple::new_vector(s(5.0), s(6.0), s(7.0));

    assert!(Tuple::sub(&vector_a, &vector_b).approx_eq(&Tuple::new_vector(
        s(-2.0),
        s(-4.0),
        s(-6.0)
    )));
}

#[test]
fn negation() {
    let zero_vector = Tuple::new_vector(0, 0, 0);
    let vector = Tuple::new_vector(s(1.0), s(-2.0), s(3.0));

    assert!(Tuple::sub(&zero_vector, &vector).approx_eq(&Tuple::new_vector(
        s(-1.0),
        s(2.0),
        s(-3.0)
    )));

    let tuple = Tuple::new(s(1.0), s(-2.0), s(3.0), s(-4.0));
    assert!(tuple.neg().approx_eq(&Tuple::new(s(-1.0), s(2.0), s(-3.0), s(4.0))));
}

#[test]
fn scalar_multiplication() {
    let tuple = Tuple::new(s(1.0), s(-2.0), s(3.0), s(-4.0));
    assert!(tuple.mul_scal(s(3.5)).approx_eq(&Tuple::new(s(3.5), s(-7.0), s(10.5), s(-14.0))));

    let tuple = Tuple::new(s(1.0), s(-2.0), s(3.0), s(-4.0));
    assert!(tuple.mul_scal(s(0.5)).approx_eq(&Tuple::new(s(0.5), s(-1.0), s(1.5), s(-2.0))));
}

#[test]
fn scalar_division() {
    let tuple = Tuple::new(s(1.0), s(-2.0), s(3.0), s(-4.0));
    assert!(tuple.div_scal(s(2.0)).approx_eq(&Tuple::new(s(0.5), s(-1.0), s(1.5), s(-2.0))));
}

#[test]
fn vector_magnitude() {
    let vector = Tuple::new_vector(s(1.0), 0, 0);
    assert!(close_strict(vector.magnitude(), s(1.0)));
    let vector = Tuple::new_vector(0, 0, s(1.0));
    assert!(close_strict(vector.magnitude(), s(1.0)));
    let vector = Tuple::new_vector(s(1.0), s(2.0), s(3.0));
    assert!(close_strict(vector.magnitude(), s(14.0_f64.sqrt())));
    let vector = Tuple::new_vector(s(-1.0), s(-2.0), s(-3.0));
    assert!(close_strict(vector.magnitude(), s(14.0_f64.sqrt())));
}

#[test]
fn normalize() {
    let vector = Tuple::new_vector(s(4.0), 0, 0);
    assert!(vector.normalize().approx_eq(&Tuple::new_vector(s(1.0), 0, 0)));

    let vector = Tuple::new_vector(s(1.0), s(2.0), s(3.0));
    assert!(vector.normalize().approx_eq(&Tuple::new_vector(
        s(1.0 / 14.0_f64.sqrt()),
        s(2.0 / 14.0_f64.sqrt()),
        s(3.0 / 14.0_f64.sqrt())
    )));

    let vector = Tuple::new_vector(s(1.0), s(2.0), s(3.0));
    assert!(close_strict(vector.normalize().magnitude(), s(1.0)));
}

#[test]
// Normalizing divides by the true length, so even tiny vectors come out
// with magnitude 1.0.
fn normalize_small_vector() {
    let vector = Tuple::new_vector(1000, 1000, 0);
    let unit = vector.normalize();
    assert!(unit.approx_eq(&Tuple::new_vector(
        s(0.5_f64.sqrt()),
        s(0.5_f64.sqrt()),
        0
    )));
    assert!(close_strict(unit.magnitude(), s(1.0)));

    let vector = Tuple::new_vector(1, 1, 0);
    assert!(close_strict(vector.normalize().magnitude(), s(1.0)));
}

#[test]
fn dot_product() {
    let vector_a = Tuple::new_vector(s(1.0), s(2.0), s(3.0));
    let vector_b = Tuple::new_vector(s(2.0), s(3.0), s(4.0));

    assert!(close_strict(Tuple::dot(&vector_a, &vector_b), s(20.0)));
}

#[test]
fn cross_product() {
    let vector_a = Tuple::new_vector(s(1.0), s(2.0), s(3.0));
    let vector_b = Tuple::new_vector(s(2.0), s(3.0), s(4.0));

    assert!(Tuple::cross(&vector_a, &vector_b).approx_eq(&Tuple::new_vector(
        s(-1.0),
        s(2.0),
        s(-1.0)
    )));
    assert!(Tuple::cross(&vector_b, &vector_a).approx_eq(&Tuple::new_vector(
        s(1.0),
        s(-2.0),
        s(1.0)
    )));
}

#[test]
// from_fn fills the components from the index function.
fn from_component_function() {
    let t = Tuple::from_fn(|i| (i as i64 + 1) * UNIT);
    assert_eq!(t, Tuple::new(s(1.0), s(2.0), s(3.0), s(4.0)));
}

#[test]
// P + V - V returns exactly P, and V + W == W + V: tuple sums are exact.
fn add_then_subtract_returns_the_point() {
    let p = Tuple::new_point(s(1.5), s(-2.25), s(7.0));
    let v = Tuple::new_vector(s(0.75), s(3.5), s(-1.25));
    let w = Tuple::new_vector(s(-2.0), s(0.5), s(4.75));

    let there = Tuple::add(&p, &v);
    let back = Tuple::sub(&there, &v);
    assert_eq!(back, p);

    assert_eq!(Tuple::add(&v, &w), Tuple::add(&w, &v));
}

#[test]
// V x W == -(W x V): the cross product is antisymmetric.
fn cross_product_antisymmetric() {
    let v = Tuple::new_vector(s(2.5), s(-1.0), s(0.5));
    let w = Tuple::new_vector(s(3.0), s(4.5), s(-2.0));

    let vw = Tuple::cross(&v, &w);
    let wv = Tuple::cross(&w, &v);
    assert_eq!(vw, wv.neg());
}
