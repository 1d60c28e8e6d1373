use tracer::ApproxEq;
use tracer::fx::Fx;
use tracer::tuple::{Point, Vector};

#[test]
fn can_create_a_vector() {
    let v = Vector::from_raw(43_000_000, -42_000_000, 31_000_000);
    assert_eq!(v.x, Fx::from_raw(43_000_000));
    assert_eq!(v.y, Fx::from_raw(-42_000_000));
    assert_eq!(v.z, Fx::from_raw(31_000_000));
}

#[test]
fn can_access_vector_coordinates() {
    let v = Vector::from_raw(11_000_000, 22_000_000, 33_000_000);
    assert_eq!(v.x.raw, 11_000_000);
    assert_eq!(v.y.raw, 22_000_000);
    assert_eq!(v.z.raw, 33_000_000);
}

#[test]
fn can_compare_vectors_for_equality() {
    let a = Vector::from_raw(10_000_000, 20_000_000, 30_000_000);
    let b = Vector::from_raw(10_000_000, 20_000_000, 30_000_000);
    assert!(a.approx_eq(&b));
    let c = Vector::from_raw(10_900_000, 20_000_000, 30_000_000);
    assert!(!a.approx_eq(&c));
}

#[test]
fn can_add_two_vectors() {
    let a = Vector::from_int(3, -2, 5);
    let b = Vector::from_int(-2, 3, 1);
    assert_eq!(a.add(b), Vector::from_int(1, 1, 6));
}

#[test]
fn can_subtract_a_vector_from_a_vector() {
    let a = Vector::from_int(3, 2, 1);
    let b = Vector::from_int(5, 6, 7);
    assert_eq!(a.sub(b), Vector::from_int(-2, -4, -6));
}

#[test]
fn can_negate_a_vector() {
    let a = Vector::from_int(1, -2, 3);
    assert_eq!(a.neg(), Vector::from_int(-1, 2, -3));
}

#[test]
fn can_multiply_vector_by_scalar() {
    let a = Vector::from_int(1, -2, 3);
    let expected = Vector::from_raw(35_000_000, -70_000_000, 105_000_000);
    assert_eq!(a.scale(Fx::from_raw(35_000_000)), expected);
}

#[test]
fn can_multiply_scalar_by_vector() {
    let a = Vector::from_int(1, -2, 3);
    let expected = Vector::from_raw(5_000_000, -10_000_000, 15_000_000);
    assert_eq!(a.scale(Fx::from_raw(5_000_000)), expected);
}

#[test]
fn can_divide_vector_by_scalar() {
    let a = Vector::from_int(1, -2, 3);
    let expected = Vector::from_raw(5_000_000, -10_000_000, 15_000_000);
    assert_eq!(a.scale(Fx::from_raw(5_000_000)), expected);
}

#[test]
fn can_compute_vector_magnitude_1() {
    assert_eq!(Vector::from_int(1, 0, 0).magnitude(), Fx::from_int(1));
}

#[test]
fn can_compute_vector_magnitude_2() {
    assert_eq!(Vector::from_int(0, 1, 0).magnitude(), Fx::from_int(1));
}

#[test]
fn can_compute_vector_magnitude_3() {
    // |(1, 2, 3)| = sqrt(14)
    let m = Vector::from_int(1, 2, 3).magnitude();
    assert!(m.approx_eq(&Fx::from_raw(37_416_574)));
}

#[test]
fn can_compute_vector_magnitude_4() {
    let m = Vector::from_int(-1, -2, -3).magnitude();
    assert!(m.approx_eq(&Fx::from_raw(37_416_574)));
}

#[test]
fn can_normalize_vector_1() {
    assert_eq!(Vector::from_int(4, 0, 0).normalized(), Vector::from_int(1, 0, 0));
}

#[test]
fn can_normalize_vector_2() {
    let n = Vector::from_int(1, 2, 3).normalized();
    let expected = Vector::from_raw(2_672_612, 5_345_225, 8_017_837);
    assert!(n.approx_eq(&expected));
}

#[test]
fn can_normalize_unit_vector() {
    let n = Vector::from_int(1, 2, 3).normalized();
    assert!(n.magnitude().approx_eq(&Fx::from_int(1)));
}

#[test]
fn can_compute_vector_dot_product() {
    let a = Vector::from_int(1, 2, 3);
    let b = Vector::from_int(2, 3, 4);
    assert_eq!(a.dot(b), Fx::from_int(20));
}

#[test]
fn can_compute_vector_cross_product() {
    let a = Vector::from_int(1, 2, 3);
    let b = Vector::from_int(2, 3, 4);
    assert_eq!(a.cross(b), Vector::from_int(-1, 2, -1));
    assert_eq!(b.cross(a), Vector::from_int(1, -2, 1));
}

#[test]
fn reflecting_a_vector_approaching_at_45_deg() {
    let v = Vector::from_int(1, -1, 0);
    let n = Vector::from_int(0, 1, 0);
    assert_eq!(v.reflect(n), Vector::from_int(1, 1, 0));
}

#[test]
fn reflecting_a_vector_off_a_slanted_surface() {
    let v = Vector::from_int(0, -1, 0);
    let n = Vector::from_raw(7_071_068, 7_071_068, 0);
    assert!(v.reflect(n).approx_eq(&Vector::from_int(1, 0, 0)));
}

#[test]
fn can_create_a_point() {
    let p = Point::from_raw(43_000_000, -42_000_000, 31_000_000);
    assert_eq!(p.x.raw, 43_000_000);
    assert_eq!(p.y.raw, -42_000_000);
    assert_eq!(p.z.raw, 31_000_000);
}

#[test]
fn can_access_point_coordinates() {
    let p = Point::from_raw(11_000_000, 22_000_000, 33_000_000);
    assert_eq!(p.x.raw, 11_000_000);
    assert_eq!(p.y.raw, 22_000_000);
    assert_eq!(p.z.raw, 33_000_000);
}

#[test]
fn can_compare_points_for_equality() {
    let a = Point::from_int(1, 2, 3);
    let b = Point::from_int(1, 2, 3);
    assert!(a.approx_eq(&b));
    let c = Point::from_int(1, 2, 4);
    assert!(!a.approx_eq(&c));
}

#[test]
fn can_add_a_vector_to_a_point() {
    let p = Point::from_int(3, -2, 5);
    let v = Vector::from_int(-2, 3, 1);
    assert_eq!(p.add(v), Point::from_int(1, 1, 6));
}

#[test]
fn can_subtract_a_point_from_point() {
    let a = Point::from_int(3, 2, 1);
    let b = Point::from_int(5, 6, 7);
    assert_eq!(a.sub(b), Vector::from_int(-2, -4, -6));
}

#[test]
fn can_subtract_a_vector_from_point() {
    let p = Point::from_int(3, 2, 1);
    let v = Vector::from_int(5, 6, 7);
    assert_eq!(p.sub_vec(v), Point::from_int(-2, -4, -6));
}
