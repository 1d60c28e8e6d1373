use tracer::ApproxEq;
use tracer::color::Color;
use tracer::fx::Fx;

#[test]
fn assert_two_floats_are_equal_if_their_absolute_difference_is_less_than_epsilon() {
    let a = Fx::from_raw(11_234_560); // 1.1234560
    let b = Fx::from_raw(11_234_567); // 1.1234567
    assert_eq!(a.approx_eq(&b), true);

    let c = Fx::from_raw(47_654_321); // 4.76543210
    let d = Fx::from_raw(47_654_323); // 4.76543228
    assert_eq!(c.approx_eq(&d), true);
}

#[test]
fn assert_two_floats_are_not_equal_if_their_absolute_difference_is_greater_than_or_equal_to_epsilon(
) {
    let a = Fx::from_raw(11_234_600); // 1.12346
    let b = Fx::from_raw(11_234_400); // 1.12344
    assert_eq!(a.approx_eq(&b), false);

    let c = Fx::from_raw(47_654_300); // 4.76543
    let d = Fx::from_raw(47_654_200); // 4.76542
    assert_eq!(c.approx_eq(&d), false);
}

#[test]
fn can_create_black_color() {
    let black = Color::black();
    let expected = Color::black();
    assert_eq!(black, expected);
}

#[test]
fn can_create_white_color() {
    let white = Color::white();
    let expected = Color::white();
    assert_eq!(white, expected);
}

#[test]
fn can_create_color() {
    let color = Color::from_raw(-5_000_000, 4_000_000, 17_000_000);
    assert_eq!(color.red(), Fx::from_raw(-5_000_000));
    assert_eq!(color.green(), Fx::from_raw(4_000_000));
    assert_eq!(color.blue(), Fx::from_raw(17_000_000));
}

#[test]
fn can_add_colors() {
    let color_a = Color::from_raw(9_000_000, 6_000_000, 7_500_000);
    let color_b = Color::from_raw(7_000_000, 1_000_000, 2_500_000);
    let expected = Color::from_raw(16_000_000, 7_000_000, 10_000_000);
    assert_eq!(color_a.add(color_b), expected);
}

#[test]
fn can_sub_clors() {
    let color_a = Color::from_raw(9_000_000, 6_000_000, 7_500_000);
    let color_b = Color::from_raw(7_000_000, 1_000_000, 2_500_000);
    let expected = Color::from_raw(2_000_000, 5_000_000, 5_000_000);
    assert_eq!(color_a.sub(color_b), expected);
}

#[test]
fn can_multiply_color_by_sclar() {
    let color = Color::from_raw(2_000_000, 3_000_000, 4_000_000);
    let expected = Color::from_raw(4_000_000, 6_000_000, 8_000_000);
    assert_eq!(color.scale(Fx::from_int(2)), expected);
}

#[test]
fn can_compute_hadamard_product() {
    let color_a = Color::from_raw(10_000_000, 2_000_000, 4_000_000);
    let color_b = Color::from_raw(9_000_000, 10_000_000, 1_000_000);
    let expected = Color::from_raw(9_000_000, 2_000_000, 400_000);
    assert_eq!(color_a.mul(color_b), expected);
}

#[test]
fn scalar_square_root_is_exact_on_squares() {
    assert_eq!(Fx::from_int(4).sqrt(), Fx::from_int(2));
    assert_eq!(Fx::from_int(9).sqrt(), Fx::from_int(3));
    assert_eq!(Fx::from_raw(22_500_000).sqrt(), Fx::from_raw(15_000_000));
}

#[test]
fn scalar_floor_rounds_toward_negative_infinity() {
    assert_eq!(Fx::from_raw(15_000_000).floor_units(), 1);
    assert_eq!(Fx::from_raw(-15_000_000).floor_units(), -2);
    assert_eq!(Fx::from_int(-2).floor_units(), -2);
    assert_eq!(Fx::from_raw(0).floor_units(), 0);
}

#[test]
fn scalar_division_by_zero_yields_zero() {
    assert_eq!(Fx::from_int(3).div(Fx::from_raw(0)), Fx::from_raw(0));
}

#[test]
fn scalar_power_is_an_iterated_product() {
    assert_eq!(Fx::from_int(2).pow(10), Fx::from_int(1024));
    assert_eq!(Fx::from_int(7).pow(0), Fx::from_int(1));
    assert_eq!(Fx::from_raw(5_000_000).pow(2), Fx::from_raw(2_500_000));
}
