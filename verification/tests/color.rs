use radiant::color::Color;
use radiant::scalar::{SCALAR_ONE, SCALAR_ZERO};

#[test]
fn scalar_payloads_match_float_bits() {
    assert_eq!(SCALAR_ONE, 1.0f32.to_bits());
    assert_eq!(SCALAR_ZERO, 0.0f32.to_bits());
}

#[test]
fn constructors_set_expected_channels() {
    assert_eq!(Color::transparent().as_tuple(), (0, 0, 0, 0));
    let half = 0.5f32.to_bits();
    assert_eq!(Color::alpha(half), Color(SCALAR_ONE, SCALAR_ONE, SCALAR_ONE, half));
    assert_eq!(Color::alpha_mask(half), Color(0, 0, 0, half));
    assert_eq!(Color::alpha_pm(half), Color(half, half, half, half));
    assert_eq!(Color::lightness(half), Color(half, half, half, SCALAR_ONE));
    assert_eq!(Color::white(), Color(SCALAR_ONE, SCALAR_ONE, SCALAR_ONE, SCALAR_ONE));
    assert_eq!(Color::black(), Color(0, 0, 0, SCALAR_ONE));
    assert_eq!(Color::red(), Color(SCALAR_ONE, 0, 0, SCALAR_ONE));
    assert_eq!(Color::green(), Color(0, SCALAR_ONE, 0, SCALAR_ONE));
    assert_eq!(Color::blue(), Color(0, 0, SCALAR_ONE, SCALAR_ONE));
}

#[test]
fn channel_accessors_and_setters() {
    let mut c = Color::black();
    assert_eq!(c.a(), SCALAR_ONE);
    let v = 0.25f32.to_bits();
    c.set_r(v);
    c.set_g(v);
    assert_eq!(c.r(), v);
    assert_eq!(c.g(), v);
    assert_eq!(c.b(), SCALAR_ZERO);
    let mut d = Color::white();
    d.set(c);
    assert_eq!(d, c);
}
