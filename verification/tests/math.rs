use engine2d::math::{
    vec2, Color, Scalar, HALF_BITS, NEG_HALF_BITS, ONE_BITS, ZERO_BITS,
};

#[test]
fn named_bit_patterns_are_the_numbers() {
    assert_eq!(f32::from_bits(ZERO_BITS), 0.0);
    assert_eq!(f32::from_bits(ONE_BITS), 1.0);
    assert_eq!(f32::from_bits(HALF_BITS), 0.5);
    assert_eq!(f32::from_bits(NEG_HALF_BITS), -0.5);
    assert_eq!(ZERO_BITS, 0.0f32.to_bits());
}

#[test]
fn scalar_round_trips_its_bits() {
    for x in [0.0f32, -0.0, 1.0, 0.7, -123.456, f32::MAX, f32::MIN_POSITIVE].iter() {
        let s = Scalar::from_bits(x.to_bits());
        assert_eq!(s.bits, x.to_bits());
        assert_eq!(s.to_bits(), x.to_bits());
        assert_eq!(f32::from_bits(s.to_bits()), *x);
    }
    assert_eq!(Scalar::zero().bits, 0.0f32.to_bits());
    assert_eq!(Scalar::one().bits, 1.0f32.to_bits());
}

#[test]
fn vec2_keeps_its_coordinates_apart() {
    let v = vec2(Scalar::from_bits(0.7f32.to_bits()), Scalar::from_bits(0.2f32.to_bits()));
    assert_eq!(f32::from_bits(v.x.bits), 0.7);
    assert_eq!(f32::from_bits(v.y.bits), 0.2);
}

fn channels(c: Color) -> [f32; 4] {
    [
        f32::from_bits(c.r.bits),
        f32::from_bits(c.g.bits),
        f32::from_bits(c.b.bits),
        f32::from_bits(c.a.bits),
    ]
}

#[test]
fn named_colours_have_their_channels() {
    assert_eq!(channels(Color::white()), [1.0, 1.0, 1.0, 1.0]);
    assert_eq!(channels(Color::red()), [1.0, 0.0, 0.0, 1.0]);
    assert_eq!(channels(Color::green()), [0.0, 1.0, 0.0, 1.0]);
    assert_eq!(channels(Color::blue()), [0.0, 0.0, 1.0, 1.0]);
}
