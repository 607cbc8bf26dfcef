use physobx_core::scalar::{negate, HALF, NEG_ONE, ONE, SIGN_BIT, ZERO};

#[test]
fn constants_are_the_bits_of_their_numbers() {
    assert_eq!(ZERO, 0.0f32.to_bits());
    assert_eq!(ONE, 1.0f32.to_bits());
    assert_eq!(NEG_ONE, (-1.0f32).to_bits());
    assert_eq!(HALF, 0.5f32.to_bits());
    assert_eq!(SIGN_BIT, (-0.0f32).to_bits());
}

#[test]
fn negate_flips_the_sign() {
    for x in [0.0f32, 1.0, -1.0, 0.5, 3.25, -1000.0, 1e-30, f32::MAX, f32::MIN_POSITIVE] {
        assert_eq!(negate(x.to_bits()), (-x).to_bits());
        assert_eq!(f32::from_bits(negate(x.to_bits())), -x);
    }
    assert_eq!(negate(ONE), NEG_ONE);
    assert_eq!(negate(NEG_ONE), ONE);
}

#[test]
fn negate_twice_is_the_identity() {
    for bits in [0u32, 1, 0x3f80_0000, 0x7fff_ffff, 0x8000_0000, 0xffff_ffff, 0x1234_5678] {
        assert_eq!(negate(negate(bits)), bits);
        assert_ne!(negate(bits), bits);
    }
}
