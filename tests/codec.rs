use ieee754_converter::fp_engine::{
    convert_to_low_latency, convert_to_standard, LowLatencyFloat, StandardFloat,
};

fn ll(sign: u32, exponent: u32, mantissa: u32) -> LowLatencyFloat {
    LowLatencyFloat::from_bits((sign << 31) | (exponent << 24) | (mantissa << 1))
}

fn sf(sign: u32, exponent: u32, mantissa: u32) -> StandardFloat {
    StandardFloat::from_bits((sign << 31) | (exponent << 23) | mantissa)
}

#[test]
fn zero_is_all_zero_bits() {
    assert_eq!(LowLatencyFloat::zero().representation(), 0);
    assert_eq!(StandardFloat::zero().representation(), 0);
}

#[test]
fn zero_converts_to_zero() {
    assert_eq!(LowLatencyFloat::zero().to_standard().representation(), 0);
    assert_eq!(StandardFloat::zero().to_low_latency().representation(), 0);
    assert_eq!(convert_to_standard(0), 0);
    assert_eq!(convert_to_low_latency(0), 0);
}

#[test]
fn low_latency_fields() {
    let v = LowLatencyFloat::from_bits(0x8F7F_FF01);
    assert!(v.sign());
    assert_eq!(v.exponent(), 0x0F);
    assert_eq!(v.mantissa(), 0x3F_FF80);
    assert!(v.reserved_flag());
    let w = LowLatencyFloat::from_bits(0x7FFF_FFFE);
    assert!(!w.sign());
    assert_eq!(w.exponent(), 0x7F);
    assert_eq!(w.mantissa(), 0x7F_FFFF);
    assert!(!w.reserved_flag());
}

#[test]
fn standard_fields() {
    let v = StandardFloat::from_bits(0x477F_FF00);
    assert!(!v.sign());
    assert_eq!(v.exponent(), 0x8E);
    assert_eq!(v.mantissa(), 0x7F_FF00);
    let w = StandardFloat::from_bits(0xFFFF_FFFF);
    assert!(w.sign());
    assert_eq!(w.exponent(), 0xFF);
    assert_eq!(w.mantissa(), 0x7F_FFFF);
}

#[test]
fn sign_is_inverted_both_ways() {
    for bits in [1u32, 0x8000_0000, 0x8F7F_FF00, 0x477F_FF00, 0xFFFF_FFFF, 0x7FFF_FFFF] {
        let l = LowLatencyFloat::from_bits(bits);
        assert_eq!(l.to_standard().sign(), !l.sign());
        let s = StandardFloat::from_bits(bits);
        assert_eq!(s.to_low_latency().sign(), !s.sign());
    }
}

#[test]
fn exponent_round_trip_without_clamp() {
    for e in 1u32..=127 {
        let x = ll(1, e, 0x12_3456);
        let back = x.to_standard().to_low_latency();
        assert_eq!(back.exponent(), e);
    }
}

#[test]
fn standard_exponent_gains_bias() {
    assert_eq!(ll(0, 0, 1).to_standard().exponent(), 127);
    assert_eq!(ll(0, 1, 0).to_standard().exponent(), 128);
    assert_eq!(ll(0, 127, 0).to_standard().exponent(), 254);
}

#[test]
fn small_standard_exponent_clamps_to_zero() {
    assert_eq!(sf(0, 0, 5).to_low_latency().exponent(), 0);
    assert_eq!(sf(0, 126, 5).to_low_latency().exponent(), 0);
    assert_eq!(sf(1, 126, 0).to_low_latency().exponent(), 0);
    assert_eq!(sf(0, 127, 5).to_low_latency().exponent(), 0);
    assert_eq!(sf(0, 128, 5).to_low_latency().exponent(), 1);
}

#[test]
fn largest_standard_exponent_keeps_low_bits_and_sign() {
    let r = sf(1, 255, 0).to_low_latency();
    assert_eq!(r.exponent(), 0);
    assert!(!r.sign());
    assert_eq!(r.representation(), 0);
    let r2 = sf(0, 255, 0).to_low_latency();
    assert!(r2.sign());
    assert_eq!(r2.representation(), 0x8000_0000);
}

#[test]
fn standard_mantissa_low_bit_is_lost() {
    let s = sf(0, 130, 0b1);
    let back = s.to_low_latency().to_standard();
    assert_eq!(back.mantissa() & 1, 0);
    assert_eq!(back.mantissa(), 0);
    let s2 = sf(0, 130, 0x7F_FFFF);
    assert_eq!(s2.to_low_latency().mantissa(), 0x3F_FFFF);
    assert_eq!(s2.to_low_latency().to_standard().mantissa(), 0x7F_FFFE);
}

#[test]
fn low_latency_mantissa_round_trip_keeps_low_bits() {
    let x = ll(0, 3, 0b1);
    assert_eq!(x.to_standard().mantissa(), 0b10);
    assert_eq!(x.to_standard().to_low_latency().mantissa(), 0b1);
}

#[test]
fn top_low_latency_mantissa_bit_is_dropped() {
    let x = ll(0, 3, 0x40_0000);
    let s = x.to_standard();
    assert_eq!(s.mantissa(), 0);
    assert_eq!(s.exponent(), 130);
    assert_eq!(s.representation(), (1 << 31) | (130 << 23));
}

#[test]
fn reserved_flag_is_never_set() {
    for bits in [1u32, 0x477F_FF00, 0xFFFF_FFFF, 0x0000_0003] {
        assert!(!StandardFloat::from_bits(bits).to_low_latency().reserved_flag());
    }
}

#[test]
fn default_low_latency_example() {
    assert_eq!(convert_to_standard(0x8F7F_FF00), 0x477F_FF00);
    let r = LowLatencyFloat::from_bits(0x8F7F_FF00).to_standard();
    assert_eq!(r.representation(), 0x477F_FF00);
}

#[test]
fn default_standard_example() {
    assert_eq!(convert_to_low_latency(0x477F_FF00), 0x8F7F_FF00);
    let r = StandardFloat::from_bits(0x477F_FF00).to_low_latency();
    assert_eq!(r.representation(), 0x8F7F_FF00);
}

#[test]
fn single_set_bits_convert() {
    assert_eq!(convert_to_standard(1), 0xBF80_0000);
    assert_eq!(convert_to_low_latency(1), 0x8000_0000);
    assert_eq!(convert_to_low_latency(2), 0x8000_0002);
}

#[test]
fn representation_is_idempotent() {
    for bits in [0u32, 1, 0x8F7F_FF00, 0xFFFF_FFFF, 0x1234_5678] {
        let v = LowLatencyFloat::from_bits(bits);
        assert_eq!(LowLatencyFloat::from_bits(v.representation()).representation(), v.representation());
        let w = StandardFloat::from_bits(bits);
        assert_eq!(StandardFloat::from_bits(w.representation()).representation(), w.representation());
    }
}

#[test]
fn from_impls_agree_with_methods() {
    let l: LowLatencyFloat = 0x8F7F_FF00u32.into();
    assert_eq!(l.representation(), 0x8F7F_FF00);
    let s: StandardFloat = l.into();
    assert_eq!(s.representation(), 0x477F_FF00);
    let back: LowLatencyFloat = s.into();
    assert_eq!(back.representation(), 0x8F7F_FF00);
    let z: StandardFloat = StandardFloat::from(0u32);
    assert_eq!(LowLatencyFloat::from(z).representation(), 0);
}
