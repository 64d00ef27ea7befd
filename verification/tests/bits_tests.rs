//! The bit-level widenings, held against reference float arithmetic.

use uniform_core::bits::{f16_widen_bits, norm_channel_bits};

#[test]
fn f16_widening_matches_reference_for_all_numeric_patterns() {
    for h in 0u32..=0xFFFF {
        let h = h as u16;
        let exp = (h >> 10) & 0x1F;
        let man = h & 0x3FF;
        if exp == 0x1F && man != 0 {
            continue; // NaN payloads are checked separately.
        }
        let got = f16_widen_bits(h);
        let want = half::f16::from_bits(h).to_f32().to_bits();
        assert_eq!(got, want, "pattern {:#06x}", h);
    }
}

#[test]
fn f16_widening_keeps_nans_nan() {
    for h in [0x7C01u16, 0x7DFF, 0x7FFF, 0xFC01, 0xFFFF, 0xFE00] {
        let wide = f32::from_bits(f16_widen_bits(h));
        assert!(wide.is_nan(), "pattern {:#06x}", h);
        assert!(half::f16::from_bits(h).to_f32().is_nan());
    }
}

#[test]
fn f16_widening_spot_values() {
    assert_eq!(f16_widen_bits(0x0000), 0.0f32.to_bits());
    assert_eq!(f16_widen_bits(0x8000), (-0.0f32).to_bits());
    assert_eq!(f16_widen_bits(0x3C00), 1.0f32.to_bits());
    assert_eq!(f16_widen_bits(0xC000), (-2.0f32).to_bits());
    assert_eq!(f16_widen_bits(0x7BFF), 65504.0f32.to_bits());
    assert_eq!(f16_widen_bits(0x7C00), f32::INFINITY.to_bits());
    assert_eq!(f16_widen_bits(0xFC00), f32::NEG_INFINITY.to_bits());
    // Smallest subnormal: 2^-24.
    assert_eq!(f16_widen_bits(0x0001), 2.0f32.powi(-24).to_bits());
}

#[test]
fn channel_normalization_matches_float_division_for_all_channels() {
    for c in 0u32..=255 {
        let c = c as u8;
        let got = f32::from_bits(norm_channel_bits(c));
        let want = c as f32 / 255.0;
        assert_eq!(got.to_bits(), want.to_bits(), "channel {}", c);
    }
}

#[test]
fn channel_normalization_spot_values() {
    assert_eq!(f32::from_bits(norm_channel_bits(0)), 0.0);
    assert_eq!(f32::from_bits(norm_channel_bits(255)), 1.0);
    assert!((f32::from_bits(norm_channel_bits(128)) - 0.50196).abs() < 1e-5);
}
