use push_to_talk::sample::{
    decode_pcm16, dequantize, encode_pcm16, normalize_signed, normalize_unsigned, power_of_two,
    quantize, FULL_SCALE,
};

fn reference(sample: f32) -> i16 {
    if sample.is_nan() {
        0
    } else {
        ((sample.clamp(-1.0, 1.0) as f64) * 32767.0).round() as i16
    }
}

#[test]
fn full_scale_samples_encode_to_the_largest_amplitudes() {
    assert_eq!(quantize(1.0f32.to_bits()), 32767);
    assert_eq!(quantize((-1.0f32).to_bits()), -32767);
    assert_eq!(FULL_SCALE, 32767);
}

#[test]
fn samples_beyond_full_scale_are_clamped_not_wrapped() {
    for sample in [1.0001f32, 1.5, 2.0, 100.0, 3.0e38, f32::MAX, f32::INFINITY] {
        assert_eq!(quantize(sample.to_bits()), 32767, "{}", sample);
        assert_eq!(quantize((-sample).to_bits()), -32767, "{}", sample);
    }
}

#[test]
fn silence_and_what_is_no_number() {
    assert_eq!(quantize(0.0f32.to_bits()), 0);
    assert_eq!(quantize((-0.0f32).to_bits()), 0);
    assert_eq!(quantize(f32::NAN.to_bits()), 0);
    assert_eq!(quantize(0x7f80_0001), 0);
    assert_eq!(quantize(0xffc0_0000), 0);
    assert_eq!(quantize(f32::MIN_POSITIVE.to_bits()), 0);
    assert_eq!(quantize(1), 0);
}

#[test]
fn halves_round_away_from_zero() {
    assert_eq!(quantize(0.5f32.to_bits()), 16384);
    assert_eq!(quantize((-0.5f32).to_bits()), -16384);
    assert_eq!(quantize(0.25f32.to_bits()), 8192);
    assert_eq!(quantize((0.5f32 / 32767.0).to_bits()), reference(0.5 / 32767.0));
    assert_eq!(quantize(0.1f32.to_bits()), 3277);
    assert_eq!(quantize((-0.1f32).to_bits()), -3277);
    assert_eq!(quantize(0.00001f32.to_bits()), 0);
    assert_eq!(quantize(0.00002f32.to_bits()), 1);
}

#[test]
fn quantize_agrees_with_exact_arithmetic_on_many_samples() {
    let mut state: u32 = 0x1234_5678;
    for _ in 0..200_000 {
        state = state.wrapping_mul(1664525).wrapping_add(1013904223);
        let sample = f32::from_bits(state);
        assert_eq!(quantize(state), reference(sample), "{:#x}", state);
    }
    for step in 0..=65534u32 {
        let sample = (step as f32 - 32767.0) / 32767.0;
        assert_eq!(quantize(sample.to_bits()), reference(sample), "{}", sample);
    }
}

#[test]
fn dequantize_divides_by_32768() {
    for level in i16::MIN..=i16::MAX {
        let sample = f32::from_bits(dequantize(level));
        assert_eq!(sample, level as f32 / 32768.0, "{}", level);
    }
    assert_eq!(dequantize(0), 0);
    assert_eq!(f32::from_bits(dequantize(i16::MIN)), -1.0);
    assert_eq!(f32::from_bits(dequantize(16384)), 0.5);
}

#[test]
fn round_trip_holds_up_to_half_scale() {
    for level in i16::MIN..=i16::MAX {
        let back = quantize(dequantize(level));
        if (-16384..=16384).contains(&level) {
            assert_eq!(back, level);
        } else {
            assert_ne!(back, level);
            assert_eq!((back as i32 - level as i32).abs(), 1);
        }
    }
}

#[test]
fn pcm_encoding_of_samples() {
    let samples: Vec<u32> =
        [0.0f32, 1.0, -1.0, 0.5, -0.5, 2.0].iter().map(|s| s.to_bits()).collect();
    assert_eq!(
        encode_pcm16(&samples),
        vec![0, 0, 0xff, 0x7f, 0x01, 0x80, 0x00, 0x40, 0x00, 0xc0, 0xff, 0x7f]
    );
    assert_eq!(encode_pcm16(&[]), Vec::<u8>::new());
}

#[test]
fn pcm_decoding_to_samples() {
    let samples: Vec<f32> =
        decode_pcm16(&[0, 0, 0x00, 0x40, 0x00, 0x80, 0xff, 0x7f, 9]).into_iter().map(f32::from_bits).collect();
    assert_eq!(samples, vec![0.0, 0.5, -1.0, 32767.0 / 32768.0]);
}

#[test]
fn pcm_bytes_of_quiet_audio_round_trip() {
    let bytes: Vec<u8> = vec![0x00, 0x40, 0x00, 0xc0, 0x34, 0x12, 0xcc, 0xed, 0, 0, 1, 0, 0xff, 0xff];
    assert_eq!(encode_pcm16(&decode_pcm16(&bytes)), bytes);
    let loud: Vec<u8> = vec![0xff, 0x7f];
    assert_eq!(encode_pcm16(&decode_pcm16(&loud)), vec![0xfe, 0x7f]);
}

#[test]
fn powers_of_two() {
    assert_eq!(power_of_two(0), 1);
    assert_eq!(power_of_two(1), 2);
    assert_eq!(power_of_two(39), 1 << 39);
    assert_eq!(power_of_two(63), 1 << 63);
}

#[test]
fn signed_device_samples_are_divided_by_32767() {
    for level in i16::MIN..=i16::MAX {
        let sample = f32::from_bits(normalize_signed(level));
        assert_eq!(sample, level as f32 / 32767.0, "{}", level);
    }
    assert_eq!(f32::from_bits(normalize_signed(32767)), 1.0);
    assert_eq!(f32::from_bits(normalize_signed(-32767)), -1.0);
    assert_eq!(normalize_signed(0), 0);
}

#[test]
fn unsigned_device_samples_are_centred_and_divided_by_32768() {
    for level in u16::MIN..=u16::MAX {
        let sample = f32::from_bits(normalize_unsigned(level));
        assert_eq!(sample, (level as f32 - 32768.0) / 32768.0, "{}", level);
    }
    assert_eq!(f32::from_bits(normalize_unsigned(0)), -1.0);
    assert_eq!(f32::from_bits(normalize_unsigned(32768)), 0.0);
}

#[test]
fn full_scale_device_samples_keep_their_amplitude() {
    assert_eq!(quantize(normalize_signed(32767)), 32767);
    assert_eq!(quantize(normalize_signed(-32767)), -32767);
    assert_eq!(quantize(normalize_signed(-32768)), -32767);
    assert_eq!(quantize(normalize_unsigned(0)), -32767);
    assert_eq!(quantize(normalize_unsigned(65535)), 32766);
    for level in [-20000i16, -1, 1, 5, 12345, 32766] {
        assert_eq!(quantize(normalize_signed(level)), level);
    }
}
