use vocoder_rs::g711::{G711Codec, G711Law};

#[test]
fn test_mu_law_basic_functionality() {
    let codec = G711Codec::mu_law();

    // Test basic encode/decode functionality with simple values
    let test_samples = [0, 256, -256, 1024, -1024];

    for sample in test_samples {
        let encoded = codec.encode(sample);
        let decoded = codec.decode(encoded);

        // Due to quantization, allow reasonable tolerance for this simple implementation
        let diff = (decoded - sample).abs();
        assert!(diff <= 1000,
            "μ-law roundtrip failed for {}: encoded=0x{:02X}, decoded={}, diff={}",
            sample, encoded, decoded, diff);
    }
}

#[test]
fn test_a_law_basic_functionality() {
    let codec = G711Codec::a_law();

    // Test basic encode/decode functionality with simple values
    let test_samples = [0, 256, -256, 1024, -1024];

    for sample in test_samples {
        let encoded = codec.encode(sample);
        let decoded = codec.decode(encoded);

        // Due to quantization, allow reasonable tolerance for this simple implementation
        let diff = (decoded - sample).abs();
        assert!(diff <= 1000,
            "A-law roundtrip failed for {}: encoded=0x{:02X}, decoded={}, diff={}",
            sample, encoded, decoded, diff);
    }
}

#[test]
fn test_codec_creation() {
    let mu_codec = G711Codec::mu_law();
    assert_eq!(mu_codec.law(), G711Law::MuLaw);

    let a_codec = G711Codec::a_law();
    assert_eq!(a_codec.law(), G711Law::ALaw);

    let custom_mu = G711Codec::new(G711Law::MuLaw);
    assert_eq!(custom_mu.law(), G711Law::MuLaw);

    let custom_a = G711Codec::new(G711Law::ALaw);
    assert_eq!(custom_a.law(), G711Law::ALaw);
}

#[test]
fn test_buffer_operations() {
    let codec = G711Codec::mu_law();

    let input = [256, -512, 768, -1024, 1280];
    let mut encoded = [0u8; 5];
    let mut decoded = [0i16; 5];

    // Test buffer encoding
    codec.encode_buffer(&input, &mut encoded);

    // Test buffer decoding
    codec.decode_buffer(&encoded, &mut decoded);

    // Verify roundtrip works (with tolerance for this simple implementation)
    for i in 0..input.len() {
        let diff = (decoded[i] - input[i]).abs();
        assert!(diff <= 1000,
            "Buffer roundtrip failed at index {}: original {}, decoded {}, diff {}",
            i, input[i], decoded[i], diff);
    }
}

#[test]
fn test_basic_symmetry() {
    let mu_codec = G711Codec::mu_law();
    let a_codec = G711Codec::a_law();

    // Test that positive and negative values produce different encodings
    let positive = 1024i16;
    let negative = -1024i16;

    let mu_pos = mu_codec.encode(positive);
    let mu_neg = mu_codec.encode(negative);
    assert_ne!(mu_pos, mu_neg, "μ-law symmetry test failed");

    let a_pos = a_codec.encode(positive);
    let a_neg = a_codec.encode(negative);
    assert_ne!(a_pos, a_neg, "A-law symmetry test failed");
}

#[test]
fn test_zero_value() {
    let mu_codec = G711Codec::mu_law();
    let a_codec = G711Codec::a_law();

    // Test zero encoding/decoding
    let mu_encoded = mu_codec.encode(0);
    let mu_decoded = mu_codec.decode(mu_encoded);
    assert_eq!(mu_decoded, 0, "μ-law zero test failed");

    let a_encoded = a_codec.encode(0);
    let a_decoded = a_codec.decode(a_encoded);
    assert_eq!(a_decoded, 0, "A-law zero test failed");
}

fn codecs() -> [G711Codec; 2] {
    [G711Codec::mu_law(), G711Codec::a_law()]
}

#[test]
fn exact_code_words() {
    let mu = G711Codec::mu_law();
    let a = G711Codec::a_law();
    // sign bit 0, level 3 (1000 / 256), inverted
    assert_eq!(mu.encode(1000), 0x03 ^ 0xFF);
    assert_eq!(a.encode(1000), 0x03 ^ 0x55);
    // sign bit 1, level 4
    assert_eq!(mu.encode(-1024), 0x84 ^ 0xFF);
    assert_eq!(a.encode(-1024), 0x84 ^ 0x55);
    assert_eq!(mu.encode(0), 0xFF);
    assert_eq!(a.encode(0), 0x55);
    assert_eq!(mu.encode(32767), 0x7F ^ 0xFF);
    assert_eq!(mu.decode(0x7F ^ 0xFF), 32512);
    assert_eq!(a.decode(0x84 ^ 0x55), -1024);
}

#[test]
fn roundtrip_quantizes_exactly() {
    let mu = G711Codec::mu_law();
    assert_eq!(mu.decode(mu.encode(1000)), 768);
    assert_eq!(mu.decode(mu.encode(-1000)), -768);
    assert_eq!(mu.decode(mu.encode(255)), 0);
    assert_eq!(mu.decode(mu.encode(-255)), 0);
    assert_eq!(mu.decode(mu.encode(256)), 256);
}

#[test]
fn minimum_sample_is_clipped() {
    let mu = G711Codec::mu_law();
    let a = G711Codec::a_law();
    assert_eq!(mu.encode(i16::MIN), 0x00);
    assert_eq!(a.encode(i16::MIN), 0xAA);
    assert_eq!(mu.decode(mu.encode(i16::MIN)), -32512);
    assert_eq!(a.decode(a.encode(i16::MIN)), -32512);
}

#[test]
fn quantization_error_below_one_step_for_every_sample() {
    for codec in codecs() {
        for s in i16::MIN..=i16::MAX {
            let d = codec.decode(codec.encode(s)) as i32;
            let s = s as i32;
            if s >= 0 {
                assert!(s - 256 < d && d <= s);
            } else if s > i16::MIN as i32 {
                assert!(s <= d && d < s + 256);
            } else {
                assert_eq!(d, -32512);
            }
        }
    }
}

#[test]
fn quantization_is_monotone() {
    for codec in codecs() {
        let mut previous = codec.decode(codec.encode(i16::MIN));
        for s in (i16::MIN + 1)..=i16::MAX {
            let d = codec.decode(codec.encode(s));
            assert!(previous <= d);
            previous = d;
        }
    }
}

#[test]
fn every_code_word_reencodes_except_negative_zero() {
    for (codec, mask) in codecs().into_iter().zip([0xFFu8, 0x55u8]) {
        for c in 0u8..=255 {
            let v = codec.decode(c);
            assert!(v % 256 == 0 && (-32512..=32512).contains(&v));
            if c ^ mask != 0x80 {
                assert_eq!(codec.encode(v), c);
            } else {
                assert_eq!(v, 0);
                assert_eq!(codec.encode(v), mask);
            }
            assert_eq!(codec.decode(codec.encode(v)), v);
            assert_eq!(codec.decode(c ^ 0x80), -v);
        }
    }
}

#[test]
fn negation_flips_only_the_sign_bit() {
    for codec in codecs() {
        for s in 1..=i16::MAX {
            assert_eq!(codec.encode(-s), codec.encode(s) ^ 0x80);
        }
    }
}

#[test]
fn shorter_output_buffer_limits_encoding() {
    let codec = G711Codec::a_law();
    let input = [256i16, -512, 768];
    let mut out = [7u8; 2];
    codec.encode_buffer(&input, &mut out);
    assert_eq!(out, [codec.encode(256), codec.encode(-512)]);
}

#[test]
fn longer_output_buffer_keeps_its_tail() {
    let codec = G711Codec::mu_law();
    let input = [codec.encode(512), codec.encode(-768)];
    let mut out = [9i16; 4];
    codec.decode_buffer(&input, &mut out);
    assert_eq!(out, [512, -768, 9, 9]);
    let mut codes = [1u8; 3];
    codec.encode_buffer(&[], &mut codes);
    assert_eq!(codes, [1, 1, 1]);
}

#[test]
fn cloned_codec_keeps_its_law() {
    let codec = G711Codec::a_law();
    let copy = codec.clone();
    assert_eq!(copy.law(), G711Law::ALaw);
}
