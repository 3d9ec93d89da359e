//! G.711 pulse code modulation: 16-bit linear samples to 8-bit code words and back.
//!
//! Both laws share one quantiser: the magnitude of a sample is cut to a 7-bit level
//! (steps of 256, clipped at 127), a sign bit is put above it, and the resulting byte
//! is inverted with a law-specific mask (all bits for mu-law, alternate bits for A-law).

use vstd::prelude::*;

verus! {

/// G.711 codec variants
#[derive(Debug, Clone, Copy, PartialEq, Eq, Structural)]
pub enum G711Law {
    /// mu-law encoding (used in North America and Japan)
    MuLaw,
    /// A-law encoding (used in Europe and rest of world)
    ALaw,
}

/// Bit pattern by which every code word of the given law is inverted on the wire.
pub open spec fn inversion_mask(law: G711Law) -> u8 {
    match law {
        G711Law::MuLaw => 0xFF,
        G711Law::ALaw => 0x55,
    }
}

/// Magnitude of a sample as a mathematical integer (32768 for `i16::MIN`).
pub open spec fn magnitude(sample: i16) -> int {
    if sample < 0 {
        -sample
    } else {
        sample as int
    }
}

/// The 7-bit quantisation level of a sample: its magnitude in steps of 256,
/// clipped to 127 for magnitudes outside the 15-bit range.
pub open spec fn level(sample: i16) -> int {
    if magnitude(sample) > 32767 {
        127
    } else {
        magnitude(sample) / 256
    }
}

/// The sign bit of a code word before inversion.
pub open spec fn sign_bit(sample: i16) -> u8 {
    if sample < 0 {
        0x80
    } else {
        0
    }
}

/// The code word that a sample is encoded to under the given law.
pub open spec fn code_word(law: G711Law, sample: i16) -> u8 {
    (sign_bit(sample) | (level(sample) as u8)) ^ inversion_mask(law)
}

/// The linear value that a code word decodes to under the given law.
pub open spec fn linear_value(law: G711Law, code: u8) -> int {
    let bits = code ^ inversion_mask(law);
    let mag = (bits & 0x7F) as int * 256;
    if bits & 0x80 != 0 {
        -mag
    } else {
        mag
    }
}

/// What a sample becomes after one encode and decode: its level times 256, with its sign.
pub open spec fn quantized(sample: i16) -> int {
    if sample < 0 {
        -(level(sample) * 256)
    } else {
        level(sample) * 256
    }
}

/// The bits of a code word before inversion: a sign bit above a 7-bit level.
proof fn lemma_code_word_fields(sign: u8, lvl: u8, mask: u8)
    by (bit_vector)
    requires
        sign == 0 || sign == 0x80,
        lvl < 128,
    ensures
        (((sign | lvl) ^ mask) ^ mask) & 0x7F == lvl,
        ((((sign | lvl) ^ mask) ^ mask) & 0x80 != 0) == (sign == 0x80),
{
}

/// A code word is its sign field and its level field put together again.
proof fn lemma_code_word_split(code: u8, mask: u8)
    by (bit_vector)
    ensures
        ((((code ^ mask) & 0x80) | ((code ^ mask) & 0x7F)) ^ mask) == code,
        (code ^ mask) & 0x7F < 128,
        (code ^ mask) & 0x80 == 0 || (code ^ mask) & 0x80 == 0x80,
        ((code ^ 0x80) ^ mask) & 0x7F == (code ^ mask) & 0x7F,
        (((code ^ 0x80) ^ mask) & 0x80 != 0) == ((code ^ mask) & 0x80 == 0),
{
}

/// The level of a sample lies in 0..=127.
proof fn lemma_level_range(sample: i16)
    ensures
        0 <= level(sample) <= 127,
{
}

/// Decoding the code word of a sample gives the sample quantised: its magnitude
/// cut down to a multiple of 256 (at most 32512), with its sign kept.
pub proof fn lemma_roundtrip(law: G711Law, sample: i16)
    ensures
        linear_value(law, code_word(law, sample)) == quantized(sample),
{
    lemma_level_range(sample);
    lemma_code_word_fields(sign_bit(sample), level(sample) as u8, inversion_mask(law));
}

/// The layout of a code word. With the law's inversion undone (every bit for mu-law,
/// 0x55 for A-law), bit 7 is set exactly for negative samples and the low seven bits
/// hold the sample's magnitude divided by 256; the one magnitude beyond 15 bits
/// (32768, of `i16::MIN`) is clipped to 127.
pub proof fn lemma_code_word_layout(sample: i16)
    ensures
        ((code_word(G711Law::MuLaw, sample) ^ 0xFF) & 0x7F) as int == if sample == i16::MIN {
            127
        } else if sample < 0 {
            (-sample) / 256
        } else {
            sample / 256
        },
        ((code_word(G711Law::MuLaw, sample) ^ 0xFF) & 0x80 != 0) == (sample < 0),
        ((code_word(G711Law::ALaw, sample) ^ 0x55) & 0x7F) as int == if sample == i16::MIN {
            127
        } else if sample < 0 {
            (-sample) / 256
        } else {
            sample / 256
        },
        ((code_word(G711Law::ALaw, sample) ^ 0x55) & 0x80 != 0) == (sample < 0),
{
    lemma_level_range(sample);
    lemma_code_word_fields(sign_bit(sample), level(sample) as u8, 0xFF);
    lemma_code_word_fields(sign_bit(sample), level(sample) as u8, 0x55);
}

/// The value of a code word. With the law's inversion undone (every bit for mu-law,
/// 0x55 for A-law), the low seven bits times 256 are the magnitude, and bit 7 makes
/// it negative.
pub proof fn lemma_linear_value_layout(code: u8)
    ensures
        linear_value(G711Law::MuLaw, code) == if (code ^ 0xFF) & 0x80 != 0 {
            -(((code ^ 0xFF) & 0x7F) as int * 256)
        } else {
            ((code ^ 0xFF) & 0x7F) as int * 256
        },
        linear_value(G711Law::ALaw, code) == if (code ^ 0x55) & 0x80 != 0 {
            -(((code ^ 0x55) & 0x7F) as int * 256)
        } else {
            ((code ^ 0x55) & 0x7F) as int * 256
        },
{
}

/// The quantisation error of one encode and decode is under one step of 256,
/// and quantisation moves a sample towards zero; only `i16::MIN`, which lies outside
/// the coded range, is clipped to -32512, one full step away.
pub proof fn lemma_quantization_error(sample: i16)
    ensures
        0 <= sample ==> sample - 256 < quantized(sample) <= sample,
        i16::MIN < sample < 0 ==> sample <= quantized(sample) < sample + 256,
        sample == i16::MIN ==> quantized(sample) == -32512,
{
}

/// Quantisation keeps the order of samples.
pub proof fn lemma_quantized_monotone(a: i16, b: i16)
    requires
        a <= b,
    ensures
        quantized(a) <= quantized(b),
{
    if 0 <= a {
        vstd::arithmetic::div_mod::lemma_div_is_ordered(a as int, b as int, 256);
    } else if b < 0 {
        if b > i16::MIN {
            vstd::arithmetic::div_mod::lemma_div_is_ordered(-b, -a, 256);
        }
    }
}

/// Every code word decodes to a multiple of 256 between -32512 and 32512.
pub proof fn lemma_linear_value_range(law: G711Law, code: u8)
    ensures
        -32512 <= linear_value(law, code) <= 32512,
        linear_value(law, code) % 256 == 0,
{
    lemma_code_word_split(code, inversion_mask(law));
}

/// Encoding the value of a code word gives the code word back, for every code
/// word but the one that stands for "negative zero".
pub proof fn lemma_reencode(law: G711Law, code: u8)
    requires
        code ^ inversion_mask(law) != 0x80,
    ensures
        code_word(law, linear_value(law, code) as i16) == code,
{
    let mask = inversion_mask(law);
    let bits = code ^ mask;
    lemma_code_word_split(code, mask);
    let v = linear_value(law, code) as i16;
    assert(v == linear_value(law, code));
    assert(level(v) == (bits & 0x7F) as int);
    assert(sign_bit(v) == bits & 0x80) by {
        if bits & 0x80 != 0 {
            assert(bits & 0x7F != 0) by (bit_vector)
                requires
                    bits != 0x80,
                    bits & 0x80 != 0,
            ;
        }
    }
}

/// The "negative zero" code word that [`lemma_reencode`] leaves out is 0x7F for
/// mu-law and 0xD5 for A-law.
pub proof fn lemma_negative_zero_codes(code: u8)
    ensures
        (code ^ inversion_mask(G711Law::MuLaw) == 0x80) <==> code == 0x7F,
        (code ^ inversion_mask(G711Law::ALaw) == 0x80) <==> code == 0xD5,
        linear_value(G711Law::MuLaw, 0x7F) == 0,
        linear_value(G711Law::ALaw, 0xD5) == 0,
{
    assert((code ^ 0xFFu8 == 0x80u8) <==> code == 0x7Fu8) by (bit_vector);
    assert((code ^ 0x55u8 == 0x80u8) <==> code == 0xD5u8) by (bit_vector);
    assert((0x7Fu8 ^ 0xFFu8) == 0x80u8 && (0x80u8 & 0x7Fu8) == 0u8) by (bit_vector);
    assert((0xD5u8 ^ 0x55u8) == 0x80u8) by (bit_vector);
}

/// Decoding, encoding again and decoding again gives the first decoded value:
/// the value of a code word is its own quantisation.
pub proof fn lemma_decode_stable(law: G711Law, code: u8)
    ensures
        linear_value(law, code_word(law, linear_value(law, code) as i16)) == linear_value(
            law,
            code,
        ),
{
    let mask = inversion_mask(law);
    lemma_code_word_split(code, mask);
    let v = linear_value(law, code) as i16;
    assert(v == linear_value(law, code));
    lemma_roundtrip(law, v);
}

/// A sample and its negation are encoded to code words that differ only in the
/// sign bit, so they never coincide.
pub proof fn lemma_sign_symmetry(law: G711Law, sample: i16)
    requires
        sample > 0,
    ensures
        code_word(law, (-sample) as i16) == code_word(law, sample) ^ 0x80,
        code_word(law, (-sample) as i16) != code_word(law, sample),
{
    let neg = (-sample) as i16;
    assert(level(neg) == level(sample));
    let lvl = level(sample) as u8;
    let mask = inversion_mask(law);
    lemma_level_range(sample);
    assert(((0x80u8 | lvl) ^ mask) == ((0u8 | lvl) ^ mask) ^ 0x80) by (bit_vector)
        requires
            lvl < 128,
    ;
    assert(((0u8 | lvl) ^ mask) ^ 0x80 != ((0u8 | lvl) ^ mask)) by (bit_vector);
}

/// Flipping the sign bit of a code word negates its value.
pub proof fn lemma_decode_odd(law: G711Law, code: u8)
    ensures
        linear_value(law, code ^ 0x80) == -linear_value(law, code),
{
    lemma_code_word_split(code, inversion_mask(law));
}

/// Encode a sample with mu-law.
fn encode_mu_law(sample: i16) -> (code: u8)
    ensures
        code == code_word(G711Law::MuLaw, sample),
{
    let sign: u8 = if sample < 0 {
        0x80
    } else {
        0x00
    };
    let magnitude: u32 = if sample < 0 {
        (0i32 - sample as i32) as u32
    } else {
        sample as u32
    };
    let quantized: u8 = if magnitude > 32767 {
        127
    } else {
        assert((magnitude >> 8u32) == magnitude / 256 && magnitude / 256 < 128) by (bit_vector)
            requires
                magnitude <= 32767,
        ;
        (magnitude >> 8) as u8
    };
    (sign | quantized) ^ 0xFF
}

/// Decode a mu-law code word.
fn decode_mu_law(encoded: u8) -> (sample: i16)
    ensures
        sample == linear_value(G711Law::MuLaw, encoded),
{
    let decoded = encoded ^ 0xFF;
    let sign = (decoded & 0x80) != 0;
    assert(decoded & 0x7F <= 127) by (bit_vector);
    let magnitude = (decoded & 0x7F) as i16;
    assert(magnitude << 8i16 == magnitude * 256) by (bit_vector)
        requires
            0 <= magnitude <= 127,
    ;
    let linear = magnitude << 8;
    if sign {
        -linear
    } else {
        linear
    }
}

/// Encode a sample with A-law.
fn encode_a_law(sample: i16) -> (code: u8)
    ensures
        code == code_word(G711Law::ALaw, sample),
{
    let sign: u8 = if sample < 0 {
        0x80
    } else {
        0x00
    };
    let magnitude: u32 = if sample < 0 {
        (0i32 - sample as i32) as u32
    } else {
        sample as u32
    };
    let quantized: u8 = if magnitude > 32767 {
        127
    } else {
        assert((magnitude >> 8u32) == magnitude / 256 && magnitude / 256 < 128) by (bit_vector)
            requires
                magnitude <= 32767,
        ;
        (magnitude >> 8) as u8
    };
    (sign | quantized) ^ 0x55
}

/// Decode an A-law code word.
fn decode_a_law(encoded: u8) -> (sample: i16)
    ensures
        sample == linear_value(G711Law::ALaw, encoded),
{
    let decoded = encoded ^ 0x55;
    let sign = (decoded & 0x80) != 0;
    assert(decoded & 0x7F <= 127) by (bit_vector);
    let magnitude = (decoded & 0x7F) as i16;
    assert(magnitude << 8i16 == magnitude * 256) by (bit_vector)
        requires
            0 <= magnitude <= 127,
    ;
    let linear = magnitude << 8;
    if sign {
        -linear
    } else {
        linear
    }
}

/// G.711 codec for encoding/decoding audio samples
#[derive(Debug)]
pub struct G711Codec {
    law: G711Law,
}

impl Clone for G711Codec {
    fn clone(&self) -> (codec: Self)
        ensures
            codec@ == self@,
    {
        Self { law: self.law }
    }
}

impl View for G711Codec {
    type V = G711Law;

    /// A codec is known by its law.
    closed spec fn view(&self) -> G711Law {
        self.law
    }
}

impl G711Codec {
    /// Create a new G.711 codec with the specified law
    pub fn new(law: G711Law) -> (codec: Self)
        ensures
            codec@ == law,
    {
        Self { law }
    }

    /// Create a mu-law codec
    pub fn mu_law() -> (codec: Self)
        ensures
            codec@ == G711Law::MuLaw,
    {
        Self::new(G711Law::MuLaw)
    }

    /// Create an A-law codec
    pub fn a_law() -> (codec: Self)
        ensures
            codec@ == G711Law::ALaw,
    {
        Self::new(G711Law::ALaw)
    }

    /// Encode a 16-bit linear PCM sample to 8-bit G.711
    pub fn encode(&self, sample: i16) -> (code: u8)
        ensures
            code == code_word(self@, sample),
    {
        match self.law {
            G711Law::MuLaw => encode_mu_law(sample),
            G711Law::ALaw => encode_a_law(sample),
        }
    }

    /// Decode an 8-bit G.711 sample to 16-bit linear PCM
    pub fn decode(&self, encoded: u8) -> (sample: i16)
        ensures
            sample == linear_value(self@, encoded),
    {
        match self.law {
            G711Law::MuLaw => decode_mu_law(encoded),
            G711Law::ALaw => decode_a_law(encoded),
        }
    }

    /// Encode a buffer of 16-bit samples to G.711.
    ///
    /// As many samples are encoded as both buffers have room for; the rest of
    /// `output` is left as it was.
    pub fn encode_buffer(&self, input: &[i16], output: &mut [u8])
        ensures
            final(output)@.len() == old(output)@.len(),
            forall|i: int|
                0 <= i < old(output)@.len() ==> #[trigger] final(output)@[i] == if i
                    < input@.len() {
                    code_word(self@, input@[i])
                } else {
                    old(output)@[i]
                },
    {
        let len = if input.len() < output.len() {
            input.len()
        } else {
            output.len()
        };
        for i in 0..len
            invariant
                len <= input@.len(),
                len <= old(output)@.len(),
                len == input@.len() || len == old(output)@.len(),
                output@.len() == old(output)@.len(),
                forall|j: int|
                    0 <= j < old(output)@.len() ==> #[trigger] output@[j] == if j < i {
                        code_word(self@, input@[j])
                    } else {
                        old(output)@[j]
                    },
        {
            output[i] = self.encode(input[i]);
        }
    }

    /// Decode a buffer of G.711 samples to 16-bit PCM.
    ///
    /// As many code words are decoded as both buffers have room for; the rest of
    /// `output` is left as it was.
    pub fn decode_buffer(&self, input: &[u8], output: &mut [i16])
        ensures
            final(output)@.len() == old(output)@.len(),
            forall|i: int|
                0 <= i < old(output)@.len() ==> #[trigger] final(output)@[i] == if i
                    < input@.len() {
                    linear_value(self@, input@[i])
                } else {
                    old(output)@[i] as int
                },
    {
        let len = if input.len() < output.len() {
            input.len()
        } else {
            output.len()
        };
        for i in 0..len
            invariant
                len <= input@.len(),
                len <= old(output)@.len(),
                len == input@.len() || len == old(output)@.len(),
                output@.len() == old(output)@.len(),
                forall|j: int|
                    0 <= j < old(output)@.len() ==> #[trigger] output@[j] == if j < i {
                        linear_value(self@, input@[j])
                    } else {
                        old(output)@[j] as int
                    },
        {
            output[i] = self.decode(input[i]);
        }
    }

    /// Get the law type
    pub fn law(&self) -> (law: G711Law)
        ensures
            law == self@,
    {
        self.law
    }
}

} // verus!
