//! Samples between -1 and 1 as the device and the conversions hold them:
//! IEEE 754 single-precision numbers, taken here by their bit patterns, so
//! that what becomes of them can be said in whole numbers.

use crate::pcm::{pcm_bytes, pcm_samples, sample_from_bytes, sample_to_bytes};
use vstd::arithmetic::div_mod::lemma_div_multiples_vanish_quotient;
use vstd::arithmetic::div_mod::lemma_fundamental_div_mod_converse;
use vstd::arithmetic::power2::{
    lemma2_to64, lemma_pow2_adds, lemma_pow2_pos, lemma_pow2_strictly_increases, pow2,
};
use vstd::prelude::*;

verus! {

/// The largest amplitude of 16-bit PCM that a sample is scaled to.
pub const FULL_SCALE: u64 = 32767;

/// The sign of a pattern: 1 for a negative number.
pub open spec fn sign_of(bits: u32) -> nat {
    bits as nat / 0x8000_0000
}

/// The exponent field of a pattern.
pub open spec fn exponent_of(bits: u32) -> nat {
    (bits as nat / 0x80_0000) % 256
}

/// The fraction field of a pattern.
pub open spec fn fraction_of(bits: u32) -> nat {
    bits as nat % 0x80_0000
}

/// Whether a pattern stands for no number.
pub open spec fn is_nan(bits: u32) -> bool {
    exponent_of(bits) == 255 && fraction_of(bits) != 0
}

/// The magnitude of the number that a pattern stands for, multiplied by
/// two to the 149th, which makes it whole: the fraction alone for the
/// smallest numbers, else the mantissa with its leading one, shifted by
/// the exponent. An infinite number counts as one beyond every sample.
pub open spec fn magnitude(bits: u32) -> nat {
    if exponent_of(bits) == 0 {
        fraction_of(bits)
    } else {
        (0x80_0000 + fraction_of(bits)) * pow2((exponent_of(bits) - 1) as nat)
    }
}

/// The number one on the scale of [`magnitude`].
pub open spec fn unit() -> nat {
    pow2(149)
}

/// The whole number nearest to `n / d`; halves go up.
pub open spec fn nearest(n: nat, d: nat) -> nat
    recommends
        d > 0,
{
    (2 * n + d) / (2 * d)
}

/// The 16-bit amplitude of a sample: the sample is held between -1 and 1,
/// multiplied by 32767 and rounded to the nearest whole number, halves away
/// from zero. What is no number becomes silence.
pub open spec fn amplitude(bits: u32) -> int {
    let held = if magnitude(bits) <= unit() {
        magnitude(bits)
    } else {
        unit()
    };
    let size = nearest(FULL_SCALE as nat * held, unit());
    if is_nan(bits) {
        0
    } else if sign_of(bits) == 1 {
        -(size as int)
    } else {
        size as int
    }
}

/// Whether a pattern stands for the sample `amplitude / 32768`, exactly.
pub open spec fn is_sample_of(bits: u32, amplitude: int) -> bool {
    &&& magnitude(bits) == (if amplitude < 0 {
        -amplitude
    } else {
        amplitude
    }) * pow2(134)
    &&& sign_of(bits) == if amplitude < 0 {
        1nat
    } else {
        0nat
    }
    &&& !is_nan(bits)
}

/// Computes a power of two.
pub fn power_of_two(exponent: u32) -> (power: u64)
    requires
        exponent < 64,
    ensures
        power == pow2(exponent as nat),
{
    let mut power: u64 = 1;
    let mut done: u32 = 0;
    proof {
        lemma2_to64();
    }
    while done < exponent
        invariant
            done <= exponent < 64,
            power == pow2(done as nat),
        decreases exponent - done,
    {
        proof {
            lemma_pow2_adds(done as nat, 1);
            lemma2_to64();
            if done + 1 < 63 {
                lemma_pow2_strictly_increases((done + 1) as nat, 63);
            }
            vstd::arithmetic::power2::lemma2_to64_rest();
        }
        power = power * 2;
        done = done + 1;
    }
    power
}

/// Nothing lies between a whole number and itself: a quotient whose
/// numerator is below its denominator is zero.
proof fn lemma_small_quotient(n: nat, d: nat)
    requires
        n < d,
    ensures
        n / d == 0,
{
    lemma_fundamental_div_mod_converse(n as int, d as int, 0, n as int);
}

/// Rounding `n / d` where both hold the factor `k`.
proof fn lemma_nearest_cancels(n: nat, d: nat, k: nat)
    requires
        d > 0,
        k > 0,
    ensures
        nearest(k * n, k * d) == nearest(n, d),
{
    assert(2 * (k * n) + k * d == k * (2 * n + d)) by (nonlinear_arith);
    assert(2 * (k * d) == k * (2 * d)) by (nonlinear_arith);
    lemma_div_multiples_vanish_quotient(k as int, (2 * n + d) as int, (2 * d) as int);
}

/// The amplitude of a number that is one or more.
proof fn lemma_nearest_full(d: nat)
    requires
        d > 0,
    ensures
        nearest(FULL_SCALE as nat * d, d) == FULL_SCALE,
{
    assert(2 * (32767 * d) + d == 32767 * (2 * d) + d) by (nonlinear_arith);
    lemma_fundamental_div_mod_converse(
        (2 * (32767 * d) + d) as int,
        (2 * d) as int,
        32767,
        d as int,
    );
}

/// Turns a sample into its 16-bit amplitude.
pub fn quantize(bits: u32) -> (level: i16)
    ensures
        level == amplitude(bits),
        -32767 <= level <= 32767,
{
    let negative = bits / 0x8000_0000 == 1;
    let exponent = (bits / 0x80_0000) % 256;
    let fraction = bits % 0x80_0000;
    if exponent == 255 && fraction != 0 {
        return 0;
    }
    proof {
        lemma_pow2_pos(149);
        lemma2_to64();
        vstd::arithmetic::power2::lemma2_to64_rest();
    }
    let size: u64 = if exponent >= 127 {
        proof {
            let e = (exponent - 1) as nat;
            lemma_pow2_adds(23, 126);
            if e > 126 {
                lemma_pow2_strictly_increases(126, e);
            }
            assert(magnitude(bits) >= unit()) by (nonlinear_arith)
                requires
                    magnitude(bits) == (0x80_0000 + fraction) * pow2(e),
                    pow2(e) >= pow2(126),
                    unit() == 0x80_0000 * pow2(126),
                    fraction >= 0,
            ;
            lemma_nearest_full(unit());
        }
        32767
    } else if exponent == 0 {
        proof {
            lemma_pow2_strictly_increases(40, 149);
            assert(2 * (32767 * fraction) + unit() < 2 * unit()) by (nonlinear_arith)
                requires
                    fraction < 0x80_0000,
                    unit() > 0x100_0000_0000,
            ;
            lemma_small_quotient((2 * (32767 * fraction) + unit()) as nat, 2 * unit());
        }
        0
    } else {
        let shift: u32 = 150 - exponent;
        let mantissa: u64 = 0x80_0000 + fraction as u64;
        proof {
            let e = (exponent - 1) as nat;
            let s = shift as nat;
            lemma_pow2_adds(s, e);
            lemma_pow2_pos(s);
            lemma_pow2_pos(e);
            lemma_pow2_adds(24, 125);
            if e < 125 {
                lemma_pow2_strictly_increases(e, 125);
            }
            assert(magnitude(bits) < unit()) by (nonlinear_arith)
                requires
                    magnitude(bits) == mantissa * pow2(e),
                    mantissa < 0x100_0000,
                    pow2(e) <= pow2(125),
                    unit() == 0x100_0000 * pow2(125),
                    pow2(e) > 0,
            ;
            assert(32767 * (mantissa * pow2(e)) == pow2(e) * (32767 * mantissa))
                by (nonlinear_arith);
            lemma_nearest_cancels((32767 * mantissa) as nat, pow2(s), pow2(e));
            assert(pow2(e) * pow2(s) == unit()) by (nonlinear_arith)
                requires
                    pow2(s) * pow2(e) == unit(),
            ;
        }
        if shift >= 40 {
            proof {
                let s = shift as nat;
                if s > 40 {
                    lemma_pow2_strictly_increases(40, s);
                }
                assert(2 * (32767 * mantissa) + pow2(s) < 2 * pow2(s)) by (nonlinear_arith)
                    requires
                        mantissa < 0x100_0000,
                        pow2(s) >= 0x100_0000_0000,
                ;
                lemma_small_quotient((2 * (32767 * mantissa) + pow2(s)) as nat, 2 * pow2(s));
            }
            0
        } else {
            let half = power_of_two(shift - 1);
            let whole = power_of_two(shift);
            proof {
                let s = shift as nat;
                lemma_pow2_adds((s - 1) as nat, 1);
                lemma_pow2_strictly_increases(s, 40);
                lemma_pow2_strictly_increases(23, s);
                assert(whole == 2 * half);
                lemma_div_multiples_vanish_quotient(
                    2,
                    (32767 * mantissa + half) as int,
                    whole as int,
                );
                assert(2 * (32767 * mantissa + half) == 2 * (32767 * mantissa) + whole);
                assert((32767 * mantissa + half) / (whole as int) <= 32767) by (nonlinear_arith)
                    requires
                        mantissa < 0x100_0000,
                        whole >= 0x100_0000,
                        whole == 2 * half,
                ;
            }
            (32767 * mantissa + half) / whole
        }
    };
    if negative {
        -(size as i16)
    } else {
        size as i16
    }
}

/// Turns a 16-bit amplitude into the sample that is the amplitude divided
/// by 32768.
pub fn dequantize(level: i16) -> (bits: u32)
    ensures
        is_sample_of(bits, level as int),
{
    if level == 0 {
        return 0;
    }
    let negative = level < 0;
    let size: u32 = if negative {
        (-(level as i32)) as u32
    } else {
        level as u32
    };
    let mut mantissa: u32 = size;
    let mut exponent: u32 = 135;
    proof {
        lemma2_to64();
        assert(size * pow2(0) == size) by (nonlinear_arith)
            requires
                pow2(0) == 1,
        ;
    }
    while mantissa < 0x80_0000
        invariant
            1 <= size <= 32768,
            112 <= exponent <= 135,
            mantissa == size * pow2((135 - exponent) as nat),
            mantissa < 0x100_0000,
            mantissa * pow2((exponent - 1) as nat) == size * pow2(134),
        decreases exponent,
    {
        proof {
            let k = (135 - exponent) as nat;
            let e = (exponent - 1) as nat;
            lemma2_to64();
            lemma_pow2_adds(k, 1);
            lemma_pow2_adds((e - 1) as nat, 1);
            if exponent == 112 {
                assert(pow2(23) == 0x80_0000);
                assert(size * pow2(23) >= 0x80_0000) by (nonlinear_arith)
                    requires
                        size >= 1,
                        pow2(23) == 0x80_0000,
                ;
            }
            assert((2 * mantissa) * pow2((e - 1) as nat) == mantissa * pow2(e))
                by (nonlinear_arith)
                requires
                    pow2(e) == pow2((e - 1) as nat) * 2,
            ;
            assert(2 * mantissa == size * pow2(k + 1)) by (nonlinear_arith)
                requires
                    mantissa == size * pow2(k),
                    pow2(k + 1) == pow2(k) * 2,
            ;
        }
        mantissa = mantissa * 2;
        exponent = exponent - 1;
    }
    let sign: u32 = if negative {
        0x8000_0000
    } else {
        0
    };
    let bits = sign + exponent * 0x80_0000 + (mantissa - 0x80_0000);
    proof {
        assert(fraction_of(bits) == mantissa - 0x80_0000);
        assert(exponent_of(bits) == exponent);
        assert(sign_of(bits) == if negative {
            1nat
        } else {
            0nat
        });
    }
    bits
}

/// Whether a pattern stands for the number nearest to `level / 32767`
/// among those that a pattern can stand for: it has the sign of `level`,
/// and it lies less than half a step of its own exponent away.
pub open spec fn is_nearest_to_signed(bits: u32, level: int) -> bool {
    let size = if level < 0 {
        -level
    } else {
        level
    };
    let error = magnitude(bits) * FULL_SCALE - size * unit();
    if level == 0 {
        bits == 0
    } else {
        &&& !is_nan(bits)
        &&& sign_of(bits) == if level < 0 {
            1nat
        } else {
            0nat
        }
        &&& 1 <= exponent_of(bits) <= 127
        &&& 2 * error < FULL_SCALE * pow2((exponent_of(bits) - 1) as nat)
        &&& -2 * error < FULL_SCALE * pow2((exponent_of(bits) - 1) as nat)
    }
}

/// Brings a signed 16-bit device sample between -1 and 1: the sample
/// divided by 32767, rounded to the nearest number that a pattern can
/// stand for.
pub fn normalize_signed(level: i16) -> (bits: u32)
    ensures
        is_nearest_to_signed(bits, level as int),
{
    if level == 0 {
        return 0;
    }
    let negative = level < 0;
    let size: u64 = if negative {
        (-(level as i32)) as u64
    } else {
        level as u64
    };
    let mut scaled: u64 = size * 0x80_0000;
    let mut shift: u32 = 23;
    proof {
        lemma2_to64();
    }
    while scaled / 32767 < 0x80_0000
        invariant
            1 <= size <= 32768,
            23 <= shift <= 38,
            scaled == size * pow2(shift as nat),
            scaled / 32767 < 0x100_0000,
            scaled < 0x80_0000 * 32767 * 2,
        decreases 38 - shift,
    {
        proof {
            lemma2_to64();
            lemma_pow2_adds(shift as nat, 1);
            let q = scaled / 32767;
            assert(2 * scaled < (2 * q + 2) * 32767) by (nonlinear_arith)
                requires
                    q == scaled / 32767,
                    scaled >= 0,
            ;
            assert((2 * scaled) / 32767 < 2 * q + 2) by (nonlinear_arith)
                requires
                    2 * scaled < (2 * q + 2) * 32767,
            ;
            assert(scaled < 0x80_0000 * 32767) by (nonlinear_arith)
                requires
                    scaled / 32767 < 0x80_0000,
                    scaled >= 0,
            ;
            assert(2 * scaled == size * pow2((shift + 1) as nat)) by (nonlinear_arith)
                requires
                    scaled == size * pow2(shift as nat),
                    pow2((shift + 1) as nat) == pow2(shift as nat) * 2,
            ;
            if shift == 38 {
                vstd::arithmetic::power2::lemma2_to64_rest();
                assert(pow2(38) == 0x40_0000_0000);
                assert(size * pow2(38) >= 0x80_0000 * 32767) by (nonlinear_arith)
                    requires
                        size >= 1,
                        pow2(38) == 0x40_0000_0000,
                ;
            }
        }
        scaled = scaled * 2;
        shift = shift + 1;
    }
    let quotient = scaled / 32767;
    let rest = scaled % 32767;
    let mut mantissa: u64 = if 2 * rest > 32767 {
        quotient + 1
    } else {
        quotient
    };
    let mut exponent: u32 = 150 - shift;
    let ghost rounded = mantissa;
    let ghost first_exponent = exponent;
    if mantissa == 0x100_0000 {
        mantissa = 0x80_0000;
        exponent = exponent + 1;
    }
    let sign: u32 = if negative {
        0x8000_0000
    } else {
        0
    };
    let bits = sign + exponent * 0x80_0000 + (mantissa as u32 - 0x80_0000);
    proof {
        assert(fraction_of(bits) == mantissa - 0x80_0000);
        assert(exponent_of(bits) == exponent);
        assert(sign_of(bits) == if negative {
            1nat
        } else {
            0nat
        });
        let low = pow2((first_exponent - 1) as nat);
        lemma_pow2_adds(shift as nat, (first_exponent - 1) as nat);
        lemma_pow2_adds((first_exponent - 1) as nat, 1);
        lemma_pow2_pos((first_exponent - 1) as nat);
        lemma2_to64();
        assert(magnitude(bits) == rounded * low) by (nonlinear_arith)
            requires
                magnitude(bits) == mantissa * pow2((exponent - 1) as nat),
                rounded == 0x100_0000 ==> mantissa == 0x80_0000 && pow2((exponent - 1) as nat)
                    == low * 2,
                rounded != 0x100_0000 ==> mantissa == rounded && pow2((exponent - 1) as nat)
                    == low,
        ;
        let error = magnitude(bits) * FULL_SCALE - size * unit();
        assert(error == (rounded * 32767 - scaled) * low) by (nonlinear_arith)
            requires
                error == magnitude(bits) * 32767 - size * unit(),
                magnitude(bits) == rounded * low,
                scaled == size * pow2(shift as nat),
                unit() == pow2(shift as nat) * low,
        ;
        assert(scaled == quotient * 32767 + rest) by (nonlinear_arith)
            requires
                quotient == scaled / 32767,
                rest == scaled % 32767,
        ;
        let gap = rounded * 32767 - scaled;
        assert(-32767 < 2 * gap < 32767);
        assert(2 * error < 32767 * low && -2 * error < 32767 * low) by (nonlinear_arith)
            requires
                error == gap * low,
                -32767 < 2 * gap < 32767,
                low > 0,
        ;
        assert(pow2((exponent - 1) as nat) >= low);
        assert(32767 * low <= 32767 * pow2((exponent - 1) as nat)) by (nonlinear_arith)
            requires
                pow2((exponent - 1) as nat) >= low,
        ;
    }
    bits
}

/// Brings an unsigned 16-bit device sample between -1 and 1: the sample is
/// centred at 32768 and divided by 32768, which is exact.
pub fn normalize_unsigned(level: u16) -> (bits: u32)
    ensures
        is_sample_of(bits, level as int - 32768),
{
    dequantize((level as i32 - 32768) as i16)
}

/// Writes samples as 16-bit PCM: each sample becomes its amplitude, each
/// amplitude two bytes, low byte first.
pub fn encode_pcm16(samples: &[u32]) -> (bytes: Vec<u8>)
    ensures
        bytes@ == pcm_bytes(amplitudes(samples@)),
{
    let mut bytes: Vec<u8> = Vec::new();
    let n = samples.len();
    let mut i: usize = 0;
    while i < n
        invariant
            n == samples@.len(),
            i <= n,
            bytes@ == pcm_bytes(amplitudes(samples@.take(i as int))),
        decreases n - i,
    {
        let pair = sample_to_bytes(quantize(samples[i]));
        bytes.push(pair.0);
        bytes.push(pair.1);
        proof {
            assert(bytes@ =~= pcm_bytes(amplitudes(samples@.take(i + 1))));
        }
        i += 1;
    }
    proof {
        assert(samples@.take(n as int) =~= samples@);
    }
    bytes
}

/// Reads 16-bit PCM as samples: each pair of bytes is an amplitude, each
/// amplitude the sample that is its 32768th part. A last odd byte is left
/// out.
pub fn decode_pcm16(bytes: &[u8]) -> (samples: Vec<u32>)
    ensures
        samples@.len() == pcm_samples(bytes@).len(),
        forall|i: int|
            0 <= i < samples@.len() ==> is_sample_of(
                #[trigger] samples@[i],
                pcm_samples(bytes@)[i] as int,
            ),
{
    let mut samples: Vec<u32> = Vec::new();
    let n = bytes.len() / 2;
    let mut i: usize = 0;
    while i < n
        invariant
            n == bytes@.len() / 2,
            bytes@.len() <= usize::MAX,
            i <= n,
            samples@.len() == i,
            forall|k: int|
                0 <= k < i ==> is_sample_of(#[trigger] samples@[k], pcm_samples(bytes@)[k] as int),
        decreases n - i,
    {
        samples.push(dequantize(sample_from_bytes(bytes[2 * i], bytes[2 * i + 1])));
        i += 1;
    }
    samples
}

/// The amplitudes of a run of samples.
pub open spec fn amplitudes(samples: Seq<u32>) -> Seq<i16> {
    Seq::new(samples.len(), |i: int| amplitude(samples[i]) as i16)
}

/// No sample wraps: every amplitude lies between -32767 and 32767, and a
/// sample of one or more, or of minus one or less, has the amplitude 32767
/// or -32767.
pub proof fn lemma_amplitude_is_clamped(bits: u32)
    ensures
        -32767 <= amplitude(bits) <= 32767,
        !is_nan(bits) && magnitude(bits) >= unit() && sign_of(bits) == 0 ==> amplitude(bits)
            == 32767,
        !is_nan(bits) && magnitude(bits) >= unit() && sign_of(bits) == 1 ==> amplitude(bits)
            == -32767,
{
    lemma_pow2_pos(149);
    lemma_nearest_full(unit());
    if magnitude(bits) < unit() {
        let n = magnitude(bits);
        let d = unit();
        assert(2 * (32767 * n) + d < 32768 * (2 * d)) by (nonlinear_arith)
            requires
                n < d,
        ;
        vstd::arithmetic::div_mod::lemma_div_is_ordered(
            (2 * (32767 * n) + d) as int,
            (32767 * (2 * d) + d) as int,
            (2 * d) as int,
        );
        assert(2 * (32767 * n) + d <= 32767 * (2 * d) + d) by (nonlinear_arith)
            requires
                n < d,
        ;
        assert(2 * (32767 * d) + d == 32767 * (2 * d) + d) by (nonlinear_arith);
    }
}

/// The samples 1 and -1 have the amplitudes 32767 and -32767.
pub proof fn lemma_full_scale()
    ensures
        amplitude(0x3F80_0000) == 32767,
        amplitude(0xBF80_0000) == -32767,
{
    lemma2_to64();
    lemma_pow2_adds(23, 126);
    assert(exponent_of(0x3F80_0000) == 127);
    assert(exponent_of(0xBF80_0000) == 127);
    assert(fraction_of(0x3F80_0000) == 0);
    assert(fraction_of(0xBF80_0000) == 0);
    assert(magnitude(0x3F80_0000) == unit());
    assert(magnitude(0xBF80_0000) == unit());
    lemma_amplitude_is_clamped(0x3F80_0000);
    lemma_amplitude_is_clamped(0xBF80_0000);
}

/// An amplitude that was read as a sample is written back unchanged
/// exactly where it lies between -16384 and 16384: beyond that, the
/// difference between the two scales, 32768 for reading and 32767 for
/// writing, is more than half a step.
pub proof fn lemma_sample_round_trip(bits: u32, level: int)
    requires
        is_sample_of(bits, level),
        -32768 <= level <= 32768,
    ensures
        amplitude(bits) == level <==> -16384 <= level <= 16384,
{
    let a: nat = if level < 0 {
        (-level) as nat
    } else {
        level as nat
    };
    lemma2_to64();
    lemma_pow2_adds(15, 134);
    lemma_pow2_pos(134);
    assert(a * pow2(134) <= unit()) by (nonlinear_arith)
        requires
            a <= 32768,
            unit() == 32768 * pow2(134),
    ;
    assert(32767 * (a * pow2(134)) == pow2(134) * (32767 * a)) by (nonlinear_arith);
    assert(unit() == pow2(134) * 32768);
    lemma_nearest_cancels(32767 * a, 32768, pow2(134));
    let size = nearest(32767 * a, 32768);
    assert(size == (65534 * a + 32768) / 65536);
    if a <= 16384 {
        lemma_fundamental_div_mod_converse(
            (65534 * a + 32768) as int,
            65536,
            a as int,
            (32768 - 2 * a) as int,
        );
    } else {
        lemma_fundamental_div_mod_converse(
            (65534 * a + 32768) as int,
            65536,
            a as int - 1,
            (98304 - 2 * a) as int,
        );
    }
}

/// A signed device sample keeps its amplitude on the way through the
/// scale of samples: brought between -1 and 1 and turned into an amplitude
/// again, it is what it was. The one sample below -32767 becomes -32767.
pub proof fn lemma_device_sample_keeps_amplitude(bits: u32, level: int)
    requires
        is_nearest_to_signed(bits, level),
        -32768 <= level <= 32767,
    ensures
        amplitude(bits) == if level == -32768 {
            -32767
        } else {
            level
        },
{
    lemma2_to64();
    lemma_pow2_pos(149);
    if level == 0 {
        assert(exponent_of(0) == 0 && fraction_of(0) == 0 && sign_of(0) == 0);
        lemma_small_quotient(unit(), 2 * unit());
    } else {
        let size: nat = if level < 0 {
            (-level) as nat
        } else {
            level as nat
        };
        let e = (exponent_of(bits) - 1) as nat;
        let step = pow2(e);
        let mantissa = 0x80_0000 + fraction_of(bits);
        let m = magnitude(bits);
        let error = m * 32767 - size * unit();
        lemma_pow2_pos(e);
        lemma_pow2_adds(23, 126);
        if e < 126 {
            lemma_pow2_strictly_increases(e, 126);
        }
        assert(m == mantissa * step);
        assert(unit() == 0x80_0000 * pow2(126));
        assert(32767 * step < unit()) by (nonlinear_arith)
            requires
                step <= pow2(126),
                unit() == 0x80_0000 * pow2(126),
                pow2(126) > 0,
        ;
        if size <= 32767 {
            if e == 126 {
                assert(mantissa == 0x80_0000) by (nonlinear_arith)
                    requires
                        2 * (mantissa * step * 32767 - size * (0x80_0000 * step)) < 32767 * step,
                        size <= 32767,
                        mantissa >= 0x80_0000,
                        step > 0,
                ;
            } else {
                lemma_pow2_adds(24, 125);
                if e < 125 {
                    lemma_pow2_strictly_increases(e, 125);
                }
                assert(m < unit()) by (nonlinear_arith)
                    requires
                        m == mantissa * step,
                        mantissa < 0x100_0000,
                        step <= pow2(125),
                        unit() == 0x100_0000 * pow2(125),
                        step > 0,
                ;
            }
            assert(m <= unit());
            assert(2 * (32767 * m) + unit() == size * (2 * unit()) + (2 * error + unit()))
                by (nonlinear_arith)
                requires
                    error == m * 32767 - size * unit(),
            ;
            lemma_fundamental_div_mod_converse(
                (2 * (32767 * m) + unit()) as int,
                (2 * unit()) as int,
                size as int,
                2 * error + unit(),
            );
        } else {
            assert(m >= unit()) by (nonlinear_arith)
                requires
                    -2 * (m * 32767 - 32768 * unit()) < 32767 * step,
                    32767 * step < unit(),
                    m >= 0,
            ;
            lemma_amplitude_is_clamped(bits);
        }
    }
}

/// Bytes whose amplitudes lie between -16384 and 16384 survive reading
/// and writing again unchanged.
pub proof fn lemma_pcm16_sample_round_trip(bytes: Seq<u8>, samples: Seq<u32>)
    requires
        bytes.len() % 2 == 0,
        samples.len() == pcm_samples(bytes).len(),
        forall|i: int|
            0 <= i < samples.len() ==> is_sample_of(
                #[trigger] samples[i],
                pcm_samples(bytes)[i] as int,
            ),
        forall|i: int|
            0 <= i < pcm_samples(bytes).len() ==> -16384 <= #[trigger] pcm_samples(bytes)[i]
                <= 16384,
    ensures
        pcm_bytes(amplitudes(samples)) == bytes,
{
    assert forall|i: int| 0 <= i < samples.len() implies amplitudes(samples)[i] == pcm_samples(
        bytes,
    )[i] by {
        lemma_sample_round_trip(samples[i], pcm_samples(bytes)[i] as int);
    }
    assert(amplitudes(samples) =~= pcm_samples(bytes));
    crate::pcm::lemma_pcm16_round_trip(bytes);
}

} // verus!
