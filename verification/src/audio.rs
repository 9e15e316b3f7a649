//! The geometry of sample conversion: how many frames a buffer holds, how
//! long a resampled buffer is and where each of its samples comes from, how
//! a stream is cut into chunks, and how 16-bit samples lie in bytes.

use vstd::prelude::*;

verus! {

/// The sample rate of canonical audio, in Hz.
pub const TARGET_SAMPLE_RATE: u32 = 16000;

/// The number of samples in one streamed chunk: a fifth of a second.
pub const CHUNK_SAMPLES: usize = 3200;

/// The number of whole frames in `len` interleaved samples.
pub open spec fn mono_len(len: nat, channels: nat) -> nat
    recommends
        channels > 0,
{
    len / channels
}

/// The number of samples after resampling `len` samples from one rate to
/// another: `len` divided by the ratio of the rates, rounded down.
pub open spec fn resampled_len(len: nat, from_rate: nat, to_rate: nat) -> nat
    recommends
        from_rate > 0,
{
    if from_rate == to_rate {
        len
    } else {
        (len * to_rate) / from_rate
    }
}

/// Where an output sample of a resampling comes from: between the input
/// samples `floor` and `ceil`, the second weighted by `weight / scale`.
#[derive(Debug, Clone, Copy, PartialEq, Eq, Structural)]
pub struct SourcePosition {
    pub floor: usize,
    pub ceil: usize,
    pub weight: u32,
    pub scale: u32,
}

impl SourcePosition {
    /// Whether this is the position of output sample `index` when `len`
    /// samples are resampled: the source position is `index` times the
    /// ratio of the rates, `floor` its whole part, `weight / scale` its
    /// fraction, and `ceil` the next sample or, at the end, the last.
    pub open spec fn is_position(self, index: nat, len: nat, from_rate: nat, to_rate: nat) -> bool {
        &&& self.floor == (index * from_rate) / to_rate
        &&& self.weight == (index * from_rate) % to_rate
        &&& self.scale == to_rate
        &&& self.ceil == if self.floor + 1 < len {
            self.floor + 1
        } else {
            len - 1
        }
    }
}

/// Counts the whole frames in `len` interleaved samples; what is left over
/// belongs to no frame.
pub fn frame_count(len: usize, channels: u16) -> (frames: usize)
    requires
        channels > 0,
    ensures
        frames == mono_len(len as nat, channels as nat),
        frames * channels <= len,
        channels == 1 ==> frames == len,
{
    if channels == 1 {
        return len;
    }
    let frames = len / (channels as usize);
    proof {
        let c = channels as int;
        assert(frames * c <= len) by (nonlinear_arith)
            requires
                frames == len as int / c,
                c > 0,
                len >= 0,
        ;
    }
    frames
}

/// The samples of frame `frame`: from `start` up to, not including, `end`.
pub fn frame_bounds(frame: usize, len: usize, channels: u16) -> (bounds: (usize, usize))
    requires
        channels > 0,
        frame < mono_len(len as nat, channels as nat),
    ensures
        bounds.0 == frame * channels,
        bounds.1 == frame * channels + channels,
        bounds.1 <= len,
{
    proof {
        let c = channels as int;
        let f = frame as int;
        assert(f * c + c <= len) by (nonlinear_arith)
            requires
                f < len as int / c,
                c > 0,
                f >= 0,
                len >= 0,
        ;
        assert(f * c >= 0) by (nonlinear_arith)
            requires
                f >= 0,
                c > 0,
        ;
    }
    let start = frame * (channels as usize);
    (start, start + channels as usize)
}

/// Computes the length of a resampled buffer; `None` where it is more than
/// a buffer can hold.
pub fn resampled_length(len: usize, from_rate: u32, to_rate: u32) -> (out: Option<usize>)
    requires
        from_rate > 0,
    ensures
        out is Some <==> resampled_len(len as nat, from_rate as nat, to_rate as nat) <= usize::MAX,
        out is Some ==> out->0 == resampled_len(len as nat, from_rate as nat, to_rate as nat),
{
    if from_rate == to_rate {
        return Some(len);
    }
    proof {
        assert(len as int * to_rate as int <= 0xffff_ffff_ffff_ffff * 0xffff_ffff)
            by (nonlinear_arith)
            requires
                0 <= len as int <= 0xffff_ffff_ffff_ffff,
                0 <= to_rate as int <= 0xffff_ffff,
        ;
        assert(len as int * to_rate as int >= 0) by (nonlinear_arith)
            requires
                0 <= len as int,
                0 <= to_rate as int,
        ;
    }
    let scaled: u128 = (len as u128) * (to_rate as u128);
    let out: u128 = scaled / (from_rate as u128);
    if out <= usize::MAX as u128 {
        Some(out as usize)
    } else {
        None
    }
}

/// Facts about the source position of an output sample.
pub proof fn lemma_source_in_range(index: nat, len: nat, from_rate: nat, to_rate: nat)
    requires
        from_rate > 0,
        to_rate > 0,
        index < resampled_len(len, from_rate, to_rate),
    ensures
        (index * from_rate) / to_rate < len,
        from_rate == to_rate ==> (index * from_rate) / to_rate == index && (index * from_rate)
            % to_rate == 0,
{
    let f = from_rate as int;
    let t = to_rate as int;
    let i = index as int;
    let n = len as int;
    if from_rate == to_rate {
        assert((i * f) / f == i && (i * f) % f == 0) by (nonlinear_arith)
            requires
                f > 0,
                i >= 0,
        ;
    } else {
        assert(i * f < n * t) by (nonlinear_arith)
            requires
                i < (n * t) / f,
                f > 0,
                i >= 0,
                n * t >= 0,
        ;
        assert((i * f) / t < n) by (nonlinear_arith)
            requires
                i * f < n * t,
                t > 0,
                i * f >= 0,
        ;
    }
}

/// Finds where output sample `index` of a resampling lies in the input.
pub fn source_position(index: usize, len: usize, from_rate: u32, to_rate: u32) -> (position:
    SourcePosition)
    requires
        from_rate > 0,
        to_rate > 0,
        index < resampled_len(len as nat, from_rate as nat, to_rate as nat),
    ensures
        position.is_position(index as nat, len as nat, from_rate as nat, to_rate as nat),
        position.floor < len,
        position.ceil < len,
        position.floor <= position.ceil <= position.floor + 1,
        position.weight < position.scale,
        from_rate == to_rate ==> position.floor == index && position.weight == 0,
{
    proof {
        lemma_source_in_range(index as nat, len as nat, from_rate as nat, to_rate as nat);
        assert(index as int * from_rate as int <= 0xffff_ffff_ffff_ffff * 0xffff_ffff)
            by (nonlinear_arith)
            requires
                0 <= index as int <= 0xffff_ffff_ffff_ffff,
                0 <= from_rate as int <= 0xffff_ffff,
        ;
        assert(index as int * from_rate as int >= 0) by (nonlinear_arith)
            requires
                0 <= index as int,
                0 <= from_rate as int,
        ;
    }
    let scaled: u128 = (index as u128) * (from_rate as u128);
    let floor: usize = (scaled / (to_rate as u128)) as usize;
    let weight: u32 = (scaled % (to_rate as u128)) as u32;
    let ceil: usize = if floor + 1 < len {
        floor + 1
    } else {
        len - 1
    };
    SourcePosition { floor, ceil, weight, scale: to_rate }
}

/// Downmixing keeps one sample for each whole frame: the length is the
/// whole quotient, every frame lies inside the buffer, and no two frames
/// share a sample.
pub proof fn lemma_frames_partition(len: nat, channels: nat, frame: nat)
    requires
        channels > 0,
        frame < mono_len(len, channels),
    ensures
        mono_len(len, channels) == len / channels,
        frame * channels + channels <= len,
        channels == 1 ==> mono_len(len, channels) == len,
{
    let c = channels as int;
    let f = frame as int;
    let n = len as int;
    assert(n / 1 == n);
    assert(f * c + c <= n) by (nonlinear_arith)
        requires
            f < n / c,
            c > 0,
            f >= 0,
            n >= 0,
    ;
}

/// Resampling between equal rates changes nothing: the length stays, and
/// each output sample is the input sample at the same index, with no part
/// of its neighbour.
pub proof fn lemma_resample_equal_rates(len: nat, rate: nat, index: nat)
    requires
        rate > 0,
        index < len,
    ensures
        resampled_len(len, rate, rate) == len,
        (index * rate) / rate == index,
        (index * rate) % rate == 0,
{
    lemma_source_in_range(index, len, rate, rate);
}

/// From 48 kHz down to 16 kHz a buffer shrinks to a third, rounded down.
pub proof fn lemma_resample_48k_to_16k(len: nat)
    ensures
        resampled_len(len, 48000, 16000) == len / 3,
{
    let n = len as int;
    assert((n * 16000) / 48000 == n / 3) by (nonlinear_arith)
        requires
            n >= 0,
    ;
}

} // verus!
