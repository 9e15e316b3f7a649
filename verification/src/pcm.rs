//! 16-bit PCM on the wire: samples as little-endian bytes, a stream cut
//! into chunks, and the canonical audio container.

use vstd::prelude::*;
use vstd::slice::*;

verus! {

/// The low byte of a sample in two's complement.
pub open spec fn low_byte(sample: i16) -> u8 {
    (if sample >= 0 {
        sample as int
    } else {
        sample as int + 65536
    } % 256) as u8
}

/// The high byte of a sample in two's complement.
pub open spec fn high_byte(sample: i16) -> u8 {
    (if sample >= 0 {
        sample as int
    } else {
        sample as int + 65536
    } / 256) as u8
}

/// The sample that two bytes stand for, low byte first.
pub open spec fn sample_of(low: u8, high: u8) -> i16 {
    let unsigned = low as int + 256 * high as int;
    if unsigned < 32768 {
        unsigned as i16
    } else {
        (unsigned - 65536) as i16
    }
}

/// Samples as bytes: two for each, low byte first, in order.
pub open spec fn pcm_bytes(samples: Seq<i16>) -> Seq<u8> {
    Seq::new(
        2 * samples.len(),
        |i: int|
            if i % 2 == 0 {
                low_byte(samples[i / 2])
            } else {
                high_byte(samples[i / 2])
            },
    )
}

/// The samples that bytes stand for; a last odd byte stands for none.
pub open spec fn pcm_samples(bytes: Seq<u8>) -> Seq<i16> {
    Seq::new(bytes.len() / 2, |i: int| sample_of(bytes[2 * i], bytes[2 * i + 1]))
}

/// Splits a sample into its two bytes, low byte first.
pub fn sample_to_bytes(sample: i16) -> (bytes: (u8, u8))
    ensures
        bytes.0 == low_byte(sample),
        bytes.1 == high_byte(sample),
        sample_of(bytes.0, bytes.1) == sample,
{
    let unsigned: i32 = if sample >= 0 {
        sample as i32
    } else {
        sample as i32 + 65536
    };
    ((unsigned % 256) as u8, (unsigned / 256) as u8)
}

/// Joins two bytes, low byte first, into a sample.
pub fn sample_from_bytes(low: u8, high: u8) -> (sample: i16)
    ensures
        sample == sample_of(low, high),
        low_byte(sample) == low,
        high_byte(sample) == high,
{
    let unsigned: i32 = low as i32 + 256 * (high as i32);
    if unsigned < 32768 {
        unsigned as i16
    } else {
        (unsigned - 65536) as i16
    }
}

/// Writes samples as little-endian bytes.
pub fn pcm16_to_bytes(samples: &[i16]) -> (bytes: Vec<u8>)
    ensures
        bytes@ == pcm_bytes(samples@),
{
    let mut bytes: Vec<u8> = Vec::new();
    let n = samples.len();
    let mut i: usize = 0;
    while i < n
        invariant
            n == samples@.len(),
            i <= n,
            bytes@ == pcm_bytes(samples@.take(i as int)),
        decreases n - i,
    {
        let pair = sample_to_bytes(samples[i]);
        bytes.push(pair.0);
        bytes.push(pair.1);
        proof {
            assert(bytes@ =~= pcm_bytes(samples@.take(i + 1)));
        }
        i += 1;
    }
    proof {
        assert(samples@.take(n as int) =~= samples@);
    }
    bytes
}

/// Reads little-endian bytes as samples; a last odd byte is left out.
pub fn pcm16_from_bytes(bytes: &[u8]) -> (samples: Vec<i16>)
    ensures
        samples@ == pcm_samples(bytes@),
{
    let mut samples: Vec<i16> = Vec::new();
    let n = bytes.len() / 2;
    let mut i: usize = 0;
    while i < n
        invariant
            n == bytes@.len() / 2,
            bytes@.len() <= usize::MAX,
            i <= n,
            samples@.len() == i,
            forall|k: int| 0 <= k < i ==> samples@[k] == sample_of(bytes@[2 * k], bytes@[2 * k + 1]),
        decreases n - i,
    {
        samples.push(sample_from_bytes(bytes[2 * i], bytes[2 * i + 1]));
        i += 1;
    }
    proof {
        assert(samples@ =~= pcm_samples(bytes@));
    }
    samples
}

/// Bytes of even length survive reading and writing again unchanged.
pub proof fn lemma_pcm16_round_trip(bytes: Seq<u8>)
    requires
        bytes.len() % 2 == 0,
    ensures
        pcm_bytes(pcm_samples(bytes)) == bytes,
{
    assert forall|i: int| 0 <= i < bytes.len() implies pcm_bytes(pcm_samples(bytes))[i]
        == bytes[i] by {
        let k = i / 2;
        let low = bytes[2 * k];
        let high = bytes[2 * k + 1];
        assert(pcm_samples(bytes)[k] == sample_of(low, high));
    }
    assert(pcm_bytes(pcm_samples(bytes)) =~= bytes);
}

/// Samples survive writing and reading again unchanged.
pub proof fn lemma_pcm16_samples_round_trip(samples: Seq<i16>)
    ensures
        pcm_samples(pcm_bytes(samples)) == samples,
{
    assert forall|i: int| 0 <= i < samples.len() implies pcm_samples(pcm_bytes(samples))[i]
        == samples[i] by {
        assert(pcm_bytes(samples)[2 * i] == low_byte(samples[i]));
        assert(pcm_bytes(samples)[2 * i + 1] == high_byte(samples[i]));
    }
    assert(pcm_samples(pcm_bytes(samples)) =~= samples);
}

/// The number of chunks that `len` samples are cut into.
pub open spec fn chunk_count(len: nat, size: nat) -> nat
    recommends
        size > 0,
{
    (len + size - 1) as nat / size
}

/// Chunk `index` of a stream: `size` samples from `index * size` on, or
/// what is left of the stream there.
pub open spec fn chunk_at(samples: Seq<i16>, size: nat, index: nat) -> Seq<i16>
    recommends
        size > 0,
        index < chunk_count(samples.len(), size),
{
    samples.subrange(
        (index * size) as int,
        if index * size + size <= samples.len() {
            (index * size + size) as int
        } else {
            samples.len() as int
        },
    )
}

/// Facts about the bounds of a chunk.
pub proof fn lemma_chunk_bounds(len: nat, size: nat, index: nat)
    requires
        size > 0,
    ensures
        index < chunk_count(len, size) <==> index * size < len,
        chunk_count(len, size) * size >= len,
        len > 0 ==> (chunk_count(len, size) - 1) * size < len,
{
    let n = len as int;
    let s = size as int;
    let i = index as int;
    let c = (n + s - 1) / s;
    assert(c * s >= n && c * s <= n + s - 1) by (nonlinear_arith)
        requires
            c == (n + s - 1) / s,
            s > 0,
            n >= 0,
    ;
    assert(i < c <==> i * s < n) by (nonlinear_arith)
        requires
            c * s >= n,
            c * s <= n + s - 1,
            s > 0,
            i >= 0,
            c >= 0,
    ;
    assert(c >= 0) by (nonlinear_arith)
        requires
            c == (n + s - 1) / s,
            s > 0,
            n >= 0,
    ;
    if len > 0 {
        assert((c - 1) * s < n) by (nonlinear_arith)
            requires
                c * s <= n + s - 1,
                s > 0,
        ;
    }
}

/// Cuts a stream into chunks of `size` samples; the last chunk holds what
/// is left and is never empty.
pub fn split_chunks(samples: &[i16], size: usize) -> (chunks: Vec<Vec<i16>>)
    requires
        size > 0,
    ensures
        chunks@.len() == chunk_count(samples@.len(), size as nat),
        forall|i: int|
            0 <= i < chunks@.len() ==> (#[trigger] chunks@[i])@ == chunk_at(
                samples@,
                size as nat,
                i as nat,
            ),
{
    let mut chunks: Vec<Vec<i16>> = Vec::new();
    let n = samples.len();
    let mut start: usize = 0;
    proof {
        lemma_chunk_bounds(n as nat, size as nat, 0);
    }
    while start < n
        invariant
            size > 0,
            n == samples@.len(),
            start == chunks@.len() * size || (start == n && chunks@.len() == chunk_count(
                n as nat,
                size as nat,
            )),
            start <= n,
            chunks@.len() <= chunk_count(n as nat, size as nat),
            forall|i: int|
                0 <= i < chunks@.len() ==> (#[trigger] chunks@[i])@ == chunk_at(
                    samples@,
                    size as nat,
                    i as nat,
                ),
        decreases n - start,
    {
        let ghost index = chunks@.len();
        proof {
            lemma_chunk_bounds(n as nat, size as nat, index);
            lemma_chunk_bounds(n as nat, size as nat, index + 1);
            assert((index + 1) * size == index * size + size) by (nonlinear_arith);
        }
        let end: usize = if n - start > size {
            start + size
        } else {
            n
        };
        let chunk = slice_to_vec(slice_subrange(samples, start, end));
        proof {
            assert(chunk@ =~= chunk_at(samples@, size as nat, index));
        }
        chunks.push(chunk);
        start = end;
    }
    proof {
        lemma_chunk_bounds(n as nat, size as nat, chunks@.len());
    }
    chunks
}

/// Cutting a stream into chunks loses nothing and keeps the order: sample
/// `k` of the stream is sample `k % size` of chunk `k / size`.
pub proof fn lemma_chunks_cover(samples: Seq<i16>, size: nat, k: nat)
    requires
        size > 0,
        k < samples.len(),
    ensures
        k / size < chunk_count(samples.len(), size),
        (k % size) < chunk_at(samples, size, k / size).len(),
        chunk_at(samples, size, k / size)[(k % size) as int] == samples[k as int],
{
    let s = size as int;
    let q = k as int / s;
    let r = k as int % s;
    assert(q * s + r == k && 0 <= r < s && q >= 0) by (nonlinear_arith)
        requires
            q == k as int / s,
            r == k as int % s,
            s > 0,
            k >= 0,
    ;
    lemma_chunk_bounds(samples.len(), size, q as nat);
}

} // verus!
