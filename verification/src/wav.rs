//! The canonical audio container: one channel of 16-bit PCM at 16 kHz
//! behind a WAVE header.

use crate::audio::TARGET_SAMPLE_RATE;
use crate::pcm::pcm_bytes;
use vstd::prelude::*;

verus! {

/// Why a container could not be written or read.
#[derive(Debug, Clone, Copy, PartialEq, Eq, Structural)]
pub enum WavError {
    /// More samples than the header's 32-bit length fields can count.
    TooLong,
    /// The bytes are no WAVE container.
    NotWav,
}

/// The largest number of samples that one container holds.
pub const MAX_WAV_SAMPLES: usize = 0x7fff_ffed;

/// A number as two bytes, low byte first.
pub open spec fn le16(value: nat) -> Seq<u8> {
    seq![(value % 256) as u8, (value / 256 % 256) as u8]
}

/// A number as four bytes, low byte first.
pub open spec fn le32(value: nat) -> Seq<u8> {
    seq![
        (value % 256) as u8,
        (value / 256 % 256) as u8,
        (value / 65536 % 256) as u8,
        (value / 16777216 % 256) as u8,
    ]
}

/// The 44 bytes that stand before the samples: the RIFF and WAVE marks, the
/// format chunk of integer PCM with 16 bits to the sample, and the head of
/// the data chunk.
pub open spec fn wav_header(data_len: nat, channels: nat, sample_rate: nat) -> Seq<u8> {
    seq![0x52u8, 0x49, 0x46, 0x46] + le32(data_len + 36) + seq![
        0x57u8,
        0x41,
        0x56,
        0x45,
        0x66,
        0x6d,
        0x74,
        0x20,
    ] + le32(16) + le16(1) + le16(channels) + le32(sample_rate) + le32(sample_rate * 2 * channels)
        + le16(2 * channels) + le16(16) + seq![0x64u8, 0x61, 0x74, 0x61] + le32(data_len)
}

/// A container: the header, then the samples as little-endian bytes.
pub open spec fn wav_container(samples: Seq<i16>, channels: nat, sample_rate: nat) -> Seq<u8> {
    wav_header(2 * samples.len(), channels, sample_rate) + pcm_bytes(samples)
}

/// The canonical container of a run of samples.
pub open spec fn wire_audio(samples: Seq<i16>) -> Seq<u8> {
    wav_container(samples, 1, TARGET_SAMPLE_RATE as nat)
}

/// What `hound` reads out of a byte sequence as 16-bit samples: `None` where
/// it refuses the header, else one entry for each sample that the header
/// announces, `None` for those it could not read.
pub uninterp spec fn wav_read(bytes: Seq<u8>) -> Option<Seq<Option<i16>>>;

/// The samples that were read, in order.
pub open spec fn present(items: Seq<Option<i16>>) -> Seq<i16> {
    items.filter(|item: Option<i16>| item is Some).map_values(|item: Option<i16>| item->0)
}

/// `hound::Error`, carried through as it is.
#[verifier::external_type_specification]
#[verifier::external_body]
pub struct ExHoundError(hound::Error);

/// Writes `samples` through `hound::WavWriter` (`new`, `write_sample` for
/// each sample, `finalize`) into memory, as integer PCM of 16 bits. The
/// contract states the bytes that `hound` writes for one or two channels:
/// the 44-byte header of [`wav_header`], then each sample low byte first.
/// It leaves out the inputs whose byte counts do not fit the header's
/// 32-bit fields, and those with half a frame at the end.
#[verifier::external_body]
fn write_wav(samples: &[i16], channels: u16, sample_rate: u32) -> (written: Result<
    Vec<u8>,
    hound::Error,
>)
    requires
        channels == 1 || channels == 2,
        sample_rate > 0,
        sample_rate * 2 * channels <= u32::MAX,
        samples@.len() % (channels as nat) == 0,
        2 * samples@.len() + 36 <= u32::MAX,
    ensures
        written is Ok,
        written->Ok_0@ == wav_container(samples@, channels as nat, sample_rate as nat),
{
    let format = hound::SampleFormat::Int;
    let spec = hound::WavSpec { channels, sample_rate, bits_per_sample: 16, sample_format: format };
    let mut cursor = std::io::Cursor::new(Vec::new());
    let mut writer = hound::WavWriter::new(&mut cursor, spec)?;
    for sample in samples {
        writer.write_sample(*sample)?;
    }
    writer.finalize()?;
    Ok(cursor.into_inner())
}

/// Reads `bytes` through `hound::WavReader::new` and `into_samples::<i16>`.
/// The contract gives the outcome a name: it depends on the bytes alone.
#[verifier::external_body]
fn read_wav(bytes: &[u8]) -> (read: Result<Vec<Option<i16>>, hound::Error>)
    ensures
        read is Ok == wav_read(bytes@) is Some,
        read is Ok ==> read->Ok_0@ == wav_read(bytes@)->0,
{
    let reader = hound::WavReader::new(std::io::Cursor::new(bytes))?;
    Ok(reader.into_samples::<i16>().map(|sample| sample.ok()).collect())
}

/// Tests whether so many samples fit into one container.
pub fn wav_fits(len: usize) -> (fits: bool)
    ensures
        fits == (len <= MAX_WAV_SAMPLES),
        fits ==> 2 * len + 36 <= u32::MAX,
{
    len <= MAX_WAV_SAMPLES
}

/// Wraps canonical samples into the canonical container.
pub fn encode_wav(samples: &[i16]) -> (wav: Result<Vec<u8>, WavError>)
    ensures
        wav is Ok <==> samples@.len() <= MAX_WAV_SAMPLES,
        wav matches Ok(bytes) ==> bytes@ == wire_audio(samples@),
        wav matches Err(e) ==> e == WavError::TooLong,
{
    if !wav_fits(samples.len()) {
        return Err(WavError::TooLong);
    }
    match write_wav(samples, 1, TARGET_SAMPLE_RATE) {
        Ok(bytes) => Ok(bytes),
        Err(_) => vstd::pervasive::unreached(),
    }
}

/// Keeps the samples that were read and drops the gaps.
pub fn keep_present(items: &Vec<Option<i16>>) -> (samples: Vec<i16>)
    ensures
        samples@ == present(items@),
{
    let mut samples: Vec<i16> = Vec::new();
    let n = items.len();
    let mut i: usize = 0;
    let ghost is_some = |item: Option<i16>| item is Some;
    let ghost unwrap = |item: Option<i16>| item->0;
    proof {
        reveal(Seq::filter);
        assert(items@.take(0) =~= Seq::<Option<i16>>::empty());
        assert(present(items@.take(0)) =~= Seq::<i16>::empty());
    }
    while i < n
        invariant
            n == items@.len(),
            i <= n,
            is_some == |item: Option<i16>| item is Some,
            unwrap == |item: Option<i16>| item->0,
            samples@ == items@.take(i as int).filter(is_some).map_values(unwrap),
        decreases n - i,
    {
        proof {
            crate::text::lemma_filter_push(items@.take(i as int), items@[i as int], is_some);
            assert(items@.take(i as int).push(items@[i as int]) =~= items@.take(i + 1));
        }
        if let Some(sample) = items[i] {
            samples.push(sample);
            proof {
                let kept = items@.take(i as int).filter(is_some);
                assert(kept.push(items@[i as int]).map_values(unwrap) =~= kept.map_values(
                    unwrap,
                ).push(sample));
            }
        }
        i += 1;
    }
    proof {
        assert(items@.take(n as int) =~= items@);
    }
    samples
}

/// Takes the 16-bit samples out of a container, leaving out those that
/// could not be read.
pub fn extract_pcm_from_wav(wav_data: &[u8]) -> (pcm: Result<Vec<i16>, WavError>)
    ensures
        pcm is Ok <==> wav_read(wav_data@) is Some,
        pcm matches Ok(samples) ==> samples@ == present(wav_read(wav_data@)->0),
        pcm matches Err(e) ==> e == WavError::NotWav,
{
    match read_wav(wav_data) {
        Ok(items) => Ok(keep_present(&items)),
        Err(_) => Err(WavError::NotWav),
    }
}

/// Canonical audio always declares one channel, the target rate and 16 bits
/// to the sample, and holds two bytes for each sample behind 44 bytes of
/// header.
pub proof fn lemma_wire_audio_format(samples: Seq<i16>)
    ensures
        wire_audio(samples).len() == 44 + 2 * samples.len(),
        wire_audio(samples).subrange(22, 24) == le16(1),
        wire_audio(samples).subrange(24, 28) == le32(TARGET_SAMPLE_RATE as nat),
        wire_audio(samples).subrange(34, 36) == le16(16),
        wire_audio(samples).skip(44) == pcm_bytes(samples),
{
    let header = wav_header(2 * samples.len(), 1, TARGET_SAMPLE_RATE as nat);
    assert(header.len() == 44);
    assert(wire_audio(samples).subrange(22, 24) =~= le16(1));
    assert(wire_audio(samples).subrange(24, 28) =~= le32(TARGET_SAMPLE_RATE as nat));
    assert(wire_audio(samples).subrange(34, 36) =~= le16(16));
    assert(wire_audio(samples).skip(44) =~= pcm_bytes(samples));
}

} // verus!
