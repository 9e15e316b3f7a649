//! The capture engine's bookkeeping: what the input device delivers, how
//! its samples are brought to a common scale, and how long the canonical
//! audio of a recording is.

use crate::audio::{frame_count, mono_len, resampled_len, resampled_length, TARGET_SAMPLE_RATE};
use crate::encoding::{decimal, push_decimal};
use crate::error::{ErrorModel, PipelineError};
use crate::wav::{encode_wav, wire_audio, WavError, MAX_WAV_SAMPLES};
use vstd::prelude::*;
use vstd::string::*;

verus! {

/// Milliseconds that a stop waits for the device's last samples to land.
pub const CAPTURE_GRACE_MS: u64 = 100;

/// The sample formats that an input device may deliver.
#[derive(Debug, Clone, Copy, PartialEq, Eq, Structural)]
pub enum SampleFormat {
    /// 32-bit floating point, already between -1 and 1.
    F32,
    /// 16-bit signed integers.
    I16,
    /// 16-bit unsigned integers.
    U16,
    /// Anything else.
    Other,
}

impl SampleFormat {
    /// Whether samples of this format can be brought to the scale between
    /// -1 and 1.
    pub open spec fn is_usable(self) -> bool {
        !(self is Other)
    }
}

/// What the lookup of the input device gave.
#[derive(Debug)]
pub enum DeviceReport {
    /// There is no default input device.
    NoDevice,
    /// The device does not say what it delivers; carries its explanation.
    NoConfig(String),
    /// The device delivers this.
    Ready { sample_rate: u32, channels: u16, format: SampleFormat },
}

/// The explanation given where there is no input device.
pub open spec fn no_device() -> Seq<char> {
    "没有找到默认音频输入设备"@
}

/// The explanation given where the device does not say what it delivers.
pub open spec fn no_config(reason: Seq<char>) -> Seq<char> {
    "无法获取默认音频配置: "@ + reason
}

/// The explanation given where the device delivers what cannot be used.
pub open spec fn unsupported_format() -> Seq<char> {
    "不支持的采样格式"@
}

/// What a recording is made with.
#[derive(Debug, Clone, Copy, PartialEq, Eq, Structural)]
pub struct CaptureConfig {
    /// The device's sample rate, in Hz.
    pub device_sample_rate: u32,
    /// The number of interleaved channels.
    pub channels: u16,
    /// The format of the device's samples.
    pub format: SampleFormat,
}

/// The configuration that a device report leads to, or the failure: a
/// device must exist, say what it delivers, deliver a format that can be
/// used, and have at least one channel and a rate above zero.
pub open spec fn capture_of(rate: u32, channels: u16, format: SampleFormat) -> Result<
    CaptureConfig,
    ErrorModel,
> {
    if rate == 0 || channels == 0 || !format.is_usable() {
        Err(ErrorModel::Device(unsupported_format()))
    } else {
        Ok(CaptureConfig { device_sample_rate: rate, channels, format })
    }
}

/// The number of canonical samples that a recording of `raw_len` raw
/// samples becomes: whole frames first, then the change of rate.
pub open spec fn canonical_len(raw_len: nat, rate: nat, channels: nat) -> nat {
    resampled_len(mono_len(raw_len, channels), rate, TARGET_SAMPLE_RATE as nat)
}

/// The sizes of the buffers of a conversion.
#[derive(Debug, Clone, Copy, PartialEq, Eq, Structural)]
pub struct ConversionPlan {
    /// The number of frames, which is the length after downmixing.
    pub frames: usize,
    /// The number of canonical samples.
    pub samples: usize,
}

/// The capture engine's state between the device and the pipeline.
#[derive(Debug)]
pub struct AudioRecorder {
    device_sample_rate: u32,
    channels: u16,
    recording: bool,
}

impl AudioRecorder {
    #[verifier::type_invariant]
    spec fn well_formed(self) -> bool {
        self.device_sample_rate > 0 && self.channels > 0
    }

    /// The device's sample rate.
    pub closed spec fn rate(&self) -> u32 {
        self.device_sample_rate
    }

    /// The number of channels.
    pub closed spec fn channel_count(&self) -> u16 {
        self.channels
    }

    /// Whether samples are being taken in.
    pub closed spec fn recording(&self) -> bool {
        self.recording
    }

    /// An engine that records nothing yet and expects one channel at
    /// 48 kHz until a device says otherwise.
    pub fn new() -> (recorder: AudioRecorder)
        ensures
            recorder.rate() == 48000,
            recorder.channel_count() == 1,
            !recorder.recording(),
    {
        AudioRecorder { device_sample_rate: 48000, channels: 1, recording: false }
    }

    /// The device's sample rate.
    pub fn device_sample_rate(&self) -> (rate: u32)
        ensures
            rate == self.rate(),
            rate > 0,
    {
        proof {
            use_type_invariant(self);
        }
        self.device_sample_rate
    }

    /// The number of channels.
    pub fn channels(&self) -> (channels: u16)
        ensures
            channels == self.channel_count(),
            channels > 0,
    {
        proof {
            use_type_invariant(self);
        }
        self.channels
    }

    /// Whether samples are being taken in.
    pub fn is_recording(&self) -> (recording: bool)
        ensures
            recording == self.recording(),
    {
        self.recording
    }

    /// Begins a recording with what the device lookup gave. The engine
    /// takes samples in from now on, also where the device turns out to be
    /// unusable; the caller empties the raw buffer first.
    pub fn start_recording(&mut self, report: DeviceReport) -> (config: Result<
        CaptureConfig,
        PipelineError,
    >)
        ensures
            final(self).recording(),
            match report {
                DeviceReport::NoDevice => config matches Err(e) && e@ == ErrorModel::Device(
                    no_device(),
                ),
                DeviceReport::NoConfig(reason) => config matches Err(e) && e@ == ErrorModel::Device(
                    no_config(reason@),
                ),
                DeviceReport::Ready { sample_rate, channels, format } => match capture_of(
                    sample_rate,
                    channels,
                    format,
                ) {
                    Ok(c) => config == Ok::<CaptureConfig, PipelineError>(c),
                    Err(m) => config matches Err(e) && e@ == m,
                },
            },
            config matches Ok(c) ==> final(self).rate() == c.device_sample_rate,
            config matches Ok(c) ==> final(self).channel_count() == c.channels,
            config is Err ==> final(self).rate() == old(self).rate(),
            config is Err ==> final(self).channel_count() == old(self).channel_count(),
    {
        proof {
            use_type_invariant(&*self);
        }
        let rate_before = self.device_sample_rate;
        let channels_before = self.channels;
        match report {
            DeviceReport::NoDevice => {
                *self = AudioRecorder {
                    device_sample_rate: rate_before,
                    channels: channels_before,
                    recording: true,
                };
                Err(PipelineError::Device(String::from_str("没有找到默认音频输入设备")))
            },
            DeviceReport::NoConfig(reason) => {
                *self = AudioRecorder {
                    device_sample_rate: rate_before,
                    channels: channels_before,
                    recording: true,
                };
                Err(
                    PipelineError::Device(
                        String::from_str("无法获取默认音频配置: ").concat(reason.as_str()),
                    ),
                )
            },
            DeviceReport::Ready { sample_rate, channels, format } => {
                let usable = match format {
                    SampleFormat::Other => false,
                    _ => true,
                };
                if usable && sample_rate > 0 && channels > 0 {
                    *self = AudioRecorder {
                        device_sample_rate: sample_rate,
                        channels,
                        recording: true,
                    };
                    return Ok(CaptureConfig { device_sample_rate: sample_rate, channels, format });
                }
                *self = AudioRecorder {
                    device_sample_rate: rate_before,
                    channels: channels_before,
                    recording: true,
                };
                Err(PipelineError::Device(String::from_str("不支持的采样格式")))
            },
        }
    }

    /// Says how long the buffers of the conversion of `raw_len` raw samples
    /// are; `None` where the canonical audio is more than a buffer holds.
    pub fn plan(&self, raw_len: usize) -> (plan: Option<ConversionPlan>)
        ensures
            plan is Some <==> canonical_len(
                raw_len as nat,
                self.rate() as nat,
                self.channel_count() as nat,
            ) <= usize::MAX,
            plan matches Some(p) ==> p.frames == mono_len(
                raw_len as nat,
                self.channel_count() as nat,
            ) && p.samples == canonical_len(
                raw_len as nat,
                self.rate() as nat,
                self.channel_count() as nat,
            ),
    {
        proof {
            use_type_invariant(self);
        }
        let frames = frame_count(raw_len, self.channels);
        match resampled_length(frames, self.device_sample_rate, TARGET_SAMPLE_RATE) {
            Some(samples) => Some(ConversionPlan { frames, samples }),
            None => None,
        }
    }

    /// Ends the recording and wraps its canonical samples into the
    /// canonical container. Ending a recording that was never begun is
    /// no failure: an empty recording gives a container without samples.
    pub fn stop_recording_to_memory(&mut self, canonical: &[i16]) -> (wav: Result<
        Vec<u8>,
        WavError,
    >)
        ensures
            !final(self).recording(),
            final(self).rate() == old(self).rate(),
            final(self).channel_count() == old(self).channel_count(),
            wav is Ok <==> canonical@.len() <= MAX_WAV_SAMPLES,
            wav matches Ok(bytes) ==> bytes@ == wire_audio(canonical@),
            wav matches Err(e) ==> e == WavError::TooLong,
    {
        self.stop();
        encode_wav(canonical)
    }

    /// Ends the recording; ending it again changes nothing.
    pub fn stop(&mut self)
        ensures
            !final(self).recording(),
            final(self).rate() == old(self).rate(),
            final(self).channel_count() == old(self).channel_count(),
    {
        proof {
            use_type_invariant(&*self);
        }
        *self = AudioRecorder {
            device_sample_rate: self.device_sample_rate,
            channels: self.channels,
            recording: false,
        };
    }

    /// Ends the recording and names the file that its container is kept
    /// in, after the time of the stop in seconds of Unix time.
    pub fn stop_recording(&mut self, unix_seconds: u64) -> (file_name: String)
        ensures
            !final(self).recording(),
            final(self).rate() == old(self).rate(),
            final(self).channel_count() == old(self).channel_count(),
            file_name@ == recording_file_name(unix_seconds as nat),
    {
        self.stop();
        let mut name = String::from_str("recording_");
        push_decimal(&mut name, unix_seconds as u128);
        name.append(".wav");
        name
    }
}

/// The name of the file of a recording that was stopped at `unix_seconds`.
pub open spec fn recording_file_name(unix_seconds: nat) -> Seq<char> {
    "recording_"@ + decimal(unix_seconds) + ".wav"@
}

/// The length of canonical audio depends on nothing but the length of the
/// raw buffer, the number of channels and the two rates; one channel at
/// the target rate leaves the length as it is.
pub proof fn lemma_canonical_len(raw_len: nat, rate: nat, channels: nat)
    requires
        rate > 0,
        channels > 0,
    ensures
        canonical_len(raw_len, rate, channels) == if rate == TARGET_SAMPLE_RATE {
            raw_len / channels
        } else {
            ((raw_len / channels) * 16000) / rate
        },
        canonical_len(raw_len, TARGET_SAMPLE_RATE as nat, 1) == raw_len,
        canonical_len(raw_len, 48000, 1) == raw_len / 3,
{
    crate::audio::lemma_resample_48k_to_16k(raw_len);
    assert(raw_len / 1 == raw_len);
}

} // verus!
