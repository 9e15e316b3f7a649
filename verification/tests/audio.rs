use push_to_talk::audio::{
    frame_bounds, frame_count, resampled_length, source_position, CHUNK_SAMPLES,
    TARGET_SAMPLE_RATE,
};
use push_to_talk::error::PipelineError;
use push_to_talk::recorder::{AudioRecorder, ConversionPlan, DeviceReport, SampleFormat};
use push_to_talk::streaming::ChunkBuffer;
use push_to_talk::wav::WavError;

#[test]
fn constants() {
    assert_eq!(TARGET_SAMPLE_RATE, 16000);
    assert_eq!(CHUNK_SAMPLES, 3200);
}

#[test]
fn downmix_length_is_whole_quotient() {
    for channels in [1u16, 2, 4] {
        for len in [0usize, 1, 2, 3, 4, 5, 7, 8, 1001] {
            assert_eq!(frame_count(len, channels), len / channels as usize);
        }
    }
}

#[test]
fn frames_lie_side_by_side() {
    assert_eq!(frame_bounds(0, 7, 2), (0, 2));
    assert_eq!(frame_bounds(2, 7, 2), (4, 6));
    assert_eq!(frame_bounds(3, 16, 4), (12, 16));
    assert_eq!(frame_bounds(5, 6, 1), (5, 6));
}

#[test]
fn equal_rates_leave_everything_in_place() {
    assert_eq!(resampled_length(12345, 16000, 16000), Some(12345));
    assert_eq!(resampled_length(0, 44100, 44100), Some(0));
    for index in [0usize, 1, 99] {
        let position = source_position(index, 100, 44100, 44100);
        assert_eq!(position.floor, index);
        assert_eq!(position.weight, 0);
    }
}

#[test]
fn from_48k_to_16k_is_a_third() {
    for len in [0usize, 1, 2, 3, 4, 5, 6, 96000, 96001, 96002] {
        assert_eq!(resampled_length(len, 48000, 16000), Some(len / 3));
    }
}

#[test]
fn other_ratios_round_down() {
    assert_eq!(resampled_length(44100, 44100, 16000), Some(16000));
    assert_eq!(resampled_length(100, 44100, 16000), Some(36));
    assert_eq!(resampled_length(10, 8000, 16000), Some(20));
    assert_eq!(resampled_length(10, 16000, 0), Some(0));
}

#[test]
fn resampled_length_that_does_not_fit() {
    assert_eq!(resampled_length(usize::MAX, 1, 2), None);
    assert_eq!(resampled_length(usize::MAX, 2, 1), Some(usize::MAX / 2));
}

#[test]
fn source_positions_interpolate_between_neighbours() {
    let position = source_position(1, 9, 48000, 16000);
    assert_eq!((position.floor, position.ceil, position.weight, position.scale), (3, 4, 0, 16000));
    let position = source_position(1, 100, 44100, 16000);
    assert_eq!((position.floor, position.ceil), (2, 3));
    assert_eq!((position.weight, position.scale), (12100, 16000));
    let position = source_position(19, 10, 8000, 16000);
    assert_eq!((position.floor, position.ceil, position.weight), (9, 9, 8000));
    let position = source_position(1, 10, 8000, 16000);
    assert_eq!((position.floor, position.ceil, position.weight), (0, 1, 8000));
}

#[test]
fn new_recorder_expects_mono_at_48k() {
    let recorder = AudioRecorder::new();
    assert_eq!(recorder.device_sample_rate(), 48000);
    assert_eq!(recorder.channels(), 1);
    assert!(!recorder.is_recording());
}

#[test]
fn start_takes_over_what_the_device_delivers() {
    let mut recorder = AudioRecorder::new();
    let config = recorder
        .start_recording(DeviceReport::Ready {
            sample_rate: 44100,
            channels: 2,
            format: SampleFormat::I16,
        })
        .unwrap();
    assert_eq!(config.device_sample_rate, 44100);
    assert_eq!(config.channels, 2);
    assert_eq!(config.format, SampleFormat::I16);
    assert!(recorder.is_recording());
    assert_eq!(recorder.device_sample_rate(), 44100);
    assert_eq!(recorder.channels(), 2);
    assert_eq!(
        recorder.plan(88200),
        Some(ConversionPlan { frames: 44100, samples: 16000 })
    );
}

#[test]
fn start_without_device_fails() {
    let mut recorder = AudioRecorder::new();
    assert!(matches!(
        recorder.start_recording(DeviceReport::NoDevice),
        Err(PipelineError::Device(m)) if m == "没有找到默认音频输入设备"
    ));
    assert!(recorder.is_recording());
    assert_eq!(recorder.device_sample_rate(), 48000);
    assert!(matches!(
        recorder.start_recording(DeviceReport::NoConfig("busy".to_string())),
        Err(PipelineError::Device(m)) if m == "无法获取默认音频配置: busy"
    ));
}

#[test]
fn start_refuses_what_cannot_be_converted() {
    let reports = [
        (48000u32, 1u16, SampleFormat::Other),
        (0, 1, SampleFormat::F32),
        (48000, 0, SampleFormat::F32),
    ];
    for (sample_rate, channels, format) in reports {
        let mut recorder = AudioRecorder::new();
        assert!(matches!(
            recorder.start_recording(DeviceReport::Ready { sample_rate, channels, format }),
            Err(PipelineError::Device(m)) if m == "不支持的采样格式"
        ));
        assert_eq!(recorder.device_sample_rate(), 48000);
        assert_eq!(recorder.channels(), 1);
    }
}

#[test]
fn stop_gives_the_container_and_is_idempotent() {
    let mut recorder = AudioRecorder::new();
    let wav = recorder.stop_recording_to_memory(&[]).unwrap();
    assert_eq!(wav.len(), 44);
    recorder
        .start_recording(DeviceReport::Ready {
            sample_rate: 48000,
            channels: 1,
            format: SampleFormat::F32,
        })
        .unwrap();
    let wav = recorder.stop_recording_to_memory(&[1, 2, 3]).unwrap();
    assert_eq!(wav.len(), 50);
    assert!(!recorder.is_recording());
    assert_eq!(recorder.stop_recording_to_memory(&[]).unwrap().len(), 44);
    recorder.stop();
    assert!(!recorder.is_recording());
    assert_eq!(recorder.stop_recording(1700000000), "recording_1700000000.wav");
    let _ = WavError::TooLong;
}

#[test]
fn two_seconds_of_mono_48k_plan_to_32000_samples() {
    let recorder = AudioRecorder::new();
    assert_eq!(
        recorder.plan(96000),
        Some(ConversionPlan { frames: 96000, samples: 32000 })
    );
}

#[test]
fn chunk_buffer_hands_out_full_chunks() {
    let mut buffer = ChunkBuffer::new();
    let first: Vec<i16> = (0..3000).map(|i| i as i16).collect();
    assert!(buffer.push(&first).is_empty());
    assert_eq!(buffer.pending_len(), 3000);
    let second: Vec<i16> = (3000..7000).map(|i| i as i16).collect();
    let chunks = buffer.push(&second);
    assert_eq!(chunks.len(), 2);
    let expected: Vec<i16> = (0..3200).map(|i| i as i16).collect();
    assert_eq!(chunks[0], expected);
    let expected: Vec<i16> = (3200..6400).map(|i| i as i16).collect();
    assert_eq!(chunks[1], expected);
    assert_eq!(buffer.pending_len(), 600);
    let expected: Vec<i16> = (6400..7000).map(|i| i as i16).collect();
    assert_eq!(buffer.finish(), Some(expected));
    assert_eq!(buffer.finish(), None);
    assert_eq!(buffer.pending_len(), 0);
}

#[test]
fn chunk_buffer_with_exact_chunks_leaves_nothing() {
    let mut buffer = ChunkBuffer::new();
    let chunks = buffer.push(&vec![7i16; 6400]);
    assert_eq!(chunks.len(), 2);
    assert_eq!(buffer.pending_len(), 0);
    assert_eq!(buffer.finish(), None);
    assert!(buffer.push(&[]).is_empty());
}
