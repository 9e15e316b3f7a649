use push_to_talk::error::PipelineError;
use push_to_talk::events::ServerEvent;
use push_to_talk::transcript::{
    resolve_wait, Delivery, Inbound, Transcript, WaitOutcome, TRANSCRIPTION_TIMEOUT_SECS,
};

fn text(frame: &str) -> Inbound {
    Inbound::Text(frame.to_string())
}

#[test]
fn completed_transcript_is_delivered_without_punctuation() {
    let mut transcript = Transcript::new();
    let frame = r#"{"type":"conversation.item.input_audio_transcription.completed","transcript":"你好，世界。"}"#;
    match transcript.on_frame(text(frame)) {
        Delivery::Transcript(t) => assert_eq!(t, "你好世界"),
        other => panic!("{:?}", other),
    }
    assert!(transcript.delivered);
}

#[test]
fn deltas_append_and_response_done_delivers() {
    let mut transcript = Transcript::new();
    assert!(matches!(
        transcript.on_frame(text(r#"{"type":"session.created"}"#)),
        Delivery::Pending
    ));
    assert!(matches!(
        transcript.on_frame(text(r#"{"type":"response.audio_transcript.delta","delta":"今天，"}"#)),
        Delivery::Pending
    ));
    assert!(matches!(
        transcript.on_frame(text(r#"{"type":"response.audio_transcript.delta","delta":"天气好。"}"#)),
        Delivery::Pending
    ));
    assert_eq!(transcript.text, "今天，天气好。");
    match transcript.on_frame(text(r#"{"type":"response.done"}"#)) {
        Delivery::Transcript(t) => assert_eq!(t, "今天天气好"),
        other => panic!("{:?}", other),
    }
}

#[test]
fn completed_replaces_what_deltas_gathered() {
    let mut transcript = Transcript::new();
    transcript.on_event(ServerEvent::TranscriptDelta(Some("draft".to_string())));
    match transcript.on_event(ServerEvent::TranscriptionCompleted(Some("final text".to_string()))) {
        Delivery::Transcript(t) => assert_eq!(t, "final text"),
        other => panic!("{:?}", other),
    }
}

#[test]
fn response_done_delivers_even_an_empty_transcript() {
    let mut transcript = Transcript::new();
    match transcript.on_event(ServerEvent::ResponseFinished) {
        Delivery::Transcript(t) => assert_eq!(t, ""),
        other => panic!("{:?}", other),
    }
    assert!(transcript.delivered);
}

#[test]
fn delivery_happens_once() {
    let mut transcript = Transcript::new();
    transcript.on_event(ServerEvent::TranscriptionCompleted(Some("one".to_string())));
    assert!(matches!(
        transcript.on_event(ServerEvent::TranscriptionCompleted(Some("two".to_string()))),
        Delivery::Pending
    ));
    assert!(matches!(transcript.on_event(ServerEvent::ResponseFinished), Delivery::Pending));
    assert!(matches!(transcript.on_event(ServerEvent::Failure(None)), Delivery::Pending));
    assert!(matches!(transcript.on_closed(), Delivery::Pending));
    assert!(matches!(transcript.on_broken("x".to_string()), Delivery::Pending));
    assert_eq!(transcript.text, "one");
}

#[test]
fn error_event_ends_the_session() {
    let mut transcript = Transcript::new();
    transcript.on_event(ServerEvent::TranscriptDelta(Some("partial".to_string())));
    let frame = r#"{"type":"error","error":{"message":"invalid api key"}}"#;
    match transcript.on_frame(text(frame)) {
        Delivery::Failed(PipelineError::Protocol(m)) => assert_eq!(m, "invalid api key"),
        other => panic!("{:?}", other),
    }
    assert!(matches!(transcript.on_event(ServerEvent::ResponseFinished), Delivery::Pending));
}

#[test]
fn error_event_without_message_has_a_default() {
    let mut transcript = Transcript::new();
    match transcript.on_event(ServerEvent::Failure(None)) {
        Delivery::Failed(PipelineError::Protocol(m)) => assert_eq!(m, "未知错误"),
        other => panic!("{:?}", other),
    }
}

#[test]
fn stream_end_without_result_is_a_protocol_failure() {
    let mut transcript = Transcript::new();
    transcript.on_event(ServerEvent::TranscriptDelta(Some("partial".to_string())));
    match transcript.on_frame(Inbound::Closed) {
        Delivery::Failed(PipelineError::Protocol(m)) => assert_eq!(m, "未收到转录结果"),
        other => panic!("{:?}", other),
    }
}

#[test]
fn stream_end_after_an_empty_final_text_closes_the_channel() {
    let mut transcript = Transcript::new();
    assert!(matches!(transcript.on_event(ServerEvent::TranscriptDone(None)), Delivery::Pending));
    assert!(matches!(
        transcript.on_closed(),
        Delivery::Failed(PipelineError::ChannelClosed)
    ));
}

#[test]
fn final_mark_delivers_as_soon_as_text_is_there() {
    let mut transcript = Transcript::new();
    assert!(matches!(transcript.on_event(ServerEvent::TranscriptDone(None)), Delivery::Pending));
    match transcript.on_event(ServerEvent::TranscriptDelta(Some("late。".to_string()))) {
        Delivery::Transcript(t) => assert_eq!(t, "late"),
        other => panic!("{:?}", other),
    }
}

#[test]
fn transport_failure_is_delivered() {
    let mut transcript = Transcript::new();
    match transcript.on_frame(Inbound::Broken("connection reset".to_string())) {
        Delivery::Failed(PipelineError::Connect(m)) => assert_eq!(m, "connection reset"),
        other => panic!("{:?}", other),
    }
}

#[test]
fn other_frames_and_unknown_events_change_nothing() {
    let mut transcript = Transcript::new();
    assert!(matches!(transcript.on_frame(Inbound::Other), Delivery::Pending));
    assert!(matches!(transcript.on_frame(text("garbage")), Delivery::Pending));
    assert!(matches!(
        transcript.on_frame(text(r#"{"type":"rate_limits.updated"}"#)),
        Delivery::Pending
    ));
    assert_eq!(transcript.text, "");
    assert!(!transcript.ready);
    assert!(!transcript.delivered);
}

#[test]
fn wait_without_response_times_out() {
    assert_eq!(TRANSCRIPTION_TIMEOUT_SECS, 10);
    assert!(matches!(resolve_wait(WaitOutcome::TimedOut), Err(PipelineError::Timeout)));
}

#[test]
fn wait_hands_on_what_was_delivered() {
    assert_eq!(
        resolve_wait(WaitOutcome::Delivered(Ok("text".to_string()))).unwrap(),
        "text"
    );
    assert!(matches!(
        resolve_wait(WaitOutcome::Delivered(Err(PipelineError::Protocol("x".to_string())))),
        Err(PipelineError::Protocol(_))
    ));
    assert!(matches!(
        resolve_wait(WaitOutcome::ChannelClosed),
        Err(PipelineError::ChannelClosed)
    ));
}
