use push_to_talk::events::{decode_event, event_kind, payload_location, EventKind, ServerEvent};

fn kind_of(name: &str) -> EventKind {
    event_kind(&name.to_string())
}

#[test]
fn event_names_map_to_kinds() {
    assert_eq!(kind_of("session.created"), EventKind::SessionAcknowledged);
    assert_eq!(kind_of("session.updated"), EventKind::SessionAcknowledged);
    assert_eq!(kind_of("input_audio_buffer.committed"), EventKind::BufferCommitted);
    assert_eq!(
        kind_of("conversation.item.input_audio_transcription.completed"),
        EventKind::TranscriptionCompleted
    );
    assert_eq!(kind_of("response.audio_transcript.delta"), EventKind::TranscriptDelta);
    assert_eq!(kind_of("response.audio_transcript.done"), EventKind::TranscriptDone);
    assert_eq!(kind_of("response.done"), EventKind::ResponseFinished);
    assert_eq!(kind_of("error"), EventKind::Failure);
    assert_eq!(kind_of("response.created"), EventKind::Unknown);
    assert_eq!(kind_of(""), EventKind::Unknown);
}

#[test]
fn payload_locations() {
    assert_eq!(payload_location(EventKind::TranscriptionCompleted), Some("/transcript"));
    assert_eq!(payload_location(EventKind::TranscriptDone), Some("/transcript"));
    assert_eq!(payload_location(EventKind::TranscriptDelta), Some("/delta"));
    assert_eq!(payload_location(EventKind::Failure), Some("/error/message"));
    assert_eq!(payload_location(EventKind::ResponseFinished), None);
    assert_eq!(payload_location(EventKind::Unknown), None);
}

#[test]
fn assemble_ignores_payload_where_the_kind_has_none() {
    let event = ServerEvent::assemble(EventKind::ResponseFinished, Some("x".to_string()));
    assert!(matches!(event, ServerEvent::ResponseFinished));
    let event = ServerEvent::assemble(EventKind::TranscriptDelta, Some("x".to_string()));
    assert!(matches!(event, ServerEvent::TranscriptDelta(Some(ref d)) if d == "x"));
    assert_eq!(event.kind(), EventKind::TranscriptDelta);
}

#[test]
fn decode_reads_completed_transcript() {
    let text = r#"{"type":"conversation.item.input_audio_transcription.completed","transcript":"你好，世界。"}"#;
    match decode_event(text) {
        ServerEvent::TranscriptionCompleted(Some(t)) => assert_eq!(t, "你好，世界。"),
        other => panic!("{:?}", other),
    }
}

#[test]
fn decode_reads_delta_and_done() {
    match decode_event(r#"{"type":"response.audio_transcript.delta","delta":"abc"}"#) {
        ServerEvent::TranscriptDelta(Some(d)) => assert_eq!(d, "abc"),
        other => panic!("{:?}", other),
    }
    match decode_event(r#"{"type":"response.audio_transcript.done"}"#) {
        ServerEvent::TranscriptDone(None) => {}
        other => panic!("{:?}", other),
    }
    match decode_event(r#"{"type":"response.audio_transcript.delta","delta":5}"#) {
        ServerEvent::TranscriptDelta(None) => {}
        other => panic!("{:?}", other),
    }
}

#[test]
fn decode_reads_error_message() {
    match decode_event(r#"{"type":"error","error":{"message":"bad key","code":"401"}}"#) {
        ServerEvent::Failure(Some(m)) => assert_eq!(m, "bad key"),
        other => panic!("{:?}", other),
    }
    match decode_event(r#"{"type":"error"}"#) {
        ServerEvent::Failure(None) => {}
        other => panic!("{:?}", other),
    }
}

#[test]
fn decode_tells_acknowledgements() {
    assert!(matches!(
        decode_event(r#"{"type":"session.created","session":{}}"#),
        ServerEvent::SessionAcknowledged
    ));
    assert!(matches!(
        decode_event(r#"{"type":"session.updated"}"#),
        ServerEvent::SessionAcknowledged
    ));
    assert!(matches!(
        decode_event(r#"{"type":"input_audio_buffer.committed"}"#),
        ServerEvent::BufferCommitted
    ));
    assert!(matches!(decode_event(r#"{"type":"response.done"}"#), ServerEvent::ResponseFinished));
}

#[test]
fn decode_of_what_is_no_event_is_unknown() {
    assert!(matches!(decode_event("not json"), ServerEvent::Unknown));
    assert!(matches!(decode_event(""), ServerEvent::Unknown));
    assert!(matches!(decode_event("[1,2]"), ServerEvent::Unknown));
    assert!(matches!(decode_event(r#"{"type":7}"#), ServerEvent::Unknown));
    assert!(matches!(decode_event(r#"{"kind":"error"}"#), ServerEvent::Unknown));
    assert!(matches!(decode_event(r#"{"type":"something.new"}"#), ServerEvent::Unknown));
}
