use push_to_talk::commands::{
    audio_append_document, audio_commit_document, session_update_message, Dispatcher,
    SessionCommand, WireAction,
};
use push_to_talk::encoding::{fits_base64, to_decimal};
use push_to_talk::json::Json;

fn parse(text: &str) -> serde_json::Value {
    serde_json::from_str(text).unwrap()
}

fn sent(action: Option<WireAction>) -> String {
    match action {
        Some(WireAction::Send(text)) => text,
        other => panic!("{:?}", other),
    }
}

#[test]
fn session_update_declares_manual_commit_pcm_16k() {
    let text = session_update_message(1700000000123);
    let value = parse(&text);
    assert_eq!(value["event_id"], "event_1700000000123");
    assert_eq!(value["type"], "session.update");
    assert_eq!(value["session"]["modalities"][0], "text");
    assert_eq!(value["session"]["modalities"].as_array().unwrap().len(), 1);
    assert_eq!(value["session"]["input_audio_format"], "pcm");
    assert_eq!(value["session"]["sample_rate"], 16000);
    assert_eq!(value["session"]["input_audio_transcription"]["language"], "zh");
    assert!(value["session"]["turn_detection"].is_null());
    assert!(value["session"].as_object().unwrap().contains_key("turn_detection"));
    assert_eq!(value.as_object().unwrap().len(), 3);
    assert_eq!(value["session"].as_object().unwrap().len(), 5);
}

#[test]
fn session_update_text_is_compact_json() {
    assert_eq!(
        session_update_message(7),
        r#"{"event_id":"event_7","session":{"input_audio_format":"pcm","input_audio_transcription":{"language":"zh"},"modalities":["text"],"sample_rate":16000,"turn_detection":null},"type":"session.update"}"#
    );
}

#[test]
fn dispatcher_writes_audio_as_base64() {
    let mut dispatcher = Dispatcher::new();
    let command = SessionCommand::SendAudio(vec![1, 2, 3, 4]);
    assert!(command.fits_wire());
    let text = sent(dispatcher.handle(&command, 42));
    let value = parse(&text);
    assert_eq!(value["event_id"], "event_42");
    assert_eq!(value["type"], "input_audio_buffer.append");
    assert_eq!(value["audio"], "AQIDBA==");
    assert!(!dispatcher.stopped);
}

#[test]
fn dispatcher_writes_commit_without_payload() {
    let mut dispatcher = Dispatcher::new();
    let text = sent(dispatcher.handle(&SessionCommand::Commit, 0));
    assert_eq!(text, r#"{"event_id":"event_0","type":"input_audio_buffer.commit"}"#);
}

#[test]
fn dispatcher_keeps_queue_order_and_stops_at_close() {
    let mut dispatcher = Dispatcher::new();
    let queue = vec![
        SessionCommand::SendAudio(vec![0, 0]),
        SessionCommand::SendAudio(vec![1, 0]),
        SessionCommand::Commit,
        SessionCommand::Close,
        SessionCommand::SendAudio(vec![2, 0]),
    ];
    let mut log: Vec<String> = Vec::new();
    for (i, command) in queue.iter().enumerate() {
        match dispatcher.handle(command, i as u128) {
            Some(WireAction::Send(text)) => {
                log.push(parse(&text)["type"].as_str().unwrap().to_string());
                dispatcher.written(command, true);
            }
            Some(WireAction::CloseConnection) => {
                log.push("close".to_string());
                dispatcher.written(command, true);
            }
            None => log.push("none".to_string()),
        }
    }
    assert_eq!(
        log,
        vec![
            "input_audio_buffer.append",
            "input_audio_buffer.append",
            "input_audio_buffer.commit",
            "close",
            "none"
        ]
    );
    assert!(dispatcher.stopped);
}

#[test]
fn failed_audio_write_stops_the_dispatcher_but_failed_commit_does_not() {
    let mut dispatcher = Dispatcher::new();
    dispatcher.written(&SessionCommand::Commit, false);
    assert!(!dispatcher.stopped);
    dispatcher.written(&SessionCommand::SendAudio(vec![]), true);
    assert!(!dispatcher.stopped);
    dispatcher.written(&SessionCommand::SendAudio(vec![]), false);
    assert!(dispatcher.stopped);
    assert!(dispatcher.handle(&SessionCommand::Commit, 1).is_none());
}

#[test]
fn documents_have_the_fields_in_order() {
    match audio_commit_document(5) {
        Json::Object(fields) => {
            assert_eq!(fields.len(), 2);
            assert_eq!(fields[0].0, "event_id");
            assert!(matches!(&fields[0].1, Json::Text(t) if t == "event_5"));
            assert_eq!(fields[1].0, "type");
        }
        other => panic!("{:?}", other),
    }
    match audio_append_document(&[255], 5) {
        Json::Object(fields) => {
            assert_eq!(fields.len(), 3);
            assert_eq!(fields[2].0, "audio");
            assert!(matches!(&fields[2].1, Json::Text(t) if t == "/w=="));
        }
        other => panic!("{:?}", other),
    }
}

#[test]
fn decimal_text_of_numbers() {
    assert_eq!(to_decimal(0), "0");
    assert_eq!(to_decimal(9), "9");
    assert_eq!(to_decimal(10), "10");
    assert_eq!(to_decimal(16000), "16000");
    assert_eq!(to_decimal(u128::MAX), u128::MAX.to_string());
}

#[test]
fn base64_length_bound() {
    assert!(fits_base64(0));
    assert!(fits_base64(1 << 20));
    assert!(!fits_base64(usize::MAX));
}
