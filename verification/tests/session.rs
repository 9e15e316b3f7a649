use push_to_talk::commands::SessionCommand;
use push_to_talk::error::PipelineError;
use push_to_talk::replay::{realtime_transcribe_audio, stream_samples};
use push_to_talk::session::{
    connect_failure, ConnectRequest, ConnectionPool, QwenRealtimeClient, RealtimeSession,
    SessionState,
};
use push_to_talk::transcript::WaitOutcome;
use push_to_talk::wav::encode_wav;

fn open_session() -> RealtimeSession {
    let mut session = RealtimeSession::new();
    assert!(session.begin(1).is_some());
    session.configured(true);
    session
}

#[test]
fn connect_request_carries_credentials_and_upgrade_headers() {
    let request = ConnectRequest::new("sk-test", "a2V5");
    assert_eq!(
        request.url,
        "wss://dashscope.aliyuncs.com/api-ws/v1/realtime?model=qwen3-asr-flash-realtime"
    );
    let headers: Vec<(&str, &str)> =
        request.headers.iter().map(|h| (h.0.as_str(), h.1.as_str())).collect();
    assert_eq!(
        headers,
        vec![
            ("Authorization", "Bearer sk-test"),
            ("OpenAI-Beta", "realtime=v1"),
            ("Host", "dashscope.aliyuncs.com"),
            ("Connection", "Upgrade"),
            ("Upgrade", "websocket"),
            ("Sec-WebSocket-Version", "13"),
            ("Sec-WebSocket-Key", "a2V5"),
        ]
    );
}

#[test]
fn client_prepares_a_fresh_session_each_time() {
    let client = QwenRealtimeClient::new("sk-live".to_string());
    let (first, session) = client.start_session();
    let (second, _) = client.start_session();
    assert_eq!(session.state(), SessionState::Created);
    assert_eq!(first.headers[0].1, "Bearer sk-live");
    assert_eq!(first.headers.len(), 7);
    assert_eq!(first.headers[6].0, "Sec-WebSocket-Key");
    assert_eq!(first.headers[6].1.len(), 24);
    assert_ne!(first.headers[6].1, second.headers[6].1);
    let pool = ConnectionPool::new("k".to_string());
    assert_eq!(pool.get_session().0.headers[0].1, "Bearer k");
}

#[test]
fn refused_credentials_are_an_auth_failure() {
    assert!(matches!(
        connect_failure(Some(401), "unauthorized".to_string()),
        PipelineError::Auth(m) if m == "unauthorized"
    ));
    assert!(matches!(connect_failure(Some(403), "no".to_string()), PipelineError::Auth(_)));
    assert!(matches!(connect_failure(Some(500), "x".to_string()), PipelineError::Connect(_)));
    assert!(matches!(
        connect_failure(None, "dns".to_string()),
        PipelineError::Connect(m) if m == "dns"
    ));
}

#[test]
fn session_walks_through_its_states() {
    let mut session = RealtimeSession::new();
    assert_eq!(session.state(), SessionState::Created);
    let message = session.begin(99).unwrap();
    assert!(message.contains("\"session.update\""));
    assert!(message.contains("\"event_99\""));
    assert_eq!(session.state(), SessionState::Configuring);
    assert!(session.begin(100).is_none());
    session.configured(true);
    assert_eq!(session.state(), SessionState::Streaming);
    assert!(matches!(
        session.send_audio_chunk(&[1, -1]),
        Ok(SessionCommand::SendAudio(bytes)) if bytes == vec![1, 0, 0xff, 0xff]
    ));
    assert_eq!(session.state(), SessionState::Streaming);
    assert!(matches!(session.commit_audio(), Ok(SessionCommand::Commit)));
    assert_eq!(session.state(), SessionState::Committed);
    assert_eq!(session.start_wait(), Some(10));
    assert_eq!(session.state(), SessionState::AwaitingResult);
    assert_eq!(
        session.wait_for_result(WaitOutcome::Delivered(Ok("好".to_string()))).unwrap(),
        "好"
    );
    assert_eq!(session.state(), SessionState::Closed);
    assert!(matches!(session.close(), SessionCommand::Close));
    assert_eq!(session.state(), SessionState::Closed);
}

#[test]
fn configuration_that_cannot_be_sent_fails_the_session() {
    let mut session = RealtimeSession::new();
    session.begin(1);
    session.configured(false);
    assert_eq!(session.state(), SessionState::Failed);
    assert!(matches!(session.send_audio_chunk(&[1]), Err(PipelineError::ChannelClosed)));
    assert!(matches!(session.commit_audio(), Err(PipelineError::ChannelClosed)));
    assert_eq!(session.start_wait(), None);
}

#[test]
fn session_without_connection_takes_no_commands() {
    let mut session = RealtimeSession::new();
    assert!(matches!(session.send_audio_chunk(&[]), Err(PipelineError::ChannelClosed)));
    assert!(matches!(session.commit_audio(), Err(PipelineError::ChannelClosed)));
    assert_eq!(session.state(), SessionState::Created);
}

#[test]
fn wait_times_out_and_fails_the_session() {
    let mut session = open_session();
    session.commit_audio().unwrap();
    assert_eq!(session.start_wait(), Some(10));
    assert!(matches!(
        session.wait_for_result(WaitOutcome::TimedOut),
        Err(PipelineError::Timeout)
    ));
    assert_eq!(session.state(), SessionState::Failed);
}

#[test]
fn a_session_waits_once() {
    let mut session = open_session();
    assert_eq!(session.start_wait(), Some(10));
    assert_eq!(session.start_wait(), None);
    assert!(session.wait_for_result(WaitOutcome::Delivered(Ok("a".to_string()))).is_ok());
    assert_eq!(session.start_wait(), None);
    assert!(matches!(
        session.wait_for_result(WaitOutcome::Delivered(Ok("b".to_string()))),
        Err(PipelineError::ChannelClosed)
    ));
}

#[test]
fn wait_that_never_began_sees_a_closed_channel() {
    let mut session = open_session();
    assert!(matches!(
        session.wait_for_result(WaitOutcome::Delivered(Ok("a".to_string()))),
        Err(PipelineError::ChannelClosed)
    ));
    assert_eq!(session.state(), SessionState::Streaming);
}

#[test]
fn close_is_safe_in_every_state_and_idempotent() {
    let mut fresh = RealtimeSession::new();
    assert!(matches!(fresh.close(), SessionCommand::Close));
    assert_eq!(fresh.state(), SessionState::Closed);
    assert!(matches!(fresh.close(), SessionCommand::Close));
    assert_eq!(fresh.state(), SessionState::Closed);
    let mut open = open_session();
    open.close();
    assert_eq!(open.state(), SessionState::Closed);
    assert!(matches!(open.send_audio_chunk(&[1]), Err(PipelineError::ChannelClosed)));
    let mut failed = RealtimeSession::new();
    failed.begin(1);
    failed.configured(false);
    failed.close();
    assert_eq!(failed.state(), SessionState::Failed);
}

#[test]
fn audio_may_still_be_queued_after_commit() {
    let mut session = open_session();
    session.commit_audio().unwrap();
    assert!(session.send_audio_chunk(&[5]).is_ok());
    assert!(session.commit_audio().is_ok());
    assert_eq!(session.state(), SessionState::Committed);
}

#[test]
fn samples_are_streamed_in_chunks_then_committed() {
    let mut session = open_session();
    let samples: Vec<i16> = (0..7000).map(|i| (i % 128) as i16).collect();
    let queue = stream_samples(&mut session, &samples).unwrap();
    assert_eq!(queue.len(), 4);
    let mut bytes: Vec<u8> = Vec::new();
    for (i, command) in queue.iter().enumerate() {
        match command {
            SessionCommand::SendAudio(audio) => {
                assert!(i < 3);
                assert_eq!(audio.len(), if i < 2 { 6400 } else { 1200 });
                bytes.extend_from_slice(audio);
            }
            SessionCommand::Commit => assert_eq!(i, 3),
            SessionCommand::Close => panic!("close"),
        }
    }
    assert_eq!(bytes, push_to_talk::pcm::pcm16_to_bytes(&samples));
    assert_eq!(session.state(), SessionState::Committed);
}

#[test]
fn empty_recording_is_committed_without_audio() {
    let mut session = open_session();
    let queue = stream_samples(&mut session, &[]).unwrap();
    assert_eq!(queue.len(), 1);
    assert!(matches!(queue[0], SessionCommand::Commit));
}

#[test]
fn recording_is_replayed_from_its_container() {
    let mut session = open_session();
    let samples: Vec<i16> = vec![11; 3201];
    let wav = encode_wav(&samples).unwrap();
    let queue = realtime_transcribe_audio(&mut session, &wav).unwrap();
    assert_eq!(queue.len(), 3);
    assert!(matches!(&queue[0], SessionCommand::SendAudio(a) if a.len() == 6400));
    assert!(matches!(&queue[1], SessionCommand::SendAudio(a) if a == &vec![11u8, 0]));
    assert!(matches!(queue[2], SessionCommand::Commit));
}

#[test]
fn replay_refuses_what_is_no_container() {
    let mut session = open_session();
    assert!(matches!(
        realtime_transcribe_audio(&mut session, b"not a wav"),
        Err(PipelineError::Protocol(m)) if m == "音频数据不是有效的 WAV"
    ));
    assert_eq!(session.state(), SessionState::Streaming);
}

#[test]
fn replay_through_a_closed_session_fails() {
    let mut session = RealtimeSession::new();
    let wav = encode_wav(&[1, 2, 3]).unwrap();
    assert!(matches!(
        realtime_transcribe_audio(&mut session, &wav),
        Err(PipelineError::ChannelClosed)
    ));
}
