use push_to_talk::asr::RequestBody;
use push_to_talk::error::PipelineError;
use push_to_talk::fallback::{
    advance, transcribe_with_fallback_bytes, FallbackRace, RaceAction, RaceError, RaceEvent,
    RaceState,
};

fn failed(reason: &str) -> Result<String, PipelineError> {
    Err(PipelineError::Connect(reason.to_string()))
}

fn text(t: &str) -> Result<String, PipelineError> {
    Ok(t.to_string())
}

#[test]
fn primary_success_on_first_attempt_returns_at_once() {
    let mut race = FallbackRace::start();
    match race.step(RaceEvent::PrimaryFinished(text("primary"))) {
        RaceAction::Finish(Ok(t)) => assert_eq!(t, "primary"),
        other => panic!("{:?}", other),
    }
    assert!(race.is_done());
    assert!(matches!(
        race.step(RaceEvent::SecondaryJoined(Some(text("late")))),
        RaceAction::Ignore
    ));
}

#[test]
fn early_secondary_success_preempts_the_retry() {
    let mut race = FallbackRace::start();
    assert!(matches!(
        race.step(RaceEvent::PrimaryFinished(failed("slow"))),
        RaceAction::CheckSecondary
    ));
    match race.step(RaceEvent::SecondaryChecked(Some(text("secondary")))) {
        RaceAction::Finish(Ok(t)) => assert_eq!(t, "secondary"),
        other => panic!("{:?}", other),
    }
    assert!(race.is_done());
    assert!(matches!(race.step(RaceEvent::BackoffElapsed), RaceAction::Ignore));
    assert!(matches!(race.step(RaceEvent::PrimaryFinished(text("x"))), RaceAction::Ignore));
}

#[test]
fn failed_or_missing_secondary_lets_the_retry_go_on() {
    for slot in [None, Some(failed("secondary down"))] {
        let mut race = FallbackRace::start();
        race.step(RaceEvent::PrimaryFinished(failed("first try")));
        assert!(matches!(race.step(RaceEvent::SecondaryChecked(slot)), RaceAction::Sleep(500)));
        assert!(matches!(race.step(RaceEvent::BackoffElapsed), RaceAction::AttemptPrimary));
        match race.step(RaceEvent::PrimaryFinished(text("second try"))) {
            RaceAction::Finish(Ok(t)) => assert_eq!(t, "second try"),
            other => panic!("{:?}", other),
        }
    }
}

fn exhaust_primary(race: &mut FallbackRace) -> usize {
    let mut attempts = 1;
    assert!(matches!(
        race.step(RaceEvent::PrimaryFinished(failed("first try"))),
        RaceAction::CheckSecondary
    ));
    assert!(matches!(race.step(RaceEvent::SecondaryChecked(None)), RaceAction::Sleep(500)));
    assert!(matches!(race.step(RaceEvent::BackoffElapsed), RaceAction::AttemptPrimary));
    attempts += 1;
    assert!(matches!(
        race.step(RaceEvent::PrimaryFinished(failed("second try"))),
        RaceAction::CheckSecondary
    ));
    assert!(matches!(race.step(RaceEvent::SecondaryChecked(None)), RaceAction::Sleep(500)));
    assert!(matches!(race.step(RaceEvent::BackoffElapsed), RaceAction::AttemptPrimary));
    attempts += 1;
    assert!(matches!(
        race.step(RaceEvent::PrimaryFinished(failed("third try"))),
        RaceAction::JoinSecondary
    ));
    attempts
}

#[test]
fn exhausted_primary_falls_back_to_secondary_result() {
    let mut race = FallbackRace::start();
    assert_eq!(exhaust_primary(&mut race), 3);
    match race.step(RaceEvent::SecondaryJoined(Some(text("rescued")))) {
        RaceAction::Finish(Ok(t)) => assert_eq!(t, "rescued"),
        other => panic!("{:?}", other),
    }
}

#[test]
fn both_failing_names_both_failures() {
    let mut race = FallbackRace::start();
    exhaust_primary(&mut race);
    let secondary = Err(PipelineError::Api { status: 502, body: "bad gateway".to_string() });
    match race.step(RaceEvent::SecondaryJoined(Some(secondary))) {
        RaceAction::Finish(Err(error)) => {
            match &error {
                RaceError::BothFailed { primary, secondary } => {
                    assert!(matches!(primary, PipelineError::Connect(m) if m == "third try"));
                    assert!(matches!(secondary, PipelineError::Api { status: 502, .. }));
                }
                other => panic!("{:?}", other),
            }
            assert_eq!(
                error.describe(),
                "两个 API 都失败 - 千问: 连接失败: third try, SenseVoice: API 请求失败 (502): bad gateway"
            );
        }
        other => panic!("{:?}", other),
    }
    assert!(race.is_done());
}

#[test]
fn lost_secondary_leaves_the_primary_failure() {
    let mut race = FallbackRace::start();
    exhaust_primary(&mut race);
    match race.step(RaceEvent::SecondaryJoined(None)) {
        RaceAction::Finish(Err(error)) => {
            assert!(matches!(
                &error,
                RaceError::SecondaryLost { primary: PipelineError::Connect(m) } if m == "third try"
            ));
            assert_eq!(error.describe(), "所有 API 都失败 - 千问: 连接失败: third try");
        }
        other => panic!("{:?}", other),
    }
}

#[test]
fn events_out_of_turn_are_ignored() {
    let mut race = FallbackRace::start();
    assert!(matches!(race.step(RaceEvent::BackoffElapsed), RaceAction::Ignore));
    assert!(matches!(
        race.step(RaceEvent::SecondaryChecked(Some(text("x")))),
        RaceAction::Ignore
    ));
    assert!(matches!(race.step(RaceEvent::SecondaryJoined(None)), RaceAction::Ignore));
    assert!(!race.is_done());
    let (state, action) = advance(RaceState::BackingOff { attempt: 1 }, RaceEvent::BackoffElapsed);
    assert!(matches!(state, RaceState::Attempting { attempt: 1 }));
    assert!(matches!(action, RaceAction::AttemptPrimary));
}

#[test]
fn plan_holds_both_requests_over_the_same_audio() {
    let plan = transcribe_with_fallback_bytes("q".to_string(), "s".to_string(), &[1, 2, 3]);
    assert_eq!(plan.primary.headers[0].1, "Bearer q");
    assert_eq!(plan.secondary.headers[0].1, "Bearer s");
    assert!(matches!(&plan.primary.body, RequestBody::Json(t) if t.contains("base64,AQID")));
    assert!(matches!(&plan.secondary.body, RequestBody::Form { file, .. } if file == &vec![1, 2, 3]));
    assert!(!plan.race.is_done());
}

#[test]
fn failures_in_words() {
    assert_eq!(PipelineError::Timeout.describe(), "请求超时");
    assert_eq!(PipelineError::ChannelClosed.describe(), "通道已关闭");
    assert_eq!(PipelineError::Device("x".to_string()).describe(), "音频设备错误: x");
    assert_eq!(PipelineError::Auth("x".to_string()).describe(), "认证失败: x");
    assert_eq!(PipelineError::Protocol("x".to_string()).describe(), "协议错误: x");
    assert_eq!(
        PipelineError::Api { status: 404, body: "nf".to_string() }.describe(),
        "API 请求失败 (404): nf"
    );
    assert_eq!(PipelineError::Api { status: 404, body: "nf".to_string() }.detail(), "nf");
    assert_eq!(PipelineError::Timeout.detail(), "");
    assert!(matches!(
        PipelineError::Connect("c".to_string()).duplicate(),
        PipelineError::Connect(m) if m == "c"
    ));
}
