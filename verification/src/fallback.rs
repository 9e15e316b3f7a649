//! The race of the two batch backends: the primary one is tried up to
//! three times, the secondary one once beside it, and the first result that
//! can be trusted wins.

use crate::asr::{HttpRequest, QwenASRClient, SenseVoiceClient, MAX_RETRIES, RETRY_BACKOFF_MS};
use crate::encoding::base64_fits;
use crate::error::{outcome_view, ErrorModel, PipelineError};
use vstd::prelude::*;
use vstd::string::*;

verus! {

/// Why a race produced no transcript.
#[derive(Debug)]
pub enum RaceError {
    /// Both backends failed; carries the last failure of each.
    BothFailed { primary: PipelineError, secondary: PipelineError },
    /// The primary backend failed and the secondary one left no result.
    SecondaryLost { primary: PipelineError },
}

/// The mathematical value of a [`RaceError`].
pub enum RaceErrorModel {
    BothFailed { primary: ErrorModel, secondary: ErrorModel },
    SecondaryLost { primary: ErrorModel },
}

impl View for RaceError {
    type V = RaceErrorModel;

    open spec fn view(&self) -> RaceErrorModel {
        match self {
            RaceError::BothFailed { primary, secondary } => RaceErrorModel::BothFailed {
                primary: primary@,
                secondary: secondary@,
            },
            RaceError::SecondaryLost { primary } => RaceErrorModel::SecondaryLost {
                primary: primary@,
            },
        }
    }
}

impl RaceErrorModel {
    /// The failure in words: it names the failure of each backend.
    pub open spec fn description(self) -> Seq<char> {
        match self {
            RaceErrorModel::BothFailed { primary, secondary } => "两个 API 都失败 - 千问: "@
                + primary.description() + ", SenseVoice: "@ + secondary.description(),
            RaceErrorModel::SecondaryLost { primary } => "所有 API 都失败 - 千问: "@
                + primary.description(),
        }
    }
}

impl RaceError {
    /// The failure in words.
    pub fn describe(&self) -> (text: String)
        ensures
            text@ == self@.description(),
    {
        match self {
            RaceError::BothFailed { primary, secondary } => {
                let mut text = String::from_str("两个 API 都失败 - 千问: ");
                text.append(primary.describe().as_str());
                text.append(", SenseVoice: ");
                text.append(secondary.describe().as_str());
                text
            },
            RaceError::SecondaryLost { primary } => {
                let mut text = String::from_str("所有 API 都失败 - 千问: ");
                text.append(primary.describe().as_str());
                text
            },
        }
    }
}

/// Where a race stands.
#[derive(Debug)]
pub enum RaceState {
    /// Attempt `attempt` of the primary backend is under way; the first is
    /// attempt 0.
    Attempting { attempt: u32 },
    /// Attempt `attempt` is due; first the secondary's result is looked at.
    Checking { attempt: u32 },
    /// Attempt `attempt` is due after the pause.
    BackingOff { attempt: u32 },
    /// The primary backend has given up; the secondary's result is awaited.
    Joining { primary_error: PipelineError },
    /// The race is over.
    Done,
}

/// The mathematical value of a [`RaceState`].
pub enum RaceModel {
    Attempting { attempt: nat },
    Checking { attempt: nat },
    BackingOff { attempt: nat },
    Joining { primary_error: ErrorModel },
    Done,
}

impl View for RaceState {
    type V = RaceModel;

    open spec fn view(&self) -> RaceModel {
        match self {
            RaceState::Attempting { attempt } => RaceModel::Attempting { attempt: *attempt as nat },
            RaceState::Checking { attempt } => RaceModel::Checking { attempt: *attempt as nat },
            RaceState::BackingOff { attempt } => RaceModel::BackingOff { attempt: *attempt as nat },
            RaceState::Joining { primary_error } => RaceModel::Joining {
                primary_error: primary_error@,
            },
            RaceState::Done => RaceModel::Done,
        }
    }
}

/// What happened outside the race.
#[derive(Debug)]
pub enum RaceEvent {
    /// An attempt of the primary backend ended.
    PrimaryFinished(Result<String, PipelineError>),
    /// The secondary's result was looked at: `None` while it is not there.
    SecondaryChecked(Option<Result<String, PipelineError>>),
    /// The pause before an attempt is over.
    BackoffElapsed,
    /// The secondary backend's task has ended: `None` where it left no
    /// result.
    SecondaryJoined(Option<Result<String, PipelineError>>),
}

/// The mathematical value of a [`RaceEvent`].
pub enum RaceEventModel {
    PrimaryFinished(Result<Seq<char>, ErrorModel>),
    SecondaryChecked(Option<Result<Seq<char>, ErrorModel>>),
    BackoffElapsed,
    SecondaryJoined(Option<Result<Seq<char>, ErrorModel>>),
}

/// The value of a result that may not be there yet.
pub open spec fn slot_view(slot: Option<Result<String, PipelineError>>) -> Option<
    Result<Seq<char>, ErrorModel>,
> {
    match slot {
        Some(outcome) => Some(outcome_view(outcome)),
        None => None,
    }
}

impl View for RaceEvent {
    type V = RaceEventModel;

    open spec fn view(&self) -> RaceEventModel {
        match self {
            RaceEvent::PrimaryFinished(outcome) => RaceEventModel::PrimaryFinished(
                outcome_view(*outcome),
            ),
            RaceEvent::SecondaryChecked(slot) => RaceEventModel::SecondaryChecked(slot_view(*slot)),
            RaceEvent::BackoffElapsed => RaceEventModel::BackoffElapsed,
            RaceEvent::SecondaryJoined(slot) => RaceEventModel::SecondaryJoined(slot_view(*slot)),
        }
    }
}

/// What is to be done next outside the race.
#[derive(Debug)]
pub enum RaceAction {
    /// Start an attempt of the primary backend.
    AttemptPrimary,
    /// Look at the secondary's result, without waiting.
    CheckSecondary,
    /// Pause for so many milliseconds.
    Sleep(u64),
    /// Wait for the secondary backend's task to end.
    JoinSecondary,
    /// Return this result; the race is over.
    Finish(Result<String, RaceError>),
    /// Nothing: the event does not belong to the state of the race.
    Ignore,
}

/// The mathematical value of a [`RaceAction`].
pub enum RaceActionModel {
    AttemptPrimary,
    CheckSecondary,
    Sleep(u64),
    JoinSecondary,
    Finish(Result<Seq<char>, RaceErrorModel>),
    Ignore,
}

impl View for RaceAction {
    type V = RaceActionModel;

    open spec fn view(&self) -> RaceActionModel {
        match self {
            RaceAction::AttemptPrimary => RaceActionModel::AttemptPrimary,
            RaceAction::CheckSecondary => RaceActionModel::CheckSecondary,
            RaceAction::Sleep(ms) => RaceActionModel::Sleep(*ms),
            RaceAction::JoinSecondary => RaceActionModel::JoinSecondary,
            RaceAction::Finish(result) => RaceActionModel::Finish(
                match result {
                    Ok(text) => Ok(text@),
                    Err(error) => Err(error@),
                },
            ),
            RaceAction::Ignore => RaceActionModel::Ignore,
        }
    }
}

impl RaceModel {
    /// The state in which a race begins: the first attempt of the primary
    /// backend is under way, beside the one attempt of the secondary.
    pub open spec fn start() -> RaceModel {
        RaceModel::Attempting { attempt: 0 }
    }

    /// The state after an event, and what is to be done next.
    ///
    /// A success of the primary backend ends the race at once. After a
    /// failure that leaves retries, the secondary's result is looked at:
    /// its success ends the race, anything else leads to the pause and the
    /// next attempt. After the last failure the secondary's result is
    /// awaited and returned; where that is a failure too, the error holds
    /// both.
    pub open spec fn step(self, event: RaceEventModel) -> (RaceModel, RaceActionModel) {
        match (self, event) {
            (RaceModel::Attempting { attempt }, RaceEventModel::PrimaryFinished(Ok(text))) => (
                RaceModel::Done,
                RaceActionModel::Finish(Ok(text)),
            ),
            (RaceModel::Attempting { attempt }, RaceEventModel::PrimaryFinished(Err(error))) => {
                if attempt < MAX_RETRIES {
                    (
                        RaceModel::Checking { attempt: attempt + 1 },
                        RaceActionModel::CheckSecondary,
                    )
                } else {
                    (RaceModel::Joining { primary_error: error }, RaceActionModel::JoinSecondary)
                }
            },
            (RaceModel::Checking { attempt }, RaceEventModel::SecondaryChecked(Some(Ok(text)))) => (
                RaceModel::Done,
                RaceActionModel::Finish(Ok(text)),
            ),
            (RaceModel::Checking { attempt }, RaceEventModel::SecondaryChecked(_)) => (
                RaceModel::BackingOff { attempt },
                RaceActionModel::Sleep(RETRY_BACKOFF_MS),
            ),
            (RaceModel::BackingOff { attempt }, RaceEventModel::BackoffElapsed) => (
                RaceModel::Attempting { attempt },
                RaceActionModel::AttemptPrimary,
            ),
            (
                RaceModel::Joining { primary_error },
                RaceEventModel::SecondaryJoined(Some(Ok(text))),
            ) => (RaceModel::Done, RaceActionModel::Finish(Ok(text))),
            (
                RaceModel::Joining { primary_error },
                RaceEventModel::SecondaryJoined(Some(Err(error))),
            ) => (
                RaceModel::Done,
                RaceActionModel::Finish(
                    Err(RaceErrorModel::BothFailed { primary: primary_error, secondary: error }),
                ),
            ),
            (RaceModel::Joining { primary_error }, RaceEventModel::SecondaryJoined(None)) => (
                RaceModel::Done,
                RaceActionModel::Finish(Err(RaceErrorModel::SecondaryLost { primary: primary_error })),
            ),
            _ => (self, RaceActionModel::Ignore),
        }
    }

    /// Whether the state can be reached in a race.
    pub open spec fn reachable(self) -> bool {
        match self {
            RaceModel::Attempting { attempt } => attempt <= MAX_RETRIES,
            RaceModel::Checking { attempt } => 1 <= attempt <= MAX_RETRIES,
            RaceModel::BackingOff { attempt } => 1 <= attempt <= MAX_RETRIES,
            _ => true,
        }
    }

    /// How many attempts of the primary backend may still be started.
    pub open spec fn attempts_left(self) -> nat {
        match self {
            RaceModel::Attempting { attempt } => (MAX_RETRIES - attempt) as nat,
            RaceModel::Checking { attempt } => (MAX_RETRIES - attempt + 1) as nat,
            RaceModel::BackingOff { attempt } => (MAX_RETRIES - attempt + 1) as nat,
            _ => 0,
        }
    }

    /// The state after a run of events.
    pub open spec fn after(self, events: Seq<RaceEventModel>) -> RaceModel
        decreases events.len(),
    {
        if events.len() == 0 {
            self
        } else {
            self.after(events.drop_last()).step(events.last()).0
        }
    }

    /// How many attempts of the primary backend a run of events starts.
    pub open spec fn attempts_started(self, events: Seq<RaceEventModel>) -> nat
        decreases events.len(),
    {
        if events.len() == 0 {
            0
        } else {
            let before = self.attempts_started(events.drop_last());
            if self.after(events.drop_last()).step(events.last()).1 is AttemptPrimary {
                before + 1
            } else {
                before
            }
        }
    }
}

/// A race in progress.
#[derive(Debug)]
pub struct FallbackRace {
    state: RaceState,
}

impl View for FallbackRace {
    type V = RaceModel;

    closed spec fn view(&self) -> RaceModel {
        self.state@
    }
}

impl FallbackRace {
    /// A race at its beginning: the caller starts the secondary backend's
    /// one attempt as a task of its own and the first attempt of the
    /// primary backend beside it.
    pub fn start() -> (race: FallbackRace)
        ensures
            race@ == RaceModel::start(),
    {
        FallbackRace { state: RaceState::Attempting { attempt: 0 } }
    }

    /// Whether the race is over.
    pub fn is_done(&self) -> (done: bool)
        ensures
            done == (self@ is Done),
    {
        match self.state {
            RaceState::Done => true,
            _ => false,
        }
    }

    /// Takes in what happened and says what is to be done next.
    pub fn step(&mut self, event: RaceEvent) -> (action: RaceAction)
        ensures
            (final(self)@, action@) == old(self)@.step(event@),
    {
        let mut state = RaceState::Done;
        std::mem::swap(&mut self.state, &mut state);
        let (next, action) = advance(state, event);
        self.state = next;
        action
    }
}

/// The state after an event, and what is to be done next.
pub fn advance(state: RaceState, event: RaceEvent) -> (next: (RaceState, RaceAction))
    ensures
        (next.0@, next.1@) == state@.step(event@),
{
    match (state, event) {
        (RaceState::Attempting { attempt }, RaceEvent::PrimaryFinished(Ok(text))) => (
            RaceState::Done,
            RaceAction::Finish(Ok(text)),
        ),
        (RaceState::Attempting { attempt }, RaceEvent::PrimaryFinished(Err(error))) => {
            if attempt < MAX_RETRIES {
                (RaceState::Checking { attempt: attempt + 1 }, RaceAction::CheckSecondary)
            } else {
                (RaceState::Joining { primary_error: error }, RaceAction::JoinSecondary)
            }
        },
        (RaceState::Checking { attempt }, RaceEvent::SecondaryChecked(Some(Ok(text)))) => (
            RaceState::Done,
            RaceAction::Finish(Ok(text)),
        ),
        (RaceState::Checking { attempt }, RaceEvent::SecondaryChecked(_)) => (
            RaceState::BackingOff { attempt },
            RaceAction::Sleep(RETRY_BACKOFF_MS),
        ),
        (RaceState::BackingOff { attempt }, RaceEvent::BackoffElapsed) => (
            RaceState::Attempting { attempt },
            RaceAction::AttemptPrimary,
        ),
        (RaceState::Joining { primary_error }, RaceEvent::SecondaryJoined(Some(Ok(text)))) => (
            RaceState::Done,
            RaceAction::Finish(Ok(text)),
        ),
        (RaceState::Joining { primary_error }, RaceEvent::SecondaryJoined(Some(Err(error)))) => (
            RaceState::Done,
            RaceAction::Finish(Err(RaceError::BothFailed { primary: primary_error, secondary: error })),
        ),
        (RaceState::Joining { primary_error }, RaceEvent::SecondaryJoined(None)) => (
            RaceState::Done,
            RaceAction::Finish(Err(RaceError::SecondaryLost { primary: primary_error })),
        ),
        (state, _) => (state, RaceAction::Ignore),
    }
}

/// What a race begins with.
#[derive(Debug)]
pub struct FallbackPlan {
    /// The client of the primary backend.
    pub qwen: QwenASRClient,
    /// The client of the secondary backend.
    pub sensevoice: SenseVoiceClient,
    /// What each attempt of the primary backend sends.
    pub primary: HttpRequest,
    /// What the one attempt of the secondary backend sends.
    pub secondary: HttpRequest,
    /// The race, at its beginning.
    pub race: FallbackRace,
}

/// Sets up a race over `audio_data`: the request of each backend, and the
/// race in the state in which both are started.
pub fn transcribe_with_fallback_bytes(
    qwen_api_key: String,
    sensevoice_api_key: String,
    audio_data: &[u8],
) -> (plan: FallbackPlan)
    requires
        base64_fits(audio_data@.len()),
    ensures
        plan.qwen.credentials() == qwen_api_key@,
        plan.qwen.retries() == MAX_RETRIES,
        plan.sensevoice.credentials() == sensevoice_api_key@,
        crate::asr::is_qwen_request(&plan.primary, qwen_api_key@, audio_data@),
        crate::asr::is_sensevoice_request(&plan.secondary, sensevoice_api_key@, audio_data@),
        plan.race@ == RaceModel::start(),
{
    let qwen_client = QwenASRClient::new(qwen_api_key);
    let sensevoice_client = SenseVoiceClient::new(sensevoice_api_key);
    let primary = qwen_client.request(audio_data);
    let secondary = sensevoice_client.request(audio_data);
    FallbackPlan {
        qwen: qwen_client,
        sensevoice: sensevoice_client,
        primary,
        secondary,
        race: FallbackRace::start(),
    }
}

/// Whether `needle` stands somewhere in `text`.
pub open spec fn mentions(text: Seq<char>, needle: Seq<char>) -> bool {
    exists|at: int|
        0 <= at && at + needle.len() <= text.len() && #[trigger] text.subrange(
            at,
            at + needle.len(),
        ) == needle
}

/// A success of the primary backend ends the race at once with its text,
/// whichever attempt it comes from and whatever the secondary backend does:
/// nothing is awaited.
pub proof fn lemma_primary_success_wins(attempt: nat, text: Seq<char>)
    ensures
        (RaceModel::Attempting { attempt }).step(RaceEventModel::PrimaryFinished(Ok(text))) == (
            RaceModel::Done,
            RaceActionModel::Finish(Ok(text)),
        ),
{
}

/// Once the race is over, nothing starts another attempt.
pub proof fn lemma_done_is_final(events: Seq<RaceEventModel>)
    ensures
        RaceModel::Done.after(events) == RaceModel::Done,
        RaceModel::Done.attempts_started(events) == 0,
    decreases events.len(),
{
    if events.len() > 0 {
        lemma_done_is_final(events.drop_last());
    }
}

/// A success of the secondary backend that is there when a retry of the
/// primary one is due ends the race with the secondary's text, and no
/// further attempt of the primary backend is started, whatever follows.
pub proof fn lemma_secondary_success_preempts(
    attempt: nat,
    text: Seq<char>,
    later: Seq<RaceEventModel>,
)
    ensures
        (RaceModel::Checking { attempt }).step(
            RaceEventModel::SecondaryChecked(Some(Ok(text))),
        ) == (RaceModel::Done, RaceActionModel::Finish(Ok(text))),
        (RaceModel::Checking { attempt }).step(
            RaceEventModel::SecondaryChecked(Some(Ok(text))),
        ).0.attempts_started(later) == 0,
{
    lemma_done_is_final(later);
}

/// After a first attempt that failed, the secondary's result is looked at
/// before anything else; where it is a success, the race returns it.
pub proof fn lemma_first_failure_checks_secondary(error: ErrorModel, text: Seq<char>)
    ensures
        RaceModel::start().step(RaceEventModel::PrimaryFinished(Err(error))) == (
            RaceModel::Checking { attempt: 1 },
            RaceActionModel::CheckSecondary,
        ),
        RaceModel::start().step(RaceEventModel::PrimaryFinished(Err(error))).0.step(
            RaceEventModel::SecondaryChecked(Some(Ok(text))),
        ).1 == RaceActionModel::Finish(Ok(text)),
{
}

/// A secondary backend that has failed, or is not done, does not stop the
/// retry: the pause follows, then the attempt.
pub proof fn lemma_retry_goes_on(attempt: nat, slot: Option<Result<Seq<char>, ErrorModel>>)
    requires
        !(slot matches Some(Ok(_))),
    ensures
        (RaceModel::Checking { attempt }).step(RaceEventModel::SecondaryChecked(slot)) == (
            RaceModel::BackingOff { attempt },
            RaceActionModel::Sleep(RETRY_BACKOFF_MS),
        ),
        (RaceModel::BackingOff { attempt }).step(RaceEventModel::BackoffElapsed) == (
            RaceModel::Attempting { attempt },
            RaceActionModel::AttemptPrimary,
        ),
{
}

/// Where the last attempt of the primary backend fails, the secondary's
/// result is awaited and decides: its text is returned, or an error that
/// holds the last failure of the primary backend and the failure of the
/// secondary one, and names both in its description.
pub proof fn lemma_both_failures_are_named(
    primary: ErrorModel,
    secondary: ErrorModel,
    text: Seq<char>,
)
    ensures
        (RaceModel::Attempting { attempt: MAX_RETRIES as nat }).step(
            RaceEventModel::PrimaryFinished(Err(primary)),
        ) == (RaceModel::Joining { primary_error: primary }, RaceActionModel::JoinSecondary),
        (RaceModel::Joining { primary_error: primary }).step(
            RaceEventModel::SecondaryJoined(Some(Ok(text))),
        ).1 == RaceActionModel::Finish(Ok(text)),
        (RaceModel::Joining { primary_error: primary }).step(
            RaceEventModel::SecondaryJoined(Some(Err(secondary))),
        ).1 == RaceActionModel::Finish(Err(RaceErrorModel::BothFailed { primary, secondary })),
        mentions(
            (RaceErrorModel::BothFailed { primary, secondary }).description(),
            primary.description(),
        ),
        mentions(
            (RaceErrorModel::BothFailed { primary, secondary }).description(),
            secondary.description(),
        ),
{
    let head = "两个 API 都失败 - 千问: "@;
    let middle = ", SenseVoice: "@;
    let p = primary.description();
    let s = secondary.description();
    let whole = (RaceErrorModel::BothFailed { primary, secondary }).description();
    assert(whole == head + p + middle + s);
    let first = head.len() as int;
    assert(whole.subrange(first, first + p.len()) =~= p);
    let second = first + p.len() + middle.len();
    assert(whole.subrange(second, second + s.len()) =~= s);
}

/// A race starts the primary backend at most three times: the first
/// attempt and no more retries than are allowed, whatever happens and in
/// whatever order.
pub proof fn lemma_attempts_are_bounded(state: RaceModel, events: Seq<RaceEventModel>)
    requires
        state.reachable(),
    ensures
        state.after(events).reachable(),
        state.attempts_started(events) + state.after(events).attempts_left()
            <= state.attempts_left(),
        state == RaceModel::start() ==> state.attempts_started(events) <= MAX_RETRIES,
    decreases events.len(),
{
    if events.len() > 0 {
        lemma_attempts_are_bounded(state, events.drop_last());
    }
}

} // verus!
