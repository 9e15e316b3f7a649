//! The one owner of the pipeline's running state: guarded start and stop,
//! the order of a cancel, and the choice of the path that an utterance
//! takes to its transcript.

use crate::error::{ErrorModel, PipelineError};
use vstd::prelude::*;
use vstd::string::*;

verus! {

/// How utterances are recognised.
#[derive(Debug, Clone, Copy, PartialEq, Eq, Structural)]
pub enum AsrMode {
    /// Audio is streamed while it is recorded.
    Realtime,
    /// Audio is sent in one piece after the recording.
    Http,
}

/// Why a start or a stop was refused.
#[derive(Debug, Clone, Copy, PartialEq, Eq, Structural)]
pub enum ControlError {
    AlreadyRunning,
    NotRunning,
}

/// One step of a cancel.
#[derive(Debug, Clone, Copy, PartialEq, Eq, Structural)]
pub enum CleanupStep {
    /// Stop the streaming capture.
    StopStreamingCapture,
    /// Stop the plain capture.
    StopCapture,
    /// Cancel the task that sends chunks.
    AbortSender,
    /// Send a close command to the open session.
    CloseSession,
    /// Let go of the session and its connection.
    ReleaseSession,
    /// Tell the front end that the utterance was cancelled.
    AnnounceCancelled,
}

/// The batch path of an utterance.
#[derive(Debug, Clone, Copy, PartialEq, Eq, Structural)]
pub enum BatchRoute {
    /// Race the primary backend against the secondary one.
    Race,
    /// Ask the primary backend alone, with its retries.
    PrimaryOnly,
    /// Ask the secondary backend alone, once.
    SecondaryOnly,
}

/// The mode that a start asks for: streaming unless it says otherwise.
pub open spec fn mode_of(use_realtime: Option<bool>) -> AsrMode {
    if use_realtime == Some(false) {
        AsrMode::Http
    } else {
        AsrMode::Realtime
    }
}

/// The batch path after a plain recording: the race where a secondary
/// backend is configured, else the primary backend alone.
pub open spec fn recorded_route(fallback_key: Seq<char>) -> BatchRoute {
    if fallback_key.len() > 0 {
        BatchRoute::Race
    } else {
        BatchRoute::PrimaryOnly
    }
}

/// The batch path after a streaming session that gave no transcript: the
/// secondary backend where one is configured, else the primary one.
pub open spec fn rescue_route(fallback_key: Seq<char>) -> BatchRoute {
    if fallback_key.len() > 0 {
        BatchRoute::SecondaryOnly
    } else {
        BatchRoute::PrimaryOnly
    }
}

/// The steps of a cancel, in order: both captures are stopped, then the
/// chunk-sending task is cancelled if there is one, then the session is
/// closed if there is one, then it is released and the cancel announced.
pub open spec fn cancel_steps(sender_active: bool, session_active: bool) -> Seq<CleanupStep> {
    seq![CleanupStep::StopStreamingCapture, CleanupStep::StopCapture] + (if sender_active {
        seq![CleanupStep::AbortSender]
    } else {
        Seq::empty()
    }) + (if session_active {
        seq![CleanupStep::CloseSession]
    } else {
        Seq::empty()
    }) + seq![CleanupStep::ReleaseSession, CleanupStep::AnnounceCancelled]
}

/// What is reported after the press of the hotkey in streaming mode: a
/// failed connection first, else a failed capture, else nothing.
pub open spec fn press_report(connect_error: Option<Seq<char>>, capture_error: Option<Seq<char>>)
    -> Option<Seq<char>> {
    match connect_error {
        Some(reason) => Some("实时连接失败: "@ + reason),
        None => match capture_error {
            Some(reason) => Some("录音失败: "@ + reason),
            None => None,
        },
    }
}

/// Chooses the mode of a start.
pub fn start_mode(use_realtime: Option<bool>) -> (mode: AsrMode)
    ensures
        mode == mode_of(use_realtime),
{
    match use_realtime {
        Some(false) => AsrMode::Http,
        _ => AsrMode::Realtime,
    }
}

/// Chooses the batch path after a plain recording.
pub fn handle_http_transcription(fallback_key: &str) -> (route: BatchRoute)
    ensures
        route == recorded_route(fallback_key@),
{
    if !fallback_key.is_empty() {
        BatchRoute::Race
    } else {
        BatchRoute::PrimaryOnly
    }
}

/// Chooses the batch path after a streaming session without a transcript.
pub fn fallback_transcription(fallback_key: &str) -> (route: BatchRoute)
    ensures
        route == rescue_route(fallback_key@),
{
    if !fallback_key.is_empty() {
        BatchRoute::SecondaryOnly
    } else {
        BatchRoute::PrimaryOnly
    }
}

/// How the streaming path of an utterance ended.
#[derive(Debug)]
pub enum StreamOutcome {
    /// There was no open session.
    NoSession,
    /// The commit could not be queued.
    CommitFailed,
    /// The session delivered a transcript.
    Transcript(String),
    /// The wait for the result failed.
    WaitFailed(PipelineError),
}

/// What is done with an utterance after its streaming path has ended.
#[derive(Debug)]
pub enum StopRoute {
    /// Hand the transcript on.
    Deliver(String),
    /// Send the recorded audio down the batch path.
    Rescue,
    /// Report this failure.
    Report(String),
    /// Nothing is left to do.
    Drop,
}

/// The mathematical value of a [`StreamOutcome`].
pub enum StreamModel {
    NoSession,
    CommitFailed,
    Transcript(Seq<char>),
    WaitFailed(ErrorModel),
}

/// The mathematical value of a [`StopRoute`].
pub enum StopModel {
    Deliver(Seq<char>),
    Rescue,
    Report(Seq<char>),
    Drop,
}

impl View for StreamOutcome {
    type V = StreamModel;

    open spec fn view(&self) -> StreamModel {
        match self {
            StreamOutcome::NoSession => StreamModel::NoSession,
            StreamOutcome::CommitFailed => StreamModel::CommitFailed,
            StreamOutcome::Transcript(t) => StreamModel::Transcript(t@),
            StreamOutcome::WaitFailed(e) => StreamModel::WaitFailed(e@),
        }
    }
}

impl View for StopRoute {
    type V = StopModel;

    open spec fn view(&self) -> StopModel {
        match self {
            StopRoute::Deliver(t) => StopModel::Deliver(t@),
            StopRoute::Rescue => StopModel::Rescue,
            StopRoute::Report(m) => StopModel::Report(m@),
            StopRoute::Drop => StopModel::Drop,
        }
    }
}

/// The report of a transcription that failed.
pub open spec fn transcription_failed(error: ErrorModel) -> Seq<char> {
    "转录失败: "@ + error.description()
}

/// The report of an utterance of which nothing was recorded.
pub open spec fn nothing_recorded() -> Seq<char> {
    "没有录制到音频数据"@
}

/// What is done after the streaming path has ended: a transcript is handed
/// on; anything else sends the recorded audio down the batch path, and
/// where there is no recorded audio the failure is reported, except after
/// a commit that could not be queued.
pub open spec fn stop_route(outcome: StreamModel, has_audio: bool) -> StopModel {
    match outcome {
        StreamModel::Transcript(text) => StopModel::Deliver(text),
        _ => if has_audio {
            StopModel::Rescue
        } else {
            match outcome {
                StreamModel::WaitFailed(error) => StopModel::Report(transcription_failed(error)),
                StreamModel::NoSession => StopModel::Report(nothing_recorded()),
                _ => StopModel::Drop,
            }
        },
    }
}

/// Whether the session is closed and released after the streaming path
/// has ended: whenever its result was waited for.
pub open spec fn releases_session(outcome: StreamModel) -> bool {
    outcome is Transcript || outcome is WaitFailed
}

impl StreamOutcome {
    /// Tests whether the session is to be closed and released.
    pub fn releases_session(&self) -> (releases: bool)
        ensures
            releases == releases_session(self@),
    {
        match self {
            StreamOutcome::Transcript(_) => true,
            StreamOutcome::WaitFailed(_) => true,
            _ => false,
        }
    }
}

/// Decides what is done with an utterance after its streaming path has
/// ended.
pub fn handle_realtime_stop(outcome: StreamOutcome, has_audio: bool) -> (route: StopRoute)
    ensures
        route@ == stop_route(outcome@, has_audio),
{
    match outcome {
        StreamOutcome::Transcript(text) => StopRoute::Deliver(text),
        StreamOutcome::WaitFailed(error) => {
            if has_audio {
                StopRoute::Rescue
            } else {
                StopRoute::Report(String::from_str("转录失败: ").concat(error.describe().as_str()))
            }
        },
        StreamOutcome::NoSession => {
            if has_audio {
                StopRoute::Rescue
            } else {
                StopRoute::Report(String::from_str("没有录制到音频数据"))
            }
        },
        StreamOutcome::CommitFailed => {
            if has_audio {
                StopRoute::Rescue
            } else {
                StopRoute::Drop
            }
        },
    }
}

/// Decides what is done after a recording was streamed in one go through
/// a session of its own: a transcript is handed on, a failure sends the
/// audio down the batch path.
pub fn handle_realtime_transcription(result: Result<String, PipelineError>) -> (route: StopRoute)
    ensures
        route@ == match result {
            Ok(text) => StopModel::Deliver(text@),
            Err(_) => StopModel::Rescue,
        },
{
    match result {
        Ok(text) => StopRoute::Deliver(text),
        Err(_) => StopRoute::Rescue,
    }
}

/// What the front end is told about a transcription.
#[derive(Debug)]
pub enum Announcement {
    /// Insert the text at the cursor and announce it.
    Complete(String),
    /// Announce a failure.
    Failed(String),
}

/// Decides what the front end is told about the outcome of a
/// transcription, given its failure in words.
pub fn handle_transcription_result(result: Result<String, String>) -> (told: Announcement)
    ensures
        match result {
            Ok(text) => told matches Announcement::Complete(t) && t@ == text@,
            Err(reason) => told matches Announcement::Failed(m) && m@ == "转录失败: "@ + reason@,
        },
{
    match result {
        Ok(text) => Announcement::Complete(text),
        Err(reason) => Announcement::Failed(String::from_str("转录失败: ").concat(reason.as_str())),
    }
}

/// The running state of the pipeline.
#[derive(Debug)]
pub struct Coordinator {
    /// Whether the pipeline is running.
    pub running: bool,
    /// How utterances are recognised.
    pub mode: AsrMode,
    /// Whether a streaming session is open.
    pub session_active: bool,
    /// Whether a task is sending chunks.
    pub sender_active: bool,
}

impl Coordinator {
    /// A pipeline that is not running.
    pub fn new() -> (coordinator: Coordinator)
        ensures
            !coordinator.running,
            coordinator.mode == AsrMode::Realtime,
            !coordinator.session_active,
            !coordinator.sender_active,
    {
        Coordinator {
            running: false,
            mode: AsrMode::Realtime,
            session_active: false,
            sender_active: false,
        }
    }

    /// Starts the pipeline in the mode asked for; a running pipeline
    /// refuses and stays as it is.
    pub fn start_app(&mut self, use_realtime: Option<bool>) -> (started: Result<
        AsrMode,
        ControlError,
    >)
        ensures
            old(self).running ==> started == Err::<AsrMode, ControlError>(
                ControlError::AlreadyRunning,
            ) && *final(self) == *old(self),
            !old(self).running ==> started == Ok::<AsrMode, ControlError>(mode_of(use_realtime)),
            !old(self).running ==> *final(self) == (Coordinator {
                running: true,
                mode: mode_of(use_realtime),
                ..*old(self)
            }),
    {
        if self.running {
            return Err(ControlError::AlreadyRunning);
        }
        let mode = start_mode(use_realtime);
        self.mode = mode;
        self.running = true;
        Ok(mode)
    }

    /// Notes how the press of the hotkey went in streaming mode, given
    /// the failure of the connection and of the capture in words, and
    /// says what is reported. Audio is streamed only where the session was
    /// opened and the capture began; where the connection failed, that is
    /// reported and the recording goes on for the batch path.
    pub fn recording_started(
        &mut self,
        connect_error: Option<String>,
        capture_error: Option<String>,
    ) -> (report: Option<String>)
        ensures
            *final(self) == (Coordinator {
                session_active: connect_error is None && capture_error is None,
                sender_active: connect_error is None && capture_error is None,
                ..*old(self)
            }),
            crate::events::text_view(report) == press_report(
                crate::events::text_view(connect_error),
                crate::events::text_view(capture_error),
            ),
    {
        let streaming = connect_error.is_none() && capture_error.is_none();
        self.session_active = streaming;
        self.sender_active = streaming;
        match connect_error {
            Some(reason) => Some(String::from_str("实时连接失败: ").concat(reason.as_str())),
            None => match capture_error {
                Some(reason) => Some(String::from_str("录音失败: ").concat(reason.as_str())),
                None => None,
            },
        }
    }

    /// Stops the pipeline; a pipeline that is not running refuses.
    pub fn stop_app(&mut self) -> (stopped: Result<(), ControlError>)
        ensures
            !old(self).running ==> stopped == Err::<(), ControlError>(ControlError::NotRunning)
                && *final(self) == *old(self),
            old(self).running ==> stopped == Ok::<(), ControlError>(()),
            old(self).running ==> *final(self) == (Coordinator { running: false, ..*old(self) }),
    {
        if !self.running {
            return Err(ControlError::NotRunning);
        }
        self.running = false;
        Ok(())
    }

    /// Gives the steps of a cancel, in order, and forgets the session and
    /// the sending task. Each step is taken whether or not the one before
    /// it succeeded.
    pub fn cancel_transcription(&mut self) -> (steps: Vec<CleanupStep>)
        ensures
            steps@ == cancel_steps(old(self).sender_active, old(self).session_active),
            *final(self) == (Coordinator {
                session_active: false,
                sender_active: false,
                ..*old(self)
            }),
    {
        let mut steps: Vec<CleanupStep> = Vec::new();
        steps.push(CleanupStep::StopStreamingCapture);
        steps.push(CleanupStep::StopCapture);
        if self.sender_active {
            steps.push(CleanupStep::AbortSender);
        }
        if self.session_active {
            steps.push(CleanupStep::CloseSession);
        }
        steps.push(CleanupStep::ReleaseSession);
        steps.push(CleanupStep::AnnounceCancelled);
        proof {
            assert(steps@ =~= cancel_steps(self.sender_active, self.session_active));
        }
        self.session_active = false;
        self.sender_active = false;
        steps
    }
}

/// A cancel stops the capture first, then cancels the sending task, then
/// closes the session, whatever of these exists; the release and the
/// announcement always come last.
pub proof fn lemma_cancel_order(sender_active: bool, session_active: bool)
    ensures
        cancel_steps(sender_active, session_active)[0] == CleanupStep::StopStreamingCapture,
        cancel_steps(sender_active, session_active)[1] == CleanupStep::StopCapture,
        cancel_steps(sender_active, session_active).contains(CleanupStep::AbortSender)
            == sender_active,
        cancel_steps(sender_active, session_active).contains(CleanupStep::CloseSession)
            == session_active,
        sender_active && session_active ==> cancel_steps(sender_active, session_active).index_of(
            CleanupStep::AbortSender,
        ) < cancel_steps(sender_active, session_active).index_of(CleanupStep::CloseSession),
        cancel_steps(sender_active, session_active).last() == CleanupStep::AnnounceCancelled,
{
    let steps = cancel_steps(sender_active, session_active);
    if sender_active {
        assert(steps[2] == CleanupStep::AbortSender);
        if session_active {
            assert(steps[3] == CleanupStep::CloseSession);
            assert(steps.index_of(CleanupStep::AbortSender) == 2);
            assert(steps.index_of(CleanupStep::CloseSession) == 3);
        }
    } else if session_active {
        assert(steps[2] == CleanupStep::CloseSession);
    }
}

} // verus!
