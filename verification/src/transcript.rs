//! The receiving side of a streaming session: how the transcript grows
//! with each event, and when the one result of the session is delivered.

use crate::error::{outcome_view, ErrorModel, PipelineError};
use crate::events::{decode_event, decoded, EventModel, ServerEvent};
use crate::text::{
    is_stream_punctuation, lemma_stripped_is_clean, strip_punctuation, without_punctuation,
};
use vstd::prelude::*;
use vstd::string::*;

verus! {

/// Seconds that a caller waits for the result of a session.
pub const TRANSCRIPTION_TIMEOUT_SECS: u64 = 10;

/// What the connection hands to the receiving side.
#[derive(Debug, Clone)]
pub enum Inbound {
    /// A text message.
    Text(String),
    /// The backend closed the connection, or the stream ended.
    Closed,
    /// The transport failed; carries its explanation.
    Broken(String),
    /// Any other frame.
    Other,
}

/// The mathematical value of an [`Inbound`] frame, with a text message
/// already read as its event.
pub enum FrameModel {
    Event(EventModel),
    Closed,
    Broken(Seq<char>),
    Other,
}

impl View for Inbound {
    type V = FrameModel;

    open spec fn view(&self) -> FrameModel {
        match self {
            Inbound::Text(t) => FrameModel::Event(decoded(t@)),
            Inbound::Closed => FrameModel::Closed,
            Inbound::Broken(m) => FrameModel::Broken(m@),
            Inbound::Other => FrameModel::Other,
        }
    }
}

/// What the receiving side does after a frame.
#[derive(Debug, Clone)]
pub enum Delivery {
    /// Nothing yet: keep reading.
    Pending,
    /// The session's result: the transcript, free of punctuation.
    Transcript(String),
    /// The session's result: a failure.
    Failed(PipelineError),
}

/// The mathematical value of a [`Delivery`].
pub enum DeliveryModel {
    Pending,
    Transcript(Seq<char>),
    Failed(ErrorModel),
}

impl View for Delivery {
    type V = DeliveryModel;

    open spec fn view(&self) -> DeliveryModel {
        match self {
            Delivery::Pending => DeliveryModel::Pending,
            Delivery::Transcript(t) => DeliveryModel::Transcript(t@),
            Delivery::Failed(e) => DeliveryModel::Failed(e@),
        }
    }
}

/// The transcript of one session while it is being received.
#[derive(Debug, Clone)]
pub struct Transcript {
    /// The text gathered so far.
    pub text: String,
    /// Whether the backend has marked the text as final.
    pub ready: bool,
    /// Whether the session's result has been delivered.
    pub delivered: bool,
}

/// The mathematical value of a [`Transcript`].
pub struct TranscriptModel {
    pub text: Seq<char>,
    pub ready: bool,
    pub delivered: bool,
}

impl View for Transcript {
    type V = TranscriptModel;

    open spec fn view(&self) -> TranscriptModel {
        TranscriptModel { text: self.text@, ready: self.ready, delivered: self.delivered }
    }
}

/// The explanation used where a failure event carries none.
pub open spec fn unknown_failure() -> Seq<char> {
    "未知错误"@
}

/// The explanation given when the stream ends before the backend marked
/// any transcript as final.
pub open spec fn no_result() -> Seq<char> {
    "未收到转录结果"@
}

impl TranscriptModel {
    /// A session that has received nothing.
    pub open spec fn empty() -> TranscriptModel {
        TranscriptModel { text: Seq::empty(), ready: false, delivered: false }
    }

    /// The transcript after an event has been taken in: a completed
    /// transcription replaces the text, a delta is added at its end, and the
    /// events that end a transcript or a response mark the text as final.
    pub open spec fn absorb(self, event: EventModel) -> TranscriptModel {
        match event {
            EventModel::TranscriptionCompleted(Some(t)) => TranscriptModel {
                text: t,
                ready: true,
                ..self
            },
            EventModel::TranscriptDelta(Some(d)) => TranscriptModel { text: self.text + d, ..self },
            EventModel::TranscriptDone(Some(t)) => TranscriptModel { text: t, ready: true, ..self },
            EventModel::TranscriptDone(None) => TranscriptModel { ready: true, ..self },
            EventModel::ResponseFinished => TranscriptModel { ready: true, ..self },
            _ => self,
        }
    }

    /// Whether the result is due after `event` has been taken in: always
    /// when the response has finished, else as soon as a final text is not
    /// empty.
    pub open spec fn due(self, event: EventModel) -> bool {
        event is ResponseFinished || (self.ready && self.text.len() > 0)
    }

    /// The transcript after an event, and what is delivered for it.
    pub open spec fn on_event(self, event: EventModel) -> (TranscriptModel, DeliveryModel) {
        if self.delivered {
            (self, DeliveryModel::Pending)
        } else if let EventModel::Failure(message) = event {
            (
                TranscriptModel { delivered: true, ..self },
                DeliveryModel::Failed(
                    ErrorModel::Protocol(
                        match message {
                            Some(m) => m,
                            None => unknown_failure(),
                        },
                    ),
                ),
            )
        } else {
            let next = self.absorb(event);
            if next.due(event) {
                (
                    TranscriptModel { delivered: true, ..next },
                    DeliveryModel::Transcript(without_punctuation(next.text)),
                )
            } else {
                (next, DeliveryModel::Pending)
            }
        }
    }

    /// The transcript after the stream has ended, and what is delivered for
    /// that: a protocol failure where no text was ever marked final, else
    /// the closing of the result channel.
    pub open spec fn on_closed(self) -> (TranscriptModel, DeliveryModel) {
        if self.delivered {
            (self, DeliveryModel::Pending)
        } else if self.ready {
            (
                TranscriptModel { delivered: true, ..self },
                DeliveryModel::Failed(ErrorModel::ChannelClosed),
            )
        } else {
            (
                TranscriptModel { delivered: true, ..self },
                DeliveryModel::Failed(ErrorModel::Protocol(no_result())),
            )
        }
    }

    /// The transcript after the transport has failed, and what is delivered
    /// for that.
    pub open spec fn on_broken(self, reason: Seq<char>) -> (TranscriptModel, DeliveryModel) {
        if self.delivered {
            (self, DeliveryModel::Pending)
        } else {
            (
                TranscriptModel { delivered: true, ..self },
                DeliveryModel::Failed(ErrorModel::Connect(reason)),
            )
        }
    }

    /// The transcript after a frame, and what is delivered for it.
    pub open spec fn on_frame(self, frame: FrameModel) -> (TranscriptModel, DeliveryModel) {
        match frame {
            FrameModel::Event(event) => self.on_event(event),
            FrameModel::Closed => self.on_closed(),
            FrameModel::Broken(reason) => self.on_broken(reason),
            FrameModel::Other => (self, DeliveryModel::Pending),
        }
    }

    /// The transcript after a run of frames.
    pub open spec fn after(self, frames: Seq<FrameModel>) -> TranscriptModel
        decreases frames.len(),
    {
        if frames.len() == 0 {
            self
        } else {
            self.after(frames.drop_last()).on_frame(frames.last()).0
        }
    }

    /// How many results a run of frames delivers.
    pub open spec fn deliveries(self, frames: Seq<FrameModel>) -> nat
        decreases frames.len(),
    {
        if frames.len() == 0 {
            0
        } else {
            let before = self.deliveries(frames.drop_last());
            if self.after(frames.drop_last()).on_frame(frames.last()).1 is Pending {
                before
            } else {
                before + 1
            }
        }
    }
}

impl Transcript {
    /// A session that has received nothing.
    pub fn new() -> (fresh: Transcript)
        ensures
            fresh@ == TranscriptModel::empty(),
    {
        Transcript { text: String::new(), ready: false, delivered: false }
    }

    /// Takes in one event and says what is to be delivered for it.
    pub fn on_event(&mut self, event: ServerEvent) -> (delivery: Delivery)
        ensures
            (final(self)@, delivery@) == old(self)@.on_event(event@),
    {
        if self.delivered {
            return Delivery::Pending;
        }
        let mut finished = false;
        match event {
            ServerEvent::Failure(message) => {
                self.delivered = true;
                let reason = match message {
                    Some(m) => m,
                    None => String::from_str("未知错误"),
                };
                return Delivery::Failed(PipelineError::Protocol(reason));
            },
            ServerEvent::TranscriptionCompleted(Some(t)) => {
                self.text = t;
                self.ready = true;
            },
            ServerEvent::TranscriptDelta(Some(d)) => {
                self.text.append(d.as_str());
            },
            ServerEvent::TranscriptDone(Some(t)) => {
                self.text = t;
                self.ready = true;
            },
            ServerEvent::TranscriptDone(None) => {
                self.ready = true;
            },
            ServerEvent::ResponseFinished => {
                self.ready = true;
                finished = true;
            },
            _ => {},
        }
        if finished || (self.ready && !self.text.as_str().is_empty()) {
            self.delivered = true;
            Delivery::Transcript(strip_punctuation(self.text.as_str()))
        } else {
            Delivery::Pending
        }
    }

    /// Notes that the stream has ended and says what is to be delivered.
    pub fn on_closed(&mut self) -> (delivery: Delivery)
        ensures
            (final(self)@, delivery@) == old(self)@.on_closed(),
    {
        if self.delivered {
            Delivery::Pending
        } else if self.ready {
            self.delivered = true;
            Delivery::Failed(PipelineError::ChannelClosed)
        } else {
            self.delivered = true;
            Delivery::Failed(PipelineError::Protocol(String::from_str("未收到转录结果")))
        }
    }

    /// Notes that the transport has failed and says what is to be delivered.
    pub fn on_broken(&mut self, reason: String) -> (delivery: Delivery)
        ensures
            (final(self)@, delivery@) == old(self)@.on_broken(reason@),
    {
        if self.delivered {
            Delivery::Pending
        } else {
            self.delivered = true;
            Delivery::Failed(PipelineError::Connect(reason))
        }
    }

    /// Takes in one frame from the connection: a text message is read as an
    /// event, the end of the stream and a transport failure end the session,
    /// any other frame changes nothing.
    pub fn on_frame(&mut self, frame: Inbound) -> (delivery: Delivery)
        ensures
            (final(self)@, delivery@) == old(self)@.on_frame(frame@),
    {
        match frame {
            Inbound::Text(text) => {
                let event = decode_event(text.as_str());
                self.on_event(event)
            },
            Inbound::Closed => self.on_closed(),
            Inbound::Broken(reason) => self.on_broken(reason),
            Inbound::Other => Delivery::Pending,
        }
    }
}

/// How a wait for the session's result ended.
#[derive(Debug)]
pub enum WaitOutcome {
    /// The receiving side delivered the result.
    Delivered(Result<String, PipelineError>),
    /// The result channel was closed with nothing in it.
    ChannelClosed,
    /// The time allowed ran out first.
    TimedOut,
}

/// What the caller of a wait gets: the delivered result as it is, a timeout
/// where the time ran out, a closed channel where nothing was delivered.
pub open spec fn wait_result(outcome: WaitOutcome) -> Result<Seq<char>, ErrorModel> {
    match outcome {
        WaitOutcome::Delivered(result) => outcome_view(result),
        WaitOutcome::ChannelClosed => Err(ErrorModel::ChannelClosed),
        WaitOutcome::TimedOut => Err(ErrorModel::Timeout),
    }
}

/// Turns the way a wait ended into the caller's result.
pub fn resolve_wait(outcome: WaitOutcome) -> (result: Result<String, PipelineError>)
    ensures
        outcome_view(result) == wait_result(outcome),
{
    match outcome {
        WaitOutcome::Delivered(result) => result,
        WaitOutcome::ChannelClosed => Err(PipelineError::ChannelClosed),
        WaitOutcome::TimedOut => Err(PipelineError::Timeout),
    }
}

/// Once the result has been delivered, no frame delivers anything or
/// changes the transcript.
pub proof fn lemma_delivery_is_final(transcript: TranscriptModel, frame: FrameModel)
    requires
        transcript.delivered,
    ensures
        transcript.on_frame(frame) == (transcript, DeliveryModel::Pending),
{
}

/// Whatever is delivered marks the transcript as delivered.
pub proof fn lemma_delivery_is_recorded(transcript: TranscriptModel, frame: FrameModel)
    ensures
        !(transcript.on_frame(frame).1 is Pending) ==> transcript.on_frame(frame).0.delivered,
        transcript.delivered ==> transcript.on_frame(frame).0.delivered,
{
}

/// A session delivers at most one result, whatever arrives and in whatever
/// order; it has delivered one exactly when its transcript says so.
pub proof fn lemma_at_most_one_result(transcript: TranscriptModel, frames: Seq<FrameModel>)
    requires
        !transcript.delivered,
    ensures
        transcript.deliveries(frames) <= 1,
        transcript.deliveries(frames) == 1 <==> transcript.after(frames).delivered,
    decreases frames.len(),
{
    if frames.len() > 0 {
        lemma_at_most_one_result(transcript, frames.drop_last());
        lemma_delivery_is_recorded(transcript.after(frames.drop_last()), frames.last());
    }
}

/// The end of a response delivers the text gathered so far, even when it is
/// empty.
pub proof fn lemma_finished_response_delivers(transcript: TranscriptModel)
    requires
        !transcript.delivered,
    ensures
        transcript.on_event(EventModel::ResponseFinished).1 == DeliveryModel::Transcript(
            without_punctuation(transcript.text),
        ),
{
}

/// A failure event ends the session at once with a failure.
pub proof fn lemma_failure_ends_session(transcript: TranscriptModel, message: Option<Seq<char>>)
    requires
        !transcript.delivered,
    ensures
        transcript.on_event(EventModel::Failure(message)).1 is Failed,
        transcript.on_event(EventModel::Failure(message)).0.delivered,
{
}

/// A delivered transcript holds no punctuation.
pub proof fn lemma_delivered_text_is_clean(transcript: TranscriptModel, event: EventModel)
    ensures
        transcript.on_event(event).1 matches DeliveryModel::Transcript(text) ==> forall|i: int|
            0 <= i < text.len() ==> !is_stream_punctuation(#[trigger] text[i]),
{
    lemma_stripped_is_clean(transcript.absorb(event).text);
}

} // verus!
