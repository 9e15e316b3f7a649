//! What the streaming backend sends: the closed set of events that the
//! session understands, and how a received message is told apart.

use crate::json::{json_string_at, string_at};
use vstd::prelude::*;
use vstd::string::*;

verus! {

/// The kinds of event, one for each name that the backend is known to use
/// and one for all the others.
#[derive(Debug, Clone, Copy, PartialEq, Eq, Structural)]
pub enum EventKind {
    /// The backend created or updated the session.
    SessionAcknowledged,
    /// The backend took the commit.
    BufferCommitted,
    /// The transcription of the committed audio is complete.
    TranscriptionCompleted,
    /// A further piece of the transcript.
    TranscriptDelta,
    /// The transcript of a response is complete.
    TranscriptDone,
    /// The backend has finished its response.
    ResponseFinished,
    /// The backend reports a failure.
    Failure,
    /// Any other message.
    Unknown,
}

/// An event together with the text that it carries, if it carries one.
#[derive(Debug, Clone)]
pub enum ServerEvent {
    SessionAcknowledged,
    BufferCommitted,
    /// Carries the whole transcript.
    TranscriptionCompleted(Option<String>),
    /// Carries the next piece of the transcript.
    TranscriptDelta(Option<String>),
    /// Carries the whole transcript.
    TranscriptDone(Option<String>),
    ResponseFinished,
    /// Carries the backend's explanation.
    Failure(Option<String>),
    Unknown,
}

/// The mathematical value of a [`ServerEvent`].
pub enum EventModel {
    SessionAcknowledged,
    BufferCommitted,
    TranscriptionCompleted(Option<Seq<char>>),
    TranscriptDelta(Option<Seq<char>>),
    TranscriptDone(Option<Seq<char>>),
    ResponseFinished,
    Failure(Option<Seq<char>>),
    Unknown,
}

/// The view of an optional string.
pub open spec fn text_view(text: Option<String>) -> Option<Seq<char>> {
    match text {
        Some(t) => Some(t@),
        None => None,
    }
}

impl View for ServerEvent {
    type V = EventModel;

    open spec fn view(&self) -> EventModel {
        match self {
            ServerEvent::SessionAcknowledged => EventModel::SessionAcknowledged,
            ServerEvent::BufferCommitted => EventModel::BufferCommitted,
            ServerEvent::TranscriptionCompleted(t) => EventModel::TranscriptionCompleted(
                text_view(*t),
            ),
            ServerEvent::TranscriptDelta(t) => EventModel::TranscriptDelta(text_view(*t)),
            ServerEvent::TranscriptDone(t) => EventModel::TranscriptDone(text_view(*t)),
            ServerEvent::ResponseFinished => EventModel::ResponseFinished,
            ServerEvent::Failure(t) => EventModel::Failure(text_view(*t)),
            ServerEvent::Unknown => EventModel::Unknown,
        }
    }
}

/// The kind that an event name stands for.
pub open spec fn kind_of(name: Seq<char>) -> EventKind {
    if name == "session.created"@ || name == "session.updated"@ {
        EventKind::SessionAcknowledged
    } else if name == "input_audio_buffer.committed"@ {
        EventKind::BufferCommitted
    } else if name == "conversation.item.input_audio_transcription.completed"@ {
        EventKind::TranscriptionCompleted
    } else if name == "response.audio_transcript.delta"@ {
        EventKind::TranscriptDelta
    } else if name == "response.audio_transcript.done"@ {
        EventKind::TranscriptDone
    } else if name == "response.done"@ {
        EventKind::ResponseFinished
    } else if name == "error"@ {
        EventKind::Failure
    } else {
        EventKind::Unknown
    }
}

/// Where in a message an event of this kind keeps its text, as a JSON
/// pointer; `None` for the kinds that carry none.
pub open spec fn payload_pointer(kind: EventKind) -> Option<Seq<char>> {
    match kind {
        EventKind::TranscriptionCompleted => Some("/transcript"@),
        EventKind::TranscriptDelta => Some("/delta"@),
        EventKind::TranscriptDone => Some("/transcript"@),
        EventKind::Failure => Some("/error/message"@),
        _ => None,
    }
}

/// The event of a kind with the text found for it.
pub open spec fn event_model(kind: EventKind, payload: Option<Seq<char>>) -> EventModel {
    match kind {
        EventKind::SessionAcknowledged => EventModel::SessionAcknowledged,
        EventKind::BufferCommitted => EventModel::BufferCommitted,
        EventKind::TranscriptionCompleted => EventModel::TranscriptionCompleted(payload),
        EventKind::TranscriptDelta => EventModel::TranscriptDelta(payload),
        EventKind::TranscriptDone => EventModel::TranscriptDone(payload),
        EventKind::ResponseFinished => EventModel::ResponseFinished,
        EventKind::Failure => EventModel::Failure(payload),
        EventKind::Unknown => EventModel::Unknown,
    }
}

/// The event that a received message stands for. A message that is no
/// JSON, or that has no string under `type`, is an unknown event.
pub open spec fn decoded(text: Seq<char>) -> EventModel {
    match json_string_at(text, "/type"@) {
        None => EventModel::Unknown,
        Some(name) => {
            let kind = kind_of(name);
            match payload_pointer(kind) {
                None => event_model(kind, None),
                Some(pointer) => event_model(kind, json_string_at(text, pointer)),
            }
        },
    }
}

fn is_name(name: &String, expected: &str) -> (same: bool)
    ensures
        same == (name@ == expected@),
{
    *name == String::from_str(expected)
}

/// Tells the kind of an event by its name.
pub fn event_kind(name: &String) -> (kind: EventKind)
    ensures
        kind == kind_of(name@),
{
    if is_name(name, "session.created") || is_name(name, "session.updated") {
        EventKind::SessionAcknowledged
    } else if is_name(name, "input_audio_buffer.committed") {
        EventKind::BufferCommitted
    } else if is_name(name, "conversation.item.input_audio_transcription.completed") {
        EventKind::TranscriptionCompleted
    } else if is_name(name, "response.audio_transcript.delta") {
        EventKind::TranscriptDelta
    } else if is_name(name, "response.audio_transcript.done") {
        EventKind::TranscriptDone
    } else if is_name(name, "response.done") {
        EventKind::ResponseFinished
    } else if is_name(name, "error") {
        EventKind::Failure
    } else {
        EventKind::Unknown
    }
}

/// The JSON pointer under which an event of this kind keeps its text.
pub fn payload_location(kind: EventKind) -> (pointer: Option<&'static str>)
    ensures
        pointer is Some == payload_pointer(kind) is Some,
        pointer is Some ==> pointer->0@ == payload_pointer(kind)->0,
{
    match kind {
        EventKind::TranscriptionCompleted => Some("/transcript"),
        EventKind::TranscriptDelta => Some("/delta"),
        EventKind::TranscriptDone => Some("/transcript"),
        EventKind::Failure => Some("/error/message"),
        _ => None,
    }
}

impl ServerEvent {
    /// Puts an event together from its kind and the text found for it. Kinds
    /// that carry no text ignore `payload`.
    pub fn assemble(kind: EventKind, payload: Option<String>) -> (event: ServerEvent)
        ensures
            event@ == event_model(kind, text_view(payload)),
    {
        match kind {
            EventKind::SessionAcknowledged => ServerEvent::SessionAcknowledged,
            EventKind::BufferCommitted => ServerEvent::BufferCommitted,
            EventKind::TranscriptionCompleted => ServerEvent::TranscriptionCompleted(payload),
            EventKind::TranscriptDelta => ServerEvent::TranscriptDelta(payload),
            EventKind::TranscriptDone => ServerEvent::TranscriptDone(payload),
            EventKind::ResponseFinished => ServerEvent::ResponseFinished,
            EventKind::Failure => ServerEvent::Failure(payload),
            EventKind::Unknown => ServerEvent::Unknown,
        }
    }

    /// The kind of this event.
    pub fn kind(&self) -> (kind: EventKind)
        ensures
            self@ == event_model(kind, self.payload_view()),
    {
        match self {
            ServerEvent::SessionAcknowledged => EventKind::SessionAcknowledged,
            ServerEvent::BufferCommitted => EventKind::BufferCommitted,
            ServerEvent::TranscriptionCompleted(_) => EventKind::TranscriptionCompleted,
            ServerEvent::TranscriptDelta(_) => EventKind::TranscriptDelta,
            ServerEvent::TranscriptDone(_) => EventKind::TranscriptDone,
            ServerEvent::ResponseFinished => EventKind::ResponseFinished,
            ServerEvent::Failure(_) => EventKind::Failure,
            ServerEvent::Unknown => EventKind::Unknown,
        }
    }

    /// The text that the event carries.
    pub open spec fn payload_view(&self) -> Option<Seq<char>> {
        match self {
            ServerEvent::TranscriptionCompleted(t) => text_view(*t),
            ServerEvent::TranscriptDelta(t) => text_view(*t),
            ServerEvent::TranscriptDone(t) => text_view(*t),
            ServerEvent::Failure(t) => text_view(*t),
            _ => None,
        }
    }
}

/// Reads a received text message: finds the event's name, tells its kind,
/// and fetches the text that this kind carries.
pub fn decode_event(text: &str) -> (event: ServerEvent)
    ensures
        event@ == decoded(text@),
{
    match string_at(text, "/type") {
        None => ServerEvent::Unknown,
        Some(name) => {
            let kind = event_kind(&name);
            match payload_location(kind) {
                None => ServerEvent::assemble(kind, None),
                Some(pointer) => ServerEvent::assemble(kind, string_at(text, pointer)),
            }
        },
    }
}

} // verus!
