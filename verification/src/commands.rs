//! The sending side of a streaming session: the commands that producers
//! queue, the messages they become on the wire, and the rules by which the
//! one writer works the queue off.

use crate::encoding::{base64_encode, base64_fits, base64_text, decimal, fits_base64, push_decimal};
use crate::json::{
    add_field, add_item, fields_value, items_value, json_text, render, Json, JsonValue,
};
use vstd::prelude::*;
use vstd::string::*;

verus! {

/// How many commands may wait in the queue of a session; a producer that
/// finds it full waits.
pub const COMMAND_QUEUE_CAPACITY: usize = 100;

/// What a producer asks of the session.
#[derive(Debug)]
pub enum SessionCommand {
    /// Send these PCM bytes.
    SendAudio(Vec<u8>),
    /// No more audio comes for this utterance.
    Commit,
    /// Release the connection.
    Close,
}

/// The mathematical value of a [`SessionCommand`].
pub enum CommandModel {
    SendAudio(Seq<u8>),
    Commit,
    Close,
}

impl View for SessionCommand {
    type V = CommandModel;

    open spec fn view(&self) -> CommandModel {
        match self {
            SessionCommand::SendAudio(audio) => CommandModel::SendAudio(audio@),
            SessionCommand::Commit => CommandModel::Commit,
            SessionCommand::Close => CommandModel::Close,
        }
    }
}

/// What the writer does on the connection.
#[derive(Debug)]
pub enum WireAction {
    /// Send this text message.
    Send(String),
    /// Close the connection.
    CloseConnection,
}

/// The mathematical value of a [`WireAction`].
pub enum WireModel {
    Send(Seq<char>),
    CloseConnection,
}

impl View for WireAction {
    type V = WireModel;

    open spec fn view(&self) -> WireModel {
        match self {
            WireAction::Send(text) => WireModel::Send(text@),
            WireAction::CloseConnection => WireModel::CloseConnection,
        }
    }
}

/// The identifier of a message sent at `millis` milliseconds of Unix time.
pub open spec fn event_id(millis: nat) -> Seq<char> {
    "event_"@ + decimal(millis)
}

/// The message that configures a session: text results only, PCM input at
/// 16 kHz, Chinese as the language hint, and no turn detection, so that
/// only a commit ends an utterance.
pub open spec fn session_update(millis: nat) -> JsonValue {
    JsonValue::Object(
        seq![
            ("event_id"@, JsonValue::Text(event_id(millis))),
            ("type"@, JsonValue::Text("session.update"@)),
            (
                "session"@,
                JsonValue::Object(
                    seq![
                        ("modalities"@, JsonValue::List(seq![JsonValue::Text("text"@)])),
                        ("input_audio_format"@, JsonValue::Text("pcm"@)),
                        ("sample_rate"@, JsonValue::Number(16000)),
                        (
                            "input_audio_transcription"@,
                            JsonValue::Object(seq![("language"@, JsonValue::Text("zh"@))]),
                        ),
                        ("turn_detection"@, JsonValue::Null),
                    ],
                ),
            ),
        ],
    )
}

/// The message that carries audio: the PCM bytes in base64.
pub open spec fn audio_append(millis: nat, audio: Seq<u8>) -> JsonValue {
    JsonValue::Object(
        seq![
            ("event_id"@, JsonValue::Text(event_id(millis))),
            ("type"@, JsonValue::Text("input_audio_buffer.append"@)),
            ("audio"@, JsonValue::Text(base64_text(audio))),
        ],
    )
}

/// The message that commits the audio sent so far.
pub open spec fn audio_commit(millis: nat) -> JsonValue {
    JsonValue::Object(
        seq![
            ("event_id"@, JsonValue::Text(event_id(millis))),
            ("type"@, JsonValue::Text("input_audio_buffer.commit"@)),
        ],
    )
}

/// What a command becomes on the wire when it is written at `millis`.
pub open spec fn wire_of(command: CommandModel, millis: nat) -> WireModel {
    match command {
        CommandModel::SendAudio(audio) => WireModel::Send(json_text(audio_append(millis, audio))),
        CommandModel::Commit => WireModel::Send(json_text(audio_commit(millis))),
        CommandModel::Close => WireModel::CloseConnection,
    }
}

/// Whether the writer stops after a command: always after a close, and
/// after audio that could not be written.
pub open spec fn stops_after(command: CommandModel, written: bool) -> bool {
    command is Close || (command is SendAudio && !written)
}

impl CommandModel {
    /// Whether the command can be put on the wire.
    pub open spec fn fits(self) -> bool {
        self matches CommandModel::SendAudio(audio) ==> base64_fits(audio.len())
    }
}

fn event_id_field(fields: &mut Vec<(String, Json)>, now_millis: u128)
    ensures
        fields_value(final(fields)@) == fields_value(old(fields)@).push(
            ("event_id"@, JsonValue::Text(event_id(now_millis as nat))),
        ),
{
    let mut id = String::from_str("event_");
    push_decimal(&mut id, now_millis);
    add_field(fields, "event_id", Json::Text(id));
}

/// Builds the message that configures a session.
pub fn session_update_document(now_millis: u128) -> (document: Json)
    ensures
        document.value() == session_update(now_millis as nat),
{
    let mut language: Vec<(String, Json)> = Vec::new();
    let mut modalities: Vec<Json> = Vec::new();
    let mut session: Vec<(String, Json)> = Vec::new();
    let mut fields: Vec<(String, Json)> = Vec::new();
    proof {
        assert(fields_value(language@) =~= Seq::empty());
        assert(items_value(modalities@) =~= Seq::empty());
        assert(fields_value(session@) =~= Seq::empty());
        assert(fields_value(fields@) =~= Seq::empty());
    }
    add_field(&mut language, "language", Json::text("zh"));
    add_item(&mut modalities, Json::text("text"));
    proof {
        assert(fields_value(language@) =~= seq![("language"@, JsonValue::Text("zh"@))]);
        assert(items_value(modalities@) =~= seq![JsonValue::Text("text"@)]);
    }
    add_field(&mut session, "modalities", Json::list(modalities));
    add_field(&mut session, "input_audio_format", Json::text("pcm"));
    add_field(&mut session, "sample_rate", Json::Number(16000));
    add_field(&mut session, "input_audio_transcription", Json::object(language));
    add_field(&mut session, "turn_detection", Json::Null);
    let ghost settings = seq![
        ("modalities"@, JsonValue::List(seq![JsonValue::Text("text"@)])),
        ("input_audio_format"@, JsonValue::Text("pcm"@)),
        ("sample_rate"@, JsonValue::Number(16000)),
        (
            "input_audio_transcription"@,
            JsonValue::Object(seq![("language"@, JsonValue::Text("zh"@))]),
        ),
        ("turn_detection"@, JsonValue::Null),
    ];
    proof {
        assert(fields_value(session@) =~= settings);
    }
    event_id_field(&mut fields, now_millis);
    add_field(&mut fields, "type", Json::text("session.update"));
    add_field(&mut fields, "session", Json::object(session));
    proof {
        assert(fields_value(fields@) =~= seq![
            ("event_id"@, JsonValue::Text(event_id(now_millis as nat))),
            ("type"@, JsonValue::Text("session.update"@)),
            ("session"@, JsonValue::Object(settings)),
        ]);
    }
    Json::object(fields)
}

/// Builds the message that carries audio.
pub fn audio_append_document(audio: &[u8], now_millis: u128) -> (document: Json)
    requires
        base64_fits(audio@.len()),
    ensures
        document.value() == audio_append(now_millis as nat, audio@),
{
    let mut fields: Vec<(String, Json)> = Vec::new();
    proof {
        assert(fields_value(fields@) =~= Seq::empty());
    }
    event_id_field(&mut fields, now_millis);
    add_field(&mut fields, "type", Json::text("input_audio_buffer.append"));
    add_field(&mut fields, "audio", Json::Text(base64_encode(audio)));
    proof {
        assert(fields_value(fields@) =~= seq![
            ("event_id"@, JsonValue::Text(event_id(now_millis as nat))),
            ("type"@, JsonValue::Text("input_audio_buffer.append"@)),
            ("audio"@, JsonValue::Text(base64_text(audio@))),
        ]);
    }
    Json::object(fields)
}

/// Builds the message that commits the audio sent so far.
pub fn audio_commit_document(now_millis: u128) -> (document: Json)
    ensures
        document.value() == audio_commit(now_millis as nat),
{
    let mut fields: Vec<(String, Json)> = Vec::new();
    proof {
        assert(fields_value(fields@) =~= Seq::empty());
    }
    event_id_field(&mut fields, now_millis);
    add_field(&mut fields, "type", Json::text("input_audio_buffer.commit"));
    proof {
        assert(fields_value(fields@) =~= seq![
            ("event_id"@, JsonValue::Text(event_id(now_millis as nat))),
            ("type"@, JsonValue::Text("input_audio_buffer.commit"@)),
        ]);
    }
    Json::object(fields)
}

/// The text of the message that configures a session.
pub fn session_update_message(now_millis: u128) -> (text: String)
    ensures
        text@ == json_text(session_update(now_millis as nat)),
{
    render(&session_update_document(now_millis))
}

impl SessionCommand {
    /// Tests whether the command can be put on the wire: audio must be
    /// short enough for its base64 text.
    pub fn fits_wire(&self) -> (fits: bool)
        ensures
            fits == self@.fits(),
    {
        match self {
            SessionCommand::SendAudio(audio) => fits_base64(audio.len()),
            _ => true,
        }
    }
}

/// The one writer of a session's connection.
#[derive(Debug)]
pub struct Dispatcher {
    /// Whether the writer has stopped; it then takes no command.
    pub stopped: bool,
}

impl Dispatcher {
    /// A writer at the start of a session.
    pub fn new() -> (dispatcher: Dispatcher)
        ensures
            !dispatcher.stopped,
    {
        Dispatcher { stopped: false }
    }

    /// Takes the next command from the queue and says what to do on the
    /// connection: `None` once the writer has stopped.
    pub fn handle(&mut self, command: &SessionCommand, now_millis: u128) -> (action: Option<
        WireAction,
    >)
        requires
            command@.fits(),
        ensures
            old(self).stopped ==> action is None && final(self).stopped,
            !old(self).stopped ==> action is Some && action->0@ == wire_of(
                command@,
                now_millis as nat,
            ) && final(self).stopped == (command@ is Close),
    {
        if self.stopped {
            return None;
        }
        match command {
            SessionCommand::SendAudio(audio) => {
                let document = audio_append_document(audio.as_slice(), now_millis);
                Some(WireAction::Send(render(&document)))
            },
            SessionCommand::Commit => {
                let document = audio_commit_document(now_millis);
                Some(WireAction::Send(render(&document)))
            },
            SessionCommand::Close => {
                self.stopped = true;
                Some(WireAction::CloseConnection)
            },
        }
    }

    /// Notes whether the action for `command` went through: audio that
    /// could not be written stops the writer, a commit that could not be
    /// written does not.
    pub fn written(&mut self, command: &SessionCommand, delivered: bool)
        ensures
            final(self).stopped == (old(self).stopped || stops_after(command@, delivered)),
    {
        match command {
            SessionCommand::SendAudio(_) => {
                if !delivered {
                    self.stopped = true;
                }
            },
            SessionCommand::Commit => {},
            SessionCommand::Close => {
                self.stopped = true;
            },
        }
    }
}

/// What the writer puts on the wire for a queue of commands, written at the
/// given times with the given success: each command in turn, up to and
/// including the first after which the writer stops.
pub open spec fn wire_log(commands: Seq<CommandModel>, millis: Seq<nat>, written: Seq<bool>) -> Seq<
    WireModel,
>
    recommends
        millis.len() == commands.len(),
        written.len() == commands.len(),
    decreases commands.len(),
{
    if commands.len() == 0 {
        Seq::empty()
    } else if stops_after(commands[0], written[0]) {
        seq![wire_of(commands[0], millis[0])]
    } else {
        seq![wire_of(commands[0], millis[0])] + wire_log(
            commands.drop_first(),
            millis.drop_first(),
            written.drop_first(),
        )
    }
}

/// Commands reach the wire in the order of the queue, none skipped: what is
/// written `i`-th is what the `i`-th command stands for. So a commit
/// queued behind audio is never written before that audio.
pub proof fn lemma_wire_order(
    commands: Seq<CommandModel>,
    millis: Seq<nat>,
    written: Seq<bool>,
    i: int,
)
    requires
        millis.len() == commands.len(),
        written.len() == commands.len(),
        0 <= i < wire_log(commands, millis, written).len(),
    ensures
        wire_log(commands, millis, written).len() <= commands.len(),
        wire_log(commands, millis, written)[i] == wire_of(commands[i], millis[i]),
        forall|j: int| 0 <= j < i ==> !stops_after(#[trigger] commands[j], written[j]),
    decreases commands.len(),
{
    if commands.len() > 0 && !stops_after(commands[0], written[0]) {
        let rest = wire_log(commands.drop_first(), millis.drop_first(), written.drop_first());
        lemma_wire_log_len(commands.drop_first(), millis.drop_first(), written.drop_first());
        if i > 0 {
            lemma_wire_order(
                commands.drop_first(),
                millis.drop_first(),
                written.drop_first(),
                i - 1,
            );
            assert forall|j: int| 0 <= j < i implies !stops_after(
                #[trigger] commands[j],
                written[j],
            ) by {
                if j > 0 {
                    assert(commands[j] == commands.drop_first()[j - 1]);
                    assert(written[j] == written.drop_first()[j - 1]);
                }
            }
        }
    }
}

/// Nothing is written that was not queued.
pub proof fn lemma_wire_log_len(commands: Seq<CommandModel>, millis: Seq<nat>, written: Seq<bool>)
    requires
        millis.len() == commands.len(),
        written.len() == commands.len(),
    ensures
        wire_log(commands, millis, written).len() <= commands.len(),
    decreases commands.len(),
{
    if commands.len() > 0 && !stops_after(commands[0], written[0]) {
        lemma_wire_log_len(commands.drop_first(), millis.drop_first(), written.drop_first());
    }
}

} // verus!
