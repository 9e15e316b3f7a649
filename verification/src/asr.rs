//! The two batch backends: what is asked of each, how an answer is read,
//! and how often the primary one is tried.

use crate::encoding::{base64_encode, base64_fits, base64_text};
use crate::error::{outcome_view, ErrorModel, PipelineError};
use crate::json::{
    add_field, add_item, fields_value, items_value, json_string_at, json_text, render, string_at,
    Json, JsonValue,
};
use crate::session::{bearer, headers_view};
use crate::text::{trim_trailing_punctuation, without_trailing_punctuation};
use vstd::prelude::*;
use vstd::string::*;

verus! {

/// Seconds allowed for opening a connection to a batch backend.
pub const CONNECT_TIMEOUT_SECS: u64 = 5;

/// Seconds allowed for one whole exchange with a batch backend.
pub const REQUEST_TIMEOUT_SECS: u64 = 6;

/// How often the primary backend is tried again after its first attempt.
pub const MAX_RETRIES: u32 = 2;

/// Milliseconds between two attempts.
pub const RETRY_BACKOFF_MS: u64 = 500;

/// How one exchange with a backend ended.
#[derive(Debug)]
pub enum HttpReply {
    /// The backend answered.
    Answer { status: u16, body: String },
    /// No answer arrived within the time allowed.
    TimedOut,
    /// The exchange failed before an answer arrived.
    Failed(String),
}

/// The mathematical value of an [`HttpReply`].
pub enum ReplyModel {
    Answer { status: u16, body: Seq<char> },
    TimedOut,
    Failed(Seq<char>),
}

impl View for HttpReply {
    type V = ReplyModel;

    open spec fn view(&self) -> ReplyModel {
        match self {
            HttpReply::Answer { status, body } => ReplyModel::Answer { status: *status, body: body@ },
            HttpReply::TimedOut => ReplyModel::TimedOut,
            HttpReply::Failed(reason) => ReplyModel::Failed(reason@),
        }
    }
}

/// Whether a status lies in the success range.
pub open spec fn is_success(status: u16) -> bool {
    200 <= status < 300
}

/// The explanation given for an answer that holds no transcript.
pub open spec fn no_transcript() -> Seq<char> {
    "无法解析转录结果"@
}

/// What an exchange means when the transcript is expected at `pointer` of
/// the answer: the transcript without the punctuation at its end. A
/// timeout, a failed exchange, a status outside the success range and an
/// answer without a transcript are each a failure of their own kind.
pub open spec fn transcript_of(reply: ReplyModel, pointer: Seq<char>) -> Result<
    Seq<char>,
    ErrorModel,
> {
    match reply {
        ReplyModel::TimedOut => Err(ErrorModel::Timeout),
        ReplyModel::Failed(reason) => Err(ErrorModel::Connect(reason)),
        ReplyModel::Answer { status, body } => {
            if !is_success(status) {
                Err(ErrorModel::Api { status, body })
            } else {
                match json_string_at(body, pointer) {
                    None => Err(ErrorModel::Protocol(no_transcript())),
                    Some(text) => Ok(without_trailing_punctuation(text)),
                }
            }
        },
    }
}

/// What an answer means once the string at the transcript's place has been
/// looked up.
pub open spec fn transcript_found(reply: ReplyModel, found: Option<Seq<char>>) -> Result<
    Seq<char>,
    ErrorModel,
> {
    match reply {
        ReplyModel::TimedOut => Err(ErrorModel::Timeout),
        ReplyModel::Failed(reason) => Err(ErrorModel::Connect(reason)),
        ReplyModel::Answer { status, body } => {
            if !is_success(status) {
                Err(ErrorModel::Api { status, body })
            } else {
                match found {
                    None => Err(ErrorModel::Protocol(no_transcript())),
                    Some(text) => Ok(without_trailing_punctuation(text)),
                }
            }
        },
    }
}

/// Reads the outcome of an exchange, given the string that was found at
/// the transcript's place in the answer.
pub fn read_transcript(reply: HttpReply, found: Option<String>) -> (outcome: Result<
    String,
    PipelineError,
>)
    ensures
        outcome_view(outcome) == transcript_found(reply@, crate::events::text_view(found)),
{
    match reply {
        HttpReply::TimedOut => Err(PipelineError::Timeout),
        HttpReply::Failed(reason) => Err(PipelineError::Connect(reason)),
        HttpReply::Answer { status, body } => {
            if status < 200 || status >= 300 {
                Err(PipelineError::Api { status, body })
            } else {
                match found {
                    None => Err(PipelineError::Protocol(String::from_str("无法解析转录结果"))),
                    Some(text) => Ok(trim_trailing_punctuation(text.as_str())),
                }
            }
        },
    }
}

/// Reads the outcome of an exchange whose transcript is expected at
/// `pointer` of the answer.
pub fn read_reply(reply: HttpReply, pointer: &str) -> (outcome: Result<String, PipelineError>)
    ensures
        outcome_view(outcome) == transcript_of(reply@, pointer@),
{
    let found = match &reply {
        HttpReply::Answer { status, body } => {
            if *status >= 200 && *status < 300 {
                string_at(body.as_str(), pointer)
            } else {
                None
            }
        },
        _ => None,
    };
    read_transcript(reply, found)
}

/// What is sent to a batch backend.
#[derive(Debug)]
pub struct HttpRequest {
    /// The address of the endpoint.
    pub url: String,
    /// The headers, in order.
    pub headers: Vec<(String, String)>,
    /// What the request carries.
    pub body: RequestBody,
}

/// What a request carries.
#[derive(Debug)]
pub enum RequestBody {
    /// A JSON document, as text.
    Json(String),
    /// A form of text fields and one attached file.
    Form { fields: Vec<(String, String)>, file_name: String, mime_type: String, file: Vec<u8> },
}

/// The address of the primary backend.
pub open spec fn qwen_url() -> Seq<char> {
    "https://dashscope.aliyuncs.com/api/v1/services/aigc/multimodal-generation/generation"@
}

/// The address of the secondary backend.
pub open spec fn sensevoice_url() -> Seq<char> {
    "https://api.siliconflow.cn/v1/audio/transcriptions"@
}

/// Where the primary backend's answer holds the transcript: the text of
/// the first content item of the first choice.
pub open spec fn qwen_transcript_pointer() -> Seq<char> {
    "/output/choices/0/message/content/0/text"@
}

/// Where the secondary backend's answer holds the transcript.
pub open spec fn sensevoice_transcript_pointer() -> Seq<char> {
    "/text"@
}

/// The audio as a data URI.
pub open spec fn audio_uri(audio: Seq<u8>) -> Seq<char> {
    "data:audio/wav;base64,"@ + base64_text(audio)
}

/// A list with one object that has one text field.
pub open spec fn single_field(name: Seq<char>, content: Seq<char>) -> JsonValue {
    JsonValue::List(seq![JsonValue::Object(seq![(name, JsonValue::Text(content))])])
}

/// One message of a conversation.
pub open spec fn message(role: Seq<char>, content: JsonValue) -> JsonValue {
    JsonValue::Object(seq![("role"@, JsonValue::Text(role)), ("content"@, content)])
}

/// What the primary backend is asked: the recognition model, a
/// conversation of an empty system message and a user message that holds
/// the audio inline, and the wish for a message-shaped answer with inverse
/// text normalisation.
pub open spec fn qwen_request(audio: Seq<u8>) -> JsonValue {
    JsonValue::Object(
        seq![
            ("model"@, JsonValue::Text("qwen3-asr-flash"@)),
            (
                "input"@,
                JsonValue::Object(
                    seq![
                        (
                            "messages"@,
                            JsonValue::List(
                                seq![
                                    message("system"@, single_field("text"@, Seq::empty())),
                                    message("user"@, single_field("audio"@, audio_uri(audio))),
                                ],
                            ),
                        ),
                    ],
                ),
            ),
            (
                "parameters"@,
                JsonValue::Object(
                    seq![
                        ("result_format"@, JsonValue::Text("message"@)),
                        ("enable_itn"@, JsonValue::Bool(true)),
                    ],
                ),
            ),
        ],
    )
}

fn single_field_list(name: &str, content: String) -> (list: Json)
    ensures
        list.value() == single_field(name@, content@),
{
    let mut fields: Vec<(String, Json)> = Vec::new();
    let mut items: Vec<Json> = Vec::new();
    proof {
        assert(fields_value(fields@) =~= Seq::empty());
        assert(items_value(items@) =~= Seq::empty());
    }
    add_field(&mut fields, name, Json::Text(content));
    proof {
        assert(fields_value(fields@) =~= seq![(name@, JsonValue::Text(content@))]);
    }
    add_item(&mut items, Json::object(fields));
    proof {
        assert(items_value(items@) =~= seq![
            JsonValue::Object(seq![(name@, JsonValue::Text(content@))]),
        ]);
    }
    Json::list(items)
}

fn message_of(role: &str, content: Json) -> (document: Json)
    ensures
        document.value() == message(role@, content.value()),
{
    let mut fields: Vec<(String, Json)> = Vec::new();
    proof {
        assert(fields_value(fields@) =~= Seq::empty());
    }
    add_field(&mut fields, "role", Json::text(role));
    add_field(&mut fields, "content", content);
    proof {
        assert(fields_value(fields@) =~= seq![
            ("role"@, JsonValue::Text(role@)),
            ("content"@, content.value()),
        ]);
    }
    Json::object(fields)
}

/// Builds what the primary backend is asked.
pub fn qwen_request_document(audio: &[u8]) -> (document: Json)
    requires
        base64_fits(audio@.len()),
    ensures
        document.value() == qwen_request(audio@),
{
    let uri = String::from_str("data:audio/wav;base64,").concat(base64_encode(audio).as_str());
    let mut messages: Vec<Json> = Vec::new();
    let mut input: Vec<(String, Json)> = Vec::new();
    let mut parameters: Vec<(String, Json)> = Vec::new();
    let mut fields: Vec<(String, Json)> = Vec::new();
    proof {
        assert(items_value(messages@) =~= Seq::empty());
        assert(fields_value(input@) =~= Seq::empty());
        assert(fields_value(parameters@) =~= Seq::empty());
        assert(fields_value(fields@) =~= Seq::empty());
    }
    add_item(&mut messages, message_of("system", single_field_list("text", String::new())));
    add_item(&mut messages, message_of("user", single_field_list("audio", uri)));
    let ghost conversation = seq![
        message("system"@, single_field("text"@, Seq::empty())),
        message("user"@, single_field("audio"@, audio_uri(audio@))),
    ];
    proof {
        assert(items_value(messages@) =~= conversation);
    }
    add_field(&mut input, "messages", Json::list(messages));
    add_field(&mut parameters, "result_format", Json::text("message"));
    add_field(&mut parameters, "enable_itn", Json::Bool(true));
    let ghost wishes = seq![
        ("result_format"@, JsonValue::Text("message"@)),
        ("enable_itn"@, JsonValue::Bool(true)),
    ];
    proof {
        assert(fields_value(input@) =~= seq![("messages"@, JsonValue::List(conversation))]);
        assert(fields_value(parameters@) =~= wishes);
    }
    add_field(&mut fields, "model", Json::text("qwen3-asr-flash"));
    add_field(&mut fields, "input", Json::object(input));
    add_field(&mut fields, "parameters", Json::object(parameters));
    proof {
        assert(fields_value(fields@) =~= seq![
            ("model"@, JsonValue::Text("qwen3-asr-flash"@)),
            ("input"@, JsonValue::Object(seq![("messages"@, JsonValue::List(conversation))])),
            ("parameters"@, JsonValue::Object(wishes)),
        ]);
    }
    Json::object(fields)
}

/// Whether `request` is what the primary backend is sent for `audio` under
/// these credentials: the JSON document of [`qwen_request`], as text.
pub open spec fn is_qwen_request(request: &HttpRequest, api_key: Seq<char>, audio: Seq<u8>) -> bool {
    &&& request.url@ == qwen_url()
    &&& headers_view(request.headers@) == seq![
        ("Authorization"@, bearer(api_key)),
        ("Content-Type"@, "application/json"@),
    ]
    &&& request.body matches RequestBody::Json(text) && text@ == json_text(qwen_request(audio))
}

/// Whether `request` is what the secondary backend is sent for `audio`
/// under these credentials: a form that names the model and attaches the
/// audio as a WAVE file.
pub open spec fn is_sensevoice_request(
    request: &HttpRequest,
    api_key: Seq<char>,
    audio: Seq<u8>,
) -> bool {
    &&& request.url@ == sensevoice_url()
    &&& headers_view(request.headers@) == seq![("Authorization"@, bearer(api_key))]
    &&& request.body matches RequestBody::Form { fields, file_name, mime_type, file }
        && headers_view(fields@) == seq![("model"@, "FunAudioLLM/SenseVoiceSmall"@)]
        && file_name@ == "audio.wav"@ && mime_type@ == "audio/wav"@ && file@ == audio
}

/// What follows an attempt of a client that retries.
#[derive(Debug)]
pub enum RetryStep {
    /// Return this outcome.
    Finish(Result<String, PipelineError>),
    /// Pause for so many milliseconds, then try again.
    RetryAfter(u64),
}

/// The mathematical value of a [`RetryStep`].
pub enum RetryModel {
    Finish(Result<Seq<char>, ErrorModel>),
    RetryAfter(u64),
}

impl View for RetryStep {
    type V = RetryModel;

    open spec fn view(&self) -> RetryModel {
        match self {
            RetryStep::Finish(outcome) => RetryModel::Finish(outcome_view(*outcome)),
            RetryStep::RetryAfter(ms) => RetryModel::RetryAfter(*ms),
        }
    }
}

/// What follows attempt `attempt` (the first is attempt 0) that ended in
/// `outcome`: a success is returned, a failure is followed by the pause and
/// another attempt while retries are left, and the last failure is
/// returned.
pub open spec fn retry_step(attempt: nat, max_retries: nat, outcome: Result<Seq<char>, ErrorModel>)
    -> RetryModel {
    if outcome is Ok || attempt >= max_retries {
        RetryModel::Finish(outcome)
    } else {
        RetryModel::RetryAfter(RETRY_BACKOFF_MS)
    }
}

/// What a client that retries returns when its attempts, from `attempt`
/// on, end in `outcomes[attempt]`, `outcomes[attempt + 1]` and so on.
pub open spec fn retried(
    outcomes: Seq<Result<Seq<char>, ErrorModel>>,
    attempt: nat,
    max_retries: nat,
) -> Result<Seq<char>, ErrorModel>
    recommends
        attempt <= max_retries < outcomes.len(),
    decreases max_retries - attempt,
{
    match retry_step(attempt, max_retries, outcomes[attempt as int]) {
        RetryModel::Finish(outcome) => outcome,
        RetryModel::RetryAfter(_) => if attempt < max_retries {
            retried(outcomes, attempt + 1, max_retries)
        } else {
            outcomes[attempt as int]
        },
    }
}

/// Decides what follows an attempt.
pub fn after_attempt(attempt: u32, max_retries: u32, outcome: Result<String, PipelineError>) -> (step:
    RetryStep)
    ensures
        step@ == retry_step(attempt as nat, max_retries as nat, outcome_view(outcome)),
{
    if outcome.is_ok() || attempt >= max_retries {
        RetryStep::Finish(outcome)
    } else {
        RetryStep::RetryAfter(RETRY_BACKOFF_MS)
    }
}

/// A client that retries returns the first success among its attempts and
/// makes no attempt after it; where all attempts fail, it returns the
/// failure of the last one.
pub proof fn lemma_retry_policy(
    outcomes: Seq<Result<Seq<char>, ErrorModel>>,
    attempt: nat,
    max_retries: nat,
)
    requires
        attempt <= max_retries < outcomes.len(),
    ensures
        (forall|k: int| attempt <= k <= max_retries ==> (#[trigger] outcomes[k]) is Err) ==> retried(
            outcomes,
            attempt,
            max_retries,
        ) == outcomes[max_retries as int],
        forall|k: int|
            attempt <= k <= max_retries && (#[trigger] outcomes[k]) is Ok && (forall|j: int|
                attempt <= j < k ==> (#[trigger] outcomes[j]) is Err) ==> retried(
                outcomes,
                attempt,
                max_retries,
            ) == outcomes[k],
    decreases max_retries - attempt,
{
    if attempt < max_retries {
        lemma_retry_policy(outcomes, attempt + 1, max_retries);
        if outcomes[attempt as int] is Err {
            assert forall|k: int|
                attempt <= k <= max_retries && (#[trigger] outcomes[k]) is Ok && (forall|j: int|
                    attempt <= j < k ==> (#[trigger] outcomes[j]) is Err) implies retried(
                outcomes,
                attempt,
                max_retries,
            ) == outcomes[k] by {
                assert(k > attempt);
                assert(forall|j: int| attempt + 1 <= j < k ==> (#[trigger] outcomes[j]) is Err);
            }
        } else {
            assert forall|k: int|
                attempt <= k <= max_retries && (#[trigger] outcomes[k]) is Ok && (forall|j: int|
                    attempt <= j < k ==> (#[trigger] outcomes[j]) is Err) implies retried(
                outcomes,
                attempt,
                max_retries,
            ) == outcomes[k] by {
                if k > attempt {
                    assert(outcomes[attempt as int] is Err);
                }
            }
        }
    }
}

/// The client of the primary backend.
#[derive(Debug)]
pub struct QwenASRClient {
    api_key: String,
    max_retries: u32,
}

impl QwenASRClient {
    /// The credentials of the client.
    pub closed spec fn credentials(&self) -> Seq<char> {
        self.api_key@
    }

    /// How often the client tries again after its first attempt.
    pub closed spec fn retries(&self) -> nat {
        self.max_retries as nat
    }

    pub fn new(api_key: String) -> (client: QwenASRClient)
        ensures
            client.credentials() == api_key@,
            client.retries() == MAX_RETRIES,
    {
        QwenASRClient { api_key, max_retries: MAX_RETRIES }
    }

    /// How often the client tries again after its first attempt.
    pub fn max_retries(&self) -> (retries: u32)
        ensures
            retries == self.retries(),
    {
        self.max_retries
    }

    /// Whether `request` is what this client sends for `audio`.
    pub open spec fn asks(&self, request: &HttpRequest, audio: Seq<u8>) -> bool {
        is_qwen_request(request, self.credentials(), audio)
    }

    /// Builds the request of one attempt.
    pub fn request(&self, audio_data: &[u8]) -> (request: HttpRequest)
        requires
            base64_fits(audio_data@.len()),
        ensures
            self.asks(&request, audio_data@),
    {
        let mut headers: Vec<(String, String)> = Vec::new();
        headers.push(
            (
                String::from_str("Authorization"),
                String::from_str("Bearer ").concat(self.api_key.as_str()),
            ),
        );
        headers.push((String::from_str("Content-Type"), String::from_str("application/json")));
        proof {
            assert(headers_view(headers@) =~= seq![
                ("Authorization"@, bearer(self.credentials())),
                ("Content-Type"@, "application/json"@),
            ]);
        }
        HttpRequest {
            url: String::from_str(
                "https://dashscope.aliyuncs.com/api/v1/services/aigc/multimodal-generation/generation",
            ),
            headers,
            body: RequestBody::Json(render(&qwen_request_document(audio_data))),
        }
    }

    /// Reads the outcome of one attempt.
    pub fn transcribe_from_memory(&self, reply: HttpReply) -> (outcome: Result<
        String,
        PipelineError,
    >)
        ensures
            outcome_view(outcome) == transcript_of(reply@, qwen_transcript_pointer()),
    {
        read_reply(reply, "/output/choices/0/message/content/0/text")
    }

    /// Reads the outcome of attempt `attempt` (the first is attempt 0) and
    /// decides what follows under this client's retry policy.
    pub fn transcribe_bytes(&self, attempt: u32, reply: HttpReply) -> (step: RetryStep)
        ensures
            step@ == retry_step(
                attempt as nat,
                self.retries(),
                transcript_of(reply@, qwen_transcript_pointer()),
            ),
    {
        after_attempt(attempt, self.max_retries, self.transcribe_from_memory(reply))
    }

    /// Reads the outcome of one attempt that is not to be repeated.
    pub fn transcribe_once(&self, reply: HttpReply) -> (outcome: Result<String, PipelineError>)
        ensures
            outcome_view(outcome) == transcript_of(reply@, qwen_transcript_pointer()),
    {
        self.transcribe_from_memory(reply)
    }
}

/// The client of the secondary backend.
#[derive(Debug)]
pub struct SenseVoiceClient {
    api_key: String,
}

impl SenseVoiceClient {
    /// The credentials of the client.
    pub closed spec fn credentials(&self) -> Seq<char> {
        self.api_key@
    }

    pub fn new(api_key: String) -> (client: SenseVoiceClient)
        ensures
            client.credentials() == api_key@,
    {
        SenseVoiceClient { api_key }
    }

    /// Whether `request` is what this client sends for `audio`.
    pub open spec fn asks(&self, request: &HttpRequest, audio: Seq<u8>) -> bool {
        is_sensevoice_request(request, self.credentials(), audio)
    }

    /// Builds the request of the one attempt.
    pub fn request(&self, audio_data: &[u8]) -> (request: HttpRequest)
        ensures
            self.asks(&request, audio_data@),
    {
        let mut headers: Vec<(String, String)> = Vec::new();
        headers.push(
            (
                String::from_str("Authorization"),
                String::from_str("Bearer ").concat(self.api_key.as_str()),
            ),
        );
        let mut fields: Vec<(String, String)> = Vec::new();
        fields.push((String::from_str("model"), String::from_str("FunAudioLLM/SenseVoiceSmall")));
        proof {
            assert(headers_view(headers@) =~= seq![
                ("Authorization"@, bearer(self.credentials())),
            ]);
            assert(headers_view(fields@) =~= seq![("model"@, "FunAudioLLM/SenseVoiceSmall"@)]);
        }
        HttpRequest {
            url: String::from_str("https://api.siliconflow.cn/v1/audio/transcriptions"),
            headers,
            body: RequestBody::Form {
                fields,
                file_name: String::from_str("audio.wav"),
                mime_type: String::from_str("audio/wav"),
                file: vstd::slice::slice_to_vec(audio_data),
            },
        }
    }

    /// Reads the outcome of the one attempt.
    pub fn transcribe_bytes(&self, reply: HttpReply) -> (outcome: Result<String, PipelineError>)
        ensures
            outcome_view(outcome) == transcript_of(reply@, sensevoice_transcript_pointer()),
    {
        read_reply(reply, "/text")
    }
}

} // verus!
