//! A streaming transcription session as its producers see it: how it is
//! opened, the states it passes through, and what each call may still do.

use crate::commands::{
    session_update, session_update_message, CommandModel, SessionCommand,
};
use crate::error::{outcome_view, ErrorModel, PipelineError};
use crate::json::json_text;
use crate::pcm::{pcm16_to_bytes, pcm_bytes};
use crate::transcript::{resolve_wait, wait_result, WaitOutcome, TRANSCRIPTION_TIMEOUT_SECS};
use vstd::prelude::*;
use vstd::string::*;

verus! {

/// Where a session stands in its life.
#[derive(Debug, Clone, Copy, PartialEq, Eq, Structural)]
pub enum SessionState {
    /// Made, with no connection yet.
    Created,
    /// Connected; the configuration is on its way.
    Configuring,
    /// Configured; audio may be sent.
    Streaming,
    /// The audio of the utterance has been committed.
    Committed,
    /// A caller waits for the result.
    AwaitingResult,
    /// Done.
    Closed,
    /// Ended by a failure.
    Failed,
}

impl SessionState {
    /// Whether commands can still be queued in this state.
    pub open spec fn is_open(self) -> bool {
        self is Streaming || self is Committed || self is AwaitingResult
    }

    /// How far a session has come: states are only ever left for later ones.
    pub open spec fn rank(self) -> nat {
        match self {
            SessionState::Created => 0,
            SessionState::Configuring => 1,
            SessionState::Streaming => 2,
            SessionState::Committed => 3,
            SessionState::AwaitingResult => 4,
            SessionState::Closed => 5,
            SessionState::Failed => 5,
        }
    }

    /// The state after the connection has been opened.
    pub open spec fn after_begin(self) -> SessionState {
        if self is Created {
            SessionState::Configuring
        } else {
            self
        }
    }

    /// The state after the configuration was sent, or could not be.
    pub open spec fn after_configured(self, sent: bool) -> SessionState {
        if self is Configuring {
            if sent {
                SessionState::Streaming
            } else {
                SessionState::Failed
            }
        } else {
            self
        }
    }

    /// The state after a commit.
    pub open spec fn after_commit(self) -> SessionState {
        if self is Streaming {
            SessionState::Committed
        } else {
            self
        }
    }

    /// The state after a caller has begun to wait.
    pub open spec fn after_start_wait(self) -> SessionState {
        if self is Streaming || self is Committed {
            SessionState::AwaitingResult
        } else {
            self
        }
    }

    /// The state after a wait has ended.
    pub open spec fn after_wait(self, succeeded: bool) -> SessionState {
        if self is AwaitingResult {
            if succeeded {
                SessionState::Closed
            } else {
                SessionState::Failed
            }
        } else {
            self
        }
    }

    /// The state after a close.
    pub open spec fn after_close(self) -> SessionState {
        if self is Failed {
            SessionState::Failed
        } else {
            SessionState::Closed
        }
    }
}

/// What is needed to open the connection of a session.
#[derive(Debug)]
pub struct ConnectRequest {
    /// The address of the streaming endpoint, with the model in its query.
    pub url: String,
    /// The headers of the opening request, in order.
    pub headers: Vec<(String, String)>,
}

/// The address of the streaming endpoint.
pub open spec fn realtime_url() -> Seq<char> {
    "wss://dashscope.aliyuncs.com/api-ws/v1/realtime?model=qwen3-asr-flash-realtime"@
}

/// The value of the header that carries a bearer token.
pub open spec fn bearer(api_key: Seq<char>) -> Seq<char> {
    "Bearer "@ + api_key
}

/// The headers of the opening request: the credentials, the protocol marks
/// of the upgrade, and the key of this handshake.
pub open spec fn connect_headers(api_key: Seq<char>, handshake_key: Seq<char>) -> Seq<
    (Seq<char>, Seq<char>),
> {
    seq![
        ("Authorization"@, bearer(api_key)),
        ("OpenAI-Beta"@, "realtime=v1"@),
        ("Host"@, "dashscope.aliyuncs.com"@),
        ("Connection"@, "Upgrade"@),
        ("Upgrade"@, "websocket"@),
        ("Sec-WebSocket-Version"@, "13"@),
        ("Sec-WebSocket-Key"@, handshake_key),
    ]
}

/// The views of a run of headers.
pub open spec fn headers_view(headers: Seq<(String, String)>) -> Seq<(Seq<char>, Seq<char>)> {
    Seq::new(headers.len(), |i: int| (headers[i].0@, headers[i].1@))
}

impl ConnectRequest {
    /// Whether this is the opening request for these credentials and this
    /// handshake key.
    pub open spec fn is_for(&self, api_key: Seq<char>, handshake_key: Seq<char>) -> bool {
        &&& self.url@ == realtime_url()
        &&& headers_view(self.headers@) == connect_headers(api_key, handshake_key)
    }

    /// The key of this handshake, as the last header carries it.
    pub open spec fn handshake_key(&self) -> Seq<char> {
        self.headers@.last().1@
    }

    /// Builds the opening request.
    pub fn new(api_key: &str, handshake_key: &str) -> (request: ConnectRequest)
        ensures
            request.is_for(api_key@, handshake_key@),
            request.handshake_key() == handshake_key@,
    {
        let mut headers: Vec<(String, String)> = Vec::new();
        headers.push(
            (String::from_str("Authorization"), String::from_str("Bearer ").concat(api_key)),
        );
        headers.push((String::from_str("OpenAI-Beta"), String::from_str("realtime=v1")));
        headers.push((String::from_str("Host"), String::from_str("dashscope.aliyuncs.com")));
        headers.push((String::from_str("Connection"), String::from_str("Upgrade")));
        headers.push((String::from_str("Upgrade"), String::from_str("websocket")));
        headers.push((String::from_str("Sec-WebSocket-Version"), String::from_str("13")));
        headers.push((String::from_str("Sec-WebSocket-Key"), String::from_str(handshake_key)));
        proof {
            assert(headers_view(headers@) =~= connect_headers(api_key@, handshake_key@));
        }
        ConnectRequest {
            url: String::from_str(
                "wss://dashscope.aliyuncs.com/api-ws/v1/realtime?model=qwen3-asr-flash-realtime",
            ),
            headers,
        }
    }
}

/// Calls `tungstenite::handshake::client::generate_key`, which draws a
/// random key for one handshake. Nothing is claimed of the key.
#[verifier::external_body]
fn fresh_handshake_key() -> String {
    tokio_tungstenite::tungstenite::handshake::client::generate_key()
}

/// Says which failure a refused connection is: a refusal of the
/// credentials where the backend answered 401 or 403, else a failure of the
/// transport.
pub fn connect_failure(status: Option<u16>, reason: String) -> (error: PipelineError)
    ensures
        error@ == if status == Some(401u16) || status == Some(403u16) {
            ErrorModel::Auth(reason@)
        } else {
            ErrorModel::Connect(reason@)
        },
{
    match status {
        Some(code) => {
            if code == 401 || code == 403 {
                PipelineError::Auth(reason)
            } else {
                PipelineError::Connect(reason)
            }
        },
        None => PipelineError::Connect(reason),
    }
}

/// One streaming session: one connection, one utterance, one result.
#[derive(Debug)]
pub struct RealtimeSession {
    state: SessionState,
}

impl View for RealtimeSession {
    type V = SessionState;

    closed spec fn view(&self) -> SessionState {
        self.state
    }
}

impl RealtimeSession {
    /// A session that has no connection yet.
    pub fn new() -> (session: RealtimeSession)
        ensures
            session@ == SessionState::Created,
    {
        RealtimeSession { state: SessionState::Created }
    }

    /// The state of the session.
    pub fn state(&self) -> (state: SessionState)
        ensures
            state == self@,
    {
        self.state
    }

    /// Notes that the connection is open and hands out the configuration
    /// message to send first; `None` where the session was begun before.
    pub fn begin(&mut self, now_millis: u128) -> (message: Option<String>)
        ensures
            final(self)@ == old(self)@.after_begin(),
            message is Some <==> old(self)@ is Created,
            message matches Some(text) ==> text@ == json_text(session_update(now_millis as nat)),
    {
        match self.state {
            SessionState::Created => {
                self.state = SessionState::Configuring;
                Some(session_update_message(now_millis))
            },
            _ => None,
        }
    }

    /// Notes whether the configuration message could be sent. A session
    /// whose configuration could not be sent has failed.
    pub fn configured(&mut self, sent: bool)
        ensures
            final(self)@ == old(self)@.after_configured(sent),
    {
        match self.state {
            SessionState::Configuring => {
                self.state = if sent {
                    SessionState::Streaming
                } else {
                    SessionState::Failed
                };
            },
            _ => {},
        }
    }

    /// Turns a chunk of samples into the command that sends it. The
    /// session must still be open.
    pub fn send_audio_chunk(&self, pcm_data: &[i16]) -> (command: Result<
        SessionCommand,
        PipelineError,
    >)
        ensures
            command is Ok <==> self@.is_open(),
            command matches Ok(c) ==> c@ == CommandModel::SendAudio(pcm_bytes(pcm_data@)),
            command matches Err(e) ==> e@ == ErrorModel::ChannelClosed,
    {
        match self.state {
            SessionState::Streaming | SessionState::Committed | SessionState::AwaitingResult => Ok(
                SessionCommand::SendAudio(pcm16_to_bytes(pcm_data)),
            ),
            _ => Err(PipelineError::ChannelClosed),
        }
    }

    /// Ends the audio of the utterance: hands out the commit command. The
    /// session must still be open.
    pub fn commit_audio(&mut self) -> (command: Result<SessionCommand, PipelineError>)
        ensures
            final(self)@ == old(self)@.after_commit(),
            command is Ok <==> old(self)@.is_open(),
            command matches Ok(c) ==> c@ == CommandModel::Commit,
            command matches Err(e) ==> e@ == ErrorModel::ChannelClosed,
    {
        match self.state {
            SessionState::Streaming => {
                self.state = SessionState::Committed;
                Ok(SessionCommand::Commit)
            },
            SessionState::Committed | SessionState::AwaitingResult => Ok(SessionCommand::Commit),
            _ => Err(PipelineError::ChannelClosed),
        }
    }

    /// Begins the one wait for the result and says how many seconds it may
    /// last; `None` where a wait has begun before or the session is not
    /// open.
    pub fn start_wait(&mut self) -> (seconds: Option<u64>)
        ensures
            final(self)@ == old(self)@.after_start_wait(),
            seconds is Some <==> (old(self)@ is Streaming || old(self)@ is Committed),
            seconds is Some ==> seconds->0 == TRANSCRIPTION_TIMEOUT_SECS,
    {
        match self.state {
            SessionState::Streaming | SessionState::Committed => {
                self.state = SessionState::AwaitingResult;
                Some(TRANSCRIPTION_TIMEOUT_SECS)
            },
            _ => None,
        }
    }

    /// Ends the wait: the delivered result as it is, a timeout where the
    /// time ran out, a closed channel where nothing was delivered or no
    /// wait had begun.
    pub fn wait_for_result(&mut self, outcome: WaitOutcome) -> (result: Result<
        String,
        PipelineError,
    >)
        ensures
            old(self)@ is AwaitingResult ==> outcome_view(result) == wait_result(outcome),
            !(old(self)@ is AwaitingResult) ==> outcome_view(result) == Err::<
                Seq<char>,
                ErrorModel,
            >(ErrorModel::ChannelClosed),
            final(self)@ == old(self)@.after_wait(result is Ok),
    {
        match self.state {
            SessionState::AwaitingResult => {
                let result = resolve_wait(outcome);
                self.state = if result.is_ok() {
                    SessionState::Closed
                } else {
                    SessionState::Failed
                };
                result
            },
            _ => Err(PipelineError::ChannelClosed),
        }
    }

    /// Ends the session, whatever its state, and hands out the command
    /// that releases the connection.
    pub fn close(&mut self) -> (command: SessionCommand)
        ensures
            final(self)@ == old(self)@.after_close(),
            command@ == CommandModel::Close,
    {
        match self.state {
            SessionState::Failed => {},
            _ => {
                self.state = SessionState::Closed;
            },
        }
        SessionCommand::Close
    }
}

/// Opens sessions for one set of credentials.
#[derive(Debug)]
pub struct ConnectionPool {
    api_key: String,
}

impl ConnectionPool {
    /// The credentials of the pool.
    pub closed spec fn credentials(&self) -> Seq<char> {
        self.api_key@
    }

    pub fn new(api_key: String) -> (pool: ConnectionPool)
        ensures
            pool.credentials() == api_key@,
    {
        ConnectionPool { api_key }
    }

    /// Prepares a new session: every utterance gets a connection of its
    /// own, opened with a fresh handshake key.
    pub fn get_session(&self) -> (prepared: (ConnectRequest, RealtimeSession))
        ensures
            prepared.0.is_for(self.credentials(), prepared.0.handshake_key()),
            prepared.1@ == SessionState::Created,
    {
        let key = fresh_handshake_key();
        let request = ConnectRequest::new(self.api_key.as_str(), key.as_str());
        (request, RealtimeSession::new())
    }
}

/// The client of the streaming backend.
#[derive(Debug)]
pub struct QwenRealtimeClient {
    pool: ConnectionPool,
}

impl QwenRealtimeClient {
    /// The credentials of the client.
    pub closed spec fn credentials(&self) -> Seq<char> {
        self.pool.credentials()
    }

    pub fn new(api_key: String) -> (client: QwenRealtimeClient)
        ensures
            client.credentials() == api_key@,
    {
        QwenRealtimeClient { pool: ConnectionPool::new(api_key) }
    }

    /// Prepares a new session.
    pub fn start_session(&self) -> (prepared: (ConnectRequest, RealtimeSession))
        ensures
            prepared.0.is_for(self.credentials(), prepared.0.handshake_key()),
            prepared.1@ == SessionState::Created,
    {
        self.pool.get_session()
    }
}

/// A session never goes back: whatever is called, the state it reaches is
/// no earlier than the one it left.
pub proof fn lemma_session_moves_forward(state: SessionState, flag: bool)
    ensures
        state.rank() <= state.after_begin().rank(),
        state.rank() <= state.after_configured(flag).rank(),
        state.rank() <= state.after_commit().rank(),
        state.rank() <= state.after_start_wait().rank(),
        state.rank() <= state.after_wait(flag).rank(),
        state.rank() <= state.after_close().rank(),
{
}

/// Closing is safe in every state and closing again changes nothing; a
/// closed session takes no more commands.
pub proof fn lemma_close_is_idempotent(state: SessionState)
    ensures
        state.after_close().after_close() == state.after_close(),
        !state.after_close().is_open(),
{
}

/// A session waits at most once: after a wait has begun, no other begins,
/// neither while it lasts nor after it has ended.
pub proof fn lemma_one_wait(state: SessionState, succeeded: bool)
    ensures
        !(state.after_start_wait() is Streaming) && !(state.after_start_wait() is Committed),
        !(state.after_start_wait().after_wait(succeeded) is Streaming),
        !(state.after_start_wait().after_wait(succeeded) is Committed),
        !(state.after_start_wait().after_wait(succeeded) is AwaitingResult),
{
}

} // verus!
