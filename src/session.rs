use vstd::prelude::*;
use crate::value::{
    Mapping, Value, lookup, mapping_field, field_is_str, is_str, take_field, take_mapping,
    has_str_field,
};

verus! {

/// Configuration read once by the caller, one field per configuration input.
pub struct Config {
    /// The protocol-mode indicator; `"tcp"` selects socket mode.
    pub protocol: Option<String>,
    /// Local TCP port of the host (socket mode).
    pub tcp_port: Option<String>,
    /// Path the initial envelope is read from (file-pair mode).
    pub inbox_file: Option<String>,
    /// Path the final context is written to (file-pair mode).
    pub outbox_file: Option<String>,
}

/// The transport a session uses.
#[derive(Clone, Copy, Debug, PartialEq, Eq, Structural)]
pub enum Mode {
    /// One bidirectional stream to the host.
    Socket,
    /// An inbox file read once and an outbox file written once.
    FilePair,
}

/// A configuration input that an operation needed and did not find.
#[derive(Clone, Copy, Debug, PartialEq, Eq, Structural)]
pub enum ConfigKey {
    TcpPort,
    OutboxFile,
}

/// Failures of the protocol operations.
#[derive(Debug, PartialEq)]
pub enum Error {
    /// A required configuration value is absent.
    MissingConfig(ConfigKey),
    /// Connecting, reading or writing at the transport failed.
    TransportError(String),
    /// A payload does not decode to the shape it must have.
    CodecError(String),
    /// The operation needs a connection that was never established.
    NotInitialized,
    /// The operation is not available in the session's mode.
    UnsupportedOperation,
    /// A response is not the one the call waits for; it carries the response.
    ProtocolViolation(Value),
    /// The host reported a failure of the remote function.
    RemoteError(String),
    /// Writing the outbox file failed.
    IoError(String),
}

/// What the caller does to obtain the initial envelope.
#[derive(Debug, PartialEq)]
pub enum AcceptStep {
    /// Connect to `127.0.0.1:<port>`, hand the stream to the session, and read
    /// one value from it.
    Connect { port: String },
    /// Read the whole file at `path` and decode one value from it.
    ReadInbox { path: String },
    /// No channel is configured: accept with no envelope.
    Standalone,
}

/// A remote call ready to be written to the stream.
#[derive(Debug, PartialEq)]
pub struct PendingCall {
    /// The correlation token the response must carry.
    pub id: String,
    /// The request to write.
    pub request: Value,
}

/// What the caller does to publish the final context.
#[derive(Debug, PartialEq)]
pub enum RespondAction {
    /// Write this message to the session's stream.
    Send(Value),
    /// Replace the file at `path` with the encoded `payload`.
    WriteFile { path: String, payload: Mapping },
}

/// `"tcp"` selects socket mode; anything else, or nothing, selects file-pair mode.
pub open spec fn selects_socket(protocol: Option<String>) -> bool {
    match protocol {
        Some(p) => p@ == "tcp"@,
        None => false,
    }
}

pub open spec fn spec_mode_of(protocol: Option<String>) -> Mode {
    if selects_socket(protocol) {
        Mode::Socket
    } else {
        Mode::FilePair
    }
}

/// The mode that a protocol-mode indicator selects.
pub fn mode_of(protocol: &Option<String>) -> (r: Mode)
    ensures
        r == spec_mode_of(*protocol),
{
    match protocol {
        Some(p) => {
            if *p == "tcp".to_owned() {
                Mode::Socket
            } else {
                Mode::FilePair
            }
        },
        None => Mode::FilePair,
    }
}

/// The inputs that accepting `envelope` returns; `None` when it is not a mapping.
pub open spec fn envelope_inputs(envelope: Option<Value>) -> Option<Seq<(String, Value)>> {
    match envelope {
        None => Some(Seq::empty()),
        Some(Value::Object(m)) => Some(mapping_field(m@, "inputs"@)),
        Some(_) => None,
    }
}

/// The context carried by `envelope`; empty when it carries none.
pub open spec fn envelope_context(envelope: Option<Value>) -> Seq<(String, Value)> {
    match envelope {
        Some(Value::Object(m)) => mapping_field(m@, "context"@),
        _ => Seq::empty(),
    }
}

/// A well-formed correlation token: a version-4 UUID in its 36-character
/// hyphenated layout.
pub open spec fn is_call_id(id: Seq<char>) -> bool {
    &&& id.len() == 36
    &&& id[8] == '-'
    &&& id[13] == '-'
    &&& id[18] == '-'
    &&& id[23] == '-'
    &&& id[14] == '4'
}

/// `v` is the call request `{function, id, inputs, type: "call"}`, keys in that order.
pub open spec fn is_call_request(
    v: Value,
    function: Seq<char>,
    inputs: Mapping,
    id: Seq<char>,
) -> bool {
    match v {
        Value::Object(m) => {
            &&& m@.len() == 4
            &&& m@[0].0@ == "function"@ && is_str(m@[0].1, function)
            &&& m@[1].0@ == "id"@ && is_str(m@[1].1, id)
            &&& m@[2].0@ == "inputs"@ && m@[2].1 == Value::Object(inputs)
            &&& m@[3].0@ == "type"@ && is_str(m@[3].1, "call"@)
        },
        _ => false,
    }
}

/// `v` is the respond message `{context, type: "respond"}`, keys in that order.
pub open spec fn is_respond_message(v: Value, context: Mapping) -> bool {
    match v {
        Value::Object(m) => {
            &&& m@.len() == 2
            &&& m@[0].0@ == "context"@ && m@[0].1 == Value::Object(context)
            &&& m@[1].0@ == "type"@ && is_str(m@[1].1, "respond"@)
        },
        _ => false,
    }
}

/// `resp` answers the call with token `id`.
pub open spec fn is_call_result(resp: Value, id: Seq<char>) -> bool {
    match resp {
        Value::Object(m) => field_is_str(m@, "type"@, "call_result"@) && field_is_str(
            m@,
            "id"@,
            id,
        ),
        _ => false,
    }
}

/// The message of a remote failure: the `error` field's text, or a placeholder
/// when it is not a string.
pub open spec fn remote_message(e: Value) -> Seq<char> {
    match e {
        Value::Str(s) => s@,
        _ => "Unknown error"@,
    }
}

/// Relies on `uuid::Uuid::new_v4` and its `Display` form: a random version-4
/// UUID, written as 36 characters with hyphens at positions 8, 13, 18 and 23 and
/// the version digit `4` at position 14. It panics only when the operating
/// system's random source fails.
#[verifier::external_body]
fn new_call_id() -> (r: String)
    ensures
        is_call_id(r@),
{
    uuid::Uuid::new_v4().to_string()
}

/// The state of one session: its configuration, its transport once connected,
/// and the context taken from the initial envelope. The context and the
/// transport are each set at most once; later attempts leave them as they are.
pub struct Session<S> {
    mode: Mode,
    config: Config,
    transport: Option<S>,
    context: Mapping,
    context_set: bool,
}

impl<S> Session<S> {
    pub closed spec fn spec_mode(&self) -> Mode {
        self.mode
    }

    pub closed spec fn spec_config(&self) -> Config {
        self.config
    }

    pub closed spec fn spec_transport(&self) -> Option<S> {
        self.transport
    }

    pub closed spec fn stored_context(&self) -> Seq<(String, Value)> {
        self.context@
    }

    pub closed spec fn context_is_set(&self) -> bool {
        self.context_set
    }

    /// The context after accepting `envelope`: the first one accepted wins.
    pub open spec fn context_after_accept(&self, envelope: Option<Value>) -> Seq<(String, Value)> {
        if self.context_is_set() {
            self.stored_context()
        } else {
            envelope_context(envelope)
        }
    }

    /// A session that has accepted nothing and has no transport.
    pub fn new(config: Config) -> (s: Self)
        ensures
            s.spec_mode() == spec_mode_of(config.protocol),
            s.spec_config() == config,
            s.spec_transport() is None,
            !s.context_is_set(),
            s.stored_context() == Seq::<(String, Value)>::empty(),
    {
        let mode = mode_of(&config.protocol);
        Session { mode, config, transport: None, context: Vec::new(), context_set: false }
    }

    /// The mode the session runs in.
    pub fn mode(&self) -> (r: Mode)
        ensures
            r == self.spec_mode(),
    {
        self.mode
    }

    /// Whether a transport has been handed to the session.
    pub fn is_connected(&self) -> (r: bool)
        ensures
            r == self.spec_transport() is Some,
    {
        self.transport.is_some()
    }

    /// The session's transport, for the caller to read from and write to.
    pub fn transport_mut(&mut self) -> (r: Option<&mut S>)
        ensures
            (r is Some) == (old(self).spec_transport() is Some),
            (final(self).spec_transport() is Some) == (old(self).spec_transport() is Some),
            r matches Some(t) ==> Some(*t) == old(self).spec_transport()
                && final(self).spec_transport() == Some(*final(t)),
            final(self).spec_mode() == old(self).spec_mode(),
            final(self).spec_config() == old(self).spec_config(),
            final(self).stored_context() == old(self).stored_context(),
            final(self).context_is_set() == old(self).context_is_set(),
    {
        self.transport.as_mut()
    }

    /// How the initial envelope is to be obtained.
    pub fn plan_accept(&self) -> (r: Result<AcceptStep, Error>)
        ensures
            self.spec_mode() == Mode::Socket ==> match self.spec_config().tcp_port {
                Some(p) => r == Ok::<AcceptStep, Error>(AcceptStep::Connect { port: p }),
                None => r == Err::<AcceptStep, Error>(Error::MissingConfig(ConfigKey::TcpPort)),
            },
            self.spec_mode() == Mode::FilePair ==> match self.spec_config().inbox_file {
                Some(p) => r == Ok::<AcceptStep, Error>(AcceptStep::ReadInbox { path: p }),
                None => r == Ok::<AcceptStep, Error>(AcceptStep::Standalone),
            },
    {
        match self.mode {
            Mode::Socket => match &self.config.tcp_port {
                Some(p) => Ok(AcceptStep::Connect { port: p.clone() }),
                None => Err(Error::MissingConfig(ConfigKey::TcpPort)),
            },
            Mode::FilePair => match &self.config.inbox_file {
                Some(p) => Ok(AcceptStep::ReadInbox { path: p.clone() }),
                None => Ok(AcceptStep::Standalone),
            },
        }
    }

    /// Hands the session its transport; a session keeps the first one it gets.
    pub fn connect(&mut self, transport: S)
        ensures
            final(self).spec_transport() == (if old(self).spec_transport() is Some {
                old(self).spec_transport()
            } else {
                Some(transport)
            }),
            final(self).spec_mode() == old(self).spec_mode(),
            final(self).spec_config() == old(self).spec_config(),
            final(self).stored_context() == old(self).stored_context(),
            final(self).context_is_set() == old(self).context_is_set(),
    {
        if self.transport.is_none() {
            self.transport = Some(transport);
        }
    }

    /// Accepts the initial envelope (`None` when no channel is configured) and
    /// returns its inputs. The `context` and `inputs` entries each default to an
    /// empty mapping when absent or not a mapping; an envelope that is not a
    /// mapping is refused and leaves the session as it was.
    pub fn accept(&mut self, envelope: Option<Value>) -> (r: Result<Mapping, Error>)
        ensures
            match envelope_inputs(envelope) {
                Some(inputs) => {
                    &&& r is Ok && r->Ok_0@ == inputs
                    &&& final(self).stored_context() == old(self).context_after_accept(envelope)
                    &&& final(self).context_is_set()
                },
                None => {
                    &&& r is Err && r->Err_0 is CodecError
                    &&& final(self).stored_context() == old(self).stored_context()
                    &&& final(self).context_is_set() == old(self).context_is_set()
                },
            },
            final(self).spec_transport() == old(self).spec_transport(),
            final(self).spec_mode() == old(self).spec_mode(),
            final(self).spec_config() == old(self).spec_config(),
    {
        let (context, inputs) = match envelope {
            None => (Vec::new(), Vec::new()),
            Some(Value::Object(m)) => {
                let mut m = m;
                proof {
                    reveal_strlit("context");
                    reveal_strlit("inputs");
                    assert("context"@.len() != "inputs"@.len());
                }
                let context = take_mapping(&mut m, "context");
                let inputs = take_mapping(&mut m, "inputs");
                (context, inputs)
            },
            Some(_) => {
                return Err(Error::CodecError("the envelope is not a mapping".to_owned()));
            },
        };
        if !self.context_set {
            self.context = context;
            self.context_set = true;
        }
        Ok(inputs)
    }

    /// The stored context; empty until an envelope has been accepted.
    pub fn context(&self) -> (r: &Mapping)
        ensures
            r@ == self.stored_context(),
    {
        &self.context
    }

    /// Prepares a call of the remote function `function_name` with `inputs`,
    /// under a fresh correlation token. Only a connected socket session can call.
    pub fn call_function(&self, function_name: &str, inputs: Mapping) -> (r: Result<
        PendingCall,
        Error,
    >)
        ensures
            self.spec_mode() == Mode::FilePair ==> r == Err::<PendingCall, Error>(
                Error::UnsupportedOperation,
            ),
            self.spec_mode() == Mode::Socket && self.spec_transport() is None ==> r == Err::<
                PendingCall,
                Error,
            >(Error::NotInitialized),
            self.spec_mode() == Mode::Socket && self.spec_transport() is Some ==> {
                &&& r is Ok
                &&& is_call_id(r->Ok_0.id@)
                &&& is_call_request(r->Ok_0.request, function_name@, inputs, r->Ok_0.id@)
            },
    {
        if self.mode == Mode::FilePair {
            return Err(Error::UnsupportedOperation);
        }
        if self.transport.is_none() {
            return Err(Error::NotInitialized);
        }
        let id = new_call_id();
        let request = build_call_request(function_name, inputs, &id);
        Ok(PendingCall { id, request })
    }

    /// Prepares the publication of the final `context`: a message on the stream
    /// in socket mode, the bare mapping written to the outbox file in file-pair
    /// mode.
    pub fn respond(&self, context: Mapping) -> (r: Result<RespondAction, Error>)
        ensures
            self.spec_mode() == Mode::Socket && self.spec_transport() is None ==> r == Err::<
                RespondAction,
                Error,
            >(Error::NotInitialized),
            self.spec_mode() == Mode::Socket && self.spec_transport() is Some ==> {
                &&& r is Ok && r->Ok_0 is Send
                &&& is_respond_message(r->Ok_0->Send_0, context)
            },
            self.spec_mode() == Mode::FilePair ==> match self.spec_config().outbox_file {
                Some(p) => r == Ok::<RespondAction, Error>(
                    RespondAction::WriteFile { path: p, payload: context },
                ),
                None => r == Err::<RespondAction, Error>(
                    Error::MissingConfig(ConfigKey::OutboxFile),
                ),
            },
    {
        match self.mode {
            Mode::Socket => {
                if self.transport.is_none() {
                    return Err(Error::NotInitialized);
                }
                Ok(RespondAction::Send(build_respond_message(context)))
            },
            Mode::FilePair => match &self.config.outbox_file {
                Some(p) => Ok(RespondAction::WriteFile { path: p.clone(), payload: context }),
                None => Err(Error::MissingConfig(ConfigKey::OutboxFile)),
            },
        }
    }
}

/// The call request for `function_name` with `inputs` under the token `id`.
pub fn build_call_request(function_name: &str, inputs: Mapping, id: &String) -> (r: Value)
    ensures
        is_call_request(r, function_name@, inputs, id@),
{
    let mut m: Mapping = Vec::new();
    m.push(("function".to_owned(), Value::Str(function_name.to_owned())));
    m.push(("id".to_owned(), Value::Str(id.clone())));
    m.push(("inputs".to_owned(), Value::Object(inputs)));
    m.push(("type".to_owned(), Value::Str("call".to_owned())));
    Value::Object(m)
}

/// The message that publishes `context` on the stream.
pub fn build_respond_message(context: Mapping) -> (r: Value)
    ensures
        is_respond_message(r, context),
{
    let mut m: Mapping = Vec::new();
    m.push(("context".to_owned(), Value::Object(context)));
    m.push(("type".to_owned(), Value::Str("respond".to_owned())));
    Value::Object(m)
}

/// Checks the response to the call with token `id` and returns its result.
/// A response of another type or token is a protocol violation carrying the
/// response; an `error` entry is a remote failure; otherwise the `result`
/// mapping, or an empty mapping when there is none.
pub fn finish_call(id: &str, response: Value) -> (r: Result<Mapping, Error>)
    ensures
        !is_call_result(response, id@) ==> r == Err::<Mapping, Error>(
            Error::ProtocolViolation(response),
        ),
        is_call_result(response, id@) ==> match response {
            Value::Object(m) => match lookup(m@, "error"@) {
                Some(e) => r is Err && r->Err_0 is RemoteError && r->Err_0->RemoteError_0@
                    == remote_message(e),
                None => match lookup(m@, "result"@) {
                    None => r is Ok && r->Ok_0@ == Seq::<(String, Value)>::empty(),
                    Some(Value::Object(o)) => r == Ok::<Mapping, Error>(o),
                    Some(_) => r is Err && r->Err_0 is CodecError,
                },
            },
            _ => false,
        },
{
    let matched = match &response {
        Value::Object(m) => has_str_field(m, "type", "call_result") && has_str_field(m, "id", id),
        _ => false,
    };
    if !matched {
        return Err(Error::ProtocolViolation(response));
    }
    match response {
        Value::Object(m) => {
            let mut m = m;
            proof {
                reveal_strlit("error");
                reveal_strlit("result");
                assert("error"@.len() != "result"@.len());
            }
            match take_field(&mut m, "error") {
                Some(e) => Err(Error::RemoteError(error_message(&e))),
                None => match take_field(&mut m, "result") {
                    None => Ok(Vec::new()),
                    Some(Value::Object(o)) => Ok(o),
                    Some(_) => Err(Error::CodecError("the call result is not a mapping".to_owned())),
                },
            }
        },
        _ => Err(Error::ProtocolViolation(response)),
    }
}

/// The message of a remote failure carried by the `error` entry `e`.
fn error_message(e: &Value) -> (r: String)
    ensures
        r@ == remote_message(*e),
{
    match e {
        Value::Str(s) => s.clone(),
        _ => "Unknown error".to_owned(),
    }
}

/// Accepting an envelope whose `context` and `inputs` entries are both mappings,
/// in a session that has accepted nothing yet, returns exactly those inputs and
/// stores exactly that context.
pub proof fn lemma_accept_round_trip<S>(
    s: Session<S>,
    m: Mapping,
    context: Mapping,
    inputs: Mapping,
)
    requires
        !s.context_is_set(),
        lookup(m@, "context"@) == Some(Value::Object(context)),
        lookup(m@, "inputs"@) == Some(Value::Object(inputs)),
    ensures
        envelope_inputs(Some(Value::Object(m))) == Some(inputs@),
        s.context_after_accept(Some(Value::Object(m))) == context@,
{
}

/// An envelope without a `context` mapping, whether absent or of another kind,
/// is still accepted, and a session that had no context ends with an empty one.
pub proof fn lemma_accept_without_context<S>(s: Session<S>, m: Mapping)
    requires
        !s.context_is_set(),
        !(lookup(m@, "context"@) matches Some(Value::Object(_))),
    ensures
        envelope_inputs(Some(Value::Object(m))) is Some,
        s.context_after_accept(Some(Value::Object(m))) == Seq::<(String, Value)>::empty(),
{
}

/// With no channel configured, accepting returns empty inputs without error, and
/// a session that had no context ends with an empty one.
pub proof fn lemma_standalone_accept<S>(s: Session<S>)
    requires
        !s.context_is_set(),
    ensures
        envelope_inputs(None) == Some(Seq::<(String, Value)>::empty()),
        s.context_after_accept(None) == Seq::<(String, Value)>::empty(),
{
}

} // verus!
