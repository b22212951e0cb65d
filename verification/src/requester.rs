//! The requester: the rules of the plain request and reply calls, and the
//! dispatcher of commands over the one held connection. It decides; the
//! caller performs the input and output and reports what came of it.

use vstd::prelude::*;
use vstd::string::StringExecFns;
use crate::connection::{ConnectStep, Connection, ConnectionError, ConnectionState};
use crate::frame::{CommandEnvelope, DecodeError, InboundFrame, InboundFrameView};
use crate::gate::{GateEvent, GateState, ScopedAccess, SessionGate};
use crate::json::{json_model, json_parse, json_text, parse, value_text};
use crate::string_map::StringMap;
use crate::text::same_text;

verus! {

/// Why a call failed.
#[derive(Debug, Clone, PartialEq, Eq)]
pub enum RequesterError {
    /// The request could not be made, or its answer could not be read.
    RequestFailed(String),
    /// The service did not accept the credential.
    AuthenticationError,
    /// The held connection could not be used.
    WsError(String),
}

/// The content of a [`RequesterError`].
pub enum RequesterErrorView {
    RequestFailed(Seq<char>),
    AuthenticationError,
    WsError(Seq<char>),
}

impl View for RequesterError {
    type V = RequesterErrorView;

    open spec fn view(&self) -> RequesterErrorView {
        match self {
            RequesterError::RequestFailed(m) => RequesterErrorView::RequestFailed(m@),
            RequesterError::AuthenticationError => RequesterErrorView::AuthenticationError,
            RequesterError::WsError(m) => RequesterErrorView::WsError(m@),
        }
    }
}

impl RequesterErrorView {
    /// The failure of the connection that a failed call stands for: the one
    /// whose message it carries, if it carries one.
    pub open spec fn connection_kind(self) -> Option<ConnectionError> {
        match self {
            RequesterErrorView::WsError(m) => if m == ConnectionError::DialFailed.message() {
                Some(ConnectionError::DialFailed)
            } else if m == ConnectionError::NotConnected.message() {
                Some(ConnectionError::NotConnected)
            } else if m == ConnectionError::SendFailed.message() {
                Some(ConnectionError::SendFailed)
            } else if m == ConnectionError::ReadFailed.message() {
                Some(ConnectionError::ReadFailed)
            } else {
                None
            },
            _ => None,
        }
    }

    /// The short description of the kind of failure.
    pub open spec fn description(self) -> Seq<char> {
        match self {
            RequesterErrorView::RequestFailed(_) => "Request failed"@,
            RequesterErrorView::AuthenticationError => "Authentication failed"@,
            RequesterErrorView::WsError(_) => "WebSocket connection error"@,
        }
    }
}

impl RequesterError {
    /// The failure of a call that a failure of the connection amounts to.
    pub fn from_connection(e: ConnectionError) -> (r: Self)
        ensures
            r@ == RequesterErrorView::WsError(e.message()),
    {
        RequesterError::WsError(e.describe())
    }

    /// The failure of the connection that this failed call stands for.
    pub fn connection_kind(&self) -> (r: Option<ConnectionError>)
        ensures
            r == self@.connection_kind(),
    {
        match self {
            RequesterError::WsError(m) => {
                if same_text(m.as_str(), "could not connect to websocket url wss://neo.character.ai/ws/") {
                    Some(ConnectionError::DialFailed)
                } else if same_text(m.as_str(), "could not obtain websocket") {
                    Some(ConnectionError::NotConnected)
                } else if same_text(m.as_str(), "websocket.send failed") {
                    Some(ConnectionError::SendFailed)
                } else if same_text(m.as_str(), "WebSocket read error") {
                    Some(ConnectionError::ReadFailed)
                } else {
                    None
                }
            },
            _ => None,
        }
    }

    /// A failure of the connection is found again in the failed call that
    /// it was turned into.
    pub proof fn lemma_connection_kind_round_trip(k: ConnectionError)
        ensures
            RequesterErrorView::WsError(k.message()).connection_kind() == Some(k),
    {
        reveal_strlit("could not connect to websocket url wss://neo.character.ai/ws/");
        reveal_strlit("could not obtain websocket");
        reveal_strlit("websocket.send failed");
        reveal_strlit("WebSocket read error");
        assert("could not connect to websocket url wss://neo.character.ai/ws/"@.len() == 61);
        assert("could not obtain websocket"@.len() == 26);
        assert("websocket.send failed"@.len() == 21);
        assert("WebSocket read error"@.len() == 20);
    }

    /// The short description of the kind of failure.
    pub fn to_string(&self) -> (r: String)
        ensures
            r@ == self@.description(),
    {
        match self {
            RequesterError::RequestFailed(_) => "Request failed".to_owned(),
            RequesterError::AuthenticationError => "Authentication failed".to_owned(),
            RequesterError::WsError(_) => "WebSocket connection error".to_owned(),
        }
    }
}

/// The method of a request.
#[derive(Debug, Clone, Copy, PartialEq, Eq, Structural)]
pub enum HttpMethod {
    Get,
    Post,
    Put,
    Patch,
    Delete,
}

impl HttpMethod {
    /// The method that a name stands for.
    pub open spec fn of_name(name: Seq<char>) -> Option<HttpMethod> {
        if name == "GET"@ {
            Some(HttpMethod::Get)
        } else if name == "POST"@ {
            Some(HttpMethod::Post)
        } else if name == "PUT"@ {
            Some(HttpMethod::Put)
        } else if name == "PATCH"@ {
            Some(HttpMethod::Patch)
        } else if name == "DELETE"@ {
            Some(HttpMethod::Delete)
        } else {
            None
        }
    }

    /// Reads the name of a method.
    pub fn from_name(name: &str) -> (r: Option<Self>)
        ensures
            r == Self::of_name(name@),
    {
        if same_text(name, "GET") {
            Some(HttpMethod::Get)
        } else if same_text(name, "POST") {
            Some(HttpMethod::Post)
        } else if same_text(name, "PUT") {
            Some(HttpMethod::Put)
        } else if same_text(name, "PATCH") {
            Some(HttpMethod::Patch)
        } else if same_text(name, "DELETE") {
            Some(HttpMethod::Delete)
        } else {
            None
        }
    }
}

/// The body of a request: a text, or bytes.
#[derive(Debug, Clone)]
pub enum Body {
    Text(String),
    Bytes(Vec<u8>),
}

/// The content of a [`Body`].
pub enum BodyView {
    Text(Seq<char>),
    Bytes(Seq<u8>),
}

impl View for Body {
    type V = BodyView;

    open spec fn view(&self) -> BodyView {
        match self {
            Body::Text(t) => BodyView::Text(t@),
            Body::Bytes(b) => BodyView::Bytes(b@),
        }
    }
}

/// The content of an optional body.
pub open spec fn body_view(b: Option<Body>) -> Option<BodyView> {
    match b {
        Some(x) => Some(x@),
        None => None,
    }
}

/// What a caller asks for: the name of the method, the headers and the body.
#[derive(Debug, Clone)]
pub struct RequestOptions {
    pub method: String,
    pub headers: StringMap<String>,
    pub body: Option<Body>,
}

impl RequestOptions {
    pub fn new(method: &str, headers: StringMap<String>, body: Option<Body>) -> (r: Self)
        ensures
            r.method@ == method@,
            r.headers == headers,
            r.body == body,
    {
        Self { method: method.to_owned(), headers, body }
    }
}

/// A request that is ready to be sent.
#[derive(Debug, Clone)]
pub struct HttpRequest {
    pub method: HttpMethod,
    pub url: String,
    pub headers: StringMap<String>,
    pub body: Option<Body>,
}

/// What came of sending a request: the status of the answer, or the text of
/// the transport's error.
#[derive(Debug, Clone)]
pub enum Sent {
    Answered { status: u16 },
    Failed { reason: String },
}

/// A message of the transport, by its kind.
#[derive(Debug, Clone)]
pub enum WireMessage {
    Text(String),
    Binary,
    Ping,
    Pong,
    Close,
    Raw,
}

/// What one read of the transport gave.
#[derive(Debug, Clone)]
pub enum TransportRead {
    /// A message.
    Message(WireMessage),
    /// The transport has no more messages.
    End,
    /// The read failed, with this text.
    Failed(String),
}

/// What one read amounts to for the operation that holds the connection.
#[derive(Debug, Clone)]
pub enum Incoming {
    /// A frame.
    Frame(InboundFrame),
    /// A text frame that could not be read.
    Undecodable(DecodeError),
    /// A message that is no text frame. It is skipped: read on.
    Skipped,
    /// The stream has ended: a close frame came, or the transport has no
    /// more messages.
    Closed,
    /// The read failed, or the caller does not hold the connection.
    Failed(RequesterError),
}

/// The content of an [`Incoming`].
pub enum IncomingView {
    Frame(InboundFrameView),
    Undecodable(DecodeError),
    Skipped,
    Closed,
    Failed(RequesterErrorView),
}

impl View for Incoming {
    type V = IncomingView;

    open spec fn view(&self) -> IncomingView {
        match self {
            Incoming::Frame(f) => IncomingView::Frame(f@),
            Incoming::Undecodable(e) => IncomingView::Undecodable(*e),
            Incoming::Skipped => IncomingView::Skipped,
            Incoming::Closed => IncomingView::Closed,
            Incoming::Failed(e) => IncomingView::Failed(e@),
        }
    }
}

/// What a read amounts to while the caller holds the connection.
///
/// A text that holds a JSON document is the frame of that document, and a
/// text that holds none is undecodable; a close frame and the end of the
/// transport end the stream; any other message is skipped; a failed read
/// is a failure with the transport's text after `WebSocket read error: `.
pub open spec fn classify(read: TransportRead) -> IncomingView {
    match read {
        TransportRead::Message(WireMessage::Text(text)) => match json_parse(text@) {
            Some(m) => IncomingView::Frame(InboundFrame::decode(m)),
            None => IncomingView::Undecodable(DecodeError::InvalidJson),
        },
        TransportRead::Message(WireMessage::Close) => IncomingView::Closed,
        TransportRead::Message(_) => IncomingView::Skipped,
        TransportRead::End => IncomingView::Closed,
        TransportRead::Failed(reason) => IncomingView::Failed(
            RequesterErrorView::WsError(
                ConnectionError::ReadFailed.message() + ": "@ + reason@,
            ),
        ),
    }
}

/// The failure of a caller that sends or reads without holding the
/// connection.
pub open spec fn not_holder() -> RequesterErrorView {
    RequesterErrorView::WsError("the connection is held by another operation"@)
}

/// What the dispatcher asks of the caller next.
#[derive(Debug)]
pub enum InvokeStep {
    /// Dial the service, report with `ws_connected`, and ask again.
    Dial { step: ConnectStep },
    /// Another operation holds the connection: wait until it is given back,
    /// and ask again.
    Wait,
    /// Write this text frame; the access is held until it is given back
    /// with `ws_release`.
    Send { access: ScopedAccess, text: String },
}

/// The requester of one client.
#[derive(Debug)]
pub struct Requester {
    connection: Connection,
    gate: SessionGate,
}

impl Requester {
    /// The state of the connection.
    pub closed spec fn connection(&self) -> ConnectionState {
        self.connection.state()
    }

    /// The state of the session gate.
    pub closed spec fn gate(&self) -> GateState {
        self.gate@
    }

    /// A requester that has not dialled and that nobody holds.
    pub fn new() -> (r: Self)
        ensures
            r.connection() == ConnectionState::Disconnected,
            r.gate() == GateState::start(),
    {
        Requester { connection: Connection::new(), gate: SessionGate::new() }
    }

    /// Whether the connection is open.
    pub fn is_connected(&self) -> (r: bool)
        ensures
            r == (self.connection() == ConnectionState::Connected),
    {
        self.connection.is_connected()
    }

    /// Makes a request ready: only the five known methods are accepted.
    pub fn request_resp_async(url: &str, options: RequestOptions) -> (r: Result<
        HttpRequest,
        RequesterError,
    >)
        ensures
            match r {
                Ok(request) => HttpMethod::of_name(options.method@) == Some(request.method)
                    && request.url@ == url@ && request.headers == options.headers && request.body
                    == options.body,
                Err(e) => HttpMethod::of_name(options.method@) is None && e@
                    == RequesterErrorView::RequestFailed(
                    "Invalid method. Please use one of GET, POST, PUT, PATCH, or DELETE."@,
                ),
            },
    {
        let RequestOptions { method, headers, body } = options;
        match HttpMethod::from_name(method.as_str()) {
            Some(m) => Ok(HttpRequest { method: m, url: url.to_owned(), headers, body }),
            None => Err(
                RequesterError::RequestFailed(
                    "Invalid method. Please use one of GET, POST, PUT, PATCH, or DELETE.".to_owned(),
                ),
            ),
        }
    }

    /// Judges what came of sending a request: a transport error is
    /// `RequestFailed` with its text, the status 401 is
    /// `AuthenticationError`, and any other status is handed on.
    pub fn check_response(sent: Sent) -> (r: Result<u16, RequesterError>)
        ensures
            match sent {
                Sent::Failed { reason } => r is Err && r->Err_0@
                    == RequesterErrorView::RequestFailed(reason@),
                Sent::Answered { status } => if status == 401 {
                    r is Err && r->Err_0@ == RequesterErrorView::AuthenticationError
                } else {
                    r == Ok::<u16, RequesterError>(status)
                },
            },
    {
        match sent {
            Sent::Failed { reason } => Err(RequesterError::RequestFailed(reason)),
            Sent::Answered { status } => if status == 401 {
                Err(RequesterError::AuthenticationError)
            } else {
                Ok(status)
            },
        }
    }

    /// Reads the body of an answer as a document. `body` is the text of the
    /// answer, or the text of the error that kept it from being read. A
    /// text that is no document is `RequestFailed`.
    pub fn request_async(body: Result<String, String>) -> (r: Result<
        serde_json::Value,
        RequesterError,
    >)
        ensures
            match body {
                Ok(text) => match r {
                    Ok(doc) => json_parse(text@) == Some(json_model(doc)),
                    Err(e) => json_parse(text@) is None && e@ is RequestFailed,
                },
                Err(reason) => r is Err && r->Err_0@ == RequesterErrorView::RequestFailed(
                    reason@,
                ),
            },
    {
        match body {
            Ok(text) => match parse(text.as_str()) {
                Ok(doc) => Ok(doc),
                Err(reason) => Err(RequesterError::RequestFailed(reason)),
            },
            Err(reason) => Err(RequesterError::RequestFailed(reason)),
        }
    }

    /// Asks for an open connection: see [`Connection::connect`].
    pub fn ws_connect(&mut self, token: &str) -> (r: ConnectStep)
        ensures
            final(self).gate() == old(self).gate(),
            old(self).connection() == ConnectionState::Connected ==> r is Ready && final(self).connection() == ConnectionState::Connected,
            old(self).connection() != ConnectionState::Connected ==> final(self).connection()
                == ConnectionState::Connecting && r is Dial && r->request@
                == crate::connection::dial_request(token@),
    {
        self.connection.connect(token)
    }

    /// Takes the outcome of a dial: see [`Connection::dialed`].
    pub fn ws_connected(&mut self, success: bool) -> (r: Result<(), RequesterError>)
        ensures
            final(self).gate() == old(self).gate(),
            old(self).connection() == ConnectionState::Connecting ==> final(self).connection()
                == (if success {
                ConnectionState::Connected
            } else {
                ConnectionState::Disconnected
            }) && (r is Ok <==> success),
            old(self).connection() != ConnectionState::Connecting ==> final(self).connection()
                == old(self).connection() && (r is Ok <==> old(self).connection()
                == ConnectionState::Connected),
            r is Err ==> r->Err_0@ == RequesterErrorView::WsError(
                ConnectionError::DialFailed.message(),
            ),
    {
        match self.connection.dialed(success) {
            Ok(_) => Ok(()),
            Err(e) => Err(RequesterError::from_connection(e)),
        }
    }

    /// Closes the connection. The answer says whether there is a transport
    /// to tear down.
    pub fn ws_close(&mut self) -> (r: bool)
        ensures
            final(self).gate() == old(self).gate(),
            final(self).connection() == ConnectionState::Closed,
            r == (old(self).connection() == ConnectionState::Connected),
    {
        self.connection.close()
    }

    /// The text frame to write for a document. Only the holder of the
    /// connection may send, and only on an open connection.
    pub fn ws_send(&self, access: &ScopedAccess, message: &serde_json::Value) -> (r: Result<
        String,
        RequesterError,
    >)
        ensures
            match r {
                Ok(text) => self.connection() == ConnectionState::Connected && self.gate().permits(
                    access.ticket(),
                ) && text@ == json_text(json_model(*message)),
                Err(e) => if self.connection() != ConnectionState::Connected {
                    e@ == RequesterErrorView::WsError(ConnectionError::NotConnected.message())
                } else {
                    !self.gate().permits(access.ticket()) && e@ == not_holder()
                },
            },
    {
        if !self.connection.is_connected() {
            Err(RequesterError::from_connection(ConnectionError::NotConnected))
        } else if !self.gate.permits(access) {
            Err(
                RequesterError::WsError(
                    "the connection is held by another operation".to_owned(),
                ),
            )
        } else {
            Ok(value_text(message))
        }
    }

    /// Takes the outcome of a write. A write that failed is a failure, and
    /// leaves the connection `Disconnected`.
    pub fn ws_sent(&mut self, success: bool) -> (r: Result<(), RequesterError>)
        ensures
            final(self).gate() == old(self).gate(),
            success ==> r is Ok && final(self).connection() == old(self).connection(),
            !success ==> r is Err && r->Err_0@ == RequesterErrorView::WsError(
                ConnectionError::SendFailed.message(),
            ) && final(self).connection() == (if old(self).connection()
                == ConnectionState::Connected {
                ConnectionState::Disconnected
            } else {
                old(self).connection()
            }),
    {
        if success {
            Ok(())
        } else {
            self.connection.dropped();
            Err(RequesterError::from_connection(ConnectionError::SendFailed))
        }
    }

    /// Takes what one read of the transport gave. Only the holder of the
    /// connection may read; for the holder the read is classified as
    /// [`classify`] says, and a failed read leaves the connection
    /// `Disconnected`.
    pub fn ws_receive(&mut self, access: &ScopedAccess, read: TransportRead) -> (r: Incoming)
        ensures
            final(self).gate() == old(self).gate(),
            r@ == (if old(self).gate().permits(access.ticket()) {
                classify(read)
            } else {
                IncomingView::Failed(not_holder())
            }),
            final(self).connection() == (if old(self).gate().permits(access.ticket()) && read
                is Failed && old(self).connection() == ConnectionState::Connected {
                ConnectionState::Disconnected
            } else {
                old(self).connection()
            }),
    {
        if !self.gate.permits(access) {
            return Incoming::Failed(
                RequesterError::WsError(
                    "the connection is held by another operation".to_owned(),
                ),
            );
        }
        match read {
            TransportRead::Message(WireMessage::Text(text)) => {
                match InboundFrame::decode_frame(text.as_str()) {
                    Ok(f) => Incoming::Frame(f),
                    Err(e) => Incoming::Undecodable(e),
                }
            },
            TransportRead::Message(WireMessage::Close) => Incoming::Closed,
            TransportRead::Message(_) => Incoming::Skipped,
            TransportRead::End => Incoming::Closed,
            TransportRead::Failed(reason) => {
                self.connection.dropped();
                Incoming::Failed(
                    RequesterError::WsError(
                        ConnectionError::ReadFailed.describe().concat(": ").concat(
                            reason.as_str(),
                        ),
                    ),
                )
            },
        }
    }

    /// Dispatches a command. On a connection that is not open the caller
    /// is told to dial; on a held one, to wait; else the caller is granted
    /// the connection and handed the text frame to write.
    pub fn ws_send_and_receive(&mut self, message: &serde_json::Value, token: &str) -> (r:
        InvokeStep)
        ensures
            match r {
                InvokeStep::Dial { step } => old(self).connection() != ConnectionState::Connected
                    && final(self).connection() == ConnectionState::Connecting && final(self).gate() == old(self).gate() && step is Dial && step->request@
                    == crate::connection::dial_request(token@),
                InvokeStep::Wait => old(self).connection() == ConnectionState::Connected && (
                !old(self).gate().grants() || old(self).gate().issued == u64::MAX) && final(self).gate() == old(self).gate() && final(self).connection() == old(self).connection(),
                InvokeStep::Send { access, text } => old(self).connection()
                    == ConnectionState::Connected && old(self).gate().grants() && final(self).gate() == old(self).gate().step(GateEvent::Acquire) && final(self).gate().permits(access.ticket()) && final(self).connection() == old(self).connection() && text@ == json_text(json_model(*message)),
            },
    {
        if !self.connection.is_connected() {
            let step = self.connection.connect(token);
            return InvokeStep::Dial { step };
        }
        match self.gate.try_acquire() {
            Some(access) => InvokeStep::Send { access, text: value_text(message) },
            None => InvokeStep::Wait,
        }
    }

    /// Dispatches a command envelope: see [`Requester::ws_send_and_receive`].
    pub fn invoke(&mut self, envelope: &CommandEnvelope, token: &str) -> (r: InvokeStep)
        ensures
            match r {
                InvokeStep::Dial { step } => old(self).connection() != ConnectionState::Connected
                    && final(self).connection() == ConnectionState::Connecting && final(self).gate() == old(self).gate() && step is Dial && step->request@
                    == crate::connection::dial_request(token@),
                InvokeStep::Wait => old(self).connection() == ConnectionState::Connected && (
                !old(self).gate().grants() || old(self).gate().issued == u64::MAX) && final(self).gate() == old(self).gate() && final(self).connection() == old(self).connection(),
                InvokeStep::Send { access, text } => old(self).connection()
                    == ConnectionState::Connected && old(self).gate().grants() && final(self).gate() == old(self).gate().step(GateEvent::Acquire) && final(self).gate().permits(access.ticket()) && final(self).connection() == old(self).connection() && text@ == json_text(envelope@.document()),
            },
    {
        let message = envelope.to_json();
        self.ws_send_and_receive(&message, token)
    }

    /// Gives the connection back before the frames of the operation are
    /// drained. What is left unread would be taken for the answer to the
    /// next operation, so the connection of the holder is closed, and the
    /// next operation dials anew. The answer says whether the access was
    /// the one that held the connection; for any other access nothing
    /// changes.
    pub fn ws_abandon(&mut self, access: ScopedAccess) -> (r: bool)
        ensures
            r == old(self).gate().permits(access.ticket()),
            final(self).gate() == old(self).gate().step(GateEvent::Release(access.ticket())),
            final(self).connection() == (if r {
                ConnectionState::Closed
            } else {
                old(self).connection()
            }),
    {
        if self.gate.permits(&access) {
            self.connection.close();
        }
        self.gate.release(access)
    }

    /// Gives the connection back: when the frames of the operation are
    /// drained, when it has failed, and when its caller gives up. The
    /// answer says whether the access was the one that held the connection.
    pub fn ws_release(&mut self, access: ScopedAccess) -> (r: bool)
        ensures
            final(self).connection() == old(self).connection(),
            final(self).gate() == old(self).gate().step(GateEvent::Release(access.ticket())),
            r == old(self).gate().permits(access.ticket()),
    {
        self.gate.release(access)
    }
}

} // verus!
