//! The one connection of a client to the service: its states, and what it
//! asks of the transport. The transport itself is run by the caller, who
//! reports back what became of each request.

use vstd::prelude::*;
use vstd::string::StringExecFns;

verus! {

/// Why the connection could not be used.
#[derive(Debug, Clone, Copy, PartialEq, Eq, Structural)]
pub enum ConnectionError {
    /// The transport could not be dialled or the handshake failed.
    DialFailed,
    /// There is no open transport to write to or read from.
    NotConnected,
    /// The transport refused a write.
    SendFailed,
    /// The transport failed on a read.
    ReadFailed,
}

impl ConnectionError {
    /// What is said of each kind of failure.
    pub open spec fn message(self) -> Seq<char> {
        match self {
            ConnectionError::DialFailed =>
                "could not connect to websocket url wss://neo.character.ai/ws/"@,
            ConnectionError::NotConnected => "could not obtain websocket"@,
            ConnectionError::SendFailed => "websocket.send failed"@,
            ConnectionError::ReadFailed => "WebSocket read error"@,
        }
    }

    /// What is said of this failure.
    pub fn describe(&self) -> (r: String)
        ensures
            r@ == self.message(),
    {
        match self {
            ConnectionError::DialFailed =>
                "could not connect to websocket url wss://neo.character.ai/ws/".to_owned(),
            ConnectionError::NotConnected => "could not obtain websocket".to_owned(),
            ConnectionError::SendFailed => "websocket.send failed".to_owned(),
            ConnectionError::ReadFailed => "WebSocket read error".to_owned(),
        }
    }
}

/// Where the connection stands.
#[derive(Debug, Clone, Copy, PartialEq, Eq, Structural)]
pub enum ConnectionState {
    Disconnected,
    Connecting,
    Connected,
    Closed,
}

/// What to dial: the endpoint and the headers of the opening request.
#[derive(Debug, Clone)]
pub struct DialRequest {
    pub url: String,
    pub user_agent: String,
    pub cookie: String,
}

/// The content of a [`DialRequest`].
pub struct DialRequestView {
    pub url: Seq<char>,
    pub user_agent: Seq<char>,
    pub cookie: Seq<char>,
}

impl View for DialRequest {
    type V = DialRequestView;

    open spec fn view(&self) -> DialRequestView {
        DialRequestView { url: self.url@, user_agent: self.user_agent@, cookie: self.cookie@ }
    }
}

/// The endpoint of the service.
pub open spec fn endpoint() -> Seq<char> {
    "wss://neo.character.ai/ws/"@
}

/// The browser that the client presents itself as.
pub open spec fn user_agent() -> Seq<char> {
    "Mozilla/5.0 (Macintosh; Intel Mac OS X 10_15_7) AppleWebKit/537.36 (KHTML, like Gecko) Chrome/120.0.0.0 Safari/537.36"@
}

/// The cookie that carries a credential.
pub open spec fn cookie_of(credential: Seq<char>) -> Seq<char> {
    "HTTP_AUTHORIZATION=\"Token "@ + credential + "\""@
}

/// The opening request for a credential.
pub open spec fn dial_request(credential: Seq<char>) -> DialRequestView {
    DialRequestView { url: endpoint(), user_agent: user_agent(), cookie: cookie_of(credential) }
}

/// What `connect` asks of the caller.
#[derive(Debug, Clone)]
pub enum ConnectStep {
    /// The connection is open already: nothing to do.
    Ready,
    /// Dial, then report with `dialed`.
    Dial { request: DialRequest },
}

/// The connection of one client.
#[derive(Debug)]
pub struct Connection {
    state: ConnectionState,
}

impl Connection {
    /// The state of the connection.
    pub closed spec fn state(&self) -> ConnectionState {
        self.state
    }

    /// A connection that was never dialled.
    pub fn new() -> (r: Self)
        ensures
            r.state() == ConnectionState::Disconnected,
    {
        Connection { state: ConnectionState::Disconnected }
    }

    /// The state of the connection.
    pub fn current_state(&self) -> (r: ConnectionState)
        ensures
            r == self.state(),
    {
        self.state
    }

    /// Whether the transport is open.
    pub fn is_connected(&self) -> (r: bool)
        ensures
            r == (self.state() == ConnectionState::Connected),
    {
        self.state == ConnectionState::Connected
    }

    /// Asks for an open connection. On an open one this changes nothing; on
    /// any other it turns to `Connecting` and hands out what to dial.
    pub fn connect(&mut self, credential: &str) -> (r: ConnectStep)
        ensures
            old(self).state() == ConnectionState::Connected ==> r is Ready && final(self).state()
                == ConnectionState::Connected,
            old(self).state() != ConnectionState::Connected ==> final(self).state()
                == ConnectionState::Connecting && r is Dial && r->request@ == dial_request(
                credential@,
            ),
    {
        if self.state == ConnectionState::Connected {
            return ConnectStep::Ready;
        }
        self.state = ConnectionState::Connecting;
        let cookie = "HTTP_AUTHORIZATION=\"Token ".to_owned().concat(credential).concat("\"");
        let request = DialRequest {
            url: "wss://neo.character.ai/ws/".to_owned(),
            user_agent: "Mozilla/5.0 (Macintosh; Intel Mac OS X 10_15_7) AppleWebKit/537.36 (KHTML, like Gecko) Chrome/120.0.0.0 Safari/537.36".to_owned(),
            cookie,
        };
        ConnectStep::Dial { request }
    }

    /// Takes the outcome of a dial. A dial that succeeded opens a connection
    /// that was `Connecting`; one that failed leaves it `Disconnected`, with
    /// `DialFailed`. Without a dial under way nothing changes, and the
    /// answer says whether the connection is open.
    pub fn dialed(&mut self, success: bool) -> (r: Result<(), ConnectionError>)
        ensures
            old(self).state() == ConnectionState::Connecting ==> final(self).state() == (if success {
                ConnectionState::Connected
            } else {
                ConnectionState::Disconnected
            }) && (r is Ok <==> success),
            old(self).state() != ConnectionState::Connecting ==> final(self).state() == old(
                self,
            ).state() && (r is Ok <==> old(self).state() == ConnectionState::Connected),
            r is Err ==> r == Err::<(), ConnectionError>(ConnectionError::DialFailed),
    {
        if self.state == ConnectionState::Connecting {
            if success {
                self.state = ConnectionState::Connected;
                Ok(())
            } else {
                self.state = ConnectionState::Disconnected;
                Err(ConnectionError::DialFailed)
            }
        } else if self.state == ConnectionState::Connected {
            Ok(())
        } else {
            Err(ConnectionError::DialFailed)
        }
    }

    /// Records that the transport died under a read or a write. An open
    /// connection is `Disconnected` afterwards, and stays so until the next
    /// `connect`.
    pub fn dropped(&mut self)
        ensures
            final(self).state() == (if old(self).state() == ConnectionState::Connected {
                ConnectionState::Disconnected
            } else {
                old(self).state()
            }),
    {
        if self.state == ConnectionState::Connected {
            self.state = ConnectionState::Disconnected;
        }
    }

    /// Closes the connection. This always succeeds; the answer says whether
    /// there was a transport to tear down.
    pub fn close(&mut self) -> (r: bool)
        ensures
            final(self).state() == ConnectionState::Closed,
            r == (old(self).state() == ConnectionState::Connected),
    {
        let open = self.state == ConnectionState::Connected;
        self.state = ConnectionState::Closed;
        open
    }
}

} // verus!
