use vstd::prelude::*;
use vstd::string::*;

verus! {

broadcast use vstd::string::to_string_from_display_ensures_for_str;

/// A transport-level failure, carried as the standard library reports it.
#[verifier::external_type_specification]
#[verifier::external_body]
pub struct ExIoError(std::io::Error);

/// A failure of the protocol engine, carried as tungstenite reports it.
#[verifier::external_type_specification]
#[verifier::external_body]
pub struct ExEngineError(tungstenite::Error);

/// Every failure that the client reports to its caller.
#[derive(Debug)]
pub enum S9WebSocketError {
    /// The connection target could not be parsed as a URI.
    InvalidUri(String),
    /// The connection was closed; the text is the reason, where one was given.
    ConnectionClosed(Option<String>),
    /// The connection was already handed to the worker thread of an earlier run.
    SocketUnavailable,
    /// A configuration value was refused when the options were built.
    InvalidConfiguration(String),
    /// The transport failed.
    Io(std::io::Error),
    /// The protocol engine failed in a way that none of the other variants names.
    Tungstenite(tungstenite::Error),
}

/// The result of every fallible operation of the client.
pub type S9Result<T> = Result<T, S9WebSocketError>;

/// A failure of the protocol engine, split into the kinds that the client
/// reports apart.
pub enum EngineFailure {
    /// The engine reports that the connection has ended; the text is its
    /// description of that.
    ConnectionClosed(String),
    /// The transport failed.
    Io(std::io::Error),
    /// The engine refused the URL; the text describes why.
    Url(String),
    /// Any other failure.
    Other(tungstenite::Error),
}

/// How a failure of the protocol engine splits into the kinds that the
/// client reports apart.
pub uninterp spec fn engine_split_of(e: tungstenite::Error) -> EngineFailure;

/// Relies on the variants of `tungstenite::Error`: `ConnectionClosed`, `Io`
/// and `Url` are told apart from the rest, the closed connection and the URL
/// error by their text. The split depends on the error value alone.
#[verifier::external_body]
fn split_engine_error(err: tungstenite::Error) -> (r: EngineFailure)
    ensures
        r == engine_split_of(err),
{
    match err {
        e @ tungstenite::Error::ConnectionClosed => EngineFailure::ConnectionClosed(e.to_string()),
        tungstenite::Error::Io(e) => EngineFailure::Io(e),
        tungstenite::Error::Url(u) => EngineFailure::Url(u.to_string()),
        other => EngineFailure::Other(other),
    }
}

/// Relies on `Display` for `std::io::Error`: its description.
#[verifier::external_body]
fn io_error_text(err: &std::io::Error) -> (r: String) {
    err.to_string()
}

/// Relies on `Display` for `tungstenite::Error`: its description.
#[verifier::external_body]
fn engine_error_text(err: &tungstenite::Error) -> (r: String) {
    err.to_string()
}

/// The error that a failure of the protocol engine is reported as: an ended
/// connection as a closure with the engine's text, a transport failure as
/// `Io`, a refused URL as `InvalidUri`, and the rest as it is.
pub open spec fn engine_failure_spec(f: EngineFailure) -> S9WebSocketError {
    match f {
        EngineFailure::ConnectionClosed(t) => S9WebSocketError::ConnectionClosed(Some(t)),
        EngineFailure::Io(e) => S9WebSocketError::Io(e),
        EngineFailure::Url(t) => S9WebSocketError::InvalidUri(t),
        EngineFailure::Other(e) => S9WebSocketError::Tungstenite(e),
    }
}

/// The error that a failure of the protocol engine is reported as; see
/// `engine_failure_spec`.
pub fn engine_failure_error(f: EngineFailure) -> (r: S9WebSocketError)
    ensures
        r == engine_failure_spec(f),
{
    match f {
        EngineFailure::ConnectionClosed(t) => S9WebSocketError::ConnectionClosed(Some(t)),
        EngineFailure::Io(e) => S9WebSocketError::Io(e),
        EngineFailure::Url(t) => S9WebSocketError::InvalidUri(t),
        EngineFailure::Other(e) => S9WebSocketError::Tungstenite(e),
    }
}

/// The text of an error: a fixed description, followed by what the error
/// carries; for a transport or engine failure, by `cause`, the description of
/// the failure it wraps.
pub open spec fn error_text(e: S9WebSocketError, cause: Seq<char>) -> Seq<char> {
    match e {
        S9WebSocketError::InvalidUri(u) => "Invalid URI: "@ + u@,
        S9WebSocketError::ConnectionClosed(Some(reason)) => "Connection closed: "@ + reason@,
        S9WebSocketError::ConnectionClosed(None) => "Connection closed without reason"@,
        S9WebSocketError::SocketUnavailable => "Socket already moved to thread"@,
        S9WebSocketError::InvalidConfiguration(m) => "Invalid configuration: "@ + m@,
        S9WebSocketError::Io(_) => "IO error: "@ + cause,
        S9WebSocketError::Tungstenite(_) => "WebSocket error: "@ + cause,
    }
}

/// Whether the error wraps a failure of the transport or of the engine, whose
/// description its text takes.
pub open spec fn wraps_failure(e: S9WebSocketError) -> bool {
    e is Io || e is Tungstenite
}

fn prefixed(prefix: &str, text: &str) -> (r: String)
    ensures
        r@ == prefix@ + text@,
{
    let mut r = prefix.to_string();
    r.append(text);
    r
}

impl S9WebSocketError {
    /// The error that a failure of the protocol engine is reported as: the
    /// split of the failure, mapped as `engine_failure_spec` says.
    pub fn from_engine_error(err: tungstenite::Error) -> (r: S9WebSocketError)
        ensures
            r == engine_failure_spec(engine_split_of(err)),
    {
        engine_failure_error(split_engine_error(err))
    }

    /// The text of the error, where `cause` describes the failure that a
    /// transport or engine error wraps; other errors do not use it.
    pub fn message_with_cause(&self, cause: &str) -> (r: String)
        ensures
            r@ == error_text(*self, cause@),
    {
        match self {
            S9WebSocketError::InvalidUri(u) => prefixed("Invalid URI: ", u.as_str()),
            S9WebSocketError::ConnectionClosed(Some(reason)) => prefixed("Connection closed: ", reason.as_str()),
            S9WebSocketError::ConnectionClosed(None) => "Connection closed without reason".to_string(),
            S9WebSocketError::SocketUnavailable => "Socket already moved to thread".to_string(),
            S9WebSocketError::InvalidConfiguration(m) => prefixed("Invalid configuration: ", m.as_str()),
            S9WebSocketError::Io(_) => prefixed("IO error: ", cause),
            S9WebSocketError::Tungstenite(_) => prefixed("WebSocket error: ", cause),
        }
    }

    /// A description of the error, for people to read: its text, with the
    /// description of the wrapped failure as the cause.
    pub fn message(&self) -> (r: String)
        ensures
            !wraps_failure(*self) ==> r@ == error_text(*self, Seq::empty()),
            wraps_failure(*self) ==> exists|cause: Seq<char>| r@ == error_text(*self, cause),
    {
        match self {
            S9WebSocketError::Io(e) => {
                let cause = io_error_text(e);
                self.message_with_cause(cause.as_str())
            },
            S9WebSocketError::Tungstenite(e) => {
                let cause = engine_error_text(e);
                self.message_with_cause(cause.as_str())
            },
            _ => self.message_with_cause(""),
        }
    }
}

impl From<tungstenite::Error> for S9WebSocketError {
    fn from(err: tungstenite::Error) -> (r: S9WebSocketError)
        ensures
            r == engine_failure_spec(engine_split_of(err)),
    {
        S9WebSocketError::from_engine_error(err)
    }
}

impl vstd::std_specs::convert::FromSpecImpl<tungstenite::Error> for S9WebSocketError {
    open spec fn obeys_from_spec() -> bool {
        true
    }

    open spec fn from_spec(err: tungstenite::Error) -> S9WebSocketError {
        engine_failure_spec(engine_split_of(err))
    }
}

impl From<std::io::Error> for S9WebSocketError {
    fn from(err: std::io::Error) -> (r: S9WebSocketError)
        ensures
            r == S9WebSocketError::Io(err),
    {
        S9WebSocketError::Io(err)
    }
}

impl vstd::std_specs::convert::FromSpecImpl<std::io::Error> for S9WebSocketError {
    open spec fn obeys_from_spec() -> bool {
        true
    }

    open spec fn from_spec(err: std::io::Error) -> S9WebSocketError {
        S9WebSocketError::Io(err)
    }
}

} // verus!
