//! The error type of the library, with the kind of a socket failure kept as a
//! plain value so that decisions on it can be proved.

use vstd::prelude::*;

verus! {

/// What kind of operating-system failure a socket operation reported.
#[derive(Clone, Copy, Debug, PartialEq, Eq, Structural)]
pub enum SocketErrorKind {
    NotFound,
    PermissionDenied,
    ConnectionRefused,
    ConnectionReset,
    AddrInUse,
    AddrNotAvailable,
    BrokenPipe,
    WouldBlock,
    InvalidInput,
    TimedOut,
    UnexpectedEof,
    Unsupported,
    NotConnected,
    Other,
}

/// A failed socket operation: its kind and its human-readable description.
#[derive(Clone, Debug)]
pub struct SocketError {
    pub kind: SocketErrorKind,
    pub message: String,
}

/// Errors reported by the server runtime and its services.
#[derive(Debug)]
pub enum Error {
    InvalidConfig(String),
    UnsupportedPlatformOption(String),
    PermissionDenied(String),
    SocketInitCallback(String),
    Socket(SocketError),
    Runtime(String),
    UnknownListener,
    Handler(String),
}

/// The text that describes an error, as the server reports it.
pub open spec fn spec_describe(e: Error) -> Seq<char> {
    match e {
        Error::InvalidConfig(m) => "invalid config: "@ + m@,
        Error::UnsupportedPlatformOption(m) => "unsupported platform option: "@ + m@,
        Error::PermissionDenied(m) => "permission denied: "@ + m@,
        Error::SocketInitCallback(m) => "socket init callback error: "@ + m@,
        Error::Socket(s) => "socket error: "@ + s.message@,
        Error::Runtime(m) => "runtime error: "@ + m@,
        Error::UnknownListener => "unknown listener"@,
        Error::Handler(m) => "handler error: "@ + m@,
    }
}

/// An `InvalidConfig` error carrying exactly the text `msg`.
pub open spec fn is_invalid_config(e: Error, msg: Seq<char>) -> bool {
    e matches Error::InvalidConfig(m) && m@ == msg
}

/// An `UnsupportedPlatformOption` error carrying exactly the text `msg`.
pub open spec fn is_unsupported_option(e: Error, msg: Seq<char>) -> bool {
    e matches Error::UnsupportedPlatformOption(m) && m@ == msg
}

/// A `Runtime` error carrying exactly the text `msg`.
pub open spec fn is_runtime_error(e: Error, msg: Seq<char>) -> bool {
    e matches Error::Runtime(m) && m@ == msg
}

impl Error {
    /// Classifies a socket failure: a refused permission becomes
    /// `PermissionDenied` with the failure's text, anything else stays a
    /// socket error.
    pub fn socket(error: SocketError) -> (res: Error)
        ensures
            error.kind == SocketErrorKind::PermissionDenied ==> (res matches Error::PermissionDenied(m)
                && m@ == error.message@),
            error.kind != SocketErrorKind::PermissionDenied ==> (res matches Error::Socket(s) && s.kind
                == error.kind && s.message@ == error.message@),
    {
        if error.kind == SocketErrorKind::PermissionDenied {
            Error::PermissionDenied(error.message)
        } else {
            Error::Socket(error)
        }
    }

    /// The error reported when the socket initialisation callback failed
    /// with `error`: it carries the failure's description.
    pub fn socket_init_callback(error: &Error) -> (res: Error)
        ensures
            res matches Error::SocketInitCallback(m) && m@ == spec_describe(*error),
    {
        Error::SocketInitCallback(error.describe())
    }

    /// The text that describes this error.
    pub fn describe(&self) -> (res: String)
        ensures
            res@ == spec_describe(*self),
    {
        match self {
            Error::InvalidConfig(m) => "invalid config: ".to_owned().concat(m.as_str()),
            Error::UnsupportedPlatformOption(m) => "unsupported platform option: ".to_owned().concat(
                m.as_str(),
            ),
            Error::PermissionDenied(m) => "permission denied: ".to_owned().concat(m.as_str()),
            Error::SocketInitCallback(m) => "socket init callback error: ".to_owned().concat(
                m.as_str(),
            ),
            Error::Socket(s) => "socket error: ".to_owned().concat(s.message.as_str()),
            Error::Runtime(m) => "runtime error: ".to_owned().concat(m.as_str()),
            Error::UnknownListener => "unknown listener".to_owned(),
            Error::Handler(m) => "handler error: ".to_owned().concat(m.as_str()),
        }
    }
}

} // verus!
