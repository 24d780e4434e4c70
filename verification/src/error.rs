//! The errors of the library.
use vstd::prelude::*;

verus! {

/// What went wrong. Failures of outside services (I/O, HTTP, serialization,
/// configuration files) carry their message as text.
#[derive(Debug, PartialEq, Eq)]
pub enum LocalSendError {
    IOError(String),
    SerializationError(String),
    RequestError(String),
    JoinError(String),
    InvalidPin,
    SessionBlocked,
    TooManyRequests,
    NotAFile,
    PeerNotFound,
    UploadFailed,
    InvalidToken,
    SessionInactive,
    SessionNotFound,
    CancelFailed,
    IPv6Unsupported,
    IpAddrError(String),
    NetworkInterfaceError(String),
    NoHomeDir,
    SslGenFail(String),
    ConfigSerializationFail(String),
    ConfigParseError(String),
}

/// A result whose error is a `LocalSendError`.
pub type Result<T> = core::result::Result<T, LocalSendError>;

} // verus!
