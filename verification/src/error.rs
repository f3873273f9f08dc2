//! The library's error type and its messages.

use vstd::prelude::*;

verus! {

/// The kind of an I/O error, as `std::io::ErrorKind` classifies it (kinds
/// not listed here are `Other`).
#[derive(Debug, Clone, Copy, PartialEq, Eq, Structural)]
pub enum IoErrorKind {
    NotFound,
    PermissionDenied,
    ConnectionRefused,
    ConnectionReset,
    ConnectionAborted,
    NotConnected,
    AddrInUse,
    AddrNotAvailable,
    BrokenPipe,
    AlreadyExists,
    WouldBlock,
    InvalidInput,
    InvalidData,
    TimedOut,
    WriteZero,
    Interrupted,
    Unsupported,
    UnexpectedEof,
    OutOfMemory,
    Other,
}

/// Everything that can go wrong while bringing the tunnel chain up or down.
///
/// `Io` carries the kind and the text of the underlying I/O error, `Tls`
/// the text of the TLS error.
#[derive(Debug, Clone, PartialEq, Eq)]
pub enum IIIError {
    Io(IoErrorKind, String),
    Tls(String),
    Tor(String),
    I2p(String),
    Vpn(String),
    InvalidSni,
    KillSwitchFailed(String),
    Config(String),
    AlreadyRunning,
}

/// The human-readable message of an error.
pub open spec fn error_message(e: IIIError) -> Seq<char> {
    match e {
        IIIError::Io(_, m) => "IO error: "@ + m@,
        IIIError::Tls(m) => "TLS error: "@ + m@,
        IIIError::Tor(m) => "Tor error: "@ + m@,
        IIIError::I2p(m) => "I2P error: "@ + m@,
        IIIError::Vpn(m) => "VPN error: "@ + m@,
        IIIError::InvalidSni => "Invalid SNI domain"@,
        IIIError::KillSwitchFailed(m) => "Kill switch failed: "@ + m@,
        IIIError::Config(m) => "Configuration error: "@ + m@,
        IIIError::AlreadyRunning => "Process already running"@,
    }
}

impl IIIError {
    /// The message shown for this error.
    pub fn message(&self) -> (r: String)
        ensures
            r@ == error_message(*self),
    {
        match self {
            IIIError::Io(_, m) => String::from_str("IO error: ").concat(m.as_str()),
            IIIError::Tls(m) => String::from_str("TLS error: ").concat(m.as_str()),
            IIIError::Tor(m) => String::from_str("Tor error: ").concat(m.as_str()),
            IIIError::I2p(m) => String::from_str("I2P error: ").concat(m.as_str()),
            IIIError::Vpn(m) => String::from_str("VPN error: ").concat(m.as_str()),
            IIIError::InvalidSni => String::from_str("Invalid SNI domain"),
            IIIError::KillSwitchFailed(m) => String::from_str("Kill switch failed: ").concat(
                m.as_str(),
            ),
            IIIError::Config(m) => String::from_str("Configuration error: ").concat(m.as_str()),
            IIIError::AlreadyRunning => String::from_str("Process already running"),
        }
    }
}

} // verus!
