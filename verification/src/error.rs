//! The unified error taxonomy of the connector, and the mapping of
//! SOCKS5 negotiation outcomes into it.

use vstd::prelude::*;

verus! {

/// The kinds of operating-system I/O failure the connector distinguishes.
/// Anything it does not recognise is carried as `Other`.
#[derive(Clone, Copy, Debug, PartialEq, Eq, Structural)]
pub enum IoKind {
    ConnectionRefused,
    ConnectionReset,
    ConnectionAborted,
    NotConnected,
    TimedOut,
    Other,
}

/// Faults found in the target or proxy URL.
#[derive(Clone, Debug, PartialEq, Eq)]
pub enum UrlFault {
    /// The URL has no host component.
    NoHostName,
    /// The target scheme is not `ws`/`wss`, or the proxy scheme is not
    /// `socks5`/`socks5h`.
    UnsupportedScheme,
    /// The proxy URL lacks a port; the message names the proxy host.
    UnableToConnect(String),
}

/// TLS handshake failures. A certificate-name mismatch is reported apart
/// from every other handshake failure.
#[derive(Clone, Copy, Debug, PartialEq, Eq, Structural)]
pub enum TlsFault {
    NameMismatch,
    HandshakeFailed,
}

/// Protocol-level failures: the SOCKS5 negotiation and the WebSocket
/// upgrade share this taxonomy.
#[derive(Clone, Copy, Debug, PartialEq, Eq, Structural)]
pub enum ProtocolFault {
    /// The SOCKS5 peer answered with an unexpected version byte.
    WrongVersion,
    /// Catch-all for every other SOCKS5 protocol anomaly.
    JunkAfterRequest,
    /// The WebSocket handshake ended before a full response arrived.
    HandshakeIncomplete,
    /// The `Sec-WebSocket-Accept` header was missing or wrong.
    InvalidAccept,
    /// The server answered with a status other than `101`.
    NonSwitchingStatus(u16),
}

/// The single error type every entry point returns.
#[derive(Clone, Debug, PartialEq, Eq)]
pub enum ConnectError {
    Url(UrlFault),
    Io(IoKind),
    Tls(TlsFault),
    Protocol(ProtocolFault),
}

/// The outcome of a SOCKS5 CONNECT negotiation, as the driver reports it.
#[derive(Clone, Copy, Debug, PartialEq, Eq, Structural)]
pub enum SocksFault {
    /// The negotiation failed on the underlying transport.
    Io(IoKind),
    /// The peer spoke a SOCKS version other than 5.
    WrongVersion,
    /// Any other SOCKS5 protocol error.
    Other,
}

/// The outcome of a failed WebSocket upgrade, as the driver reports it.
#[derive(Clone, Copy, Debug, PartialEq, Eq, Structural)]
pub enum UpgradeFault {
    Io(IoKind),
    Protocol(ProtocolFault),
}

/// How a SOCKS5 negotiation failure enters the unified taxonomy: transport
/// errors stay I/O errors, a bad version byte is `Protocol(WrongVersion)`,
/// and everything else collapses into `Protocol(JunkAfterRequest)`.
pub open spec fn socks_error_spec(f: SocksFault) -> ConnectError {
    match f {
        SocksFault::Io(k) => ConnectError::Io(k),
        SocksFault::WrongVersion => ConnectError::Protocol(ProtocolFault::WrongVersion),
        SocksFault::Other => ConnectError::Protocol(ProtocolFault::JunkAfterRequest),
    }
}

/// How a failed WebSocket upgrade enters the unified taxonomy.
pub open spec fn upgrade_error_spec(f: UpgradeFault) -> ConnectError {
    match f {
        UpgradeFault::Io(k) => ConnectError::Io(k),
        UpgradeFault::Protocol(p) => ConnectError::Protocol(p),
    }
}

/// Maps a SOCKS5 negotiation failure into the unified error.
pub fn map_socks_fault(f: SocksFault) -> (r: ConnectError)
    ensures
        r == socks_error_spec(f),
{
    match f {
        SocksFault::Io(k) => ConnectError::Io(k),
        SocksFault::WrongVersion => ConnectError::Protocol(ProtocolFault::WrongVersion),
        SocksFault::Other => ConnectError::Protocol(ProtocolFault::JunkAfterRequest),
    }
}

/// Maps a failed WebSocket upgrade into the unified error.
pub fn map_upgrade_fault(f: UpgradeFault) -> (r: ConnectError)
    ensures
        r == upgrade_error_spec(f),
{
    match f {
        UpgradeFault::Io(k) => ConnectError::Io(k),
        UpgradeFault::Protocol(p) => ConnectError::Protocol(p),
    }
}

} // verus!
