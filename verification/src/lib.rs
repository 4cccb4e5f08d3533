//! A verified core for a WebSocket client connection establisher.
//!
//! Given a target URL (and optionally a SOCKS5 proxy URL), the library
//! resolves the destination, decides every step of the connect pipeline —
//! TCP dial, optional SOCKS5 CONNECT, optional TLS wrap, RFC 6455 upgrade —
//! and maps every failure into one unified error taxonomy. The network I/O
//! itself is performed by an unverified driver that executes the actions
//! this library emits and reports each outcome back as an event.

pub mod error;
pub mod machine;
pub mod resolve;
