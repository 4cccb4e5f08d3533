//! Resolution of the target and proxy URLs into a connection plan:
//! host extraction, port defaulting, scheme gating, and the order in
//! which the faults of a malformed pair of URLs are reported.

use vstd::prelude::*;

use crate::error::{ConnectError, UrlFault};

verus! {

/// A `host:port` pair a TCP connection can be opened to.
#[derive(Clone, Debug, PartialEq, Eq)]
pub struct Endpoint {
    pub host: String,
    pub port: u16,
}

/// Everything the connect pipeline decides before the first socket is
/// opened: where to dial, whether to tunnel, whether to wrap in TLS,
/// and whether to disable Nagle's algorithm.
#[derive(Clone, Debug, PartialEq, Eq)]
pub struct Plan {
    /// The logical destination of the WebSocket session.
    pub target: Endpoint,
    /// True exactly when the target scheme is `wss`.
    pub secure: bool,
    /// The SOCKS5 proxy to tunnel through, if one was supplied.
    pub proxy: Option<Endpoint>,
    /// Whether TCP_NODELAY is to be set on the carrying socket.
    pub disable_nagle: bool,
}

/// The view of an optional URL component as an optional character sequence.
pub open spec fn opt_str_view(s: Option<&str>) -> Option<Seq<char>> {
    match s {
        Some(t) => Some(t@),
        None => None,
    }
}

/// The default port a target scheme supplies: 80 for `ws`, 443 for `wss`,
/// none for anything else.
pub open spec fn ws_default_port(scheme: Option<Seq<char>>) -> Option<u16> {
    match scheme {
        Some(s) => if s == "wss"@ {
            Some(443u16)
        } else if s == "ws"@ {
            Some(80u16)
        } else {
            None
        },
        None => None,
    }
}

/// The port a target URL resolves to: an explicit port always wins;
/// otherwise the scheme's default is taken, if it has one.
pub open spec fn resolved_port(scheme: Option<Seq<char>>, explicit: Option<u16>) -> Option<u16> {
    match explicit {
        Some(p) => Some(p),
        None => ws_default_port(scheme),
    }
}

/// Whether a target URL is secure: exactly when its scheme is `wss`.
pub open spec fn is_secure_scheme(scheme: Option<Seq<char>>) -> bool {
    scheme == Some("wss"@)
}

/// What a target URL resolves to — host, port and the TLS decision — or
/// the fault that stops it: a missing host is reported before a port that
/// cannot be determined.
pub open spec fn target_spec(
    host: Option<Seq<char>>,
    scheme: Option<Seq<char>>,
    explicit: Option<u16>,
) -> Result<(Seq<char>, u16, bool), ConnectError> {
    match host {
        None => Err(ConnectError::Url(UrlFault::NoHostName)),
        Some(h) => match resolved_port(scheme, explicit) {
            Some(p) => Ok((h, p, is_secure_scheme(scheme))),
            None => Err(ConnectError::Url(UrlFault::UnsupportedScheme)),
        },
    }
}

/// Whether a proxy URL's scheme is acceptable: `socks5`, `socks5h`, or
/// no scheme at all (defaulted to `socks5`).
pub open spec fn proxy_scheme_ok(scheme: Option<Seq<char>>) -> bool {
    match scheme {
        None => true,
        Some(s) => s == "socks5"@ || s == "socks5h"@,
    }
}

/// The message carried by the fault for a proxy URL without a port.
pub open spec fn port_required_message(host: Seq<char>) -> Seq<char> {
    host + ": Port required in socks proxy string"@
}

/// String equality by view, for URL components.
fn str_eq(a: &str, b: &str) -> (r: bool)
    ensures
        r == (a@ == b@),
{
    a.to_owned() == b.to_owned()
}

/// Extracts the host of a URL, which every URL must have.
pub fn resolve_host(host: Option<&str>) -> (r: Result<String, ConnectError>)
    ensures
        match r {
            Ok(h) => host matches Some(s) && h@ == s@,
            Err(e) => host is None && e == ConnectError::Url(UrlFault::NoHostName),
        },
{
    match host {
        Some(s) => Ok(s.to_owned()),
        None => Err(ConnectError::Url(UrlFault::NoHostName)),
    }
}

/// Determines the port of a target URL: the explicit port if present, else
/// the scheme's default; a target with neither is refused as an
/// unsupported scheme.
pub fn resolve_port(scheme: Option<&str>, explicit: Option<u16>) -> (r: Result<
    u16,
    ConnectError,
>)
    ensures
        r == match resolved_port(opt_str_view(scheme), explicit) {
            Some(p) => Ok::<u16, ConnectError>(p),
            None => Err::<u16, ConnectError>(ConnectError::Url(UrlFault::UnsupportedScheme)),
        },
{
    match explicit {
        Some(p) => Ok(p),
        None => match scheme {
            Some(s) => if str_eq(s, "wss") {
                Ok(443)
            } else if str_eq(s, "ws") {
                Ok(80)
            } else {
                Err(ConnectError::Url(UrlFault::UnsupportedScheme))
            },
            None => Err(ConnectError::Url(UrlFault::UnsupportedScheme)),
        },
    }
}

/// Resolves a target URL into the endpoint to reach and the TLS decision,
/// exactly as `target_spec` says.
pub fn resolve_target(host: Option<&str>, scheme: Option<&str>, explicit: Option<u16>) -> (r:
    Result<(Endpoint, bool), ConnectError>)
    ensures
        match r {
            Ok(t) => target_spec(opt_str_view(host), opt_str_view(scheme), explicit) == Ok::<
                (Seq<char>, u16, bool),
                ConnectError,
            >((t.0.host@, t.0.port, t.1)),
            Err(e) => target_spec(opt_str_view(host), opt_str_view(scheme), explicit) == Err::<
                (Seq<char>, u16, bool),
                ConnectError,
            >(e),
        },
{
    let h = resolve_host(host)?;
    let p = resolve_port(scheme, explicit)?;
    let secure = match scheme {
        Some(s) => str_eq(s, "wss"),
        None => false,
    };
    Ok((Endpoint { host: h, port: p }, secure))
}

/// Gates the scheme of a proxy URL: `socks5`, `socks5h` and an absent
/// scheme pass; everything else is an unsupported scheme.
pub fn check_proxy_scheme(scheme: Option<&str>) -> (r: Result<(), ConnectError>)
    ensures
        r == if proxy_scheme_ok(opt_str_view(scheme)) {
            Ok::<(), ConnectError>(())
        } else {
            Err::<(), ConnectError>(ConnectError::Url(UrlFault::UnsupportedScheme))
        },
{
    match scheme {
        None => Ok(()),
        Some(s) => if str_eq(s, "socks5") || str_eq(s, "socks5h") {
            Ok(())
        } else {
            Err(ConnectError::Url(UrlFault::UnsupportedScheme))
        },
    }
}

/// Demands the explicit port a proxy URL must carry; without one the
/// connection cannot be planned, and the fault names the proxy host.
pub fn require_proxy_port(host: &str, port: Option<u16>) -> (r: Result<u16, ConnectError>)
    ensures
        match r {
            Ok(p) => port == Some(p),
            Err(e) => port is None && (e matches ConnectError::Url(
                UrlFault::UnableToConnect(m),
            ) && m@ == port_required_message(host@)),
        },
{
    match port {
        Some(p) => Ok(p),
        None => {
            let msg = String::from_str(host).concat(": Port required in socks proxy string");
            Err(ConnectError::Url(UrlFault::UnableToConnect(msg)))
        },
    }
}

/// Plans a direct connection: resolve the target, remember the Nagle
/// decision, tunnel through nothing.
pub fn plan_direct(
    host: Option<&str>,
    scheme: Option<&str>,
    explicit: Option<u16>,
    disable_nagle: bool,
) -> (r: Result<Plan, ConnectError>)
    ensures
        match r {
            Ok(p) => {
                &&& target_spec(opt_str_view(host), opt_str_view(scheme), explicit) == Ok::<
                    (Seq<char>, u16, bool),
                    ConnectError,
                >((p.target.host@, p.target.port, p.secure))
                &&& p.proxy is None
                &&& p.disable_nagle == disable_nagle
            },
            Err(e) => target_spec(opt_str_view(host), opt_str_view(scheme), explicit) == Err::<
                (Seq<char>, u16, bool),
                ConnectError,
            >(e),
        },
{
    let (target, secure) = resolve_target(host, scheme, explicit)?;
    Ok(Plan { target, secure, proxy: None, disable_nagle })
}

/// Plans a connection tunneled through a SOCKS5 proxy. The target is
/// resolved first; only then is the proxy URL validated — host, then
/// scheme, then the mandatory port — and the first fault found is the
/// one reported.
pub fn plan_via_proxy(
    host: Option<&str>,
    scheme: Option<&str>,
    explicit: Option<u16>,
    proxy_host: Option<&str>,
    proxy_scheme: Option<&str>,
    proxy_port: Option<u16>,
    disable_nagle: bool,
) -> (r: Result<Plan, ConnectError>)
    ensures
        match r {
            Ok(p) => {
                &&& proxy_host matches Some(ph) && p.proxy matches Some(pe) && pe.host@ == ph@
                &&& proxy_scheme_ok(opt_str_view(proxy_scheme))
                &&& p.proxy matches Some(pe) && proxy_port == Some(pe.port)
                &&& target_spec(opt_str_view(host), opt_str_view(scheme), explicit) == Ok::<
                    (Seq<char>, u16, bool),
                    ConnectError,
                >((p.target.host@, p.target.port, p.secure))
                &&& p.disable_nagle == disable_nagle
            },
            Err(e) => {
                ||| target_spec(opt_str_view(host), opt_str_view(scheme), explicit) == Err::<
                    (Seq<char>, u16, bool),
                    ConnectError,
                >(e)
                ||| (target_spec(opt_str_view(host), opt_str_view(scheme), explicit) is Ok
                    && proxy_host is None && e == ConnectError::Url(UrlFault::NoHostName))
                ||| (target_spec(opt_str_view(host), opt_str_view(scheme), explicit) is Ok
                    && proxy_host is Some && !proxy_scheme_ok(opt_str_view(proxy_scheme)) && e
                    == ConnectError::Url(UrlFault::UnsupportedScheme))
                ||| ({
                    &&& target_spec(opt_str_view(host), opt_str_view(scheme), explicit) is Ok
                    &&& proxy_host matches Some(ph)
                    &&& proxy_scheme_ok(opt_str_view(proxy_scheme))
                    &&& proxy_port is None
                    &&& e matches ConnectError::Url(UrlFault::UnableToConnect(m))
                    &&& m@ == port_required_message(ph@)
                })
            },
        },
{
    let (target, secure) = resolve_target(host, scheme, explicit)?;
    let ph = resolve_host(proxy_host)?;
    check_proxy_scheme(proxy_scheme)?;
    let pp = require_proxy_port(ph.as_str(), proxy_port)?;
    Ok(Plan { target, secure, proxy: Some(Endpoint { host: ph, port: pp }), disable_nagle })
}

/// Port defaulting: an explicit port always wins, `ws` falls back to 80
/// and `wss` to 443. Both the direct and the proxied plan resolve the
/// target through `target_spec`, so the defaulting is the same whether a
/// proxy is present or not.
pub proof fn port_defaulting(scheme: Option<Seq<char>>, explicit: Option<u16>)
    ensures
        explicit matches Some(p) ==> resolved_port(scheme, explicit) == Some(p),
        explicit is None && scheme == Some("ws"@) ==> resolved_port(scheme, explicit) == Some(
            80u16,
        ),
        explicit is None && scheme == Some("wss"@) ==> resolved_port(scheme, explicit) == Some(
            443u16,
        ),
{
    reveal_strlit("ws");
    reveal_strlit("wss");
    assert("ws"@.len() == 2);
    assert("wss"@.len() == 3);
}

/// Scheme rejection: a target whose scheme is neither `ws` nor `wss` and
/// whose URL names no explicit port cannot be resolved — planning stops
/// with `InvalidUrl(UnsupportedScheme)`, before any socket could be
/// opened. (With an explicit port the scheme is never consulted, so such
/// a target passes resolution.)
pub proof fn bad_scheme_rejected(host: Seq<char>, scheme: Option<Seq<char>>)
    requires
        scheme != Some("ws"@),
        scheme != Some("wss"@),
    ensures
        target_spec(Some(host), scheme, None) == Err::<(Seq<char>, u16, bool), ConnectError>(
            ConnectError::Url(UrlFault::UnsupportedScheme),
        ),
{
}

/// The proxy scheme gate: `socks5`, `socks5h` and an absent scheme all
/// pass; every other value is refused.
pub proof fn proxy_scheme_gate(scheme: Option<Seq<char>>)
    ensures
        proxy_scheme_ok(None),
        proxy_scheme_ok(Some("socks5"@)),
        proxy_scheme_ok(Some("socks5h"@)),
        scheme matches Some(s) && s != "socks5"@ && s != "socks5h"@ ==> !proxy_scheme_ok(scheme),
{
}

/// The fault for a proxy URL without a port names the proxy host: its
/// message begins with exactly the host, followed by the fixed reminder
/// that a port is required.
pub proof fn missing_proxy_port_names_host(host: Seq<char>)
    ensures
        port_required_message(host).len() > host.len(),
        port_required_message(host).subrange(0, host.len() as int) == host,
{
    reveal_strlit(": Port required in socks proxy string");
    assert(port_required_message(host).subrange(0, host.len() as int) =~= host);
}

} // verus!
