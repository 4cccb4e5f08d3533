//! The connect pipeline as a state machine. The machine owns every
//! decision: which endpoint to dial, whether and when to negotiate
//! SOCKS5, when TCP_NODELAY may be set, whether to wrap in TLS, and how
//! each failure enters the unified taxonomy. A driver executes the
//! emitted [`Action`]s, reports each outcome as an [`Event`], and on
//! `Action::Abort` drops every socket before returning the recorded
//! fault — which is what the machine's `socket_open` field models.

use vstd::prelude::*;

use crate::error::{
    ConnectError, ProtocolFault, SocksFault, TlsFault, UpgradeFault, socks_error_spec,
    upgrade_error_spec,
};
use crate::resolve::{Endpoint, Plan};

verus! {

/// Where the pipeline stands. The phases follow the connect sequence
/// linearly; `Failed` is the single exit every fault leads to.
#[derive(Clone, Copy, Debug, PartialEq, Eq, Structural)]
pub enum Phase {
    /// Planned, nothing performed yet.
    Ready,
    /// A TCP dial is in flight.
    Dialing,
    /// The SOCKS5 CONNECT is in flight on the open socket.
    Negotiating,
    /// TCP_NODELAY is being applied to the carrying socket.
    SettingNodelay,
    /// The TLS wrap (or the plain pass-through) is in flight.
    Securing,
    /// The RFC 6455 client handshake is in flight.
    Upgrading,
    /// The session is established.
    Done,
    /// The pipeline stopped; the fault is recorded and no socket is held.
    Failed,
}

/// What the driver reports back after performing an action.
#[derive(Clone, Copy, Debug, PartialEq, Eq, Structural)]
pub enum Event {
    /// Begin the pipeline; answers no action.
    Launch,
    /// The TCP dial succeeded.
    DialOk,
    /// The TCP dial failed.
    DialFailed(crate::error::IoKind),
    /// The SOCKS5 CONNECT succeeded; the socket now pipes to the target.
    NegotiateOk,
    /// The SOCKS5 CONNECT failed.
    NegotiateFailed(SocksFault),
    /// TCP_NODELAY was set.
    NodelayOk,
    /// Setting TCP_NODELAY failed.
    NodelayFailed(crate::error::IoKind),
    /// The stream is ready: TLS handshake done, or passed through plain.
    SecureOk,
    /// The TLS handshake failed.
    SecureFailed(TlsFault),
    /// The upgrade got an HTTP response with this status.
    UpgradeOk(u16),
    /// The upgrade failed before a usable response arrived.
    UpgradeFailed(UpgradeFault),
}

/// What the driver is to do next.
#[derive(Clone, Copy, Debug, PartialEq, Eq, Structural)]
pub enum Action {
    /// Open a TCP connection to [`Connection::dial_endpoint`].
    Dial,
    /// Perform the SOCKS5 CONNECT through the open socket, with the
    /// plan's target as the destination.
    Negotiate,
    /// Set TCP_NODELAY on the open socket.
    SetNodelay,
    /// If the plan is secure, perform a TLS handshake with the target
    /// host as the SNI/verification name; else pass the stream through.
    Secure,
    /// Perform the RFC 6455 client handshake on the prepared stream.
    Upgrade,
    /// The session is established; hand it to the caller.
    Finish,
    /// Drop every socket of this attempt and return the recorded fault.
    Abort,
}

/// One connection attempt: the plan and the progress through it.
#[derive(Clone, Debug, PartialEq, Eq)]
pub struct Connection {
    /// The resolved plan the attempt follows.
    pub plan: Plan,
    /// Where the pipeline stands.
    pub phase: Phase,
    /// Whether the driver holds an open socket for this attempt.
    pub socket_open: bool,
    /// Whether the SOCKS5 CONNECT has completed on that socket.
    pub negotiated: bool,
    /// Whether TCP_NODELAY has been set on that socket.
    pub nodelay_on: bool,
    /// The HTTP status of the upgrade response, once one arrived.
    pub status: Option<u16>,
    /// The fault that stopped the pipeline, once one did.
    pub fault: Option<ConnectError>,
}

/// The state a fresh attempt starts in.
pub open spec fn init_spec(plan: Plan) -> Connection {
    Connection {
        plan,
        phase: Phase::Ready,
        socket_open: false,
        negotiated: false,
        nodelay_on: false,
        status: None,
        fault: None,
    }
}

/// The single exit: the pipeline stops, the fault is recorded, and the
/// driver is told to drop the socket — so none stays open.
pub open spec fn fail_spec(pre: Connection, e: ConnectError) -> Connection {
    Connection { phase: Phase::Failed, socket_open: false, fault: Some(e), ..pre }
}

/// The endpoint the TCP dial goes to: the proxy when one is planned,
/// else the target itself.
pub open spec fn dial_endpoint_spec(plan: Plan) -> Endpoint {
    match plan.proxy {
        Some(pe) => pe,
        None => plan.target,
    }
}

/// After a socket is open (and, on the proxy path, negotiated), either
/// Nagle is to be disabled first, or the stream is secured right away.
pub open spec fn after_socket_ready(pre: Connection) -> (Connection, Action) {
    if pre.plan.disable_nagle && !pre.nodelay_on {
        (Connection { phase: Phase::SettingNodelay, ..pre }, Action::SetNodelay)
    } else {
        (Connection { phase: Phase::Securing, ..pre }, Action::Secure)
    }
}

/// The whole transition relation: what each event does to the state and
/// which action it elicits.
pub open spec fn step_spec(pre: Connection, ev: Event) -> (Connection, Action) {
    match ev {
        Event::Launch => (Connection { phase: Phase::Dialing, ..pre }, Action::Dial),
        Event::DialOk => {
            let opened = Connection { socket_open: true, ..pre };
            if pre.plan.proxy is Some {
                (Connection { phase: Phase::Negotiating, ..opened }, Action::Negotiate)
            } else {
                after_socket_ready(opened)
            }
        },
        Event::DialFailed(k) => (fail_spec(pre, ConnectError::Io(k)), Action::Abort),
        Event::NegotiateOk => after_socket_ready(Connection { negotiated: true, ..pre }),
        Event::NegotiateFailed(f) => (fail_spec(pre, socks_error_spec(f)), Action::Abort),
        Event::NodelayOk => (
            Connection { nodelay_on: true, phase: Phase::Securing, ..pre },
            Action::Secure,
        ),
        Event::NodelayFailed(k) => (fail_spec(pre, ConnectError::Io(k)), Action::Abort),
        Event::SecureOk => (Connection { phase: Phase::Upgrading, ..pre }, Action::Upgrade),
        Event::SecureFailed(t) => (fail_spec(pre, ConnectError::Tls(t)), Action::Abort),
        Event::UpgradeOk(status) => {
            let answered = Connection { status: Some(status), ..pre };
            if status == 101 {
                (Connection { phase: Phase::Done, ..answered }, Action::Finish)
            } else {
                (
                    fail_spec(
                        answered,
                        ConnectError::Protocol(ProtocolFault::NonSwitchingStatus(status)),
                    ),
                    Action::Abort,
                )
            }
        },
        Event::UpgradeFailed(f) => (fail_spec(pre, upgrade_error_spec(f)), Action::Abort),
    }
}

/// Which events answer the pending action of each phase.
pub open spec fn expects(pre: Connection, ev: Event) -> bool {
    match ev {
        Event::Launch => pre.phase is Ready,
        Event::DialOk | Event::DialFailed(_) => pre.phase is Dialing,
        Event::NegotiateOk | Event::NegotiateFailed(_) => pre.phase is Negotiating,
        Event::NodelayOk | Event::NodelayFailed(_) => pre.phase is SettingNodelay,
        Event::SecureOk | Event::SecureFailed(_) => pre.phase is Securing,
        Event::UpgradeOk(_) | Event::UpgradeFailed(_) => pre.phase is Upgrading,
    }
}

impl Connection {
    /// What every reachable state satisfies: the socket accounting, the
    /// ordering of negotiation and Nagle against the pipeline, and the
    /// meaning of the two terminal phases.
    pub open spec fn inv(self) -> bool {
        &&& (self.nodelay_on ==> self.plan.disable_nagle)
        &&& (self.negotiated ==> self.plan.proxy is Some)
        &&& (self.nodelay_on ==> (self.plan.proxy is Some ==> self.negotiated))
        &&& match self.phase {
            Phase::Ready | Phase::Dialing => {
                &&& !self.socket_open
                &&& !self.negotiated
                &&& !self.nodelay_on
                &&& self.status is None
                &&& self.fault is None
            },
            Phase::Negotiating => {
                &&& self.socket_open
                &&& self.plan.proxy is Some
                &&& !self.negotiated
                &&& !self.nodelay_on
                &&& self.status is None
                &&& self.fault is None
            },
            Phase::SettingNodelay => {
                &&& self.socket_open
                &&& self.plan.disable_nagle
                &&& !self.nodelay_on
                &&& (self.plan.proxy is Some ==> self.negotiated)
                &&& self.status is None
                &&& self.fault is None
            },
            Phase::Securing | Phase::Upgrading => {
                &&& self.socket_open
                &&& (self.plan.proxy is Some ==> self.negotiated)
                &&& (self.plan.disable_nagle ==> self.nodelay_on)
                &&& (self.phase is Securing ==> self.status is None)
                &&& self.fault is None
            },
            Phase::Done => {
                &&& self.socket_open
                &&& self.status == Some(101u16)
                &&& (self.plan.proxy is Some ==> self.negotiated)
                &&& (self.plan.disable_nagle ==> self.nodelay_on)
                &&& self.fault is None
            },
            Phase::Failed => !self.socket_open && self.fault is Some,
        }
    }

    /// Starts a fresh attempt for a plan; nothing is performed yet.
    pub fn new(plan: Plan) -> (c: Connection)
        ensures
            c == init_spec(plan),
            c.inv(),
    {
        Connection {
            plan,
            phase: Phase::Ready,
            socket_open: false,
            negotiated: false,
            nodelay_on: false,
            status: None,
            fault: None,
        }
    }

    /// The endpoint `Action::Dial` goes to: the proxy when one is
    /// planned, else the target itself.
    pub fn dial_endpoint(&self) -> (r: &Endpoint)
        ensures
            *r == dial_endpoint_spec(self.plan),
    {
        match &self.plan.proxy {
            Some(pe) => pe,
            None => &self.plan.target,
        }
    }

    /// Feeds one event and yields the next action, exactly as
    /// `step_spec` says; every reachable state keeps the invariant.
    pub fn step(&mut self, ev: Event) -> (r: Action)
        requires
            old(self).inv(),
            expects(*old(self), ev),
        ensures
            (*final(self), r) == step_spec(*old(self), ev),
            final(self).inv(),
    {
        match ev {
            Event::Launch => {
                self.phase = Phase::Dialing;
                Action::Dial
            },
            Event::DialOk => {
                self.socket_open = true;
                if self.plan.proxy.is_some() {
                    self.phase = Phase::Negotiating;
                    Action::Negotiate
                } else if self.plan.disable_nagle {
                    self.phase = Phase::SettingNodelay;
                    Action::SetNodelay
                } else {
                    self.phase = Phase::Securing;
                    Action::Secure
                }
            },
            Event::DialFailed(k) => self.stop(ConnectError::Io(k)),
            Event::NegotiateOk => {
                self.negotiated = true;
                if self.plan.disable_nagle {
                    self.phase = Phase::SettingNodelay;
                    Action::SetNodelay
                } else {
                    self.phase = Phase::Securing;
                    Action::Secure
                }
            },
            Event::NegotiateFailed(f) => {
                let e = crate::error::map_socks_fault(f);
                self.stop(e)
            },
            Event::NodelayOk => {
                self.nodelay_on = true;
                self.phase = Phase::Securing;
                Action::Secure
            },
            Event::NodelayFailed(k) => self.stop(ConnectError::Io(k)),
            Event::SecureOk => {
                self.phase = Phase::Upgrading;
                Action::Upgrade
            },
            Event::SecureFailed(t) => self.stop(ConnectError::Tls(t)),
            Event::UpgradeOk(status) => {
                self.status = Some(status);
                if status == 101 {
                    self.phase = Phase::Done;
                    Action::Finish
                } else {
                    self.stop(ConnectError::Protocol(ProtocolFault::NonSwitchingStatus(status)))
                }
            },
            Event::UpgradeFailed(f) => {
                let e = crate::error::map_upgrade_fault(f);
                self.stop(e)
            },
        }
    }

    /// An established session rests on an open socket and a `101
    /// Switching Protocols` answer: no other upgrade outcome reaches
    /// `Done`, whatever the plan was.
    pub proof fn established_means_open_and_switched(self)
        requires
            self.inv(),
            self.phase is Done,
        ensures
            self.socket_open,
            self.status == Some(101u16),
    {
    }

    /// A failed attempt holds nothing: whichever step stopped the
    /// pipeline, the socket accounting is back to zero and a fault is
    /// recorded for the caller.
    pub proof fn failed_means_closed(self)
        requires
            self.inv(),
            self.phase is Failed,
        ensures
            !self.socket_open,
            self.fault is Some,
    {
    }

    /// Exactly one kind of transport underlies an established session:
    /// it went through the SOCKS5 CONNECT precisely when the plan named
    /// a proxy, and is a direct connection precisely when it did not.
    pub proof fn done_tunnel_matches_plan(self)
        requires
            self.inv(),
            self.phase is Done,
        ensures
            self.negotiated <==> self.plan.proxy is Some,
    {
    }

    /// When a plan asked for it, a session is established only with
    /// TCP_NODELAY applied.
    pub proof fn done_respects_nagle(self)
        requires
            self.inv(),
            self.phase is Done,
            self.plan.disable_nagle,
        ensures
            self.nodelay_on,
    {
    }

    /// Records the fault, releases the socket accounting, and tells the
    /// driver to abort.
    fn stop(&mut self, e: ConnectError) -> (r: Action)
        ensures
            *final(self) == fail_spec(*old(self), e),
            r == Action::Abort,
    {
        self.phase = Phase::Failed;
        self.socket_open = false;
        self.fault = Some(e);
        Action::Abort
    }
}

/// TCP_NODELAY lands on the socket that will carry the WebSocket bytes:
/// the machine emits `SetNodelay` only when the plan asked for it, only
/// while a socket is open, and — on the proxy path — only after the
/// SOCKS5 CONNECT has finished on that very socket, so the flag reaches
/// the proxy-side stream that pipes to the target.
pub proof fn nodelay_set_on_carrying_socket(pre: Connection, ev: Event)
    requires
        pre.inv(),
        expects(pre, ev),
        step_spec(pre, ev).1 is SetNodelay,
    ensures
        pre.plan.disable_nagle,
        step_spec(pre, ev).0.socket_open,
        pre.plan.proxy is Some ==> step_spec(pre, ev).0.negotiated,
{
}

/// A fresh attempt holds no socket: everything the machine ever opens
/// comes after its plan was accepted.
pub proof fn starts_with_nothing(plan: Plan)
    ensures
        !init_spec(plan).socket_open,
        init_spec(plan).phase is Ready,
{
}

} // verus!
