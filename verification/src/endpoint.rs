//! The decision logic of a one-shot mutual-TLS endpoint. An endpoint plays
//! one of two roles over one connection: the server binds, accepts a single
//! connection, handshakes requiring client authentication, reads one line
//! and stops; the client connects, handshakes presenting its own
//! certificate, writes its whole message, makes one bounded acknowledgment
//! read and stops. Both roles trust exactly the one CA certificate of their
//! chain. The transport itself lives outside this crate; what is here is the
//! endpoint's state machine, the mapping of each failure to its error kind,
//! and the extraction of the first line from received bytes.

use vstd::prelude::*;

use crate::chain::NL;
use crate::errors::TlsError;

verus! {

/// How many bytes the client reads, at most, for the optional
/// acknowledgment after its message; the read's outcome is discarded.
pub const ACK_READ_LEN: usize = 1024;

/// Which side of the one-shot exchange an endpoint plays.
#[derive(Clone, Copy, PartialEq, Eq, Structural, Debug)]
pub enum Role {
    /// Connects, handshakes, writes one message, reads one acknowledgment.
    Client,
    /// Binds, accepts one connection, handshakes, reads one line.
    Server,
}

/// The phases of one endpoint invocation, in order. `Closed` and `Failed`
/// are terminal: no reconnection and no handshake retry ever happens.
#[derive(Clone, Copy, PartialEq, Eq, Structural, Debug)]
pub enum Phase {
    /// Nothing has happened yet.
    Idle,
    /// The client is opening its connection.
    Connecting,
    /// The server is binding and awaiting its one connection.
    Listening,
    /// The TLS handshake is in flight; it may suspend for an unbounded time
    /// while the remote provider signs.
    Handshaking,
    /// The handshake completed; the one message exchange is in flight.
    Established,
    /// The exchange finished and all resources were released.
    Closed,
    /// Some step failed; all resources were released.
    Failed,
}

/// What the transport reports back after each phase's work.
#[derive(Clone, Copy, PartialEq, Eq, Structural, Debug)]
pub enum Event {
    /// The connection was opened (client) or accepted (server).
    TransportReady,
    /// The connection could not be opened, bound or accepted.
    TransportFailed,
    /// The TLS handshake completed with the peer authenticated.
    HandshakeDone,
    /// The TLS handshake was rejected or the connection was lost during it.
    HandshakeRejected,
    /// The one message exchange completed.
    ExchangeDone,
    /// The connection was lost during the message exchange.
    ExchangeFailed,
}

/// A phase from which no further step is taken.
pub open spec fn is_terminal(p: Phase) -> bool {
    p == Phase::Closed || p == Phase::Failed
}

/// The successor of `phase` on `event`, for an endpoint in role `role`: the
/// whole one-shot protocol, with every failure leading to `Failed` and the
/// completed exchange to `Closed`. Terminal phases do not move, and an event
/// that does not belong to the current phase fails the endpoint rather than
/// advancing it.
pub open spec fn spec_step(role: Role, phase: Phase, event: Event) -> Phase {
    if is_terminal(phase) {
        phase
    } else {
        match (phase, event) {
            (Phase::Idle, Event::TransportReady) => Phase::Handshaking,
            (Phase::Idle, Event::TransportFailed) => Phase::Failed,
            (Phase::Connecting, Event::TransportReady) => Phase::Handshaking,
            (Phase::Connecting, Event::TransportFailed) => Phase::Failed,
            (Phase::Listening, Event::TransportReady) => Phase::Handshaking,
            (Phase::Listening, Event::TransportFailed) => Phase::Failed,
            (Phase::Handshaking, Event::HandshakeDone) => Phase::Established,
            (Phase::Handshaking, Event::HandshakeRejected) => Phase::Failed,
            (Phase::Established, Event::ExchangeDone) => Phase::Closed,
            (Phase::Established, Event::ExchangeFailed) => Phase::Failed,
            _ => Phase::Failed,
        }
    }
}

/// Where an `Idle` endpoint goes when its transport work begins.
pub open spec fn spec_start_phase(role: Role) -> Phase {
    match role {
        Role::Client => Phase::Connecting,
        Role::Server => Phase::Listening,
    }
}

/// One endpoint invocation: its role and current phase. The transport layer
/// drives it by reporting events; the machine only ever moves forward, and
/// once `Closed` or `Failed` it never moves again.
pub struct EndpointStateMachine {
    role: Role,
    phase: Phase,
}

impl EndpointStateMachine {
    /// Which side this endpoint plays.
    pub closed spec fn spec_role(self) -> Role {
        self.role
    }

    /// The phase the endpoint is in.
    pub closed spec fn spec_phase(self) -> Phase {
        self.phase
    }

    /// A fresh, idle endpoint for the given role.
    pub fn new(role: Role) -> (r: EndpointStateMachine)
        ensures
            r.spec_role() == role,
            r.spec_phase() == Phase::Idle,
    {
        EndpointStateMachine { role, phase: Phase::Idle }
    }

    /// The current phase.
    pub fn phase(&self) -> (r: Phase)
        ensures
            r == self.spec_phase(),
    {
        self.phase
    }

    /// Begin the transport work: an idle client starts connecting, an idle
    /// server starts listening. Anywhere else this is a protocol misuse and
    /// the endpoint fails.
    pub fn start(&mut self) -> (r: Phase)
        ensures
            final(self).spec_role() == old(self).spec_role(),
            old(self).spec_phase() == Phase::Idle ==> final(self).spec_phase() == spec_start_phase(
                old(self).spec_role(),
            ),
            old(self).spec_phase() != Phase::Idle ==> final(self).spec_phase() == spec_step(
                old(self).spec_role(),
                old(self).spec_phase(),
                Event::TransportFailed,
            ),
            r == final(self).spec_phase(),
    {
        if matches!(self.phase, Phase::Idle) {
            self.phase = match self.role {
                Role::Client => Phase::Connecting,
                Role::Server => Phase::Listening,
            };
        } else if !matches!(self.phase, Phase::Closed | Phase::Failed) {
            self.phase = Phase::Failed;
        }
        self.phase
    }

    /// Take one step on a transport event. The new phase is exactly
    /// `spec_step` of the old one, so terminal phases never move.
    pub fn on_event(&mut self, event: Event) -> (r: Phase)
        ensures
            final(self).spec_role() == old(self).spec_role(),
            final(self).spec_phase() == spec_step(
                old(self).spec_role(),
                old(self).spec_phase(),
                event,
            ),
            r == final(self).spec_phase(),
            is_terminal(old(self).spec_phase()) ==> final(self).spec_phase() == old(
                self,
            ).spec_phase(),
    {
        let next = match (self.phase, event) {
            (Phase::Closed, _) => Phase::Closed,
            (Phase::Failed, _) => Phase::Failed,
            (Phase::Idle, Event::TransportReady) => Phase::Handshaking,
            (Phase::Connecting, Event::TransportReady) => Phase::Handshaking,
            (Phase::Listening, Event::TransportReady) => Phase::Handshaking,
            (Phase::Handshaking, Event::HandshakeDone) => Phase::Established,
            (Phase::Established, Event::ExchangeDone) => Phase::Closed,
            _ => Phase::Failed,
        };
        self.phase = next;
        self.phase
    }
}

/// Once terminal, always terminal: no event moves a closed or failed
/// endpoint, so there is no reconnection and no handshake retry.
pub proof fn lemma_terminal_phases_stay(role: Role, phase: Phase, event: Event)
    requires
        is_terminal(phase),
    ensures
        spec_step(role, phase, event) == phase,
{
}

/// Every failure event leads to `Failed`, never onward: a lost transport, a
/// rejected handshake or a broken exchange ends the invocation.
pub proof fn lemma_failures_terminate(role: Role, phase: Phase)
    ensures
        !is_terminal(phase) ==> spec_step(role, phase, Event::TransportFailed) == Phase::Failed,
        !is_terminal(phase) ==> spec_step(role, phase, Event::HandshakeRejected) == Phase::Failed,
        !is_terminal(phase) ==> spec_step(role, phase, Event::ExchangeFailed) == Phase::Failed,
{
}

/// The error kind the caller of a one-shot operation sees when the step in
/// `phase` fails: a server that cannot bind reports `BindError`, a client
/// that cannot connect reports `ConnectError`, and any failure from the
/// handshake on reports `HandshakeFailed`.
pub open spec fn spec_failure_error(role: Role, phase: Phase) -> TlsError {
    match (role, phase) {
        (Role::Server, Phase::Idle) => TlsError::BindError,
        (Role::Server, Phase::Listening) => TlsError::BindError,
        (Role::Client, Phase::Idle) => TlsError::ConnectError,
        (Role::Client, Phase::Connecting) => TlsError::ConnectError,
        _ => TlsError::HandshakeFailed,
    }
}

/// The error kind for a failure during `phase` in role `role`.
pub fn failure_error(role: Role, phase: Phase) -> (r: TlsError)
    ensures
        r == spec_failure_error(role, phase),
{
    match (role, phase) {
        (Role::Server, Phase::Idle) => TlsError::BindError,
        (Role::Server, Phase::Listening) => TlsError::BindError,
        (Role::Client, Phase::Idle) => TlsError::ConnectError,
        (Role::Client, Phase::Connecting) => TlsError::ConnectError,
        _ => TlsError::HandshakeFailed,
    }
}

/// The first line of `data`: everything up to and including the first line
/// feed, or all of `data` when no line feed is present (the peer closed
/// before sending a terminator — the partial line is returned as is).
pub open spec fn spec_first_line(data: Seq<u8>) -> Seq<u8> {
    let nl = crate::chain::first_nl_from(data, 0);
    if nl == data.len() {
        data
    } else {
        data.subrange(0, nl + 1)
    }
}

/// Extract the first line, terminator included, from received bytes; the
/// whole input when no terminator has arrived.
pub fn first_line(data: &[u8]) -> (r: Vec<u8>)
    ensures
        r@ == spec_first_line(data@),
{
    let mut i: usize = 0;
    while i < data.len()
        invariant
            0 <= i <= data@.len(),
            crate::chain::first_nl_from(data@, 0) == crate::chain::first_nl_from(data@, i as int),
        decreases data@.len() - i,
    {
        if *vstd::slice::slice_index_get(data, i) == NL {
            let line = vstd::slice::slice_to_vec(vstd::slice::slice_subrange(data, 0, i + 1));
            return line;
        }
        assert(crate::chain::first_nl_from(data@, i as int) == crate::chain::first_nl_from(
            data@,
            i as int + 1,
        ));
        i += 1;
    }
    let whole = vstd::slice::slice_to_vec(data);
    proof {
        assert(whole@ =~= spec_first_line(data@));
    }
    whole
}

/// Whether the received bytes already hold a complete line.
pub fn has_line_terminator(data: &[u8]) -> (r: bool)
    ensures
        r == (crate::chain::first_nl_from(data@, 0) < data@.len()),
{
    let mut i: usize = 0;
    while i < data.len()
        invariant
            0 <= i <= data@.len(),
            crate::chain::first_nl_from(data@, 0) == crate::chain::first_nl_from(data@, i as int),
        decreases data@.len() - i,
    {
        if *vstd::slice::slice_index_get(data, i) == NL {
            return true;
        }
        assert(crate::chain::first_nl_from(data@, i as int) == crate::chain::first_nl_from(
            data@,
            i as int + 1,
        ));
        i += 1;
    }
    false
}

} // verus!
