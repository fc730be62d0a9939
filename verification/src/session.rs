//! The session state machine: one peer relationship, from offer to teardown.
//!
//! The machine is a pure function of (current state, event); the transport and
//! the signaling endpoint deliver events from outside. The surrounding process
//! must serialize all events through one exclusive boundary (a mutex around
//! the `Session` value), so the sequential transitions here describe every
//! interleaving of concurrent offers.

use vstd::prelude::*;

use crate::error::StreamError;

verus! {

/// The lifecycle of the one allowed peer session.
#[derive(Clone, Copy, Debug, PartialEq, Eq, Structural)]
pub enum ConnectionState {
    Disconnected,
    Connecting,
    Connected,
}

/// What the underlying peer transport reports about itself.
#[derive(Clone, Copy, Debug, PartialEq, Eq, Structural)]
pub enum TransportState {
    New,
    Connecting,
    Connected,
    Disconnected,
    Failed,
    Closed,
}

/// A transport report that ends the current session.
pub open spec fn is_terminal(t: TransportState) -> bool {
    t == TransportState::Disconnected || t == TransportState::Failed || t == TransportState::Closed
}

/// The single session slot: its lifecycle state plus whether the peer
/// transport and the outbound media track are currently attached.
#[derive(Clone, Copy, Debug, PartialEq, Eq, Structural)]
pub struct Session {
    pub state: ConnectionState,
    pub has_transport: bool,
    pub has_track: bool,
}

/// An offer may claim the slot exactly when no session is underway.
pub open spec fn offer_admissible(s: Session) -> bool {
    s.state == ConnectionState::Disconnected
}

/// Accepting an offer claims the slot: fresh transport and track are attached
/// and the exchange enters `Connecting`. An inadmissible offer changes nothing.
pub open spec fn offer_transition(s: Session) -> Session {
    if offer_admissible(s) {
        Session { state: ConnectionState::Connecting, has_transport: true, has_track: true }
    } else {
        s
    }
}

/// A terminal transport report releases the slot: both handles are dropped and
/// the state returns to `Disconnected`. Any other report changes nothing.
pub open spec fn transport_transition(s: Session, t: TransportState) -> Session {
    if is_terminal(t) {
        Session { state: ConnectionState::Disconnected, has_transport: false, has_track: false }
    } else {
        s
    }
}

/// Abandoning a pending exchange releases the slot: a `Connecting` session
/// returns to `Disconnected` with both handles dropped. Outside `Connecting`
/// it changes nothing (a completed session is torn down by the transport's
/// own report, never by a failed exchange).
pub open spec fn abort_transition(s: Session) -> Session {
    if s.state == ConnectionState::Connecting {
        Session { state: ConnectionState::Disconnected, has_transport: false, has_track: false }
    } else {
        s
    }
}

/// Finalizing the local description completes the exchange; outside
/// `Connecting` (for instance after a racing teardown) it changes nothing.
pub open spec fn finalize_transition(s: Session) -> Session {
    if s.state == ConnectionState::Connecting {
        Session { state: ConnectionState::Connected, ..s }
    } else {
        s
    }
}

impl Session {
    /// The slot invariant: handles are attached exactly while a session is
    /// underway. A `Disconnected` session holding a handle would leak the
    /// slot; a live session without handles could never send.
    pub open spec fn wf(self) -> bool {
        &&& (self.state == ConnectionState::Disconnected ==> !self.has_transport
            && !self.has_track)
        &&& (self.state != ConnectionState::Disconnected ==> self.has_transport && self.has_track)
    }

    /// A fresh slot: disconnected, nothing attached.
    pub fn new() -> (s: Session)
        ensures
            s == (Session {
                state: ConnectionState::Disconnected,
                has_transport: false,
                has_track: false,
            }),
            s.wf(),
    {
        Session { state: ConnectionState::Disconnected, has_transport: false, has_track: false }
    }

    /// Whether the slot is free, so that an offer would be admitted.
    pub fn is_idle(&self) -> (r: bool)
        ensures
            r == offer_admissible(*self),
    {
        self.state == ConnectionState::Disconnected
    }

    /// The offer event: claims the slot exactly when the session is idle.
    pub fn apply_offer(&mut self) -> (accepted: bool)
        ensures
            *final(self) == offer_transition(*old(self)),
            accepted == offer_admissible(*old(self)),
            old(self).wf() ==> final(self).wf(),
    {
        if self.state == ConnectionState::Disconnected {
            self.state = ConnectionState::Connecting;
            self.has_transport = true;
            self.has_track = true;
            true
        } else {
            false
        }
    }

    /// The transport's own state report, delivered by its observer callback.
    /// A terminal report tears the session down and frees the slot; the
    /// returned error, if any, is what the report means for the session.
    pub fn apply_transport_report(&mut self, t: TransportState) -> (ended: Option<StreamError>)
        ensures
            *final(self) == transport_transition(*old(self), t),
            ended == (if is_terminal(t) {
                Some(StreamError::TransportClosed)
            } else {
                None::<StreamError>
            }),
            old(self).wf() ==> final(self).wf(),
    {
        match t {
            TransportState::Disconnected | TransportState::Failed | TransportState::Closed => {
                self.state = ConnectionState::Disconnected;
                self.has_transport = false;
                self.has_track = false;
                Some(StreamError::TransportClosed)
            },
            _ => None,
        }
    }

    /// Abandon a pending exchange whose transport setup failed after the
    /// offer was accepted: the slot is released so the next offer is accepted
    /// cleanly, never leaked.
    pub fn abort_offer(&mut self)
        ensures
            *final(self) == abort_transition(*old(self)),
            old(self).wf() ==> final(self).wf(),
    {
        if self.state == ConnectionState::Connecting {
            self.state = ConnectionState::Disconnected;
            self.has_transport = false;
            self.has_track = false;
        }
    }

    /// The "local description finalized" event: completes a pending exchange.
    pub fn finalize_local(&mut self)
        ensures
            *final(self) == finalize_transition(*old(self)),
            old(self).wf() ==> final(self).wf(),
    {
        if self.state == ConnectionState::Connecting {
            self.state = ConnectionState::Connected;
        }
    }
}

/// Which of `n` back-to-back offers are accepted, starting from session `s`:
/// entry `i` is whether offer `i` claims the slot.
pub open spec fn offers_accepted(s: Session, n: nat) -> Seq<bool>
    decreases n,
{
    if n == 0 {
        Seq::empty()
    } else {
        seq![offer_admissible(s)] + offers_accepted(offer_transition(s), (n - 1) as nat)
    }
}

proof fn lemma_busy_session_rejects_all(s: Session, n: nat)
    requires
        s.state != ConnectionState::Disconnected,
    ensures
        offers_accepted(s, n) == Seq::new(n, |i: int| false),
    decreases n,
{
    if n > 0 {
        lemma_busy_session_rejects_all(offer_transition(s), (n - 1) as nat);
        assert(offers_accepted(s, n) =~= Seq::new(n, |i: int| false));
    } else {
        assert(offers_accepted(s, n) =~= Seq::new(n, |i: int| false));
    }
}

/// Of any sequence of offers that contend for an idle slot — concurrent
/// submissions, serialized by the exclusive boundary around the session —
/// exactly the first is accepted; every later one finds the slot claimed and
/// is turned away (the offer handler answers those with `SessionBusy`).
pub proof fn lemma_concurrent_offers_one_accepted(s: Session, n: nat)
    requires
        s.state == ConnectionState::Disconnected,
        n >= 1,
    ensures
        offers_accepted(s, n) == Seq::new(n, |i: int| i == 0),
{
    lemma_busy_session_rejects_all(offer_transition(s), (n - 1) as nat);
    assert(offers_accepted(s, n) =~= Seq::new(n, |i: int| i == 0));
}

/// An exchange abandoned after acceptance restores the session exactly as it
/// was: claiming an idle slot and then aborting is the identity, so a failed
/// signaling exchange never leaks the slot.
pub proof fn lemma_abort_restores_idle(s: Session)
    requires
        s.state == ConnectionState::Disconnected,
        s.wf(),
    ensures
        abort_transition(offer_transition(s)) == s,
{
}

/// After the transport reports `Failed` (or any other terminal state), the
/// slot is free again and the next admissible offer is accepted.
pub proof fn lemma_offer_accepted_after_failure(s: Session, t: TransportState)
    requires
        is_terminal(t),
    ensures
        offer_admissible(transport_transition(s, t)),
        offer_transition(transport_transition(s, t)).state == ConnectionState::Connecting,
{
}

} // verus!
