//! The life of a connection, as decisions from state and event to next state
//! and action. The caller performs each action and reports what came of it.

use vstd::prelude::*;

verus! {

#[derive(Clone, Copy, Debug, PartialEq, Eq, Structural)]
pub enum LinkState {
    /// No transport yet: attempts are made until one succeeds.
    Connecting,
    /// The transport is live; the forwarder and the decoder run.
    Connected,
    /// The transport is gone; nothing reconnects it.
    Closed,
}

#[derive(Clone, Copy, Debug, PartialEq, Eq, Structural)]
pub enum LinkEvent {
    AttemptFailed,
    AttemptSucceeded,
    TransportEnded,
}

#[derive(Clone, Copy, Debug, PartialEq, Eq, Structural)]
pub enum LinkAction {
    /// Make another connection attempt at once.
    Attempt,
    /// Start the outbound forwarder and the inbound decoder.
    Serve,
    /// Stop both background activities.
    Stop,
    /// Nothing to do.
    Idle,
}

/// One decision. A failed attempt is retried without limit and is never
/// reported; once connected, only the end of the transport changes the state,
/// and a closed connection stays closed.
pub open spec fn link_step(s: LinkState, e: LinkEvent) -> (LinkState, LinkAction) {
    match (s, e) {
        (LinkState::Connecting, LinkEvent::AttemptSucceeded) => (LinkState::Connected, LinkAction::Serve),
        (LinkState::Connecting, _) => (LinkState::Connecting, LinkAction::Attempt),
        (LinkState::Connected, LinkEvent::TransportEnded) => (LinkState::Closed, LinkAction::Stop),
        (LinkState::Connected, _) => (LinkState::Connected, LinkAction::Idle),
        (LinkState::Closed, _) => (LinkState::Closed, LinkAction::Idle),
    }
}

/// The state after a run of events.
pub open spec fn link_run(s: LinkState, es: Seq<LinkEvent>) -> LinkState
    decreases es.len(),
{
    if es.len() == 0 {
        s
    } else {
        link_step(link_run(s, es.drop_last()), es.last()).0
    }
}

/// The actions taken along a run of events.
pub open spec fn link_actions(s: LinkState, es: Seq<LinkEvent>) -> Seq<LinkAction>
    decreases es.len(),
{
    if es.len() == 0 {
        Seq::empty()
    } else {
        link_actions(s, es.drop_last()).push(link_step(link_run(s, es.drop_last()), es.last()).1)
    }
}

/// `n` failed attempts followed by one that succeeds.
pub open spec fn failures_then_success(n: nat) -> Seq<LinkEvent> {
    Seq::new(n, |i: int| LinkEvent::AttemptFailed).push(LinkEvent::AttemptSucceeded)
}

/// The next state, and what the caller does next.
pub fn next_link_state(s: LinkState, e: LinkEvent) -> (r: (LinkState, LinkAction))
    ensures
        r == link_step(s, e),
{
    match (s, e) {
        (LinkState::Connecting, LinkEvent::AttemptSucceeded) => (LinkState::Connected, LinkAction::Serve),
        (LinkState::Connecting, _) => (LinkState::Connecting, LinkAction::Attempt),
        (LinkState::Connected, LinkEvent::TransportEnded) => (LinkState::Closed, LinkAction::Stop),
        (LinkState::Connected, _) => (LinkState::Connected, LinkAction::Idle),
        (LinkState::Closed, _) => (LinkState::Closed, LinkAction::Idle),
    }
}

/// While attempts fail, the manager stays connecting and only tries again.
proof fn lemma_failures_keep_connecting(n: nat)
    ensures
        link_run(LinkState::Connecting, Seq::new(n, |i: int| LinkEvent::AttemptFailed))
            == LinkState::Connecting,
        link_actions(LinkState::Connecting, Seq::new(n, |i: int| LinkEvent::AttemptFailed))
            == Seq::new(n, |i: int| LinkAction::Attempt),
    decreases n,
{
    let es = Seq::new(n, |i: int| LinkEvent::AttemptFailed);
    if n > 0 {
        let m = (n - 1) as nat;
        lemma_failures_keep_connecting(m);
        assert(es.drop_last() =~= Seq::new(m, |i: int| LinkEvent::AttemptFailed));
        assert(link_actions(LinkState::Connecting, es) =~= Seq::new(n, |i: int| LinkAction::Attempt));
    } else {
        assert(link_actions(LinkState::Connecting, es) =~= Seq::new(n, |i: int| LinkAction::Attempt));
    }
}

/// However many attempts fail first, the first success leaves the manager
/// connected; every failure was answered by a new attempt and none by
/// anything the caller sees, and the success starts the two activities.
pub proof fn lemma_connects_after_failures(n: nat)
    ensures
        link_run(LinkState::Connecting, failures_then_success(n)) == LinkState::Connected,
        link_actions(LinkState::Connecting, failures_then_success(n))
            == Seq::new(n, |i: int| LinkAction::Attempt).push(LinkAction::Serve),
{
    lemma_failures_keep_connecting(n);
    let es = failures_then_success(n);
    assert(es.drop_last() =~= Seq::new(n, |i: int| LinkEvent::AttemptFailed));
}

/// A closed connection stays closed whatever happens next.
pub proof fn lemma_closed_stays_closed(es: Seq<LinkEvent>)
    ensures
        link_run(LinkState::Closed, es) == LinkState::Closed,
    decreases es.len(),
{
    if es.len() > 0 {
        lemma_closed_stays_closed(es.drop_last());
    }
}

} // verus!
