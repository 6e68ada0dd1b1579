//! The connection-accept adapter, as an explicit state machine behind
//! a pull interface. Each round waits for a raw connection, then for
//! its handshake; a handshake failure is discarded and acceptance goes
//! on, while a listener failure or the shutdown signal terminates the
//! sequence for good. The suspending steps themselves (waiting on the
//! socket, negotiating the handshake) happen outside the library; the
//! caller feeds their results in as events and performs what the next
//! state asks for.
use vstd::prelude::*;

verus! {

/// Where the adapter stands between two events.
#[derive(Clone, Copy, Debug, PartialEq, Eq, Structural)]
pub enum AcceptState {
    /// Ready for the next pull.
    Idle,
    /// Waiting for a raw connection on the listening socket.
    AwaitingRawConnection,
    /// Waiting for the handshake on the last raw connection.
    AwaitingHandshake,
    /// The sequence has ended; no further connection is ever emitted.
    Terminated,
}

/// What the caller reports to the adapter.
pub enum AcceptEvent<C> {
    /// The consumer asked for the next ready connection.
    NextRequested,
    /// A raw connection arrived on the listening socket.
    RawConnection,
    /// The listening socket itself failed.
    ListenerFailed(String),
    /// The handshake completed and produced a secured connection.
    HandshakeComplete(C),
    /// The handshake failed.
    HandshakeFailed(String),
    /// The external shutdown signal fired.
    ShutdownRequested,
}

/// The result of one adapter iteration, as the consumer sees it.
pub enum AcceptOutcome<C> {
    /// A ready, handshake-complete secured connection.
    Ready(C),
    /// A non-fatal handshake failure; acceptance goes on.
    HandshakeFailed(String),
    /// A fatal listener failure; the sequence ends permanently.
    FatalListenerError(String),
}

/// One transition: the next state, and the outcome emitted to the
/// consumer, if any. An event that does not belong to the state
/// changes nothing; the terminated state absorbs every event.
pub open spec fn spec_step<C>(s: AcceptState, e: AcceptEvent<C>) -> (
    AcceptState,
    Option<AcceptOutcome<C>>,
) {
    match (s, e) {
        (AcceptState::Terminated, _) => (AcceptState::Terminated, None),
        (_, AcceptEvent::ShutdownRequested) => (AcceptState::Terminated, None),
        (AcceptState::Idle, AcceptEvent::NextRequested) => (
            AcceptState::AwaitingRawConnection,
            None,
        ),
        (AcceptState::AwaitingRawConnection, AcceptEvent::RawConnection) => (
            AcceptState::AwaitingHandshake,
            None,
        ),
        (AcceptState::AwaitingRawConnection, AcceptEvent::ListenerFailed(reason)) => (
            AcceptState::Terminated,
            Some(AcceptOutcome::FatalListenerError(reason)),
        ),
        (AcceptState::AwaitingHandshake, AcceptEvent::HandshakeComplete(conn)) => (
            AcceptState::Idle,
            Some(AcceptOutcome::Ready(conn)),
        ),
        (AcceptState::AwaitingHandshake, AcceptEvent::HandshakeFailed(reason)) => (
            AcceptState::Idle,
            Some(AcceptOutcome::HandshakeFailed(reason)),
        ),
        (_, _) => (s, None),
    }
}

/// Performs one transition of the accept adapter.
pub fn step<C>(state: AcceptState, event: AcceptEvent<C>) -> (r: (
    AcceptState,
    Option<AcceptOutcome<C>>,
))
    ensures
        r == spec_step(state, event),
{
    match (state, event) {
        (AcceptState::Terminated, _) => (AcceptState::Terminated, None),
        (_, AcceptEvent::ShutdownRequested) => (AcceptState::Terminated, None),
        (AcceptState::Idle, AcceptEvent::NextRequested) => (
            AcceptState::AwaitingRawConnection,
            None,
        ),
        (AcceptState::AwaitingRawConnection, AcceptEvent::RawConnection) => (
            AcceptState::AwaitingHandshake,
            None,
        ),
        (AcceptState::AwaitingRawConnection, AcceptEvent::ListenerFailed(reason)) => (
            AcceptState::Terminated,
            Some(AcceptOutcome::FatalListenerError(reason)),
        ),
        (AcceptState::AwaitingHandshake, AcceptEvent::HandshakeComplete(conn)) => (
            AcceptState::Idle,
            Some(AcceptOutcome::Ready(conn)),
        ),
        (AcceptState::AwaitingHandshake, AcceptEvent::HandshakeFailed(reason)) => (
            AcceptState::Idle,
            Some(AcceptOutcome::HandshakeFailed(reason)),
        ),
        (s, _) => (s, None),
    }
}

/// The state after a whole sequence of events.
pub open spec fn run_steps<C>(s: AcceptState, events: Seq<AcceptEvent<C>>) -> AcceptState
    decreases events.len(),
{
    if events.len() == 0 {
        s
    } else {
        run_steps(spec_step(s, events.first()).0, events.drop_first())
    }
}

/// Every outcome a sequence of events makes the adapter emit.
pub open spec fn emitted_outcomes<C>(s: AcceptState, events: Seq<AcceptEvent<C>>) -> Seq<
    AcceptOutcome<C>,
>
    decreases events.len(),
{
    if events.len() == 0 {
        Seq::empty()
    } else {
        let (next, out) = spec_step(s, events.first());
        let rest = emitted_outcomes(next, events.drop_first());
        match out {
            Some(o) => seq![o] + rest,
            None => rest,
        }
    }
}

/// Law: a handshake failure never terminates the accept sequence; only
/// a listener failure or the shutdown signal moves the adapter into
/// the terminated state.
pub proof fn lemma_only_listener_failure_terminates<C>(s: AcceptState, e: AcceptEvent<C>)
    ensures
        spec_step(s, e).0 is Terminated ==> (s is Terminated || e matches
            AcceptEvent::ListenerFailed(_) || e is ShutdownRequested),
        e matches AcceptEvent::HandshakeFailed(_) && !(s is Terminated) ==> !(spec_step(
            s,
            e,
        ).0 is Terminated),
{
}

/// Law (adapter resilience): after a failed handshake the adapter
/// emits a non-fatal outcome and returns to idle; the next round that
/// accepts a raw connection and completes its handshake emits that
/// connection, so one failure never ends the sequence.
pub proof fn lemma_handshake_failure_then_success<C>(reason: String, conn: C)
    ensures
        ({
            let (s1, o1) = spec_step(
                AcceptState::AwaitingHandshake,
                AcceptEvent::<C>::HandshakeFailed(reason),
            );
            let (s2, o2) = spec_step(s1, AcceptEvent::<C>::NextRequested);
            let (s3, o3) = spec_step(s2, AcceptEvent::<C>::RawConnection);
            let (s4, o4) = spec_step(s3, AcceptEvent::<C>::HandshakeComplete(conn));
            &&& s1 is Idle
            &&& o1 == Some(AcceptOutcome::<C>::HandshakeFailed(reason))
            &&& o2 is None
            &&& o3 is None
            &&& s4 is Idle
            &&& o4 == Some(AcceptOutcome::<C>::Ready(conn))
        }),
{
}

/// Law (graceful shutdown, acceptance side): the shutdown signal moves
/// the adapter to the terminated state from everywhere, and a
/// terminated adapter emits nothing over any later sequence of events
/// — in particular, no new connection is ever accepted after shutdown.
pub proof fn lemma_shutdown_stops_accepting<C>(s: AcceptState, events: Seq<AcceptEvent<C>>)
    ensures
        spec_step(s, AcceptEvent::<C>::ShutdownRequested).0 is Terminated,
        spec_step(s, AcceptEvent::<C>::ShutdownRequested).1 is None,
        run_steps(AcceptState::Terminated, events) is Terminated,
        emitted_outcomes(AcceptState::Terminated, events) =~= Seq::<AcceptOutcome<C>>::empty(),
    decreases events.len(),
{
    if events.len() > 0 {
        lemma_shutdown_stops_accepting(
            spec_step(AcceptState::Terminated, events.first()).0,
            events.drop_first(),
        );
    }
}

} // verus!
