//! Per-port session: classifies what one port's link hands back and adapts
//! the link's event/request vocabulary to the selection policy.

use vstd::prelude::*;
use crate::capability::has_fixed_supply;
use crate::policy::{Request, select_request, valid_selection, lemma_selection_deterministic};

verus! {

/// A notification surfaced by the protocol engine for one port. Only a
/// capabilities announcement carries data this core acts on; every other
/// variant is informational.
#[derive(Debug)]
pub enum Event {
    SourceCapabilitiesChanged(crate::capability::CapabilitySet),
    PowerReady,
    ProtocolChanged,
    PowerAccepted,
    PowerRejected,
}

/// A failure reported by the underlying link.
#[derive(Clone, Copy, PartialEq, Eq, Structural, Debug)]
pub enum LinkError {
    /// The link failed to deliver or decode an event.
    Receive,
    /// The link failed to transmit a request.
    Transmit,
}

/// The error kinds this core surfaces. Neither is fatal: the loop skips the
/// cycle and the next announcement re-triggers selection.
#[derive(Clone, Copy, PartialEq, Eq, Structural, Debug)]
pub enum PortError {
    /// The link failed while receiving an event.
    LinkReceiveError,
    /// The link failed while transmitting a request.
    LinkSubmitError,
}

/// What a decision for event `e` must be: a capabilities announcement yields
/// the policy's selection; every other variant is observed and yields nothing.
pub open spec fn valid_decision(e: Event, d: Option<Request>) -> bool {
    match e {
        Event::SourceCapabilitiesChanged(caps) => valid_selection(caps@, d),
        _ => d is None,
    }
}

/// What classifying one wait on the link must return: a receive failure
/// surfaces as the receive error kind, an event-free cycle yields nothing,
/// and an event yields its decision.
pub open spec fn valid_poll(
    polled: Result<Option<Event>, LinkError>,
    r: Result<Option<Request>, PortError>,
) -> bool {
    match polled {
        Err(_) => r == Err::<Option<Request>, PortError>(PortError::LinkReceiveError),
        Ok(None) => r == Ok::<Option<Request>, PortError>(None),
        Ok(Some(e)) => r matches Ok(d) && valid_decision(e, d),
    }
}

/// Classifies one event: only a capabilities announcement that the selection
/// policy can resolve produces a request.
pub fn handle_event(event: &Event) -> (d: Option<Request>)
    ensures
        valid_decision(*event, d),
        event matches Event::SourceCapabilitiesChanged(caps) ==> (d is Some <==> has_fixed_supply(
            caps@,
        )),
        !(*event is SourceCapabilitiesChanged) ==> d is None,
{
    match event {
        Event::SourceCapabilitiesChanged(caps) => select_request(caps),
        Event::PowerReady => None,
        Event::ProtocolChanged => None,
        Event::PowerAccepted => None,
        Event::PowerRejected => None,
    }
}

/// One physical port's session. It exclusively mediates that port's link and
/// holds no negotiation state of its own — the protocol engine tracks the
/// negotiation — so touching one session can never change another.
#[derive(Clone, Copy, PartialEq, Eq, Structural, Debug)]
pub struct PortSession {
    /// The port's position in the loop's fixed visitation order.
    pub port: usize,
}

impl PortSession {
    /// Creates the session for the port at position `port` of the loop's
    /// visitation order, once that port's link is initialized.
    pub fn new(port: usize) -> (s: Self)
        ensures
            s.port == port,
    {
        PortSession { port }
    }

    /// Classifies the outcome of one wait on this port's link. Returns a
    /// request only for a capabilities announcement the policy resolves, and
    /// the receive error kind when the link reported a failure — the only
    /// error this session can surface. The session itself never changes.
    pub fn poll_decision(&mut self, polled: Result<Option<Event>, LinkError>) -> (r: Result<
        Option<Request>,
        PortError,
    >)
        ensures
            *final(self) == *old(self),
            valid_poll(polled, r),
    {
        match polled {
            Ok(Some(event)) => Ok(handle_event(&event)),
            Ok(None) => Ok(None),
            Err(_) => Err(PortError::LinkReceiveError),
        }
    }

    /// Classifies the outcome of forwarding a request over this port's link:
    /// a transmission failure surfaces as the submit error kind, to be
    /// observed and discarded by the caller, never retried. The session
    /// itself never changes.
    pub fn submit_outcome(&mut self, sent: Result<(), LinkError>) -> (r: Result<(), PortError>)
        ensures
            *final(self) == *old(self),
            sent is Ok <==> r is Ok,
            r is Err ==> r == Err::<(), PortError>(PortError::LinkSubmitError),
    {
        match sent {
            Ok(()) => Ok(()),
            Err(_) => Err(PortError::LinkSubmitError),
        }
    }
}

/// Event classification is a function of the event alone: any two valid
/// decisions for the same event agree.
pub proof fn lemma_decision_deterministic(e: Event, d1: Option<Request>, d2: Option<Request>)
    requires
        valid_decision(e, d1),
        valid_decision(e, d2),
    ensures
        d1 == d2,
{
    match e {
        Event::SourceCapabilitiesChanged(caps) => {
            lemma_selection_deterministic(caps@, d1, d2);
        }
        _ => {}
    }
}

/// Only a capabilities announcement can yield a request: every other event
/// variant decides nothing.
pub proof fn lemma_event_classification(e: Event, d: Option<Request>)
    requires
        valid_decision(e, d),
        !(e is SourceCapabilitiesChanged),
    ensures
        d is None,
{
}

/// Port independence: within one iteration, an announcement with a fixed
/// supply on one port yields a decision for that port, an unrelated event on
/// another port yields none, and neither decision depends on the other
/// port's event.
pub proof fn lemma_port_independence(
    ea: Event,
    eb: Event,
    da: Option<Request>,
    db: Option<Request>,
)
    requires
        ea matches Event::SourceCapabilitiesChanged(caps) && has_fixed_supply(caps@),
        !(eb is SourceCapabilitiesChanged),
        valid_decision(ea, da),
        valid_decision(eb, db),
    ensures
        da is Some,
        db is None,
{
}

} // verus!
