//! Negotiation loop: the decision side of the driver that keeps every port's
//! negotiation progressing. Waiting on a link and transmitting over it happen
//! outside the library; this module fixes what each pass must decide.

use vstd::prelude::*;
use crate::policy::Request;
use crate::session::{Event, LinkError, valid_decision, handle_event, lemma_decision_deterministic};

verus! {

/// What one pass of the loop must do at one port, given what its link handed
/// back. A receive failure and an event-free cycle both yield nothing — the
/// `SwallowAndContinue` propagation policy: observe the outcome, drop it, and
/// let the next announcement re-trigger selection. An event yields its
/// decision, submitted at once and never retried.
pub open spec fn iteration_action(
    polled: Result<Option<Event>, LinkError>,
    a: Option<Request>,
) -> bool {
    match polled {
        Err(_) => a is None,
        Ok(None) => a is None,
        Ok(Some(e)) => valid_decision(e, a),
    }
}

/// The decisions of one pass of the loop over every port, visited in the
/// fixed order of `polls` (position `i` is port `i`). Each port's action is a
/// function of that port's poll outcome alone; no state is shared across
/// ports.
pub fn iteration_step(polls: &Vec<Result<Option<Event>, LinkError>>) -> (actions: Vec<
    Option<Request>,
>)
    ensures
        actions@.len() == polls@.len(),
        forall|i: int| 0 <= i < polls@.len() ==> iteration_action(polls@[i], #[trigger] actions@[i]),
{
    let n: usize = polls.len();
    let mut actions: Vec<Option<Request>> = Vec::new();
    let mut k: usize = 0;
    while k < n
        invariant
            n == polls@.len(),
            actions@.len() == k,
            k <= n,
            forall|i: int| 0 <= i < k ==> iteration_action(polls@[i], #[trigger] actions@[i]),
        decreases n - k,
    {
        let a: Option<Request> = match &polls[k] {
            Ok(Some(event)) => handle_event(event),
            Ok(None) => None,
            Err(_) => None,
        };
        actions.push(a);
        k = k + 1;
    }
    actions
}

/// A port's action is fully determined by its own poll outcome: two valid
/// actions for the same outcome agree, whatever happened at every other port.
pub proof fn lemma_action_deterministic(
    polled: Result<Option<Event>, LinkError>,
    a1: Option<Request>,
    a2: Option<Request>,
)
    requires
        iteration_action(polled, a1),
        iteration_action(polled, a2),
    ensures
        a1 == a2,
{
    match polled {
        Ok(Some(e)) => lemma_decision_deterministic(e, a1, a2),
        _ => {}
    }
}

} // verus!
