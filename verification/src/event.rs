//! The events that background tasks deliver to the state machine, and the
//! rule for discarding stale terminal input when the terminal is handed to a
//! child process.

use vstd::prelude::*;

use crate::input::KeyEvent;
use crate::types::{ResourceItem, ResourceType};

verus! {

/// Everything the state machine can receive: terminal input, the periodic
/// tick, and the results of background operations. This is the sole channel
/// from background tasks into the state machine.
#[derive(Debug)]
pub enum AppEvent {
    Key(KeyEvent),
    Resize(u16, u16),
    Tick,
    ResourcesUpdated(Vec<ResourceItem>),
    NamespacesLoaded(Vec<String>),
    DetailLoaded(String),
    LogLine(String),
    LogStreamEnded,
    ContextsLoaded { contexts: Vec<String>, current: String },
    K8sError(String),
    SearchResultsBatch { context: String, resource_type: ResourceType, items: Vec<ResourceItem> },
    SearchScanComplete(String),
}

/// Raw terminal input: the events that are discarded while a child process
/// owns the terminal.
pub open spec fn is_input_event(e: AppEvent) -> bool {
    e is Key || e is Resize
}

/// The non-input events of a queue, in queue order.
pub open spec fn non_input_events(events: Seq<AppEvent>) -> Seq<AppEvent> {
    events.filter(|e: AppEvent| !is_input_event(e))
}

/// Discards every queued key and resize event and keeps all other events in
/// their original relative order. Suspending and resuming the terminal
/// reader both drain the pending queue through this function.
pub fn retain_non_input(events: Vec<AppEvent>) -> (kept: Vec<AppEvent>)
    ensures
        kept@ == non_input_events(events@),
{
    let ghost all = events@;
    let mut pending = events;
    let mut kept: Vec<AppEvent> = Vec::new();
    proof {
        assert(all.subrange(0, 0) =~= Seq::<AppEvent>::empty());
        assert(non_input_events(Seq::<AppEvent>::empty()) =~= Seq::<AppEvent>::empty());
    }
    while pending.len() > 0
        invariant
            pending@.len() <= all.len(),
            pending@ == all.subrange(all.len() - pending@.len(), all.len() as int),
            kept@ == non_input_events(all.subrange(0, all.len() - pending@.len())),
        decreases pending@.len(),
    {
        let ghost done = all.subrange(0, all.len() - pending@.len());
        let e = pending.remove(0);
        proof {
            assert(e == all[done.len() as int]);
            assert(pending@ =~= all.subrange(all.len() - pending@.len(), all.len() as int));
            let done2 = all.subrange(0, done.len() as int + 1);
            assert(done2.drop_last() =~= done);
            assert(done2.last() == e);
            assert(done2.len() == done.len() + 1);
            reveal_with_fuel(Seq::filter, 2);
            assert(non_input_events(done2) == if !is_input_event(e) {
                non_input_events(done).push(e)
            } else {
                non_input_events(done)
            });
            assert(all.len() - pending@.len() == done.len() as int + 1);
        }
        let keep = match &e {
            AppEvent::Key(_) => false,
            AppEvent::Resize(_, _) => false,
            _ => true,
        };
        if keep {
            kept.push(e);
        }
    }
    proof {
        assert(all.subrange(0, all.len() as int) =~= all);
    }
    kept
}

/// Drain law: after the drain, no key or resize event is pending; what
/// remains is exactly the non-input part of the queue, in queue order.
pub proof fn lemma_drain_removes_input_only(events: Seq<AppEvent>)
    ensures
        forall|k: int|
            0 <= k < non_input_events(events).len() ==> !is_input_event(
                #[trigger] non_input_events(events)[k],
            ),
{
    let pred = |e: AppEvent| !is_input_event(e);
    assert forall|k: int| 0 <= k < non_input_events(events).len() implies !is_input_event(
        non_input_events(events)[k],
    ) by {
        events.lemma_filter_pred(pred, k);
    }
}

} // verus!
