use vstd::prelude::*;
use crate::driver::{accepts, action_of, next, Action, Event, Phase};

verus! {

/// The phase reached from `p` after the events `evs`, one by one.
pub open spec fn run(p: Phase, evs: Seq<Event>) -> Phase
    decreases evs.len(),
{
    if evs.len() == 0 {
        p
    } else {
        next(run(p, evs.drop_last()), evs.last())
    }
}

/// Whether each event of `evs` answers the action asked for before it.
pub open spec fn valid(p: Phase, evs: Seq<Event>) -> bool
    decreases evs.len(),
{
    evs.len() == 0 || (valid(p, evs.drop_last()) && accepts(run(p, evs.drop_last()), evs.last()))
}

/// The actions that the events `evs` answer, in order.
pub open spec fn actions(p: Phase, evs: Seq<Event>) -> Seq<Action>
    decreases evs.len(),
{
    if evs.len() == 0 {
        seq![]
    } else {
        actions(p, evs.drop_last()).push(action_of(run(p, evs.drop_last())))
    }
}

/// The requests handed to the session, in the order of their exchange-initiation calls.
pub open spec fn sent(p: Phase, evs: Seq<Event>) -> Seq<u64>
    decreases evs.len(),
{
    if evs.len() == 0 {
        seq![]
    } else {
        let prior = sent(p, evs.drop_last());
        match action_of(run(p, evs.drop_last())) {
            Action::SendRequest { id, .. } => prior.push(id),
            _ => prior,
        }
    }
}

/// The request that phase `p` is about to hand to the session, if any.
pub open spec fn awaiting_send(p: Phase) -> Seq<u64> {
    match p {
        Phase::Dispatching { id, .. } => seq![id],
        _ => seq![],
    }
}

/// The requests that the queue yielded in `evs`, in order.
pub open spec fn dequeued(evs: Seq<Event>) -> Seq<u64>
    decreases evs.len(),
{
    if evs.len() == 0 {
        seq![]
    } else {
        match evs.last() {
            Event::Item { id, .. } => dequeued(evs.drop_last()).push(id),
            _ => dequeued(evs.drop_last()),
        }
    }
}

/// The requests that the queue yielded in `evs` and whose callers had not cancelled them.
pub open spec fn live_requests(evs: Seq<Event>) -> Seq<u64>
    decreases evs.len(),
{
    if evs.len() == 0 {
        seq![]
    } else {
        match evs.last() {
            Event::Item { id, cancelled, .. } => if cancelled {
                live_requests(evs.drop_last())
            } else {
                live_requests(evs.drop_last()).push(id)
            },
            _ => live_requests(evs.drop_last()),
        }
    }
}

/// Whether `e` is the queue yielding request `id` uncancelled.
pub open spec fn is_live_item(e: Event, id: u64) -> bool {
    match e {
        Event::Item { id: x, cancelled, .. } => !cancelled && x == id,
        _ => false,
    }
}

/// Whether the queue yielded request `id` uncancelled somewhere in `evs`.
pub open spec fn yielded_live(evs: Seq<Event>, id: u64) -> bool {
    exists|i: int| 0 <= i < evs.len() && is_live_item(#[trigger] evs[i], id)
}

/// Whether no request in `evs` came out of the queue already cancelled.
pub open spec fn none_cancelled(evs: Seq<Event>) -> bool {
    forall|i: int| 0 <= i < evs.len() ==> !(#[trigger] evs[i] matches Event::Item { cancelled: true, .. })
}

/// Requests reach the session exactly in the order in which the queue yielded
/// them, skipping those whose callers had cancelled them, whatever the session
/// answered to earlier ones; the last one may still be on its way.
pub proof fn lemma_dispatch_order(p: Phase, evs: Seq<Event>)
    requires
        valid(p, evs),
        !(p is Dispatching),
    ensures
        sent(p, evs) + awaiting_send(run(p, evs)) == live_requests(evs),
    decreases evs.len(),
{
    if evs.len() > 0 {
        lemma_dispatch_order(p, evs.drop_last());
        let q = run(p, evs.drop_last());
        assert(q is Dispatching ==> awaiting_send(q) == seq![q->Dispatching_id]);
        assert(sent(p, evs) + awaiting_send(run(p, evs)) =~= live_requests(evs));
    }
}

/// With no cancellations, the session sees the exchange-initiation calls in the
/// order in which the requests were enqueued.
pub proof fn lemma_order_without_cancellation(p: Phase, evs: Seq<Event>)
    requires
        valid(p, evs),
        !(p is Dispatching),
        none_cancelled(evs),
    ensures
        sent(p, evs) + awaiting_send(run(p, evs)) == dequeued(evs),
    decreases evs.len(),
{
    lemma_dispatch_order(p, evs);
    lemma_live_all(evs);
}

proof fn lemma_live_all(evs: Seq<Event>)
    requires
        none_cancelled(evs),
    ensures
        live_requests(evs) == dequeued(evs),
    decreases evs.len(),
{
    if evs.len() > 0 {
        let pre = evs.drop_last();
        assert forall|i: int| 0 <= i < pre.len() implies !(#[trigger] pre[i] matches Event::Item {
            cancelled: true,
            ..
        }) by {
            assert(pre[i] == evs[i]);
        }
        lemma_live_all(pre);
        assert(!(evs[evs.len() - 1] matches Event::Item { cancelled: true, .. }));
    }
}

proof fn lemma_live_yielded(evs: Seq<Event>, id: u64)
    requires
        live_requests(evs).contains(id),
    ensures
        yielded_live(evs, id),
    decreases evs.len(),
{
    let pre = evs.drop_last();
    let j = evs.len() - 1;
    if live_requests(pre).contains(id) {
        lemma_live_yielded(pre, id);
        let i = choose|i: int| 0 <= i < pre.len() && is_live_item(#[trigger] pre[i], id);
        assert(evs[i] == pre[i]);
    } else {
        assert(live_requests(evs) == live_requests(pre).push(evs[j]->Item_id));
        assert(live_requests(evs).last() == id);
        assert(is_live_item(evs[j], id));
    }
}

/// A request whose caller cancelled it before the queue yielded it never
/// reaches the session.
pub proof fn lemma_cancelled_never_sent(p: Phase, evs: Seq<Event>, id: u64)
    requires
        valid(p, evs),
        !(p is Dispatching),
        !yielded_live(evs, id),
    ensures
        !sent(p, evs).contains(id),
        !awaiting_send(run(p, evs)).contains(id),
{
    lemma_dispatch_order(p, evs);
    let s = sent(p, evs);
    let w = awaiting_send(run(p, evs));
    if s.contains(id) {
        let k = choose|k: int| 0 <= k < s.len() && s[k] == id;
        assert((s + w)[k] == id);
        lemma_live_yielded(evs, id);
    }
    if w.contains(id) {
        let k = choose|k: int| 0 <= k < w.len() && w[k] == id;
        assert((s + w)[s.len() + k] == id);
        lemma_live_yielded(evs, id);
    }
}

/// Whether phase `p` is blocked on the session's send capacity, or failed.
pub open spec fn held_back(p: Phase) -> bool {
    p == Phase::AwaitingCapacity || p == (Phase::Parked { handshaking: false }) || p == Phase::Failed
}

/// While the session reports no send capacity, the inbound queue is never
/// polled and no request leaves it, however often the driver is polled.
pub proof fn lemma_backpressure(p: Phase, evs: Seq<Event>)
    requires
        valid(p, evs),
        p == Phase::AwaitingCapacity || p == (Phase::Parked { handshaking: false }),
        forall|i: int| 0 <= i < evs.len() ==> #[trigger] evs[i] != Event::Ready,
    ensures
        held_back(run(p, evs)),
        !actions(p, evs).contains(Action::PollQueue),
        dequeued(evs).len() == 0,
    decreases evs.len(),
{
    if evs.len() > 0 {
        let pre = evs.drop_last();
        assert forall|i: int| 0 <= i < pre.len() implies #[trigger] pre[i] != Event::Ready by {
            assert(pre[i] == evs[i]);
        }
        lemma_backpressure(p, pre);
        assert(evs.last() != Event::Ready);
        let a = actions(p, evs);
        if a.contains(Action::PollQueue) {
            let k = choose|k: int| 0 <= k < a.len() && a[k] == Action::PollQueue;
            if k < a.len() - 1 {
                assert(actions(p, pre)[k] == Action::PollQueue);
            }
        }
    }
}

/// A dispatch failure is isolated: the driver hands the error to that request's
/// slot only, and every later uncancelled request still reaches the session,
/// in queue order.
pub proof fn lemma_rejection_isolated(id: u64, end_of_stream: bool, evs: Seq<Event>)
    requires
        valid(Phase::Rejecting { id }, evs),
    ensures
        next(Phase::Dispatching { id, end_of_stream }, Event::Rejected) == (Phase::Rejecting { id }),
        action_of(Phase::Rejecting { id }) == (Action::FailRequest { id }),
        next(Phase::Rejecting { id }, Event::Resumed) == Phase::AwaitingCapacity,
        sent(Phase::Rejecting { id }, evs) + awaiting_send(run(Phase::Rejecting { id }, evs))
            == live_requests(evs),
{
    lemma_dispatch_order(Phase::Rejecting { id }, evs);
}

/// Once a request is handed to the session, the driver takes no cancellation
/// into account for it: the only answers are the session's, and an accepted
/// exchange always gets its response task (and its body pipe, if a body remains).
pub proof fn lemma_dispatch_not_retracted(id: u64, end_of_stream: bool, e: Event)
    requires
        accepts(Phase::Dispatching { id, end_of_stream }, e),
    ensures
        e == Event::Accepted || e == Event::Rejected,
        e == Event::Accepted ==> next(Phase::Dispatching { id, end_of_stream }, e)
            == (Phase::Spawning { id, end_of_stream }),
        action_of(Phase::Spawning { id, end_of_stream }) == (Action::SpawnExchange { id, pipe_body: !end_of_stream }),
{
}

/// Once the queue reports closed, the driver is done for good: every later poll
/// returns "done" and nothing else is asked of the session or the queue.
pub proof fn lemma_terminal(evs: Seq<Event>)
    requires
        valid(Phase::Done, evs),
    ensures
        next(Phase::AwaitingRequest, Event::Closed) == Phase::Done,
        run(Phase::Done, evs) == Phase::Done,
        forall|i: int|
            0 <= i < actions(Phase::Done, evs).len() ==> #[trigger] actions(Phase::Done, evs)[i]
                == Action::Finish,
        sent(Phase::Done, evs).len() == 0,
    decreases evs.len(),
{
    if evs.len() > 0 {
        lemma_terminal(evs.drop_last());
    }
}

/// The requests whose response slots the driver settled, in order: each either
/// got its dispatch error or had its response task spawned.
pub open spec fn settled(p: Phase, evs: Seq<Event>) -> Seq<u64>
    decreases evs.len(),
{
    if evs.len() == 0 {
        seq![]
    } else {
        let prior = settled(p, evs.drop_last());
        match action_of(run(p, evs.drop_last())) {
            Action::FailRequest { id } => prior.push(id),
            Action::SpawnExchange { id, .. } => prior.push(id),
            _ => prior,
        }
    }
}

/// The request whose response slot phase `p` is about to settle, if any.
pub open spec fn awaiting_settlement(p: Phase) -> Seq<u64> {
    match p {
        Phase::Rejecting { id } => seq![id],
        Phase::Spawning { id, .. } => seq![id],
        _ => seq![],
    }
}

/// Every request handed to the session has its response slot settled exactly
/// once, in dispatch order, whether the session accepted or refused it; only
/// the last one may still be on its way.
pub proof fn lemma_settled_once(p: Phase, evs: Seq<Event>)
    requires
        valid(p, evs),
        !(p is Rejecting),
        !(p is Spawning),
    ensures
        settled(p, evs) + awaiting_settlement(run(p, evs)) == sent(p, evs),
    decreases evs.len(),
{
    if evs.len() > 0 {
        lemma_settled_once(p, evs.drop_last());
        assert(settled(p, evs) + awaiting_settlement(run(p, evs)) =~= sent(p, evs));
    }
}

/// The handshake happens once: after it completed, the driver never goes back to it.
pub proof fn lemma_handshake_once(p: Phase, evs: Seq<Event>)
    requires
        valid(p, evs),
        p != Phase::Handshaking,
        p != (Phase::Parked { handshaking: true }),
    ensures
        run(p, evs) != Phase::Handshaking,
        run(p, evs) != (Phase::Parked { handshaking: true }),
    decreases evs.len(),
{
    if evs.len() > 0 {
        lemma_handshake_once(p, evs.drop_last());
    }
}

} // verus!
