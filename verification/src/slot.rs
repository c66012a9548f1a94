//! The lifecycle of a one-shot reply slot.
//!
//! Every request submitted through the async gateway carries a private
//! single-use reply slot. The slot is a single-producer/single-consumer
//! handoff cell: it starts out pending, is fulfilled at most once by the
//! consumer, and can be observably given up by either side. [`ReplySlot`]
//! implements that cell for one thread of control; across threads the
//! gateway carries the same protocol over its one-shot channel. The spec
//! functions here are the slot's transition relation, and the laws below
//! state what the protocol guarantees: at-most-once fulfilment, non-fatal
//! cancellation, and correlation integrity under any interleaving.

use vstd::prelude::*;

verus! {

/// The state of one reply slot, as a tagged value rather than implicit drop
/// semantics.
#[derive(Debug, PartialEq, Eq)]
pub enum ReplyState<Rep> {
    /// No reply yet; both sides are still live.
    Pending,
    /// The consumer fulfilled the slot with a reply.
    Fulfilled(Rep),
    /// The consumer gave the slot up without fulfilling it; the waiter will
    /// never receive a reply.
    Cancelled,
    /// The waiter closed its end; no reply is wanted any more.
    Disconnected,
}

/// How an attempt to fulfill a slot ends, by the state the slot was in.
#[derive(Debug, Clone, Copy, PartialEq, Eq, Structural)]
pub enum FulfillError {
    /// The slot already holds a reply; it is not overwritten.
    AlreadyFulfilled,
    /// The consumer had already given the slot up.
    Cancelled,
    /// The waiter had already closed its end; the reply is dropped. This is a
    /// reportable condition, never a panic.
    Disconnected,
}

/// The state after the consumer attempts to fulfill a slot with `v`: only a
/// pending slot takes the value; every other state is left as it is.
pub open spec fn fulfill_next<Rep>(s: ReplyState<Rep>, v: Rep) -> ReplyState<Rep> {
    if s is Pending {
        ReplyState::Fulfilled(v)
    } else {
        s
    }
}

/// What the consumer is told when it attempts to fulfill a slot in state `s`.
pub open spec fn fulfill_outcome<Rep>(s: ReplyState<Rep>) -> Result<(), FulfillError> {
    match s {
        ReplyState::Pending => Ok(()),
        ReplyState::Fulfilled(_) => Err(FulfillError::AlreadyFulfilled),
        ReplyState::Cancelled => Err(FulfillError::Cancelled),
        ReplyState::Disconnected => Err(FulfillError::Disconnected),
    }
}

/// The state after the waiter closes its end: a pending slot becomes
/// disconnected; a decided slot keeps its outcome.
pub open spec fn close_next<Rep>(s: ReplyState<Rep>) -> ReplyState<Rep> {
    if s is Pending {
        ReplyState::Disconnected
    } else {
        s
    }
}

/// The state after the consumer drops the slot without fulfilling it: a
/// pending slot becomes cancelled; a decided slot keeps its outcome.
pub open spec fn cancel_next<Rep>(s: ReplyState<Rep>) -> ReplyState<Rep> {
    if s is Pending {
        ReplyState::Cancelled
    } else {
        s
    }
}

/// A one-shot reply slot for one thread of control.
pub struct ReplySlot<Rep> {
    state: ReplyState<Rep>,
}

impl<Rep> ReplySlot<Rep> {
    /// The slot's current state.
    pub closed spec fn view(&self) -> ReplyState<Rep> {
        self.state
    }

    /// A fresh slot, waiting for its reply.
    pub fn new() -> (slot: ReplySlot<Rep>)
        ensures
            slot@ is Pending,
    {
        ReplySlot { state: ReplyState::Pending }
    }

    /// The slot's state, for inspection.
    pub fn state(&self) -> (s: &ReplyState<Rep>)
        ensures
            *s == self@,
    {
        &self.state
    }

    /// Fulfills the slot with `rep` if it is still pending; otherwise reports
    /// why the reply was not taken and leaves the slot unchanged.
    pub fn fulfill(&mut self, rep: Rep) -> (r: Result<(), FulfillError>)
        ensures
            final(self)@ == fulfill_next(old(self)@, rep),
            r == fulfill_outcome::<Rep>(old(self)@),
    {
        match &self.state {
            ReplyState::Pending => {
                self.state = ReplyState::Fulfilled(rep);
                Ok(())
            },
            ReplyState::Fulfilled(_) => Err(FulfillError::AlreadyFulfilled),
            ReplyState::Cancelled => Err(FulfillError::Cancelled),
            ReplyState::Disconnected => Err(FulfillError::Disconnected),
        }
    }

    /// The waiter closes its end: a pending slot becomes disconnected.
    pub fn close(&mut self)
        ensures
            final(self)@ == close_next(old(self)@),
    {
        if let ReplyState::Pending = &self.state {
            self.state = ReplyState::Disconnected;
        }
    }

    /// The consumer gives the slot up without a reply: a pending slot becomes
    /// cancelled.
    pub fn cancel(&mut self)
        ensures
            final(self)@ == cancel_next(old(self)@),
    {
        if let ReplyState::Pending = &self.state {
            self.state = ReplyState::Cancelled;
        }
    }
}

/// The gateway's view of its in-flight requests: one reply slot per message
/// identifier. Fulfilling addresses exactly one slot.
pub open spec fn gateway_fulfill<Rep>(
    slots: Map<u128, ReplyState<Rep>>,
    id: u128,
    v: Rep,
) -> Map<u128, ReplyState<Rep>> {
    if slots.contains_key(id) {
        slots.insert(id, fulfill_next(slots[id], v))
    } else {
        slots
    }
}

/// The slots after a whole sequence of fulfilments, applied in order: each
/// entry is a message identifier and the reply addressed to it.
pub open spec fn gateway_fulfill_all<Rep>(
    slots: Map<u128, ReplyState<Rep>>,
    entries: Seq<(u128, Rep)>,
) -> Map<u128, ReplyState<Rep>>
    decreases entries.len(),
{
    if entries.len() == 0 {
        slots
    } else {
        gateway_fulfill_all(gateway_fulfill(slots, entries[0].0, entries[0].1), entries.drop_first())
    }
}

/// Law (at-most-once reply): once a slot is fulfilled, a second attempt fails
/// with `AlreadyFulfilled` and does not overwrite the first reply.
pub proof fn lemma_fulfill_at_most_once<Rep>(s: ReplyState<Rep>, v1: Rep, v2: Rep)
    requires
        fulfill_outcome::<Rep>(s) is Ok,
    ensures
        fulfill_next(s, v1) == ReplyState::Fulfilled(v1),
        fulfill_outcome::<Rep>(fulfill_next(s, v1)) == Result::<(), FulfillError>::Err(
            FulfillError::AlreadyFulfilled,
        ),
        fulfill_next(fulfill_next(s, v1), v2) == ReplyState::Fulfilled(v1),
{
}

/// Law (cancellation is non-fatal): after the waiter closes a pending slot, a
/// later fulfilment attempt reports `Disconnected` — it neither panics nor
/// revives the slot.
pub proof fn lemma_fulfill_after_close<Rep>(s: ReplyState<Rep>, v: Rep)
    requires
        s is Pending,
    ensures
        close_next(s) == ReplyState::<Rep>::Disconnected,
        fulfill_outcome::<Rep>(close_next(s)) == Result::<(), FulfillError>::Err(
            FulfillError::Disconnected,
        ),
        fulfill_next(close_next(s), v) == ReplyState::<Rep>::Disconnected,
{
}

/// Law (no cross-talk): fulfilments addressed to other message identifiers
/// never change this slot, whatever their order.
pub proof fn lemma_correlation_integrity<Rep>(
    slots: Map<u128, ReplyState<Rep>>,
    entries: Seq<(u128, Rep)>,
    id: u128,
)
    requires
        slots.contains_key(id),
        forall|i: int| 0 <= i < entries.len() ==> entries[i].0 != id,
    ensures
        gateway_fulfill_all(slots, entries).contains_key(id),
        gateway_fulfill_all(slots, entries)[id] == slots[id],
    decreases entries.len(),
{
    if entries.len() > 0 {
        let next = gateway_fulfill(slots, entries[0].0, entries[0].1);
        assert(next.contains_key(id) && next[id] == slots[id]);
        assert(forall|i: int|
            0 <= i < entries.drop_first().len() ==> entries.drop_first()[i].0 != id);
        lemma_correlation_integrity(next, entries.drop_first(), id);
    }
}

/// A slot that is no longer pending keeps its outcome through any further
/// fulfilments, including ones addressed to it.
pub proof fn lemma_decided_slot_stays<Rep>(
    slots: Map<u128, ReplyState<Rep>>,
    entries: Seq<(u128, Rep)>,
    id: u128,
)
    requires
        slots.contains_key(id),
        !(slots[id] is Pending),
    ensures
        gateway_fulfill_all(slots, entries).contains_key(id),
        gateway_fulfill_all(slots, entries)[id] == slots[id],
    decreases entries.len(),
{
    if entries.len() > 0 {
        let next = gateway_fulfill(slots, entries[0].0, entries[0].1);
        assert(next.contains_key(id) && next[id] == slots[id]);
        lemma_decided_slot_stays(next, entries.drop_first(), id);
    }
}

/// Law (correlation integrity): with slot `id` pending, after any sequence of
/// fulfilments whose first entry addressed to `id` carries `v`, slot `id`
/// holds exactly `v` — the waiter for `id` receives the reply produced for its
/// own message, never another's, for any interleaving of fulfilments.
pub proof fn lemma_reply_correlated<Rep>(
    slots: Map<u128, ReplyState<Rep>>,
    entries: Seq<(u128, Rep)>,
    id: u128,
    k: int,
)
    requires
        slots.contains_key(id),
        slots[id] is Pending,
        0 <= k < entries.len(),
        entries[k].0 == id,
        forall|j: int| 0 <= j < k ==> entries[j].0 != id,
    ensures
        gateway_fulfill_all(slots, entries).contains_key(id),
        gateway_fulfill_all(slots, entries)[id] == ReplyState::Fulfilled(entries[k].1),
    decreases entries.len(),
{
    let next = gateway_fulfill(slots, entries[0].0, entries[0].1);
    if k == 0 {
        assert(next[id] == ReplyState::Fulfilled(entries[0].1));
        lemma_decided_slot_stays(next, entries.drop_first(), id);
    } else {
        assert(next.contains_key(id) && next[id] == slots[id]);
        assert(entries.drop_first()[k - 1].0 == id);
        assert(forall|j: int| 0 <= j < k - 1 ==> entries.drop_first()[j].0 != id);
        lemma_reply_correlated(next, entries.drop_first(), id, k - 1);
        assert(entries.drop_first()[k - 1].1 == entries[k].1);
    }
}

} // verus!
