//! The mesh stream queue.
//!
//! Background loaders push fully built mesh payloads; the render loop
//! polls once per frame. A ready counter rides along as a hint: it is
//! incremented per push and decremented only after a successful
//! receive, so it can never run below zero, and a poll that finds the
//! counter positive but the channel empty is a benign no-op for that
//! frame. Payloads leave in arrival order, each exactly once — stated
//! below as a law about a full drain.

use vstd::prelude::*;

verus! {

use crate::meshdata::StreamedMeshPayload;

/// The queue: pending payloads in arrival order, plus the ready hint.
pub struct MeshStreamQueue {
    items: Vec<StreamedMeshPayload>,
    ready_count: usize,
}

/// The mathematical view of the queue.
pub ghost struct QueueView {
    pub items: Seq<StreamedMeshPayload>,
    pub ready: int,
}

impl View for MeshStreamQueue {
    type V = QueueView;

    closed spec fn view(&self) -> QueueView {
        QueueView { items: self.items@, ready: self.ready_count as int }
    }
}

/// The queue state after one push: the payload at the back, the hint
/// one higher.
pub open spec fn push_val(q: QueueView, p: StreamedMeshPayload) -> QueueView {
    QueueView { items: q.items.push(p), ready: q.ready + 1 }
}

/// The queue state after one poll, and what the poll received: with a
/// positive hint and a non-empty channel the front payload leaves and
/// the hint drops by one; any other state is left untouched.
pub open spec fn poll_val(q: QueueView) -> (QueueView, Option<StreamedMeshPayload>) {
    if q.ready > 0 && q.items.len() > 0 {
        (QueueView { items: q.items.drop_first(), ready: q.ready - 1 }, Option::Some(q.items[0]))
    } else {
        (q, Option::None)
    }
}

/// How many payloads a run of `k` polls receives.
pub open spec fn drain_count(q: QueueView, k: nat) -> int
    decreases k,
{
    if k == 0 {
        0
    } else {
        let step = poll_val(q);
        (if step.1 is Some {
            1int
        } else {
            0int
        }) + drain_count(step.0, (k - 1) as nat)
    }
}

impl MeshStreamQueue {
    /// An empty queue with a zero hint.
    pub fn new() -> (r: MeshStreamQueue)
        ensures
            r@.items.len() == 0,
            r@.ready == 0,
    {
        MeshStreamQueue { items: Vec::new(), ready_count: 0 }
    }

    /// How many payloads the hint currently claims are ready.
    pub fn ready_hint(&self) -> (r: usize)
        ensures
            r as int == self@.ready,
    {
        self.ready_count
    }

    /// How many payloads are actually pending.
    pub fn pending(&self) -> (r: usize)
        ensures
            r as int == self@.items.len(),
    {
        self.items.len()
    }

    /// Producer side: enqueue one payload and raise the hint.
    pub fn push_payload(&mut self, p: StreamedMeshPayload)
        requires
            old(self)@.ready < usize::MAX,
        ensures
            final(self)@ == push_val(old(self)@, p),
    {
        self.items.push(p);
        self.ready_count = self.ready_count + 1;
    }

    /// Consumer side: one non-blocking poll. Receives the front
    /// payload and lowers the hint only when the hint is positive and
    /// a payload is pending; otherwise nothing changes, so the hint
    /// never drops below the receives that actually happened.
    pub fn poll(&mut self) -> (r: Option<StreamedMeshPayload>)
        ensures
            final(self)@ == poll_val(old(self)@).0,
            r == poll_val(old(self)@).1,
    {
        if self.ready_count > 0 && self.items.len() > 0 {
            let p = self.items.remove(0);
            self.ready_count = self.ready_count - 1;
            proof {
                assert(final(self)@.items =~= poll_val(old(self)@).0.items);
            }
            Option::Some(p)
        } else {
            Option::None
        }
    }
}

/// Draining a queue whose hint matches its `n` pending payloads once
/// per frame consumes exactly `n` payloads over `n` or more frames —
/// each push is received exactly once, never lost and never doubled.
pub proof fn lemma_drain_exact(q: QueueView, k: nat)
    requires
        q.ready == q.items.len(),
        k >= q.items.len(),
    ensures
        drain_count(q, k) == q.items.len(),
    decreases k,
{
    if k > 0 {
        let step = poll_val(q);
        if q.items.len() > 0 {
            lemma_drain_exact(step.0, (k - 1) as nat);
        } else {
            lemma_drain_empty(q, (k - 1) as nat);
        }
    }
}

/// Polling an exhausted queue receives nothing, no matter how often.
pub proof fn lemma_drain_empty(q: QueueView, k: nat)
    requires
        q.ready == 0 || q.items.len() == 0,
    ensures
        drain_count(q, k) == 0,
        drain_items(q, k) == Seq::<StreamedMeshPayload>::empty(),
    decreases k,
{
    if k > 0 {
        lemma_drain_empty(q, (k - 1) as nat);
    }
}

/// The payloads a run of `k` polls receives, in order.
pub open spec fn drain_items(q: QueueView, k: nat) -> Seq<StreamedMeshPayload>
    decreases k,
{
    if k == 0 {
        Seq::empty()
    } else {
        let step = poll_val(q);
        match step.1 {
            Option::Some(p) => seq![p] + drain_items(step.0, (k - 1) as nat),
            Option::None => drain_items(step.0, (k - 1) as nat),
        }
    }
}

/// Exactly-once delivery: over enough frames, the polls receive
/// precisely the pending payloads, in arrival order — none lost, none
/// duplicated.
pub proof fn lemma_drain_in_order(q: QueueView, k: nat)
    requires
        q.ready == q.items.len(),
        k >= q.items.len(),
    ensures
        drain_items(q, k) == q.items,
    decreases k,
{
    if k == 0 {
        assert(q.items =~= Seq::<StreamedMeshPayload>::empty());
    } else {
        let step = poll_val(q);
        if q.items.len() > 0 {
            lemma_drain_in_order(step.0, (k - 1) as nat);
            assert(drain_items(q, k) =~= q.items);
        } else {
            lemma_drain_empty(q, (k - 1) as nat);
            assert(drain_items(q, k) =~= q.items);
        }
    }
}

} // verus!
