//! The broadcast hub: a single shared fan-out stream. Every subscriber has a
//! private bounded backlog of the payloads published since it subscribed;
//! publishing never blocks, and a full backlog drops its oldest payload.
//!
//! Publishing is fan-out to every current subscriber, the publisher's own
//! subscription included: a peer that publishes and is also subscribed sees
//! its own payload echoed back.

use vstd::prelude::*;

verus! {

/// What one publish does to one subscriber's backlog: the payload is
/// appended, and if the backlog is already at capacity the oldest unread
/// payload is dropped to make room.
pub open spec fn push_drop(q: Seq<String>, p: String, cap: nat) -> Seq<String> {
    if q.len() < cap {
        q.push(p)
    } else {
        q.drop_first().push(p)
    }
}

/// A hub with a fixed per-subscriber backlog capacity and one pending-payload
/// queue per subscriber, oldest first.
pub struct BroadcastHub {
    pub cap: usize,
    pub queues: Vec<Vec<String>>,
}

impl BroadcastHub {
    /// Every backlog respects the capacity, and the capacity is positive.
    pub open spec fn well_formed(&self) -> bool {
        &&& self.cap >= 1
        &&& forall|i: int|
            0 <= i < self.queues@.len() ==> #[trigger] self.queues@[i]@.len() <= self.cap
    }

    /// A hub with no subscribers yet.
    pub fn new(capacity: usize) -> (r: BroadcastHub)
        requires
            capacity >= 1,
        ensures
            r.well_formed(),
            r.cap == capacity,
            r.queues@.len() == 0,
    {
        BroadcastHub { cap: capacity, queues: Vec::new() }
    }

    /// The number of current subscribers.
    pub fn subscriber_count(&self) -> (n: usize)
        ensures
            n == self.queues@.len(),
    {
        self.queues.len()
    }

    /// Registers a new subscriber and returns its handle. The new backlog
    /// starts empty: payloads published before subscription are not replayed.
    pub fn subscribe(&mut self) -> (id: usize)
        requires
            old(self).well_formed(),
        ensures
            final(self).well_formed(),
            final(self).cap == old(self).cap,
            id == old(self).queues@.len(),
            final(self).queues@.len() == old(self).queues@.len() + 1,
            forall|i: int|
                0 <= i < old(self).queues@.len() ==> final(self).queues@[i] == old(
                    self,
                ).queues@[i],
            final(self).queues@[id as int]@.len() == 0,
    {
        let id = self.queues.len();
        self.queues.push(Vec::new());
        id
    }

    /// Enqueues the payload for every current subscriber, dropping the oldest
    /// unread payload of any backlog already at capacity. Never blocks and
    /// never fails.
    pub fn publish(&mut self, payload: String)
        requires
            old(self).well_formed(),
        ensures
            final(self).well_formed(),
            final(self).cap == old(self).cap,
            final(self).queues@.len() == old(self).queues@.len(),
            forall|i: int|
                0 <= i < old(self).queues@.len() ==> final(self).queues@[i]@ == push_drop(
                    old(self).queues@[i]@,
                    payload,
                    old(self).cap as nat,
                ),
    {
        let n = self.queues.len();
        let mut i: usize = 0;
        while i < n
            invariant
                self.cap == old(self).cap,
                self.cap >= 1,
                n == self.queues@.len(),
                n == old(self).queues@.len(),
                i <= n,
                forall|j: int|
                    0 <= j < i ==> self.queues@[j]@ == push_drop(
                        old(self).queues@[j]@,
                        payload,
                        old(self).cap as nat,
                    ),
                forall|j: int| i <= j < n ==> self.queues@[j] == old(self).queues@[j],
                forall|j: int|
                    0 <= j < n ==> #[trigger] self.queues@[j]@.len() <= self.cap,
            decreases n - i,
        {
            let mut q = self.queues.remove(i);
            if q.len() == self.cap {
                q.remove(0);
            }
            q.push(payload.clone());
            self.queues.insert(i, q);
            i += 1;
        }
    }

    /// Takes the oldest pending payload for subscriber `id`, if any. Payloads
    /// come out in the order they were enqueued.
    pub fn recv(&mut self, id: usize) -> (r: Option<String>)
        requires
            old(self).well_formed(),
            id < old(self).queues@.len(),
        ensures
            final(self).well_formed(),
            final(self).cap == old(self).cap,
            final(self).queues@.len() == old(self).queues@.len(),
            forall|i: int|
                0 <= i < old(self).queues@.len() && i != id ==> final(self).queues@[i] == old(
                    self,
                ).queues@[i],
            match r {
                Some(p) => {
                    &&& old(self).queues@[id as int]@.len() > 0
                    &&& p == old(self).queues@[id as int]@[0]
                    &&& final(self).queues@[id as int]@ == old(
                        self,
                    ).queues@[id as int]@.drop_first()
                },
                None => {
                    &&& old(self).queues@[id as int]@.len() == 0
                    &&& final(self).queues@[id as int] == old(self).queues@[id as int]
                },
            },
    {
        let mut q = self.queues.remove(id);
        let r = if q.len() > 0 {
            Some(q.remove(0))
        } else {
            None
        };
        self.queues.insert(id, q);
        r
    }
}

/// Law: absent overflow, one publish reaches every subscriber by appending
/// the payload at the end of its backlog, so a payload published once is
/// observed exactly once by each subscriber that drains its backlog.
pub proof fn lemma_publish_fanout(q: Seq<String>, p: String, cap: nat)
    requires
        q.len() < cap,
    ensures
        push_drop(q, p, cap) == q.push(p),
        push_drop(q, p, cap).len() == q.len() + 1,
        push_drop(q, p, cap)[q.len() as int] == p,
{
}

/// Law: per-subscriber delivery order matches publish order. Publishing `p1`
/// and then `p2` into a backlog with room for both leaves them queued with
/// `p1` strictly before `p2`.
pub proof fn lemma_publish_order(q: Seq<String>, p1: String, p2: String, cap: nat)
    requires
        q.len() + 2 <= cap,
    ensures
        push_drop(push_drop(q, p1, cap), p2, cap) == q.push(p1).push(p2),
        push_drop(push_drop(q, p1, cap), p2, cap)[q.len() as int] == p1,
        push_drop(push_drop(q, p1, cap), p2, cap)[q.len() as int + 1] == p2,
{
}

} // verus!
