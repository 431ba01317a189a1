//! The change bus: a single-producer, multi-consumer broadcast primitive.
//!
//! Every change signal is payload-less, so a subscription's pending work is
//! fully described by two counters: how many signals sit unread in its
//! bounded queue, and how many were dropped because the queue was full.
//! Publishing enqueues one signal into every live subscription; a full
//! queue loses its oldest unread signal instead of blocking the producer.
//! Receiving reports dropped signals first (as a missed count), then drains
//! the buffered signals in order, and reports closure only once the
//! producer is gone and the queue is empty.

use vstd::prelude::*;

verus! {

/// Default bound on each subscription's queue of unread signals.
pub const DEFAULT_BUS_CAPACITY: usize = 32;

/// What one subscription's receive operation reports.
///
/// A "delivery" outcome — a signal or a missed count — is what a session
/// treats as "the page must reload".
#[derive(Clone, Copy, PartialEq, Eq, Structural, Debug)]
pub enum RecvOutcome {
    /// The next change signal, in publish order.
    Signal,
    /// The queue overflowed while the subscriber lagged: this many signals
    /// were dropped, oldest first. Treated like a signal by sessions.
    Missed(u64),
    /// The producer is gone and every buffered signal has been drained;
    /// nothing will ever arrive again.
    Closed,
    /// Nothing is buffered yet; the caller must wait for the next publish.
    Pending,
}

/// The state of one live subscription: its queue of unread signals is
/// `buffered` long, and `missed` signals were dropped since the last
/// receive. The missed count saturates at `u64::MAX`.
#[derive(Clone, Copy, PartialEq, Eq, Structural, Debug)]
pub struct SubState {
    /// Signals buffered and not yet received, at most the bus capacity.
    pub buffered: usize,
    /// Signals dropped (oldest first) since the last receive.
    pub missed: u64,
}

/// The bus: one slot per subscription ever made; a slot goes back to
/// `None` when its subscription is dropped.
pub struct ChangeBus {
    /// Bound on each subscription's queue, at least 1.
    pub capacity: usize,
    /// True once the sole producer is gone; no publish can follow.
    pub closed: bool,
    /// One slot per subscription identifier handed out so far.
    pub subs: Vec<Option<SubState>>,
}

/// The outcome carries a reload-worthy indication: the next signal, or
/// the news that signals were dropped.
pub open spec fn is_delivery(o: RecvOutcome) -> bool {
    o is Signal || o is Missed
}

/// A missed counter grows by one but saturates at `u64::MAX`.
pub open spec fn sat_inc(m: u64) -> u64 {
    if m < u64::MAX {
        (m + 1) as u64
    } else {
        m
    }
}

/// How one publish changes one live subscription: a signal is enqueued if
/// the queue has room, else the oldest unread signal is dropped in its
/// favour and the missed count grows.
pub open spec fn publish_one(s: SubState, cap: usize) -> SubState {
    if s.buffered < cap {
        SubState { buffered: (s.buffered + 1) as usize, missed: s.missed }
    } else {
        SubState { buffered: s.buffered, missed: sat_inc(s.missed) }
    }
}

/// How one publish changes the whole subscriber table.
pub open spec fn publish_all(subs: Seq<Option<SubState>>, cap: usize) -> Seq<Option<SubState>> {
    subs.map_values(
        |o: Option<SubState>|
            match o {
                Some(s) => Some(publish_one(s, cap)),
                None => None,
            },
    )
}

/// What one receive on a subscription in state `s` reports.
pub open spec fn sub_recv_outcome(s: SubState, closed: bool) -> RecvOutcome {
    if s.missed > 0 {
        RecvOutcome::Missed(s.missed)
    } else if s.buffered > 0 {
        RecvOutcome::Signal
    } else if closed {
        RecvOutcome::Closed
    } else {
        RecvOutcome::Pending
    }
}

/// The subscription's state after one receive: the missed count is
/// reported and reset first; then buffered signals drain one by one; an
/// empty subscription is left unchanged.
pub open spec fn sub_recv_next(s: SubState) -> SubState {
    if s.missed > 0 {
        SubState { buffered: s.buffered, missed: 0 }
    } else if s.buffered > 0 {
        SubState { buffered: (s.buffered - 1) as usize, missed: 0 }
    } else {
        s
    }
}

/// The subscription's state after `n` receives.
pub open spec fn sub_recv_iter(s: SubState, n: nat) -> SubState
    decreases n,
{
    if n == 0 {
        s
    } else {
        sub_recv_next(sub_recv_iter(s, (n - 1) as nat))
    }
}

/// How many receives a subscription needs before an already-closed bus
/// reports closure: one for the missed count, if any, plus one per
/// buffered signal.
pub open spec fn drain_steps(s: SubState) -> nat {
    ((if s.missed > 0 {
        1nat
    } else {
        0nat
    }) + s.buffered) as nat
}

/// How many subscriptions are live in the table.
pub open spec fn live_count(subs: Seq<Option<SubState>>) -> nat
    decreases subs.len(),
{
    if subs.len() == 0 {
        0
    } else {
        live_count(subs.drop_last()) + (if subs.last() is Some {
            1nat
        } else {
            0nat
        })
    }
}

impl ChangeBus {
    /// Every live queue fits under the capacity bound.
    pub open spec fn wf(&self) -> bool {
        &&& 1 <= self.capacity
        &&& forall|i: int|
            0 <= i < self.subs@.len() && self.subs@[i] is Some
                ==> (#[trigger] self.subs@[i])->0.buffered <= self.capacity
    }

    /// Slot `i` holds a live subscription.
    pub open spec fn live(&self, i: int) -> bool {
        0 <= i < self.subs@.len() && self.subs@[i] is Some
    }

    /// The state of the live subscription in slot `i`.
    pub open spec fn sub(&self, i: int) -> SubState {
        self.subs@[i]->0
    }

    /// A fresh bus: no subscribers, producer alive.
    pub fn new(capacity: usize) -> (bus: ChangeBus)
        requires
            1 <= capacity,
        ensures
            bus.wf(),
            bus.capacity == capacity,
            !bus.closed,
            bus.subs@ =~= Seq::<Option<SubState>>::empty(),
    {
        ChangeBus { capacity, closed: false, subs: Vec::new() }
    }

    /// Open a new subscription and hand out its identifier. The new
    /// subscription starts empty: it observes only signals published
    /// after this call.
    pub fn subscribe(&mut self) -> (id: usize)
        requires
            old(self).subs@.len() < usize::MAX,
        ensures
            id == old(self).subs@.len(),
            final(self).subs@ == old(self).subs@.push(Some(SubState { buffered: 0, missed: 0 })),
            final(self).capacity == old(self).capacity,
            final(self).closed == old(self).closed,
            final(self).live(id as int),
            final(self).sub(id as int) == (SubState { buffered: 0, missed: 0 }),
            live_count(final(self).subs@) == live_count(old(self).subs@) + 1,
            old(self).wf() ==> final(self).wf(),
    {
        let id = self.subs.len();
        self.subs.push(Some(SubState { buffered: 0, missed: 0 }));
        proof {
            assert(self.subs@.drop_last() =~= old(self).subs@);
        }
        id
    }

    /// Drop the subscription in slot `id`; the bus stops tracking it and
    /// the live-subscriber count falls by exactly one.
    pub fn unsubscribe(&mut self, id: usize)
        requires
            old(self).live(id as int),
        ensures
            final(self).subs@ == old(self).subs@.update(id as int, None),
            final(self).capacity == old(self).capacity,
            final(self).closed == old(self).closed,
            !final(self).live(id as int),
            live_count(final(self).subs@) + 1 == live_count(old(self).subs@),
            old(self).wf() ==> final(self).wf(),
    {
        self.subs[id] = None;
        proof {
            lemma_live_count_update(old(self).subs@, id as int, None);
        }
    }

    /// Deliver one change signal to every live subscription. The producer
    /// never waits and never fails: a subscription whose queue is full
    /// loses its own oldest unread signal and nothing else.
    pub fn publish(&mut self)
        requires
            old(self).wf(),
            !old(self).closed,
        ensures
            final(self).subs@ == publish_all(old(self).subs@, old(self).capacity),
            final(self).capacity == old(self).capacity,
            final(self).closed == old(self).closed,
            final(self).wf(),
    {
        let n = self.subs.len();
        let mut i: usize = 0;
        while i < n
            invariant
                n == self.subs@.len(),
                n == old(self).subs@.len(),
                i <= n,
                self.capacity == old(self).capacity,
                self.closed == old(self).closed,
                old(self).wf(),
                forall|j: int|
                    0 <= j < i ==> self.subs@[j] == publish_all(old(self).subs@, old(self).capacity)[j],
                forall|j: int| i <= j < n ==> self.subs@[j] == old(self).subs@[j],
            decreases n - i,
        {
            proof {
                assert(publish_all(old(self).subs@, old(self).capacity)[i as int]
                    == match old(self).subs@[i as int] {
                    Some(s) => Some(publish_one(s, old(self).capacity)),
                    None => None,
                });
            }
            let slot = self.subs[i];
            if let Some(s) = slot {
                let ns = if s.buffered < self.capacity {
                    SubState { buffered: s.buffered + 1, missed: s.missed }
                } else {
                    let nm = if s.missed < u64::MAX {
                        s.missed + 1
                    } else {
                        s.missed
                    };
                    SubState { buffered: s.buffered, missed: nm }
                };
                self.subs[i] = Some(ns);
            }
            i += 1;
        }
        proof {
            assert(self.subs@ =~= publish_all(old(self).subs@, old(self).capacity));
        }
    }

    /// The producer is gone: no further signal will be published, but
    /// whatever is buffered stays for the subscribers to drain.
    pub fn close(&mut self)
        ensures
            final(self).closed,
            final(self).subs@ == old(self).subs@,
            final(self).capacity == old(self).capacity,
            old(self).wf() ==> final(self).wf(),
    {
        self.closed = true;
    }

    /// One receive on the subscription in slot `id`: missed count first,
    /// then the buffered signals in order, then — only on a closed bus
    /// with nothing left — the closed indication.
    pub fn receive(&mut self, id: usize) -> (r: RecvOutcome)
        requires
            old(self).live(id as int),
        ensures
            r == sub_recv_outcome(old(self).sub(id as int), old(self).closed),
            final(self).subs@ == old(self).subs@.update(
                id as int,
                Some(sub_recv_next(old(self).sub(id as int))),
            ),
            final(self).capacity == old(self).capacity,
            final(self).closed == old(self).closed,
            old(self).wf() ==> final(self).wf(),
    {
        let slot = self.subs[id];
        let s = slot.unwrap();
        if s.missed > 0 {
            self.subs[id] = Some(SubState { buffered: s.buffered, missed: 0 });
            RecvOutcome::Missed(s.missed)
        } else if s.buffered > 0 {
            self.subs[id] = Some(SubState { buffered: s.buffered - 1, missed: 0 });
            RecvOutcome::Signal
        } else {
            proof {
                assert(self.subs@ =~= old(self).subs@.update(
                    id as int,
                    Some(sub_recv_next(old(self).sub(id as int))),
                ));
            }
            if self.closed {
                RecvOutcome::Closed
            } else {
                RecvOutcome::Pending
            }
        }
    }

    /// How many subscriptions are currently live.
    pub fn subscriber_count(&self) -> (c: usize)
        ensures
            c == live_count(self.subs@),
    {
        let n = self.subs.len();
        let mut c: usize = 0;
        let mut i: usize = 0;
        proof {
            assert(self.subs@.take(0) =~= Seq::<Option<SubState>>::empty());
        }
        while i < n
            invariant
                n == self.subs@.len(),
                i <= n,
                c <= i,
                c == live_count(self.subs@.take(i as int)),
            decreases n - i,
        {
            proof {
                assert(self.subs@.take(i + 1).drop_last() =~= self.subs@.take(i as int));
                assert(self.subs@.take(i + 1).last() == self.subs@[i as int]);
            }
            if self.subs[i].is_some() {
                c += 1;
            }
            i += 1;
        }
        proof {
            assert(self.subs@.take(n as int) =~= self.subs@);
        }
        c
    }
}

/// Fan-out: one publish reaches every live subscription. Whatever state a
/// live subscription was in, its next receive after the publish reports a
/// signal or a missed count — never "pending" and never "closed". The
/// publisher itself never waits: `publish` has no precondition about any
/// subscriber's state.
pub proof fn lemma_fan_out(subs: Seq<Option<SubState>>, cap: usize, closed: bool, i: int)
    requires
        1 <= cap,
        0 <= i < subs.len(),
        subs[i] is Some,
    ensures
        publish_all(subs, cap)[i] is Some,
        is_delivery(sub_recv_outcome(publish_all(subs, cap)[i]->0, closed)),
{
    let s = subs[i]->0;
    assert(publish_all(subs, cap)[i] == Some(publish_one(s, cap)));
}

/// Isolation: a publish changes each subscription by looking at that
/// subscription alone. A slow subscriber whose queue is full loses only
/// its own oldest signal (its missed count grows, its queue stays full),
/// while delivery to every other subscription is exactly what it would
/// have been anyway; and receiving or unsubscribing on one slot leaves
/// every other slot untouched.
pub proof fn lemma_isolation(subs: Seq<Option<SubState>>, cap: usize, i: int, j: int)
    requires
        1 <= cap,
        0 <= i < subs.len(),
        0 <= j < subs.len(),
        i != j,
        subs[i] is Some,
        subs[j] is Some,
    ensures
        publish_all(subs, cap).len() == subs.len(),
        forall|k: int| 0 <= k < subs.len() ==> ((#[trigger] publish_all(subs, cap)[k]) is Some
            <==> subs[k] is Some),
        publish_all(subs, cap)[j] == Some(publish_one(subs[j]->0, cap)),
        subs[i]->0.buffered >= cap ==> publish_all(subs, cap)[i]->0 == (SubState {
            buffered: subs[i]->0.buffered,
            missed: sat_inc(subs[i]->0.missed),
        }),
        subs.update(i, Some(sub_recv_next(subs[i]->0)))[j] == subs[j],
        subs.update(i, None)[j] == subs[j],
{
}

/// Clean shutdown: on a closed bus, a live subscription first drains what
/// it still holds — the missed count, then every buffered signal, in
/// order — and from then on every receive reports "closed"; it never
/// reports "pending" and no signal ever follows the first "closed".
pub proof fn lemma_clean_shutdown(s: SubState)
    ensures
        forall|n: nat|
            n < drain_steps(s) ==> is_delivery(#[trigger] sub_recv_outcome(sub_recv_iter(s, n), true)),
        forall|n: nat|
            n >= drain_steps(s) ==> (#[trigger] sub_recv_outcome(sub_recv_iter(s, n), true))
                == RecvOutcome::Closed,
{
    assert forall|n: nat| n < drain_steps(s) implies is_delivery(#[trigger] sub_recv_outcome(
        sub_recv_iter(s, n),
        true,
    )) by {
        lemma_drain_progress(s, n);
    }
    assert forall|n: nat| n >= drain_steps(s) implies (#[trigger] sub_recv_outcome(
        sub_recv_iter(s, n),
        true,
    )) == RecvOutcome::Closed by {
        lemma_drain_progress(s, n);
    }
}

/// After `n` receives a subscription has `n` fewer steps left to drain,
/// and it is empty exactly when nothing is left.
pub proof fn lemma_drain_progress(s: SubState, n: nat)
    ensures
        drain_steps(sub_recv_iter(s, n)) == if n <= drain_steps(s) {
            (drain_steps(s) - n) as nat
        } else {
            0nat
        },
    decreases n,
{
    if n > 0 {
        lemma_drain_progress(s, (n - 1) as nat);
    }
}

/// Dropping the entry in one slot lowers the live count by one when the
/// slot was live, and leaves every other slot untouched.
pub proof fn lemma_live_count_update(subs: Seq<Option<SubState>>, i: int, v: Option<SubState>)
    requires
        0 <= i < subs.len(),
        subs[i] is Some,
        v is None,
    ensures
        live_count(subs.update(i, v)) + 1 == live_count(subs),
    decreases subs.len(),
{
    if i == subs.len() - 1 {
        assert(subs.update(i, v).drop_last() =~= subs.drop_last());
    } else {
        assert(subs.update(i, v).drop_last() =~= subs.drop_last().update(i, v));
        lemma_live_count_update(subs.drop_last(), i, v);
    }
}

} // verus!
