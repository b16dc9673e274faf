//! Single-producer, multi-consumer distribution of snapshots.
//!
//! The broadcaster retains the most recent snapshots in a bounded
//! ring and stamps each published snapshot with a strictly increasing
//! sequence number. Every subscription carries its own cursor into
//! that sequence, so differently paced consumers never disturb one
//! another or the producer: a consumer that falls behind the ring is
//! told how much it missed and resumes from the oldest retained
//! snapshot.

use crate::snapshot::Snapshot;
use crate::snapshot::wf_loads;
use vstd::prelude::*;

verus! {

/// Mathematical model of a broadcaster: the retained window of the
/// published history, how many snapshots were ever published, the
/// ring capacity, whether the feed has shut down, and how many
/// subscriptions are registered.
#[verifier::ext_equal]
pub struct BroadcastModel {
    /// The retained snapshots, oldest first; the last one is the most
    /// recently published.
    pub retained: Seq<Seq<u32>>,
    /// Snapshots ever published; also the sequence number that the
    /// next published snapshot will carry.
    pub count: nat,
    /// Most snapshots retained at once.
    pub capacity: nat,
    /// A closed broadcaster accepts no further publishes; consumers
    /// that have drained the retained window are told so.
    pub closed: bool,
    /// Currently registered subscriptions.
    pub subscribers: nat,
}

/// The broadcaster's invariant: the ring holds the `capacity` most
/// recent snapshots (all of them while fewer were published), and
/// every retained snapshot is a well-formed measurement.
pub open spec fn model_inv(m: BroadcastModel) -> bool {
    &&& m.capacity >= 1
    &&& m.retained.len() == (if m.count <= m.capacity {
        m.count
    } else {
        m.capacity
    })
    &&& forall|i: int| 0 <= i < m.retained.len() ==> wf_loads(#[trigger] m.retained[i])
}

/// Sequence number of the oldest snapshot still retained.
pub open spec fn oldest_retained(m: BroadcastModel) -> nat {
    (m.count - m.retained.len()) as nat
}

/// The sequence number a receive at cursor `c` delivers, if it
/// delivers one: the cursor itself, whenever that snapshot is still
/// retained.
pub open spec fn delivered(m: BroadcastModel, c: nat) -> Option<nat> {
    if oldest_retained(m) <= c && c < m.count {
        Some(c)
    } else {
        None
    }
}

/// Where a receive at cursor `c` leaves the cursor: at the oldest
/// retained sequence number after a lag, one past a delivery, and
/// unmoved when there is nothing new.
pub open spec fn cursor_after(m: BroadcastModel, c: nat) -> nat {
    if c < oldest_retained(m) {
        oldest_retained(m)
    } else if c < m.count {
        (c + 1) as nat
    } else {
        c
    }
}

/// How many snapshots a lagging cursor `c` has missed for good.
pub open spec fn missed_of(m: BroadcastModel, c: nat) -> nat {
    (oldest_retained(m) - c) as nat
}

/// The cursor after `k` consecutive receives against an unchanging
/// broadcaster.
pub open spec fn cursor_iterate(m: BroadcastModel, c: nat, k: nat) -> nat
    decreases k,
{
    if k == 0 {
        c
    } else {
        cursor_iterate(m, cursor_after(m, c), (k - 1) as nat)
    }
}

/// Publishing appends the snapshot to the retained window, dropping
/// the oldest retained snapshot once the ring is full, and advances
/// the count.
pub open spec fn publish_model(m: BroadcastModel, s: Seq<u32>) -> BroadcastModel {
    BroadcastModel {
        retained: if m.retained.len() < m.capacity {
            m.retained.push(s)
        } else {
            m.retained.skip(1).push(s)
        },
        count: (m.count + 1) as nat,
        ..m
    }
}

/// Registering a subscription touches nothing but the subscriber
/// count.
pub open spec fn subscribe_model(m: BroadcastModel) -> BroadcastModel {
    BroadcastModel { subscribers: (m.subscribers + 1) as nat, ..m }
}

/// Deregistering a subscription touches nothing but the subscriber
/// count.
pub open spec fn unsubscribe_model(m: BroadcastModel) -> BroadcastModel {
    BroadcastModel { subscribers: (m.subscribers - 1) as nat, ..m }
}

/// Shutting down only sets the closed flag; the retained window stays
/// readable.
pub open spec fn close_model(m: BroadcastModel) -> BroadcastModel {
    BroadcastModel { closed: true, ..m }
}

/// Snapshot number `s_no` can still be observed from cursor `c`: it
/// is retained and the cursor has not passed it.
pub open spec fn deliverable(m: BroadcastModel, c: nat, s_no: nat) -> bool {
    &&& oldest_retained(m) <= s_no < m.count
    &&& c <= s_no
}

/// What one receive call reports to the consumer.
pub enum RecvOutcome {
    /// The next snapshot in sequence, stamped with its sequence
    /// number.
    Received { seq: u64, snapshot: Snapshot },
    /// The consumer fell behind the ring; `missed` snapshots were
    /// skipped for good and the cursor now rests on the oldest
    /// retained snapshot.
    Lagged { missed: u64 },
    /// Nothing new has been published yet; the consumer may suspend
    /// and try again once the producer has run.
    Pending,
    /// The broadcaster has shut down and everything retained was
    /// already delivered.
    Closed,
}

/// The distribution point between one producer and any number of
/// consumers.
pub struct Broadcaster {
    capacity: usize,
    ring: Vec<Snapshot>,
    published: u64,
    closed: bool,
    live_subs: u64,
}

/// A consumer's registration in the broadcaster: nothing but a cursor
/// holding the sequence number of the next snapshot to deliver.
pub struct Subscription {
    cursor: u64,
}

impl View for Subscription {
    type V = nat;

    closed spec fn view(&self) -> nat {
        self.cursor as nat
    }
}

impl View for Broadcaster {
    type V = BroadcastModel;

    closed spec fn view(&self) -> BroadcastModel {
        BroadcastModel {
            retained: self.ring@.map_values(|s: Snapshot| s@),
            count: self.published as nat,
            capacity: self.capacity as nat,
            closed: self.closed,
            subscribers: self.live_subs as nat,
        }
    }
}

impl Broadcaster {
    /// The broadcaster always satisfies its model invariant.
    pub open spec fn inv(&self) -> bool {
        model_inv(self@)
    }

    /// A fresh broadcaster that will retain the `capacity` most
    /// recent snapshots: nothing published, nobody subscribed, open.
    pub fn new(capacity: usize) -> (b: Broadcaster)
        requires
            capacity >= 1,
        ensures
            b.inv(),
            b@ == (BroadcastModel {
                retained: Seq::<Seq<u32>>::empty(),
                count: 0,
                capacity: capacity as nat,
                closed: false,
                subscribers: 0,
            }),
    {
        let b = Broadcaster { capacity, ring: Vec::new(), published: 0, closed: false, live_subs: 0 };
        proof {
            assert(b@.retained =~= Seq::<Seq<u32>>::empty());
        }
        b
    }

    /// Registers a new consumer. Its cursor starts at the sequence
    /// number the next publish will use, so it observes exactly the
    /// snapshots published after this call.
    pub fn subscribe(&mut self) -> (s: Subscription)
        requires
            old(self).inv(),
            old(self)@.subscribers < u64::MAX as nat,
        ensures
            final(self).inv(),
            final(self)@ == subscribe_model(old(self)@),
            s@ == old(self)@.count,
    {
        self.live_subs = self.live_subs + 1;
        let s = Subscription { cursor: self.published };
        proof {
            assert(final(self)@ =~= subscribe_model(old(self)@));
        }
        s
    }

    /// Accepts one snapshot from the producer: appends it to the
    /// ring, dropping the oldest retained snapshot if the ring is
    /// full, and advances the sequence counter. Succeeds whatever the
    /// number of subscribers — with zero the snapshot is simply
    /// retained until it falls out of the ring — and does no
    /// per-subscriber work at all. Returns how many subscriptions are
    /// currently registered.
    pub fn publish(&mut self, snapshot: Snapshot) -> (receivers: u64)
        requires
            old(self).inv(),
            snapshot.wf(),
            !old(self)@.closed,
            old(self)@.count < u64::MAX as nat,
        ensures
            final(self).inv(),
            final(self)@ == publish_model(old(self)@, snapshot@),
            receivers == old(self)@.subscribers,
    {
        let ghost pre = self@;
        if self.ring.len() >= self.capacity {
            let _ = self.ring.remove(0);
            proof {
                assert(self.ring@ =~= old(self).ring@.skip(1));
            }
        }
        self.ring.push(snapshot);
        self.published = self.published + 1;
        proof {
            if pre.retained.len() < pre.capacity {
                assert(final(self)@.retained =~= pre.retained.push(snapshot@));
            } else {
                assert(final(self)@.retained =~= pre.retained.skip(1).push(snapshot@));
            }
            assert(final(self)@ =~= publish_model(pre, snapshot@));
        }
        self.live_subs
    }

    /// One consumer-side read. Delivers the next snapshot in sequence
    /// when the cursor is caught up with the ring; reports how much
    /// was missed — moving the cursor to the oldest retained snapshot
    /// — when the consumer fell behind it; reports a shutdown once a
    /// closed broadcaster has nothing left for this cursor; and
    /// otherwise asks the consumer to wait. Never touches the
    /// broadcaster or any other subscription.
    pub fn receive(&self, sub: &mut Subscription) -> (r: RecvOutcome)
        requires
            self.inv(),
            old(sub)@ <= self@.count,
        ensures
            final(sub)@ == cursor_after(self@, old(sub)@),
            final(sub)@ <= self@.count,
            old(sub)@ < oldest_retained(self@) ==> (r matches RecvOutcome::Lagged { missed }
                && missed as nat == missed_of(self@, old(sub)@) && missed >= 1),
            delivered(self@, old(sub)@) matches Some(s_no) ==> (r matches RecvOutcome::Received {
                seq,
                snapshot,
            } && seq as nat == s_no && snapshot@ == self@.retained[s_no - oldest_retained(self@)]
                && snapshot.wf()),
            old(sub)@ >= self@.count && self@.closed ==> r is Closed,
            old(sub)@ >= self@.count && !self@.closed ==> r is Pending,
    {
        let oldest: u64 = self.published - self.ring.len() as u64;
        if sub.cursor < oldest {
            let missed = oldest - sub.cursor;
            sub.cursor = oldest;
            RecvOutcome::Lagged { missed }
        } else if sub.cursor < self.published {
            assert(sub.cursor - oldest < self.ring.len() as u64);
            let idx = (sub.cursor - oldest) as usize;
            let snapshot = self.ring[idx].clone();
            let seq = sub.cursor;
            sub.cursor = sub.cursor + 1;
            RecvOutcome::Received { seq, snapshot }
        } else if self.closed {
            RecvOutcome::Closed
        } else {
            RecvOutcome::Pending
        }
    }

    /// Removes one registration. Only the subscriber count changes:
    /// the retained window, the sequence counter and every other
    /// subscription's cursor are untouched. Taking the subscription
    /// by value, it can be deregistered at most once.
    pub fn unsubscribe(&mut self, sub: Subscription)
        requires
            old(self).inv(),
            old(self)@.subscribers >= 1,
        ensures
            final(self).inv(),
            final(self)@ == unsubscribe_model(old(self)@),
    {
        let Subscription { cursor: _ } = sub;
        self.live_subs = self.live_subs - 1;
        proof {
            assert(final(self)@ =~= unsubscribe_model(old(self)@));
        }
    }

    /// Shuts the feed down. Consumers may still drain the retained
    /// window; after that they observe the shutdown.
    pub fn close(&mut self)
        requires
            old(self).inv(),
        ensures
            final(self).inv(),
            final(self)@ == close_model(old(self)@),
    {
        self.closed = true;
        proof {
            assert(final(self)@ =~= close_model(old(self)@));
        }
    }

    /// How many snapshots were ever published; also the sequence
    /// number the next publish will use.
    pub fn sequence_count(&self) -> (n: u64)
        ensures
            n as nat == self@.count,
    {
        self.published
    }

    /// The most snapshots retained at once.
    pub fn ring_capacity(&self) -> (c: usize)
        ensures
            c as nat == self@.capacity,
    {
        self.capacity
    }

    /// How many subscriptions are currently registered.
    pub fn subscriber_count(&self) -> (n: u64)
        ensures
            n as nat == self@.subscribers,
    {
        self.live_subs
    }

    /// Whether the feed has shut down.
    pub fn is_closed(&self) -> (b: bool)
        ensures
            b == self@.closed,
    {
        self.closed
    }
}

impl Subscription {
    /// The sequence number of the next snapshot this subscription
    /// will be offered.
    pub fn next_sequence(&self) -> (c: u64)
        ensures
            c as nat == self@,
    {
        self.cursor
    }
}

/// Publishing a snapshot makes it deliverable to every subscription
/// registered before the publish, however many there are: the new
/// snapshot becomes the newest retained one, it carries the sequence
/// number that was the count before the publish, and every cursor at
/// most that count can still reach it.
pub proof fn lemma_publish_deliverable(m: BroadcastModel, s: Seq<u32>, c: nat)
    requires
        model_inv(m),
        wf_loads(s),
        c <= m.count,
    ensures
        model_inv(publish_model(m, s)),
        publish_model(m, s).retained.last() == s,
        deliverable(publish_model(m, s), c, m.count),
{
}

/// While the broadcaster does not change, a subscription whose cursor
/// can still reach a retained snapshot reaches exactly that snapshot
/// after finitely many receives: the cursor first jumps to the oldest
/// retained sequence number if it lagged, then advances one delivery
/// at a time.
pub proof fn lemma_deliverable_reached(m: BroadcastModel, c: nat, s_no: nat)
    requires
        model_inv(m),
        deliverable(m, c, s_no),
    ensures
        delivered(m, s_no) == Some(s_no),
        exists|k: nat| cursor_iterate(m, c, k) == s_no,
    decreases s_no - c,
{
    if c == s_no {
        assert(cursor_iterate(m, c, 0) == s_no);
    } else {
        let c2 = cursor_after(m, c);
        assert(c < c2 <= s_no);
        lemma_deliverable_reached(m, c2, s_no);
        let k = choose|k: nat| cursor_iterate(m, c2, k) == s_no;
        assert(cursor_iterate(m, c, (k + 1) as nat) == s_no);
    }
}

/// One receive never moves a cursor backward.
pub proof fn lemma_cursor_monotonic(m: BroadcastModel, c: nat)
    ensures
        c <= cursor_after(m, c),
{
}

/// The sequence numbers one subscription observes strictly increase:
/// a delivery hands out the cursor itself as sequence number and
/// leaves the cursor just past it, and no receive moves a cursor
/// backward; hence a later delivery, against whatever state the
/// broadcaster has reached by then, carries a strictly larger
/// sequence number.
pub proof fn lemma_delivery_strictly_increasing(
    m1: BroadcastModel,
    c1: nat,
    m2: BroadcastModel,
    c2: nat,
    s1: nat,
    s2: nat,
)
    requires
        delivered(m1, c1) == Some(s1),
        delivered(m2, c2) == Some(s2),
        cursor_after(m1, c1) <= c2,
    ensures
        s1 < s2,
{
}

/// A subscription that has fallen more than `capacity` snapshots
/// behind observes a lag of at least one skipped snapshot, its cursor
/// jumps to the oldest retained sequence number, and the receive
/// after that delivers exactly the oldest retained snapshot; from
/// there delivery resumes in strictly increasing order.
pub proof fn lemma_lag_then_oldest(m: BroadcastModel, c: nat)
    requires
        model_inv(m),
        m.count > c + m.capacity,
    ensures
        c < oldest_retained(m),
        missed_of(m, c) >= 1,
        cursor_after(m, c) == oldest_retained(m),
        delivered(m, oldest_retained(m)) == Some(oldest_retained(m)),
{
}

/// The state a fresh broadcaster reaches after publishing the whole
/// history `h`, oldest first.
pub open spec fn publish_all(m: BroadcastModel, h: Seq<Seq<u32>>) -> BroadcastModel
    decreases h.len(),
{
    if h.len() == 0 {
        m
    } else {
        publish_model(publish_all(m, h.drop_last()), h.last())
    }
}

/// The ring is an honest window onto the published history: after a
/// fresh broadcaster has published the history `h`, it retains the
/// (at most `capacity`) most recent snapshots of `h`, and the
/// snapshot retained under sequence number `s` is exactly the `s`-th
/// snapshot ever published.
pub proof fn lemma_retained_is_history_tail(m: BroadcastModel, h: Seq<Seq<u32>>)
    requires
        m.capacity >= 1,
        m.count == 0,
        m.retained.len() == 0,
    ensures
        publish_all(m, h).count == h.len(),
        publish_all(m, h).capacity == m.capacity,
        publish_all(m, h).retained.len() == (if h.len() <= m.capacity {
            h.len()
        } else {
            m.capacity
        }),
        forall|i: int|
            0 <= i < publish_all(m, h).retained.len() ==> publish_all(m, h).retained[i] == h[
                oldest_retained(publish_all(m, h)) + i
            ],
    decreases h.len(),
{
    if h.len() == 0 {
    } else {
        let prefix = h.drop_last();
        lemma_retained_is_history_tail(m, prefix);
        let p0 = publish_all(m, prefix);
        let p = publish_model(p0, h.last());
        assert(forall|i: int| 0 <= i < prefix.len() ==> prefix[i] == h[i]);
        assert(forall|i: int|
            0 <= i < p.retained.len() ==> p.retained[i] == h[oldest_retained(p) + i]) by {
            if p0.retained.len() < p0.capacity {
                assert(p.retained =~= p0.retained.push(h.last()));
            } else {
                assert(p.retained =~= p0.retained.skip(1).push(h.last()));
            }
        }
    }
}

/// What a caught-up subscription is delivered is authentic: after a
/// fresh broadcaster has published the history `h`, the snapshot
/// retained under sequence number `s` — the one `receive` delivers
/// to a cursor resting at `s` — is exactly `h[s]`.
pub proof fn lemma_delivery_is_authentic(m: BroadcastModel, h: Seq<Seq<u32>>, s_no: nat)
    requires
        m.capacity >= 1,
        m.count == 0,
        m.retained.len() == 0,
        delivered(publish_all(m, h), s_no) is Some,
    ensures
        publish_all(m, h).retained[s_no - oldest_retained(publish_all(m, h))] == h[s_no as int],
{
    lemma_retained_is_history_tail(m, h);
}

/// Deregistering one subscription is invisible to every other one:
/// only the subscriber count changes, so what any other cursor is
/// delivered, what lag it is told and where it moves are all exactly
/// as before.
pub proof fn lemma_unsubscribe_isolated(m: BroadcastModel, c: nat)
    requires
        m.subscribers >= 1,
    ensures
        unsubscribe_model(m).retained == m.retained,
        unsubscribe_model(m).count == m.count,
        unsubscribe_model(m).closed == m.closed,
        delivered(unsubscribe_model(m), c) == delivered(m, c),
        cursor_after(unsubscribe_model(m), c) == cursor_after(m, c),
        missed_of(unsubscribe_model(m), c) == missed_of(m, c),
{
}

/// Publishing does not depend on the subscribers: it is permitted
/// with zero of them, and two broadcasters that differ only in their
/// subscriber count retain the same history after publishing the same
/// snapshot.
pub proof fn lemma_publish_independent_of_subscribers(
    m1: BroadcastModel,
    m2: BroadcastModel,
    s: Seq<u32>,
)
    requires
        m1.retained == m2.retained,
        m1.count == m2.count,
        m1.capacity == m2.capacity,
        m1.closed == m2.closed,
    ensures
        publish_model(m1, s).retained == publish_model(m2, s).retained,
        publish_model(m1, s).count == publish_model(m2, s).count,
        publish_model(m1, s).subscribers == m1.subscribers,
{
}

} // verus!
