//! The reload broadcast hub: one publisher (the change notifier), any number
//! of subscribers (one per websocket connection). Each subscriber owns a
//! bounded queue of pending reload signals; publishing never blocks and
//! never fails — a full queue coalesces the signal instead, which is sound
//! because a reload signal carries no payload.
//!
//! [`BroadcastHub`] is the verified model of the process-wide channel: in a
//! running process the asynchronous channel at the edge delivers the
//! signals, and this hub is kept alongside it, subscribed and published in
//! step, so the fan-out contracts below speak for the delivery semantics.
//! [`ws_step`] fixes the per-event decisions of one subscriber's session.

use vstd::prelude::*;

verus! {

/// What a publish does to one subscriber's queue: one more pending signal,
/// saturating at the hub's capacity.
pub open spec fn bumped(pending: nat, capacity: nat) -> nat {
    if pending + 1 <= capacity {
        pending + 1
    } else {
        capacity
    }
}

/// What a publish does to the whole hub: every subscriber's queue is bumped,
/// no subscriber is added or dropped.
pub open spec fn published(subs: Seq<(u128, nat)>, capacity: nat) -> Seq<(u128, nat)> {
    Seq::new(subs.len(), |i: int| (subs[i].0, bumped(subs[i].1, capacity)))
}

/// The ids of the subscribers, in subscription order.
pub open spec fn sub_ids(subs: Seq<(u128, nat)>) -> Seq<u128> {
    subs.map_values(|s: (u128, nat)| s.0)
}

/// How `sub_ids` indexes into the subscriber sequence.
proof fn lemma_ids_index(s: Seq<(u128, nat)>)
    ensures
        sub_ids(s).len() == s.len(),
        forall|j: int| 0 <= j < s.len() ==> #[trigger] sub_ids(s)[j] == s[j].0,
{
}

/// With duplicate-free ids, the subscriber at `i` is the only one with its id.
proof fn lemma_ids_unique_at(s: Seq<(u128, nat)>, i: int, id: u128)
    requires
        sub_ids(s).no_duplicates(),
        0 <= i < s.len(),
        s[i].0 == id,
    ensures
        forall|j: int| 0 <= j < s.len() && j != i ==> #[trigger] s[j].0 != id,
        sub_ids(s).contains(id),
{
    lemma_ids_index(s);
    assert forall|j: int| 0 <= j < s.len() && j != i implies #[trigger] s[j].0 != id by {
        assert(sub_ids(s)[j] == s[j].0);
        assert(sub_ids(s)[i] == id);
    }
    assert(sub_ids(s)[i] == id);
}

/// An id held by no subscriber is not among the subscriber ids.
proof fn lemma_ids_absent(s: Seq<(u128, nat)>, id: u128)
    requires
        forall|j: int| 0 <= j < s.len() ==> #[trigger] s[j].0 != id,
    ensures
        !sub_ids(s).contains(id),
{
    lemma_ids_index(s);
    if sub_ids(s).contains(id) {
        let j = choose|j: int| 0 <= j < sub_ids(s).len() && sub_ids(s)[j] == id;
        assert(s[j].0 == id);
    }
}

/// The broadcast hub. Its view is the sequence of subscribers, each a pair
/// of connection id and number of pending reload signals.
pub struct BroadcastHub {
    capacity: usize,
    subs: Vec<(u128, usize)>,
}

impl View for BroadcastHub {
    type V = Seq<(u128, nat)>;

    closed spec fn view(&self) -> Seq<(u128, nat)> {
        self.subs@.map_values(|s: (u128, usize)| (s.0, s.1 as nat))
    }
}

impl BroadcastHub {
    /// The fixed queue bound the hub was created with.
    pub closed spec fn capacity_spec(&self) -> nat {
        self.capacity as nat
    }

    /// Each subscriber appears once and no queue exceeds the capacity.
    pub closed spec fn wf(&self) -> bool {
        &&& self.capacity >= 1
        &&& sub_ids(self@).no_duplicates()
        &&& forall|i: int| 0 <= i < self@.len() ==> #[trigger] self@[i].1 <= self.capacity_spec()
    }

    /// A hub with no subscribers and the given queue bound.
    pub fn new(capacity: usize) -> (r: BroadcastHub)
        requires
            capacity >= 1,
        ensures
            r.wf(),
            r@ == Seq::<(u128, nat)>::empty(),
            r.capacity_spec() == capacity,
    {
        let r = BroadcastHub { capacity, subs: Vec::new() };
        proof {
            assert(r@ =~= Seq::<(u128, nat)>::empty());
            assert(sub_ids(r@) =~= Seq::<u128>::empty());
        }
        r
    }

    /// Index of the subscriber with the given id, if any.
    fn find(&self, id: u128) -> (r: Option<usize>)
        ensures
            match r {
                Some(i) => i < self@.len() && self@[i as int].0 == id,
                None => forall|i: int| 0 <= i < self@.len() ==> self@[i].0 != id,
            },
    {
        let mut i: usize = 0;
        while i < self.subs.len()
            invariant
                i <= self.subs@.len(),
                self@.len() == self.subs@.len(),
                forall|j: int| 0 <= j < self@.len() ==> #[trigger] self@[j].0 == self.subs@[j].0,
                forall|j: int| 0 <= j < i ==> #[trigger] self.subs@[j].0 != id,
            decreases self.subs@.len() - i,
        {
            if self.subs[i].0 == id {
                return Some(i);
            }
            i += 1;
        }
        None
    }

    /// Subscribe a new connection. A fresh subscriber starts with an empty
    /// queue: signals published before the subscription are not replayed.
    /// An id already subscribed is left alone.
    pub fn subscribe(&mut self, id: u128) -> (added: bool)
        requires
            old(self).wf(),
        ensures
            final(self).wf(),
            final(self).capacity_spec() == old(self).capacity_spec(),
            added == !sub_ids(old(self)@).contains(id),
            added ==> final(self)@ == old(self)@.push((id, 0nat)),
            !added ==> final(self)@ == old(self)@,
    {
        match self.find(id) {
            Some(i) => {
                proof {
                    lemma_ids_unique_at(old(self)@, i as int, id);
                }
                false
            },
            None => {
                proof {
                    lemma_ids_absent(old(self)@, id);
                }
                self.subs.push((id, 0));
                proof {
                    lemma_ids_index(self@);
                    assert(self@ =~= old(self)@.push((id, 0nat)));
                    assert(sub_ids(self@) =~= sub_ids(old(self)@).push(id));
                }
                true
            },
        }
    }

    /// Publish one reload signal to every subscriber. Never blocks and never
    /// fails: a subscriber whose queue is full keeps a full queue (the
    /// signal coalesces with the pending ones).
    pub fn publish(&mut self)
        requires
            old(self).wf(),
        ensures
            final(self).wf(),
            final(self).capacity_spec() == old(self).capacity_spec(),
            final(self)@ == published(old(self)@, old(self).capacity_spec()),
    {
        let mut out: Vec<(u128, usize)> = Vec::new();
        let mut i: usize = 0;
        while i < self.subs.len()
            invariant
                i <= self.subs@.len(),
                self == old(self),
                old(self).wf(),
                out@.len() == i,
                forall|j: int|
                    0 <= j < i ==> #[trigger] out@[j] == (
                        self.subs@[j].0,
                        if self.subs@[j].1 < self.capacity {
                            (self.subs@[j].1 + 1) as usize
                        } else {
                            self.capacity
                        },
                    ),
            decreases self.subs@.len() - i,
        {
            let (id, p) = self.subs[i];
            let bumped_p = if p < self.capacity {
                p + 1
            } else {
                self.capacity
            };
            out.push((id, bumped_p));
            i += 1;
        }
        self.subs = out;
        proof {
            assert(self@ =~= published(old(self)@, old(self).capacity_spec()));
            assert(sub_ids(self@) =~= sub_ids(old(self)@));
        }
    }

    /// Take one pending reload signal for the given subscriber. Returns true
    /// exactly when a signal was pending; only that subscriber's queue
    /// changes.
    pub fn recv(&mut self, id: u128) -> (got: bool)
        requires
            old(self).wf(),
        ensures
            final(self).wf(),
            final(self).capacity_spec() == old(self).capacity_spec(),
            got == exists|i: int|
                0 <= i < old(self)@.len() && old(self)@[i].0 == id && old(self)@[i].1 > 0,
            final(self)@.len() == old(self)@.len(),
            forall|i: int|
                0 <= i < old(self)@.len() ==> #[trigger] final(self)@[i] == (
                    if old(self)@[i].0 == id && old(self)@[i].1 > 0 {
                        (id, (old(self)@[i].1 - 1) as nat)
                    } else {
                        old(self)@[i]
                    }
                ),
    {
        match self.find(id) {
            Some(i) => {
                proof {
                    lemma_ids_unique_at(old(self)@, i as int, id);
                }
                let (id0, p) = self.subs[i];
                if p > 0 {
                    self.subs.remove(i);
                    self.subs.insert(i, (id0, p - 1));
                    proof {
                        lemma_ids_index(old(self)@);
                        lemma_ids_index(self@);
                        assert(self.subs@ =~= old(self).subs@.update(
                            i as int,
                            (id0, (p - 1) as usize),
                        ));
                        assert(sub_ids(self@) =~= sub_ids(old(self)@));
                        assert forall|j: int|
                            0 <= j < self@.len() implies #[trigger] self@[j].1
                            <= self.capacity_spec() by {
                            if j != i {
                                assert(self@[j] == old(self)@[j]);
                            }
                        }
                    }
                    true
                } else {
                    false
                }
            },
            None => {
                proof {
                    lemma_ids_absent(old(self)@, id);
                }
                false
            },
        }
    }

    /// Drop a subscriber when its connection closes. The queues of all other
    /// subscribers are untouched.
    pub fn unsubscribe(&mut self, id: u128) -> (removed: bool)
        requires
            old(self).wf(),
        ensures
            final(self).wf(),
            final(self).capacity_spec() == old(self).capacity_spec(),
            removed == sub_ids(old(self)@).contains(id),
            removed ==> exists|i: int|
                0 <= i < old(self)@.len() && old(self)@[i].0 == id && final(self)@ == old(
                    self,
                )@.remove(i),
            !removed ==> final(self)@ == old(self)@,
    {
        match self.find(id) {
            Some(i) => {
                proof {
                    lemma_ids_unique_at(old(self)@, i as int, id);
                }
                self.subs.remove(i);
                proof {
                    lemma_ids_index(old(self)@);
                    lemma_ids_index(self@);
                    assert(self@ =~= old(self)@.remove(i as int));
                    assert(sub_ids(self@) =~= sub_ids(old(self)@).remove(i as int));
                    let s = sub_ids(old(self)@);
                    let t = sub_ids(self@);
                    s.remove_ensures(i as int);
                    assert forall|a: int, b: int|
                        0 <= a < t.len() && 0 <= b < t.len() && a != b implies t[a] != t[b] by {
                        let a0: int = if a < i { a } else { a + 1 };
                        let b0: int = if b < i { b } else { b + 1 };
                        assert(t[a] == s[a0]);
                        assert(t[b] == s[b0]);
                    }
                }
                true
            },
            None => {
                proof {
                    lemma_ids_absent(old(self)@, id);
                }
                false
            },
        }
    }
}

/// What one websocket session observes: a frame from the client, the end of
/// the client's stream, a reload signal from the hub, the hub closing, or
/// the session having lagged behind the hub's bounded queue.
#[derive(Clone, Copy, Debug, PartialEq, Eq, Structural)]
pub enum WsEvent {
    Frame,
    StreamEnd,
    Signal,
    HubClosed,
    Lagged,
}

/// What the session does next: keep listening, push one reload message to
/// the client, or close down and deregister.
#[derive(Clone, Copy, Debug, PartialEq, Eq, Structural)]
pub enum WsAction {
    Continue,
    SendReload,
    Stop,
}

/// One step of a websocket session: client frames are drained unread and a
/// lagged queue is ridden out (the signal is coalescible), every hub signal
/// is forwarded as a reload message, and a closed stream or a closed hub
/// ends the session.
pub fn ws_step(event: WsEvent) -> (r: WsAction)
    ensures
        r == (match event {
            WsEvent::Frame | WsEvent::Lagged => WsAction::Continue,
            WsEvent::Signal => WsAction::SendReload,
            WsEvent::StreamEnd | WsEvent::HubClosed => WsAction::Stop,
        }),
{
    match event {
        WsEvent::Frame | WsEvent::Lagged => WsAction::Continue,
        WsEvent::Signal => WsAction::SendReload,
        WsEvent::StreamEnd | WsEvent::HubClosed => WsAction::Stop,
    }
}

/// Broadcast fan-out: one published change reaches every subscriber. After a
/// publish, every subscriber — however far behind its queue was — has at
/// least one reload signal pending, and dropping one subscriber beforehand
/// neither disturbs the others' positions nor what the publish hands them.
pub proof fn lemma_broadcast_fanout(subs: Seq<(u128, nat)>, capacity: nat, dropped: int)
    requires
        capacity >= 1,
        0 <= dropped < subs.len(),
    ensures
        forall|i: int|
            0 <= i < subs.len() ==> #[trigger] published(subs, capacity)[i].1 >= 1,
        published(subs.remove(dropped), capacity) == published(subs, capacity).remove(dropped),
{
    assert(published(subs.remove(dropped), capacity) =~= published(subs, capacity).remove(
        dropped,
    ));
}

} // verus!
