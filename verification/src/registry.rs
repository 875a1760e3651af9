//! Bookkeeping of live websocket connections: a mutually-exclusive owner
//! inserts an id when a connection opens and removes it when the connection
//! closes, so that the registry always holds exactly the open connections.

use vstd::prelude::*;
use vstd::seq_lib::*;

verus! {

/// The set of currently-open websocket connections, keyed by connection id.
///
/// The registry is pure bookkeeping: reload delivery rides the broadcast
/// hub, not this map. Its one obligation is consistency — after any run of
/// connects and disconnects it holds exactly the still-open ids, each once.
pub struct ConnectionRegistry {
    ids: Vec<u128>,
}

impl View for ConnectionRegistry {
    type V = Set<u128>;

    closed spec fn view(&self) -> Set<u128> {
        self.ids@.to_set()
    }
}

impl ConnectionRegistry {
    /// No id is recorded twice.
    pub closed spec fn wf(&self) -> bool {
        self.ids@.no_duplicates()
    }

    /// An empty registry: no connection is open at startup.
    pub fn new() -> (r: ConnectionRegistry)
        ensures
            r.wf(),
            r@ == Set::<u128>::empty(),
    {
        let r = ConnectionRegistry { ids: Vec::new() };
        proof {
            assert(r.ids@.to_set() =~= Set::<u128>::empty());
        }
        r
    }

    /// Whether `id` is registered.
    pub fn contains(&self, id: u128) -> (r: bool)
        ensures
            r == self@.contains(id),
    {
        let mut i: usize = 0;
        while i < self.ids.len()
            invariant
                i <= self.ids@.len(),
                forall|j: int| 0 <= j < i ==> self.ids@[j] != id,
            decreases self.ids@.len() - i,
        {
            if self.ids[i] == id {
                proof {
                    assert(self.ids@.to_set().contains(id)) by {
                        assert(self.ids@.contains(id));
                    }
                }
                return true;
            }
            i += 1;
        }
        proof {
            assert(!self.ids@.contains(id));
        }
        false
    }

    /// The number of open connections.
    pub fn len(&self) -> (r: usize)
        requires
            self.wf(),
        ensures
            r == self@.len(),
    {
        proof {
            self.ids@.unique_seq_to_set();
        }
        self.ids.len()
    }

    /// Record a newly-opened connection. Reports whether the id was new;
    /// an id already present is left alone, never duplicated.
    pub fn insert(&mut self, id: u128) -> (added: bool)
        requires
            old(self).wf(),
        ensures
            final(self).wf(),
            final(self)@ == old(self)@.insert(id),
            added == !old(self)@.contains(id),
    {
        if self.contains(id) {
            proof {
                assert(old(self)@.insert(id) =~= old(self)@);
            }
            false
        } else {
            self.ids.push(id);
            proof {
                assert(self.ids@ == old(self).ids@.push(id));
                assert(self.ids@.drop_last() == old(self).ids@);
                assert(self.ids@.to_set() =~= old(self).ids@.to_set().insert(id)) by {
                    Seq::lemma_to_set_insert_commutes(old(self).ids@, id);
                    assert(old(self).ids@ + seq![id] =~= self.ids@);
                }
            }
            true
        }
    }

    /// Drop a closed connection. Reports whether the id was present; a
    /// remove of an absent id leaves the registry unchanged.
    pub fn remove(&mut self, id: u128) -> (removed: bool)
        requires
            old(self).wf(),
        ensures
            final(self).wf(),
            final(self)@ == old(self)@.remove(id),
            removed == old(self)@.contains(id),
    {
        let mut i: usize = 0;
        while i < self.ids.len()
            invariant
                i <= self.ids@.len(),
                self.ids@ == old(self).ids@,
                old(self).wf(),
                forall|j: int| 0 <= j < i ==> self.ids@[j] != id,
            decreases self.ids@.len() - i,
        {
            if self.ids[i] == id {
                self.ids.remove(i);
                proof {
                    lemma_remove_of_unique_keeps_rest(old(self).ids@, i as int, id);
                }
                return true;
            }
            i += 1;
        }
        proof {
            assert(!self.ids@.contains(id));
            assert(old(self)@.remove(id) =~= old(self)@);
        }
        false
    }
}

/// Removing position `i` (holding `id`) from a duplicate-free sequence
/// removes exactly `id` from the set of its elements.
proof fn lemma_remove_of_unique_keeps_rest(s: Seq<u128>, i: int, id: u128)
    requires
        s.no_duplicates(),
        0 <= i < s.len(),
        s[i] == id,
    ensures
        s.remove(i).no_duplicates(),
        s.remove(i).to_set() =~= s.to_set().remove(id),
{
    let t = s.remove(i);
    assert forall|x: u128| t.to_set().contains(x) implies s.to_set().remove(id).contains(
        x,
    ) by {
        let j = choose|j: int| 0 <= j < t.len() && t[j] == x;
        if j < i {
            assert(s[j] == x);
        } else {
            assert(s[j + 1] == x);
        }
        assert(s.to_set().contains(x));
        assert(x != id);
    }
    assert forall|x: u128| s.to_set().remove(id).contains(x) implies t.to_set().contains(
        x,
    ) by {
        let j = choose|j: int| 0 <= j < s.len() && s[j] == x;
        if j < i {
            assert(t[j] == x);
        } else {
            assert(j != i);
            assert(t[j - 1] == x);
        }
        assert(t.contains(x));
    }
}

/// Registry consistency across a connect/disconnect cycle: registering a
/// fresh id and later deregistering it restores the registry exactly, and
/// the size tracks the number of open connections at every step.
pub proof fn lemma_registry_cycle(open_ids: Set<u128>, id: u128)
    requires
        open_ids.finite(),
        !open_ids.contains(id),
    ensures
        open_ids.insert(id).remove(id) =~= open_ids,
        open_ids.insert(id).len() == open_ids.len() + 1,
        open_ids.insert(id).remove(id).len() == open_ids.len(),
{
}

} // verus!
