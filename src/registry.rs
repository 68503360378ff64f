//! The registry: the connection handles that the dispatch services on each tick.
use vstd::prelude::*;

verus! {

/// The keys of the registered handles, without duplicates, together with the
/// next key to hand out and whether the periodic dispatch has been scheduled.
#[derive(Debug)]
pub struct Registry {
    entries: Vec<u64>,
    next_key: u64,
    timer_started: bool,
}

impl View for Registry {
    type V = Set<u64>;

    closed spec fn view(&self) -> Set<u64> {
        self.entries@.to_set()
    }
}

/// `s` with `key` taken out, the others keeping their order.
pub open spec fn without(s: Seq<u64>, key: u64) -> Seq<u64> {
    if s.contains(key) {
        s.remove(s.index_of(key))
    } else {
        s
    }
}

impl Registry {
    /// The keys in the order the dispatch visits them.
    pub closed spec fn order(&self) -> Seq<u64> {
        self.entries@
    }

    /// The next key that [`Registry::fresh_key`] hands out.
    pub closed spec fn next_key_spec(&self) -> u64 {
        self.next_key
    }

    /// Whether the periodic dispatch has been scheduled.
    pub closed spec fn timer_started_spec(&self) -> bool {
        self.timer_started
    }

    /// No key is registered twice, and every registered key was handed out.
    pub closed spec fn wf(&self) -> bool {
        &&& self.entries@.no_duplicates()
        &&& forall|i: int| 0 <= i < self.entries@.len() ==> self.entries@[i] < self.next_key
    }

    /// A well-formed registry visits each registered key exactly once, and
    /// every registered key is below the next key to hand out.
    pub proof fn lemma_order(&self)
        requires
            self.wf(),
        ensures
            self.order().no_duplicates(),
            self.order().to_set() == self@,
            forall|k: u64| #[trigger] self@.contains(k) ==> k < self.next_key_spec(),
    {
        assert forall|k: u64| #[trigger] self@.contains(k) implies k < self.next_key_spec() by {
            let i = self.entries@.index_of(k);
        }
    }

    /// An empty registry with no dispatch scheduled.
    pub fn new() -> (r: Registry)
        ensures
            r.wf(),
            r@ == Set::<u64>::empty(),
            r.next_key_spec() == 0,
            !r.timer_started_spec(),
    {
        let r = Registry { entries: Vec::new(), next_key: 0, timer_started: false };
        assert(r.entries@ =~= Seq::<u64>::empty());
        r
    }

    /// The number of registered handles.
    pub fn len(&self) -> (r: usize)
        requires
            self.wf(),
        ensures
            r == self@.len(),
    {
        proof {
            self.entries@.unique_seq_to_set();
        }
        self.entries.len()
    }

    /// Whether a key can still be handed out.
    pub fn has_room(&self) -> (r: bool)
        ensures
            r == (self.next_key_spec() < u64::MAX),
    {
        self.next_key < u64::MAX
    }

    /// Hands out a key that no handle of this registry has had.
    pub fn fresh_key(&mut self) -> (r: u64)
        requires
            old(self).wf(),
            old(self).next_key_spec() < u64::MAX,
        ensures
            final(self).wf(),
            r == old(self).next_key_spec(),
            !old(self)@.contains(r),
            final(self).next_key_spec() == r + 1,
            final(self)@ == old(self)@,
            final(self).order() == old(self).order(),
            final(self).timer_started_spec() == old(self).timer_started_spec(),
    {
        proof {
            self.lemma_order();
        }
        let k = self.next_key;
        self.next_key = k + 1;
        k
    }

    /// Whether a key is registered.
    pub fn contains(&self, key: u64) -> (r: bool)
        ensures
            r == self@.contains(key),
    {
        let mut i: usize = 0;
        while i < self.entries.len()
            invariant
                0 <= i <= self.entries@.len(),
                forall|j: int| 0 <= j < i ==> self.entries@[j] != key,
            decreases self.entries@.len() - i,
        {
            if self.entries[i] == key {
                return true;
            }
            i = i + 1;
        }
        false
    }

    /// Registers a key handed out by this registry, unless it is there already.
    /// Returns whether it was added.
    pub fn insert(&mut self, key: u64) -> (r: bool)
        requires
            old(self).wf(),
            key < old(self).next_key_spec(),
        ensures
            final(self).wf(),
            r == !old(self)@.contains(key),
            final(self)@ == old(self)@.insert(key),
            final(self).order() == if r {
                old(self).order().push(key)
            } else {
                old(self).order()
            },
            final(self).next_key_spec() == old(self).next_key_spec(),
            final(self).timer_started_spec() == old(self).timer_started_spec(),
    {
        proof {
            self.lemma_order();
        }
        if self.contains(key) {
            proof {
                assert(old(self)@.insert(key) =~= old(self)@);
            }
            false
        } else {
            self.entries.push(key);
            proof {
                assert(self.entries@ =~= old(self).entries@.push(key));
                old(self).entries@.lemma_push_to_set_commute(key);
            }
            true
        }
    }

    /// Takes a key out of the registry. Taking out a key that is not there
    /// changes nothing. Returns whether it was there.
    pub fn remove(&mut self, key: u64) -> (r: bool)
        requires
            old(self).wf(),
        ensures
            final(self).wf(),
            r == old(self)@.contains(key),
            final(self)@ == old(self)@.remove(key),
            final(self).order() == without(old(self).order(), key),
            final(self).next_key_spec() == old(self).next_key_spec(),
            final(self).timer_started_spec() == old(self).timer_started_spec(),
    {
        let mut i: usize = 0;
        while i < self.entries.len()
            invariant
                0 <= i <= self.entries@.len(),
                self.entries@ == old(self).entries@,
                self.next_key == old(self).next_key,
                self.timer_started == old(self).timer_started,
                old(self).wf(),
                forall|j: int| 0 <= j < i ==> self.entries@[j] != key,
            decreases self.entries@.len() - i,
        {
            if self.entries[i] == key {
                let ghost before = self.entries@;
                self.entries.remove(i);
                proof {
                    assert(self.entries@ =~= before.remove(i as int));
                    before.remove_ensures(i as int);
                    lemma_remove_unique(before, i as int);
                    assert(before.contains(key));
                    assert(before[before.index_of(key)] == key);
                    assert(before.index_of(key) == i as int);
                    assert forall|j: int| 0 <= j < self.entries@.len() implies self.entries@[j]
                        < self.next_key by {
                        if j >= i {
                            assert(self.entries@[j] == before[j + 1]);
                        }
                    }
                }
                return true;
            }
            i = i + 1;
        }
        proof {
            assert(!self.entries@.contains(key));
            assert(old(self)@.remove(key) =~= old(self)@);
        }
        false
    }

    /// Marks the periodic dispatch as scheduled. Returns true the first time
    /// only: the caller then schedules it.
    pub fn claim_timer(&mut self) -> (r: bool)
        ensures
            r == !old(self).timer_started_spec(),
            final(self).timer_started_spec(),
            final(self)@ == old(self)@,
            final(self).order() == old(self).order(),
            final(self).next_key_spec() == old(self).next_key_spec(),
            old(self).wf() ==> final(self).wf(),
    {
        let first = !self.timer_started;
        self.timer_started = true;
        first
    }

    /// The registered keys, in dispatch order.
    pub fn keys(&self) -> (r: Vec<u64>)
        ensures
            r@ == self.order(),
    {
        self.entries.clone()
    }
}

/// Taking the element at `i` out of a sequence without duplicates takes exactly
/// that value out of its set of elements.
proof fn lemma_remove_unique(s: Seq<u64>, i: int)
    requires
        s.no_duplicates(),
        0 <= i < s.len(),
    ensures
        s.remove(i).no_duplicates(),
        s.remove(i).to_set() == s.to_set().remove(s[i]),
{
    let t = s.remove(i);
    assert forall|a: int, b: int| 0 <= a < b < t.len() implies t[a] != t[b] by {
        let a2 = if a < i { a } else { a + 1 };
        let b2 = if b < i { b } else { b + 1 };
        assert(t[a] == s[a2] && t[b] == s[b2]);
    }
    assert forall|x: u64| #[trigger] t.to_set().contains(x) <==> s.to_set().remove(s[i]).contains(x) by {
        if t.to_set().contains(x) {
            let k = t.index_of(x);
            let k2 = if k < i { k } else { k + 1 };
            assert(s[k2] == x);
        }
        if s.to_set().remove(s[i]).contains(x) {
            let k = s.index_of(x);
            assert(k != i);
            let k2 = if k < i { k } else { k - 1 };
            assert(t[k2] == x);
        }
    }
    assert(t.to_set() =~= s.to_set().remove(s[i]));
}

} // verus!
