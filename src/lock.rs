//! The conversation lock registry: for each conversation key, how many runs
//! have registered for its permit and which run holds it.
//!
//! An entry exists exactly while its reference count is positive; a permit is
//! granted only when nobody holds it, so at most one run holds each key.
use vstd::prelude::*;
use crate::text::same_text;

verus! {

/// The registry's record for one key.
#[derive(Debug)]
pub struct LockEntry {
    pub key: String,
    pub refs: usize,
    pub holder: Option<u64>,
}

/// The state of one key: runs registered for it, and the run holding its permit.
pub struct Slot {
    pub refs: nat,
    pub holder: Option<u64>,
}

/// The process-wide registry of per-conversation permits.
#[derive(Debug)]
pub struct LockRegistry {
    pub entries: Vec<LockEntry>,
}

pub open spec fn slot_of(e: LockEntry) -> Slot {
    Slot { refs: e.refs as nat, holder: e.holder }
}

impl LockRegistry {
    /// Keys are unique and every entry has a positive count (its holder, if
    /// any, is one of the runs counted).
    pub open spec fn wf(&self) -> bool {
        &&& forall|i: int, j: int|
            0 <= i < j < self.entries@.len() ==> (#[trigger] self.entries@[i]).key@
                != (#[trigger] self.entries@[j]).key@
        &&& forall|i: int| 0 <= i < self.entries@.len() ==> (#[trigger] self.entries@[i]).refs > 0
    }

    pub open spec fn has(&self, k: Seq<char>) -> bool {
        exists|i: int| 0 <= i < self.entries@.len() && (#[trigger] self.entries@[i]).key@ == k
    }

    pub open spec fn slot(&self, k: Seq<char>) -> Slot {
        slot_of(
            self.entries@[choose|i: int|
                0 <= i < self.entries@.len() && (#[trigger] self.entries@[i]).key@ == k],
        )
    }
}

impl View for LockRegistry {
    type V = Map<Seq<char>, Slot>;

    open spec fn view(&self) -> Map<Seq<char>, Slot> {
        Map::new(|k: Seq<char>| self.has(k), |k: Seq<char>| self.slot(k))
    }
}

/// The registry after a run registers for `k`: one more reference, the entry
/// created with no holder if it was absent.
pub open spec fn entered(m: Map<Seq<char>, Slot>, k: Seq<char>) -> Map<Seq<char>, Slot> {
    if m.contains_key(k) {
        m.insert(k, Slot { refs: m[k].refs + 1, holder: m[k].holder })
    } else {
        m.insert(k, Slot { refs: 1, holder: None })
    }
}

/// Whether the permit of `k` can be granted: the key is registered and nobody holds it.
pub open spec fn grants(m: Map<Seq<char>, Slot>, k: Seq<char>) -> bool {
    m.contains_key(k) && m[k].holder is None
}

/// The registry after `run` is granted the permit of `k`.
pub open spec fn acquired(m: Map<Seq<char>, Slot>, k: Seq<char>, run: u64) -> Map<Seq<char>, Slot> {
    m.insert(k, Slot { refs: m[k].refs, holder: Some(run) })
}

/// Whether `run` holds the permit of `k`.
pub open spec fn holds(m: Map<Seq<char>, Slot>, k: Seq<char>, run: u64) -> bool {
    m.contains_key(k) && m[k].holder == Some(run)
}

/// The registry after one reference to `k` is dropped and its permit left
/// free: the entry goes when its count reaches zero.
pub open spec fn dropped(m: Map<Seq<char>, Slot>, k: Seq<char>) -> Map<Seq<char>, Slot> {
    if m[k].refs <= 1 {
        m.remove(k)
    } else {
        m.insert(k, Slot { refs: (m[k].refs - 1) as nat, holder: None })
    }
}

/// Whether a run that registered for `k` and does not hold it can withdraw:
/// some reference to `k` belongs to a waiting run.
pub open spec fn has_waiter(m: Map<Seq<char>, Slot>, k: Seq<char>) -> bool {
    m.contains_key(k) && (if m[k].holder is Some { m[k].refs > 1 } else { m[k].refs > 0 })
}

/// The registry after a waiting run withdraws from `k`.
pub open spec fn withdrawn(m: Map<Seq<char>, Slot>, k: Seq<char>) -> Map<Seq<char>, Slot> {
    if m[k].refs <= 1 {
        m.remove(k)
    } else {
        m.insert(k, Slot { refs: (m[k].refs - 1) as nat, holder: m[k].holder })
    }
}

impl LockRegistry {
    proof fn lemma_slot_at(&self, i: int)
        requires
            self.wf(),
            0 <= i < self.entries@.len(),
        ensures
            self@.contains_key(self.entries@[i].key@),
            self@[self.entries@[i].key@] == slot_of(self.entries@[i]),
    {
        let k = self.entries@[i].key@;
        assert(self.has(k));
        let j = choose|j: int| 0 <= j < self.entries@.len() && (#[trigger] self.entries@[j]).key@ == k;
        if j < i {
            assert(self.entries@[j].key@ != self.entries@[i].key@);
        } else if i < j {
            assert(self.entries@[i].key@ != self.entries@[j].key@);
        }
    }

    proof fn lemma_absent(&self, k: Seq<char>)
        requires
            forall|i: int| 0 <= i < self.entries@.len() ==> (#[trigger] self.entries@[i]).key@ != k,
        ensures
            !self@.contains_key(k),
    {
    }

    /// An empty registry.
    pub fn new() -> (r: Self)
        ensures
            r.wf(),
            r@ == Map::<Seq<char>, Slot>::empty(),
    {
        let r = LockRegistry { entries: Vec::new() };
        assert(r@ =~= Map::<Seq<char>, Slot>::empty());
        r
    }

    fn find(&self, key: &str) -> (r: Option<usize>)
        requires
            self.wf(),
        ensures
            match r {
                Some(i) => i < self.entries@.len() && self.entries@[i as int].key@ == key@,
                None => !self@.contains_key(key@),
            },
    {
        let mut i: usize = 0;
        while i < self.entries.len()
            invariant
                i <= self.entries@.len(),
                forall|j: int| 0 <= j < i ==> (#[trigger] self.entries@[j]).key@ != key@,
            decreases self.entries@.len() - i,
        {
            if same_text(self.entries[i].key.as_str(), key) {
                return Some(i);
            }
            i = i + 1;
        }
        proof {
            self.lemma_absent(key@);
        }
        None
    }

    proof fn lemma_update(old_r: &Self, new_r: &Self, i: int, e: LockEntry)
        requires
            old_r.wf(),
            0 <= i < old_r.entries@.len(),
            e.key@ == old_r.entries@[i].key@,
            e.refs > 0,
            new_r.entries@ == old_r.entries@.update(i, e),
        ensures
            new_r.wf(),
            new_r@ == old_r@.insert(e.key@, slot_of(e)),
    {
        let k = e.key@;
        assert forall|a: int, b: int| 0 <= a < b < new_r.entries@.len() implies (#[trigger] new_r.entries@[a]).key@
            != (#[trigger] new_r.entries@[b]).key@ by {
            assert(old_r.entries@[a].key@ != old_r.entries@[b].key@);
        }
        assert forall|q: Seq<char>| #[trigger] new_r@.contains_key(q) <==> old_r@.insert(k, slot_of(e)).contains_key(q) by {
            if new_r.has(q) {
                let j = choose|j: int| 0 <= j < new_r.entries@.len() && (#[trigger] new_r.entries@[j]).key@ == q;
                assert(old_r.entries@[j].key@ == q);
            }
            if old_r.has(q) {
                let j = choose|j: int| 0 <= j < old_r.entries@.len() && (#[trigger] old_r.entries@[j]).key@ == q;
                assert(new_r.entries@[j].key@ == q);
            }
            if q == k {
                assert(new_r.entries@[i].key@ == q);
            }
        }
        assert forall|q: Seq<char>| #[trigger] new_r@.contains_key(q) implies new_r@[q]
            == old_r@.insert(k, slot_of(e))[q] by {
            let j = choose|j: int| 0 <= j < new_r.entries@.len() && (#[trigger] new_r.entries@[j]).key@ == q;
            new_r.lemma_slot_at(j);
            if j != i {
                old_r.lemma_slot_at(j);
            }
        }
        assert(new_r@ =~= old_r@.insert(k, slot_of(e)));
    }

    proof fn lemma_removed(old_r: &Self, new_r: &Self, i: int)
        requires
            old_r.wf(),
            0 <= i < old_r.entries@.len(),
            new_r.entries@ == old_r.entries@.remove(i),
        ensures
            new_r.wf(),
            new_r@ == old_r@.remove(old_r.entries@[i].key@),
    {
        let k = old_r.entries@[i].key@;
        let n = old_r.entries@;
        let idx = |j: int| if j < i { j } else { j + 1 };
        assert forall|a: int, b: int| 0 <= a < b < new_r.entries@.len() implies (#[trigger] new_r.entries@[a]).key@
            != (#[trigger] new_r.entries@[b]).key@ by {
            assert(new_r.entries@[a] == n[idx(a)]);
            assert(new_r.entries@[b] == n[idx(b)]);
            assert(n[idx(a)].key@ != n[idx(b)].key@);
        }
        assert forall|q: Seq<char>| #[trigger] new_r@.contains_key(q) <==> old_r@.remove(k).contains_key(q) by {
            if new_r.has(q) {
                let j = choose|j: int| 0 <= j < new_r.entries@.len() && (#[trigger] new_r.entries@[j]).key@ == q;
                assert(new_r.entries@[j] == n[idx(j)]);
                assert(n[idx(j)].key@ == q);
                assert(old_r.has(q));
                if q == k {
                    assert(idx(j) != i);
                    if idx(j) < i {
                        assert(n[idx(j)].key@ != n[i].key@);
                    } else {
                        assert(n[i].key@ != n[idx(j)].key@);
                    }
                }
            }
            if old_r.has(q) && q != k {
                let j = choose|j: int| 0 <= j < n.len() && (#[trigger] n[j]).key@ == q;
                assert(j != i);
                let j2 = if j < i { j } else { j - 1 };
                assert(new_r.entries@[j2] == n[j]);
                assert(new_r.has(q));
            }
        }
        assert forall|q: Seq<char>| #[trigger] new_r@.contains_key(q) implies new_r@[q]
            == old_r@.remove(k)[q] by {
            let j = choose|j: int| 0 <= j < new_r.entries@.len() && (#[trigger] new_r.entries@[j]).key@ == q;
            new_r.lemma_slot_at(j);
            assert(new_r.entries@[j] == n[idx(j)]);
            old_r.lemma_slot_at(idx(j));
        }
        assert(new_r@ =~= old_r@.remove(k));
    }

    /// Registers a run for the permit of `key`. Refused (and nothing changes)
    /// only when the key's count is at the largest `usize`.
    pub fn enter(&mut self, key: &str) -> (ok: bool)
        requires
            old(self).wf(),
        ensures
            final(self).wf(),
            ok == !(old(self)@.contains_key(key@) && old(self)@[key@].refs == usize::MAX as nat),
            ok ==> final(self)@ == entered(old(self)@, key@),
            !ok ==> final(self)@ == old(self)@,
    {
        match self.find(key) {
            Some(i) => {
                proof {
                    self.lemma_slot_at(i as int);
                }
                let refs = self.entries[i].refs;
                if refs == usize::MAX {
                    return false;
                }
                let e = LockEntry {
                    key: self.entries[i].key.clone(),
                    refs: refs + 1,
                    holder: self.entries[i].holder,
                };
                let ghost old_r = *self;
                self.entries.set(i, e);
                proof {
                    Self::lemma_update(&old_r, self, i as int, e);
                }
                true
            },
            None => {
                let ghost old_r = *self;
                let e = LockEntry { key: key.to_string(), refs: 1, holder: None };
                self.entries.push(e);
                proof {
                    let n = self.entries@.len() - 1;
                    assert forall|a: int, b: int| 0 <= a < b < self.entries@.len() implies (#[trigger] self.entries@[a]).key@
                        != (#[trigger] self.entries@[b]).key@ by {
                        if b == n {
                            assert(old_r.entries@[a].key@ != key@) by {
                                if old_r.entries@[a].key@ == key@ {
                                    assert(old_r.has(key@));
                                }
                            }
                        } else {
                            assert(old_r.entries@[a].key@ != old_r.entries@[b].key@);
                        }
                    }
                    assert forall|q: Seq<char>| #[trigger] self@.contains_key(q) <==> entered(old_r@, key@).contains_key(q) by {
                        if self.has(q) {
                            let j = choose|j: int| 0 <= j < self.entries@.len() && (#[trigger] self.entries@[j]).key@ == q;
                            if j < n {
                                assert(old_r.entries@[j].key@ == q);
                            }
                        }
                        if old_r.has(q) {
                            let j = choose|j: int| 0 <= j < old_r.entries@.len() && (#[trigger] old_r.entries@[j]).key@ == q;
                            assert(self.entries@[j].key@ == q);
                        }
                        if q == key@ {
                            assert(self.entries@[n].key@ == q);
                        }
                    }
                    assert forall|q: Seq<char>| #[trigger] self@.contains_key(q) implies self@[q]
                        == entered(old_r@, key@)[q] by {
                        let j = choose|j: int| 0 <= j < self.entries@.len() && (#[trigger] self.entries@[j]).key@ == q;
                        self.lemma_slot_at(j);
                        if j < n {
                            old_r.lemma_slot_at(j);
                        }
                    }
                    assert(self@ =~= entered(old_r@, key@));
                }
                true
            },
        }
    }

    /// Grants `run` the permit of `key` when the key is registered and nobody
    /// holds it; otherwise refuses and changes nothing.
    pub fn try_acquire(&mut self, key: &str, run: u64) -> (granted: bool)
        requires
            old(self).wf(),
        ensures
            final(self).wf(),
            granted == grants(old(self)@, key@),
            granted ==> final(self)@ == acquired(old(self)@, key@, run),
            !granted ==> final(self)@ == old(self)@,
    {
        match self.find(key) {
            Some(i) => {
                proof {
                    self.lemma_slot_at(i as int);
                }
                if self.entries[i].holder.is_some() {
                    return false;
                }
                let e = LockEntry {
                    key: self.entries[i].key.clone(),
                    refs: self.entries[i].refs,
                    holder: Some(run),
                };
                let ghost old_r = *self;
                self.entries.set(i, e);
                proof {
                    Self::lemma_update(&old_r, self, i as int, e);
                }
                true
            },
            None => false,
        }
    }

    /// Gives the permit of `key` back when `run` holds it, dropping its
    /// reference; otherwise refuses and changes nothing.
    pub fn release(&mut self, key: &str, run: u64) -> (released: bool)
        requires
            old(self).wf(),
        ensures
            final(self).wf(),
            released == holds(old(self)@, key@, run),
            released ==> final(self)@ == dropped(old(self)@, key@),
            !released ==> final(self)@ == old(self)@,
    {
        match self.find(key) {
            Some(i) => {
                proof {
                    self.lemma_slot_at(i as int);
                }
                match self.entries[i].holder {
                    Some(h) => {
                        if h != run {
                            return false;
                        }
                    },
                    None => {
                        return false;
                    },
                }
                self.drop_reference(i, None);
                true
            },
            None => false,
        }
    }

    /// Withdraws one waiting run's registration for `key` (a run that gave up
    /// before it was granted the permit); refused, changing nothing, when no
    /// waiting run is counted.
    pub fn withdraw(&mut self, key: &str) -> (ok: bool)
        requires
            old(self).wf(),
        ensures
            final(self).wf(),
            ok == has_waiter(old(self)@, key@),
            ok ==> final(self)@ == withdrawn(old(self)@, key@),
            !ok ==> final(self)@ == old(self)@,
    {
        match self.find(key) {
            Some(i) => {
                proof {
                    self.lemma_slot_at(i as int);
                }
                let holder = self.entries[i].holder;
                let refs = self.entries[i].refs;
                if holder.is_some() && refs <= 1 {
                    return false;
                }
                self.drop_reference(i, holder);
                true
            },
            None => false,
        }
    }

    fn drop_reference(&mut self, i: usize, holder: Option<u64>)
        requires
            old(self).wf(),
            i < old(self).entries@.len(),
        ensures
            final(self).wf(),
            ({
                let k = old(self).entries@[i as int].key@;
                let m = old(self)@;
                final(self)@ == if m[k].refs <= 1 {
                    m.remove(k)
                } else {
                    m.insert(k, Slot { refs: (m[k].refs - 1) as nat, holder })
                }
            }),
    {
        proof {
            self.lemma_slot_at(i as int);
        }
        let refs = self.entries[i].refs;
        let ghost old_r = *self;
        if refs <= 1 {
            self.entries.remove(i);
            proof {
                Self::lemma_removed(&old_r, self, i as int);
            }
        } else {
            let e = LockEntry { key: self.entries[i].key.clone(), refs: refs - 1, holder };
            self.entries.set(i, e);
            proof {
                Self::lemma_update(&old_r, self, i as int, e);
            }
        }
    }

    /// How many runs are registered for `key` (zero when it has no entry).
    pub fn references(&self, key: &str) -> (n: usize)
        requires
            self.wf(),
        ensures
            n as nat == if self@.contains_key(key@) {
                self@[key@].refs
            } else {
                0
            },
    {
        match self.find(key) {
            Some(i) => {
                proof {
                    self.lemma_slot_at(i as int);
                }
                self.entries[i].refs
            },
            None => 0,
        }
    }

    /// The run holding the permit of `key`, if any.
    pub fn holder(&self, key: &str) -> (h: Option<u64>)
        requires
            self.wf(),
        ensures
            h == if self@.contains_key(key@) {
                self@[key@].holder
            } else {
                None
            },
    {
        match self.find(key) {
            Some(i) => {
                proof {
                    self.lemma_slot_at(i as int);
                }
                self.entries[i].holder
            },
            None => None,
        }
    }
}

} // verus!
