//! The registry of known remote peers: a mapping from peer id to the peer and
//! the discovery instance name it was announced under.

use vstd::prelude::*;
use crate::protocol::{IpcPeer, PeerModel};

verus! {

/// One known peer and the service-directory instance name that announced it.
#[derive(Debug, Clone)]
pub struct PeerEntry {
    pub peer: IpcPeer,
    pub instance: String,
}

/// What a [`PeerEntry`] holds.
pub struct EntryModel {
    pub peer: PeerModel,
    pub instance: Seq<char>,
}

impl View for PeerEntry {
    type V = EntryModel;

    open spec fn view(&self) -> EntryModel {
        EntryModel { peer: self.peer@, instance: self.instance@ }
    }
}

/// Known peers, keyed by id.
pub struct PeerRegistry {
    entries: Vec<PeerEntry>,
    model: Ghost<Map<Seq<char>, EntryModel>>,
}

impl View for PeerRegistry {
    type V = Map<Seq<char>, EntryModel>;

    closed spec fn view(&self) -> Map<Seq<char>, EntryModel> {
        self.model@
    }
}

/// The peers of a registry model.
pub open spec fn peers_of(m: Map<Seq<char>, EntryModel>) -> Map<Seq<char>, PeerModel> {
    m.map_values(|e: EntryModel| e.peer)
}

/// `m` without the entries announced under `instance`.
pub open spec fn without_instance(
    m: Map<Seq<char>, EntryModel>,
    instance: Seq<char>,
) -> Map<Seq<char>, EntryModel> {
    m.restrict(m.dom().filter(|k: Seq<char>| m[k].instance != instance))
}

impl PeerRegistry {
    /// Every entry is stored once, under its peer's id.
    pub closed spec fn wf(&self) -> bool {
        let s = self.entries@;
        &&& forall|i: int, j: int|
            0 <= i < j < s.len() ==> (#[trigger] s[i]).peer.id@ != (#[trigger] s[j]).peer.id@
        &&& forall|i: int|
            0 <= i < s.len() ==> self.model@.contains_key((#[trigger] s[i]).peer.id@)
                && self.model@[s[i].peer.id@] == s[i]@
        &&& forall|k: Seq<char>|
            #[trigger] self.model@.contains_key(k) ==> exists|i: int|
                0 <= i < s.len() && (#[trigger] s[i]).peer.id@ == k
    }

    /// An empty registry.
    pub fn new() -> (r: PeerRegistry)
        ensures
            r.wf(),
            r@ == Map::<Seq<char>, EntryModel>::empty(),
    {
        PeerRegistry { entries: Vec::new(), model: Ghost(Map::empty()) }
    }

    /// The number of known peers.
    pub fn len(&self) -> (r: usize)
        requires
            self.wf(),
        ensures
            r == self@.len(),
    {
        proof {
            self.lemma_dom_is_ids();
        }
        self.entries.len()
    }

    /// The domain of the model holds exactly the ids stored, one per entry.
    proof fn lemma_dom_is_ids(&self)
        requires
            self.wf(),
        ensures
            self@.dom() == self.entries@.map_values(|e: PeerEntry| e.peer.id@).to_set(),
            self@.len() == self.entries@.len(),
    {
        let ids = self.entries@.map_values(|e: PeerEntry| e.peer.id@);
        assert forall|k: Seq<char>| self@.dom().contains(k) <==> ids.to_set().contains(k) by {
            if self@.dom().contains(k) {
                assert(self.model@.contains_key(k));
                let i = choose|i: int| 0 <= i < self.entries@.len() && (#[trigger] self.entries@[i]).peer.id@ == k;
                assert(ids[i] == k);
            }
            if ids.to_set().contains(k) {
                let i = choose|i: int| 0 <= i < ids.len() && ids[i] == k;
                assert(self.entries@[i].peer.id@ == k);
            }
        }
        assert(self@.dom() =~= ids.to_set());
        assert(ids.no_duplicates()) by {
            assert forall|i: int, j: int| 0 <= i < ids.len() && 0 <= j < ids.len() && i != j implies ids[i] != ids[j] by {
                if i < j {
                    assert(self.entries@[i].peer.id@ != self.entries@[j].peer.id@);
                } else {
                    assert(self.entries@[j].peer.id@ != self.entries@[i].peer.id@);
                }
            }
        }
        ids.unique_seq_to_set();
    }

    /// The position of the entry with key `id`, if there is one.
    fn find(&self, id: &String) -> (r: Option<usize>)
        requires
            self.wf(),
        ensures
            match r {
                Some(i) => i < self.entries@.len() && self.entries@[i as int].peer.id@ == id@,
                None => forall|i: int| 0 <= i < self.entries@.len() ==> (#[trigger] self.entries@[i]).peer.id@ != id@,
            },
            r is None <==> !self@.contains_key(id@),
    {
        let mut i: usize = 0;
        while i < self.entries.len()
            invariant
                self.wf(),
                i <= self.entries@.len(),
                forall|j: int| 0 <= j < i ==> (#[trigger] self.entries@[j]).peer.id@ != id@,
            decreases self.entries@.len() - i,
        {
            if self.entries[i].peer.id == *id {
                return Some(i);
            }
            i = i + 1;
        }
        proof {
            if self@.contains_key(id@) {
                let j = choose|j: int| 0 <= j < self.entries@.len() && (#[trigger] self.entries@[j]).peer.id@ == id@;
            }
        }
        None
    }

    /// The peer stored under `id`, if any.
    pub fn get(&self, id: &str) -> (r: Option<IpcPeer>)
        requires
            self.wf(),
        ensures
            match r {
                Some(p) => self@.contains_key(id@) && p@ == self@[id@].peer,
                None => !self@.contains_key(id@),
            },
    {
        let key = String::from_str(id);
        match self.find(&key) {
            Some(i) => Some(self.entries[i].peer.duplicate()),
            None => None,
        }
    }

    /// Stores `peer`, announced under `instance`, replacing any entry with the same id.
    pub fn upsert(&mut self, peer: IpcPeer, instance: String)
        requires
            old(self).wf(),
        ensures
            final(self).wf(),
            final(self)@ == old(self)@.insert(peer.id@, EntryModel { peer: peer@, instance: instance@ }),
    {
        let ghost e = EntryModel { peer: peer@, instance: instance@ };
        let ghost k = peer.id@;
        let found = self.find(&peer.id);
        let entry = PeerEntry { peer, instance };
        match found {
            Some(i) => {
                self.entries.set(i, entry);
                self.model = Ghost(self.model@.insert(k, e));
                assert forall|j: int| 0 <= j < self.entries@.len() && j != i implies (#[trigger] self.entries@[j]).peer.id@ != k by {
                    if j < i {
                        assert(old(self).entries@[j].peer.id@ != old(self).entries@[i as int].peer.id@);
                    } else {
                        assert(old(self).entries@[i as int].peer.id@ != old(self).entries@[j].peer.id@);
                    }
                }
                assert forall|q: Seq<char>| #[trigger] self.model@.contains_key(q) implies exists|j: int|
                    0 <= j < self.entries@.len() && (#[trigger] self.entries@[j]).peer.id@ == q by {
                    if q != k {
                        assert(old(self).model@.contains_key(q));
                        let j = choose|j: int| 0 <= j < old(self).entries@.len() && (#[trigger] old(self).entries@[j]).peer.id@ == q;
                        assert(self.entries@[j].peer.id@ == q);
                    } else {
                        assert(self.entries@[i as int].peer.id@ == q);
                    }
                }
            },
            None => {
                self.entries.push(entry);
                self.model = Ghost(self.model@.insert(k, e));
                let ghost n = self.entries@.len() - 1;
                assert forall|q: Seq<char>| #[trigger] self.model@.contains_key(q) implies exists|j: int|
                    0 <= j < self.entries@.len() && (#[trigger] self.entries@[j]).peer.id@ == q by {
                    if q != k {
                        assert(old(self).model@.contains_key(q));
                        let j = choose|j: int| 0 <= j < old(self).entries@.len() && (#[trigger] old(self).entries@[j]).peer.id@ == q;
                        assert(self.entries@[j].peer.id@ == q);
                    } else {
                        assert(self.entries@[n].peer.id@ == q);
                    }
                }
            },
        }
    }

    /// Removes the peer stored under `id`; true when there was one.
    pub fn remove(&mut self, id: &str) -> (r: bool)
        requires
            old(self).wf(),
        ensures
            final(self).wf(),
            r == old(self)@.contains_key(id@),
            final(self)@ == old(self)@.remove(id@),
    {
        let key = String::from_str(id);
        match self.find(&key) {
            Some(i) => {
                let ghost old_entries = self.entries@;
                self.entries.remove(i);
                self.model = Ghost(self.model@.remove(id@));
                assert forall|a: int, b: int| 0 <= a < b < self.entries@.len() implies
                    (#[trigger] self.entries@[a]).peer.id@ != (#[trigger] self.entries@[b]).peer.id@ by {
                    let oa = if a < i { a } else { a + 1 };
                    let ob = if b < i { b } else { b + 1 };
                    assert(old_entries[oa].peer.id@ != old_entries[ob].peer.id@);
                }
                assert forall|j: int| 0 <= j < self.entries@.len() implies
                    self.model@.contains_key((#[trigger] self.entries@[j]).peer.id@)
                        && self.model@[self.entries@[j].peer.id@] == self.entries@[j]@ by {
                    let oj = if j < i { j } else { j + 1 };
                    assert(self.entries@[j] == old_entries[oj]);
                    if oj < i {
                        assert(old_entries[oj].peer.id@ != old_entries[i as int].peer.id@);
                    } else {
                        assert(old_entries[i as int].peer.id@ != old_entries[oj].peer.id@);
                    }
                }
                assert forall|q: Seq<char>| #[trigger] self.model@.contains_key(q) implies exists|j: int|
                    0 <= j < self.entries@.len() && (#[trigger] self.entries@[j]).peer.id@ == q by {
                    let oj = choose|oj: int| 0 <= oj < old_entries.len() && (#[trigger] old_entries[oj]).peer.id@ == q;
                    assert(oj != i);
                    let j = if oj < i { oj } else { oj - 1 };
                    assert(self.entries@[j] == old_entries[oj]);
                }
                true
            },
            None => {
                assert(self.model@.remove(id@) =~= self.model@);
                false
            },
        }
    }

    /// Removes every peer announced under `instance`; true when there was one.
    pub fn remove_instance(&mut self, instance: &str) -> (r: bool)
        requires
            old(self).wf(),
        ensures
            final(self).wf(),
            r == exists|k: Seq<char>| #[trigger] old(self)@.contains_key(k) && old(self)@[k].instance == instance@,
            final(self)@ == without_instance(old(self)@, instance@),
    {
        let target = String::from_str(instance);
        let ghost olds = self.entries@;
        let ghost oldm = self.model@;
        let ghost newm = without_instance(oldm, instance@);
        let mut kept: Vec<PeerEntry> = Vec::new();
        let ghost mut idx: Seq<int> = Seq::empty();
        let mut removed = false;
        let mut i: usize = 0;
        let n = self.entries.len();
        while i < n
            invariant
                self.entries@ == olds,
                self.model@ == oldm,
                target@ == instance@,
                self.wf(),
                n == olds.len(),
                i <= n,
                idx.len() == kept@.len(),
                forall|j: int| 0 <= j < idx.len() ==> 0 <= #[trigger] idx[j] < i,
                forall|a: int, b: int| 0 <= a < b < idx.len() ==> #[trigger] idx[a] < #[trigger] idx[b],
                forall|j: int| 0 <= j < idx.len() ==> (#[trigger] kept@[j])@ == olds[idx[j]]@,
                forall|j: int| 0 <= j < kept@.len() ==> (#[trigger] kept@[j]).instance@ != instance@,
                forall|a: int| 0 <= a < i && (#[trigger] olds[a]).instance@ != instance@ ==>
                    exists|j: int| 0 <= j < kept@.len() && (#[trigger] kept@[j]).peer.id@ == olds[a].peer.id@,
                removed == exists|a: int| 0 <= a < i && (#[trigger] olds[a]).instance@ == instance@,
            decreases n - i,
        {
            let ghost before = kept@;
            let ghost was_removed = removed;
            if self.entries[i].instance == target {
                removed = true;
                assert(olds[i as int].instance@ == instance@);
            } else {
                kept.push(self.entries[i].clone_entry());
                proof {
                    idx = idx.push(i as int);
                    let j = kept@.len() - 1;
                    assert(kept@[j].peer.id@ == olds[i as int].peer.id@);
                    assert forall|a: int| 0 <= a < i && (#[trigger] olds[a]).instance@ != instance@ implies
                        exists|j: int| 0 <= j < kept@.len() && (#[trigger] kept@[j]).peer.id@ == olds[a].peer.id@ by {
                        let j = choose|j: int| 0 <= j < before.len() && (#[trigger] before[j]).peer.id@ == olds[a].peer.id@;
                        assert(kept@[j] == before[j]);
                    }
                }
            }
            proof {
                if was_removed {
                    let a = choose|a: int| 0 <= a < i && (#[trigger] olds[a]).instance@ == instance@;
                    assert(0 <= a < i + 1 && olds[a].instance@ == instance@);
                }
            }
            i = i + 1;
        }
        proof {
            assert forall|a: int, b: int| 0 <= a < b < kept@.len() implies
                (#[trigger] kept@[a]).peer.id@ != (#[trigger] kept@[b]).peer.id@ by {
                assert(idx[a] < idx[b]);
                assert(kept@[a]@ == olds[idx[a]]@);
                assert(kept@[b]@ == olds[idx[b]]@);
                assert(olds[idx[a]].peer.id@ != olds[idx[b]].peer.id@);
            }
            assert forall|j: int| 0 <= j < kept@.len() implies
                newm.contains_key((#[trigger] kept@[j]).peer.id@) && newm[kept@[j].peer.id@] == kept@[j]@ by {
                assert(kept@[j]@ == olds[idx[j]]@);
                assert(oldm.contains_key(olds[idx[j]].peer.id@));
                assert(oldm.dom().filter(|k: Seq<char>| oldm[k].instance != instance@).contains(kept@[j].peer.id@));
            }
            assert forall|q: Seq<char>| #[trigger] newm.contains_key(q) implies exists|j: int|
                0 <= j < kept@.len() && (#[trigger] kept@[j]).peer.id@ == q by {
                assert(oldm.contains_key(q));
                let a = choose|a: int| 0 <= a < olds.len() && (#[trigger] olds[a]).peer.id@ == q;
                assert(oldm[q] == olds[a]@);
            }
            if removed {
                let a = choose|a: int| 0 <= a < n && (#[trigger] olds[a]).instance@ == instance@;
                assert(oldm.contains_key(olds[a].peer.id@));
                assert(oldm[olds[a].peer.id@].instance == instance@);
            }
            if exists|k: Seq<char>| #[trigger] oldm.contains_key(k) && oldm[k].instance == instance@ {
                let k = choose|k: Seq<char>| #[trigger] oldm.contains_key(k) && oldm[k].instance == instance@;
                let a = choose|a: int| 0 <= a < olds.len() && (#[trigger] olds[a]).peer.id@ == k;
                assert(olds[a].instance@ == instance@);
            }
        }
        self.entries = kept;
        self.model = Ghost(newm);
        assert(oldm == old(self)@);
        removed
    }

    /// Forgets every peer.
    pub fn clear(&mut self)
        ensures
            final(self).wf(),
            final(self)@ == Map::<Seq<char>, EntryModel>::empty(),
    {
        self.entries = Vec::new();
        self.model = Ghost(Map::empty());
    }

    /// The stored peers in storage order.
    pub closed spec fn listing(&self) -> Seq<PeerModel> {
        self.entries@.map_values(|e: PeerEntry| e.peer@)
    }

    /// The stored order lists every known peer exactly once.
    pub proof fn lemma_listing_exact(&self)
        requires
            self.wf(),
        ensures
            lists_exactly(self.listing(), self@),
    {
        self.lemma_dom_is_ids();
        let ps = self.listing();
        assert forall|a: int, b: int| 0 <= a < b < ps.len() implies (#[trigger] ps[a]).id != (#[trigger] ps[b]).id by {
            assert(self.entries@[a].peer.id@ != self.entries@[b].peer.id@);
        }
        assert forall|j: int| 0 <= j < ps.len() implies self@.contains_key((#[trigger] ps[j]).id)
            && self@[ps[j].id].peer == ps[j] by {
            assert(self.model@[self.entries@[j].peer.id@] == self.entries@[j]@);
        }
        assert forall|k: Seq<char>| #[trigger] self@.contains_key(k) implies
            exists|j: int| 0 <= j < ps.len() && ps[j].id == k by {
            let j = choose|j: int| 0 <= j < self.entries@.len() && (#[trigger] self.entries@[j]).peer.id@ == k;
            assert(ps[j].id == k);
        }
    }

    /// A snapshot of the known peers, each once, in storage order.
    pub fn list(&self) -> (r: Vec<IpcPeer>)
        requires
            self.wf(),
        ensures
            r@.map_values(|p: IpcPeer| p@) == self.listing(),
            lists_exactly(r@.map_values(|p: IpcPeer| p@), self@),
    {
        let mut out: Vec<IpcPeer> = Vec::new();
        let mut i: usize = 0;
        while i < self.entries.len()
            invariant
                self.wf(),
                i <= self.entries@.len(),
                out@.len() == i,
                forall|j: int| 0 <= j < i ==> (#[trigger] out@[j])@ == self.entries@[j].peer@,
            decreases self.entries@.len() - i,
        {
            out.push(self.entries[i].peer.duplicate());
            i = i + 1;
        }
        assert(out@.map_values(|p: IpcPeer| p@) =~= self.listing());
        proof {
            self.lemma_listing_exact();
        }
        out
    }
}

impl PeerEntry {
    /// A copy of this entry with the same contents.
    pub fn clone_entry(&self) -> (r: PeerEntry)
        ensures
            r@ == self@,
    {
        PeerEntry { peer: self.peer.duplicate(), instance: self.instance.clone() }
    }
}

/// `s` lists the peers of `m`: each once, every one of them, and nothing else.
pub open spec fn lists_exactly(s: Seq<PeerModel>, m: Map<Seq<char>, EntryModel>) -> bool {
    &&& s.len() == m.len()
    &&& forall|a: int, b: int| 0 <= a < b < s.len() ==> (#[trigger] s[a]).id != (#[trigger] s[b]).id
    &&& forall|j: int| 0 <= j < s.len() ==> m.contains_key((#[trigger] s[j]).id) && m[s[j].id].peer == s[j]
    &&& forall|k: Seq<char>| #[trigger] m.contains_key(k) ==> exists|j: int| 0 <= j < s.len() && s[j].id == k
}

} // verus!
