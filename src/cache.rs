//! Bounded workflow cache: workflow id to (workflow, digest, cached-at), with
//! eviction of the oldest entry when full.

use vstd::prelude::*;
use crate::text::{copy_string, str_eq};

verus! {

/// A workflow as the cache holds it: its id, its name and its canonical serialized body.
#[derive(Debug)]
pub struct Workflow {
    pub id: String,
    pub name: String,
    pub body: String,
}

pub struct WorkflowView {
    pub id: Seq<char>,
    pub name: Seq<char>,
    pub body: Seq<char>,
}

impl View for Workflow {
    type V = WorkflowView;

    open spec fn view(&self) -> WorkflowView {
        WorkflowView { id: self.id@, name: self.name@, body: self.body@ }
    }
}

impl Workflow {
    /// A copy equal in view.
    pub fn cloned(&self) -> (r: Self)
        ensures
            r@ == self@,
    {
        Workflow { id: copy_string(&self.id), name: copy_string(&self.name), body: copy_string(&self.body) }
    }
}

/// One cached workflow.
#[derive(Debug)]
pub struct WorkflowCacheEntry {
    pub workflow: Workflow,
    pub digest: String,
    pub cached_at: u64,
}

pub struct EntryView {
    pub workflow: WorkflowView,
    pub digest: Seq<char>,
    pub cached_at: u64,
}

impl View for WorkflowCacheEntry {
    type V = EntryView;

    open spec fn view(&self) -> EntryView {
        EntryView { workflow: self.workflow@, digest: self.digest@, cached_at: self.cached_at }
    }
}

impl WorkflowCacheEntry {
    /// A copy equal in view.
    pub fn cloned(&self) -> (r: Self)
        ensures
            r@ == self@,
    {
        WorkflowCacheEntry {
            workflow: self.workflow.cloned(),
            digest: copy_string(&self.digest),
            cached_at: self.cached_at,
        }
    }
}

/// The map that a sequence of entries stands for: each entry under its workflow id.
pub open spec fn entries_map(s: Seq<EntryView>) -> Map<Seq<char>, EntryView>
    decreases s.len(),
{
    if s.len() == 0 {
        Map::empty()
    } else {
        entries_map(s.drop_last()).insert(s.last().workflow.id, s.last())
    }
}

/// No two entries share a workflow id.
pub open spec fn unique_ids(s: Seq<EntryView>) -> bool {
    forall|i: int, j: int|
        0 <= i < s.len() && 0 <= j < s.len() && i != j ==> s[i].workflow.id != s[j].workflow.id
}

/// `k` is the key of an entry with the smallest `cached_at` in `m`.
pub open spec fn is_oldest(m: Map<Seq<char>, EntryView>, k: Seq<char>) -> bool {
    m.contains_key(k) && forall|k2: Seq<char>|
        #[trigger] m.contains_key(k2) ==> m[k].cached_at <= m[k2].cached_at
}

proof fn lemma_entries_map(s: Seq<EntryView>)
    requires
        unique_ids(s),
    ensures
        forall|k: Seq<char>|
            entries_map(s).contains_key(k) <==> exists|i: int|
                0 <= i < s.len() && (#[trigger] s[i]).workflow.id == k,
        forall|i: int| 0 <= i < s.len() ==> entries_map(s)[(#[trigger] s[i]).workflow.id] == s[i],
        entries_map(s).dom().finite(),
        entries_map(s).dom().len() == s.len(),
    decreases s.len(),
{
    if s.len() > 0 {
        let t = s.drop_last();
        assert(unique_ids(t));
        lemma_entries_map(t);
        let k = s.last().workflow.id;
        assert forall|kk: Seq<char>|
            entries_map(s).contains_key(kk) <==> exists|i: int|
                0 <= i < s.len() && (#[trigger] s[i]).workflow.id == kk by {
            if entries_map(t).contains_key(kk) {
                let i = choose|i: int| 0 <= i < t.len() && (#[trigger] t[i]).workflow.id == kk;
                assert(s[i] == t[i]);
            }
            if kk == k {
                assert(s[s.len() - 1].workflow.id == kk);
            }
            if exists|i: int| 0 <= i < s.len() && (#[trigger] s[i]).workflow.id == kk {
                let i = choose|i: int| 0 <= i < s.len() && (#[trigger] s[i]).workflow.id == kk;
                if i < s.len() - 1 {
                    assert(t[i] == s[i]);
                }
            }
        }
        assert forall|i: int| 0 <= i < s.len() implies entries_map(s)[(#[trigger] s[i]).workflow.id]
            == s[i] by {
            if i < s.len() - 1 {
                assert(t[i] == s[i]);
                assert(s[i].workflow.id != k);
            }
        }
        assert(!entries_map(t).contains_key(k)) by {
            if entries_map(t).contains_key(k) {
                let i = choose|i: int| 0 <= i < t.len() && (#[trigger] t[i]).workflow.id == k;
                assert(s[i] == t[i]);
            }
        }
    }
}

/// In-memory workflow cache holding at most `capacity` entries.
pub struct WorkflowCache {
    entries: Vec<WorkflowCacheEntry>,
    capacity: u64,
}

impl View for WorkflowCache {
    type V = Map<Seq<char>, EntryView>;

    closed spec fn view(&self) -> Map<Seq<char>, EntryView> {
        entries_map(self.entries@.map_values(|e: WorkflowCacheEntry| e@))
    }
}

impl WorkflowCache {
    spec fn seq(&self) -> Seq<EntryView> {
        self.entries@.map_values(|e: WorkflowCacheEntry| e@)
    }

    /// The cache's internal invariant: ids are unique and the bound holds.
    pub closed spec fn wf(&self) -> bool {
        &&& unique_ids(self.seq())
        &&& self.entries@.len() <= self.capacity
        &&& self.capacity >= 1
    }

    /// The configured bound.
    pub closed spec fn cap(&self) -> nat {
        self.capacity as nat
    }

    proof fn lemma_view(&self)
        requires
            self.wf(),
        ensures
            forall|k: Seq<char>|
                self@.contains_key(k) <==> exists|i: int|
                    0 <= i < self.entries@.len() && (#[trigger] self.entries@[i]).workflow.id@ == k,
            forall|i: int|
                0 <= i < self.entries@.len() ==> self@[(#[trigger] self.entries@[i]).workflow.id@]
                    == self.entries@[i]@,
            self@.dom().finite(),
            self@.dom().len() == self.entries@.len(),
            self@.dom().len() <= self.cap(),
            self.cap() >= 1,
    {
        let s = self.seq();
        lemma_entries_map(s);
        assert forall|k: Seq<char>|
            self@.contains_key(k) <==> exists|i: int|
                0 <= i < self.entries@.len() && (#[trigger] self.entries@[i]).workflow.id@ == k by {
            if self@.contains_key(k) {
                let i = choose|i: int| 0 <= i < s.len() && (#[trigger] s[i]).workflow.id == k;
                assert(self.entries@[i].workflow.id@ == k);
            }
            if exists|i: int|
                0 <= i < self.entries@.len() && (#[trigger] self.entries@[i]).workflow.id@ == k {
                let i = choose|i: int|
                    0 <= i < self.entries@.len() && (#[trigger] self.entries@[i]).workflow.id@ == k;
                assert(s[i].workflow.id == k);
            }
        }
        assert forall|i: int| 0 <= i < self.entries@.len() implies self@[(
        #[trigger] self.entries@[i]).workflow.id@] == self.entries@[i]@ by {
            assert(s[i] == self.entries@[i]@);
        }
    }

    /// An empty cache holding at most `capacity` entries.
    pub fn new(capacity: u64) -> (r: Self)
        requires
            capacity >= 1,
        ensures
            r.wf(),
            r@ == Map::<Seq<char>, EntryView>::empty(),
            r.cap() == capacity,
    {
        let r = WorkflowCache { entries: Vec::new(), capacity };
        assert(r.seq() =~= Seq::<EntryView>::empty());
        r
    }

    /// The configured bound.
    pub fn capacity(&self) -> (r: u64)
        ensures
            r == self.cap(),
    {
        self.capacity
    }

    fn find(&self, workflow_id: &str) -> (r: Option<usize>)
        requires
            self.wf(),
        ensures
            match r {
                Some(i) => i < self.entries@.len() && self.entries@[i as int].workflow.id@
                    == workflow_id@,
                None => !self@.contains_key(workflow_id@),
            },
    {
        proof {
            self.lemma_view();
        }
        let mut i: usize = 0;
        while i < self.entries.len()
            invariant
                i <= self.entries@.len(),
                forall|j: int| 0 <= j < i ==> self.entries@[j].workflow.id@ != workflow_id@,
            decreases self.entries@.len() - i,
        {
            if str_eq(self.entries[i].workflow.id.as_str(), workflow_id) {
                return Some(i);
            }
            i = i + 1;
        }
        None
    }

    /// The entry cached under `workflow_id`, if any.
    pub fn get(&self, workflow_id: &str) -> (r: Option<WorkflowCacheEntry>)
        requires
            self.wf(),
        ensures
            match r {
                Some(e) => self@.contains_key(workflow_id@) && e@ == self@[workflow_id@],
                None => !self@.contains_key(workflow_id@),
            },
    {
        proof {
            self.lemma_view();
        }
        match self.find(workflow_id) {
            Some(i) => Some(self.entries[i].cloned()),
            None => None,
        }
    }

    /// Some entry whose digest is `digest`, if one exists.
    pub fn get_by_digest(&self, digest: &str) -> (r: Option<WorkflowCacheEntry>)
        requires
            self.wf(),
        ensures
            match r {
                Some(e) => e.digest@ == digest@ && self@.contains_key(e.workflow.id@)
                    && self@[e.workflow.id@] == e@,
                None => forall|k: Seq<char>| #[trigger]
                    self@.contains_key(k) ==> self@[k].digest != digest@,
            },
    {
        proof {
            self.lemma_view();
        }
        let mut i: usize = 0;
        while i < self.entries.len()
            invariant
                self.wf(),
                i <= self.entries@.len(),
                forall|j: int| 0 <= j < i ==> self.entries@[j].digest@ != digest@,
            decreases self.entries@.len() - i,
        {
            if str_eq(self.entries[i].digest.as_str(), digest) {
                let e = self.entries[i].cloned();
                proof {
                    self.lemma_view();
                }
                assert(self@[self.entries@[i as int].workflow.id@] == self.entries@[i as int]@);
                return Some(e);
            }
            i = i + 1;
        }
        proof {
            self.lemma_view();
            assert forall|k: Seq<char>| #[trigger] self@.contains_key(k) implies self@[k].digest
                != digest@ by {
                let j = choose|j: int|
                    0 <= j < self.entries@.len() && (#[trigger] self.entries@[j]).workflow.id@ == k;
                assert(self@[self.entries@[j].workflow.id@] == self.entries@[j]@);
            }
        }
        None
    }

    fn remove_at(&mut self, i: usize) -> (r: WorkflowCacheEntry)
        requires
            old(self).wf(),
            i < old(self).entries@.len(),
        ensures
            final(self).wf(),
            final(self).capacity == old(self).capacity,
            r@ == old(self).entries@[i as int]@,
            final(self)@ == old(self)@.remove(r.workflow.id@),
            final(self).entries@.len() == old(self).entries@.len() - 1,
    {
        proof {
            old(self).lemma_view();
        }
        let ghost s0 = old(self).seq();
        let r = self.entries.remove(i);
        let ghost k = r.workflow.id@;
        proof {
            let s1 = self.seq();
            assert(s1 =~= s0.remove(i as int));
            assert(unique_ids(s1)) by {
                assert forall|a: int, b: int|
                    0 <= a < s1.len() && 0 <= b < s1.len() && a != b implies s1[a].workflow.id
                    != s1[b].workflow.id by {
                    let a0 = if a < i { a } else { a + 1 };
                    let b0 = if b < i { b } else { b + 1 };
                    assert(s1[a] == s0[a0]);
                    assert(s1[b] == s0[b0]);
                }
            }
            self.lemma_view();
            assert(self@ =~= old(self)@.remove(k)) by {
                assert forall|kk: Seq<char>| #[trigger]
                    self@.contains_key(kk) == old(self)@.remove(k).contains_key(kk) by {
                    if self@.contains_key(kk) {
                        let j = choose|j: int|
                            0 <= j < self.entries@.len() && (#[trigger] self.entries@[j]).workflow.id@
                                == kk;
                        let j0 = if j < i { j } else { j + 1 };
                        assert(s1[j] == s0[j0]);
                        assert(old(self).entries@[j0].workflow.id@ == kk);
                        assert(s0[j0].workflow.id == kk);
                        assert(s0[i as int].workflow.id == k);
                    }
                    if old(self)@.remove(k).contains_key(kk) {
                        let j0 = choose|j: int|
                            0 <= j < old(self).entries@.len()
                                && (#[trigger] old(self).entries@[j]).workflow.id@ == kk;
                        assert(j0 != i);
                        let j = if j0 < i { j0 } else { j0 - 1 };
                        assert(s1[j] == s0[j0]);
                        assert(self.entries@[j].workflow.id@ == kk);
                    }
                }
                assert forall|kk: Seq<char>| #[trigger]
                    self@.contains_key(kk) implies self@[kk] == old(self)@.remove(k)[kk] by {
                    let j = choose|j: int|
                        0 <= j < self.entries@.len() && (#[trigger] self.entries@[j]).workflow.id@
                            == kk;
                    let j0 = if j < i { j } else { j + 1 };
                    assert(s1[j] == s0[j0]);
                    assert(self@[self.entries@[j].workflow.id@] == self.entries@[j]@);
                    assert(old(self)@[old(self).entries@[j0].workflow.id@]
                        == old(self).entries@[j0]@);
                }
            }
        }
        r
    }

    fn push_new(&mut self, e: WorkflowCacheEntry)
        requires
            old(self).wf(),
            old(self).entries@.len() < old(self).capacity,
            !old(self)@.contains_key(e.workflow.id@),
        ensures
            final(self).wf(),
            final(self).capacity == old(self).capacity,
            final(self)@ == old(self)@.insert(e.workflow.id@, e@),
    {
        proof {
            old(self).lemma_view();
        }
        let ghost s0 = old(self).seq();
        let ghost ev = e@;
        self.entries.push(e);
        proof {
            let s1 = self.seq();
            assert(s1 =~= s0.push(ev));
            assert(s1.drop_last() =~= s0);
            assert forall|a: int, b: int|
                0 <= a < s1.len() && 0 <= b < s1.len() && a != b implies s1[a].workflow.id
                != s1[b].workflow.id by {
                if a == s0.len() {
                    assert(old(self).entries@[b].workflow.id@ == s0[b].workflow.id);
                } else if b == s0.len() {
                    assert(old(self).entries@[a].workflow.id@ == s0[a].workflow.id);
                } else {
                    assert(s1[a] == s0[a] && s1[b] == s0[b]);
                }
            }
        }
    }

    fn oldest_index(&self) -> (r: usize)
        requires
            self.wf(),
            self.entries@.len() > 0,
        ensures
            r < self.entries@.len(),
            is_oldest(self@, self.entries@[r as int].workflow.id@),
    {
        proof {
            self.lemma_view();
        }
        let mut best: usize = 0;
        let mut i: usize = 1;
        while i < self.entries.len()
            invariant
                self.wf(),
                0 < i <= self.entries@.len(),
                best < i,
                forall|j: int|
                    0 <= j < i ==> self.entries@[best as int].cached_at
                        <= #[trigger] self.entries@[j].cached_at,
            decreases self.entries@.len() - i,
        {
            if self.entries[i].cached_at < self.entries[best].cached_at {
                best = i;
            }
            i = i + 1;
        }
        proof {
            let k = self.entries@[best as int].workflow.id@;
            assert(self@[k] == self.entries@[best as int]@);
            assert forall|k2: Seq<char>| #[trigger] self@.contains_key(k2) implies self@[k].cached_at
                <= self@[k2].cached_at by {
                let j = choose|j: int|
                    0 <= j < self.entries@.len() && (#[trigger] self.entries@[j]).workflow.id@ == k2;
                assert(self@[self.entries@[j].workflow.id@] == self.entries@[j]@);
            }
        }
        best
    }

    /// Inserts `workflow` with `digest`, stamped `now` (seconds). When the cache is
    /// full, an entry with the smallest `cached_at` is evicted first; an entry with
    /// the same id is then overwritten.
    pub fn insert(&mut self, workflow: Workflow, digest: String, now: u64)
        requires
            old(self).wf(),
        ensures
            final(self).wf(),
            final(self).cap() == old(self).cap(),
            final(self)@.len() <= final(self).cap(),
            ({
                let e = EntryView { workflow: workflow@, digest: digest@, cached_at: now };
                if old(self)@.len() >= old(self).cap() {
                    exists|victim: Seq<char>|
                        is_oldest(old(self)@, victim) && final(self)@ == old(self)@.remove(
                            victim,
                        ).insert(workflow@.id, e)
                } else {
                    final(self)@ == old(self)@.insert(workflow@.id, e)
                }
            }),
    {
        proof {
            self.lemma_view();
        }
        let ghost m0 = self@;
        let ghost e = EntryView { workflow: workflow@, digest: digest@, cached_at: now };
        let ghost mut victim: Seq<char> = Seq::empty();
        if self.entries.len() as u64 >= self.capacity {
            let o = self.oldest_index();
            let removed = self.remove_at(o);
            proof {
                victim = removed.workflow.id@;
            }
        }
        let ghost m1 = self@;
        let entry = WorkflowCacheEntry { workflow, digest, cached_at: now };
        let ghost key = entry.workflow.id@;
        match self.find(entry.workflow.id.as_str()) {
            Some(i) => {
                let old_entry = self.remove_at(i);
                proof {
                    self.lemma_view();
                }
                self.push_new(entry);
                proof {
                    assert(self@ =~= m1.insert(key, e));
                }
            },
            None => {
                proof {
                    self.lemma_view();
                }
                self.push_new(entry);
            },
        }
        proof {
            self.lemma_view();
        }
    }

    /// Removes and returns the entry cached under `workflow_id`.
    pub fn remove(&mut self, workflow_id: &str) -> (r: Option<WorkflowCacheEntry>)
        requires
            old(self).wf(),
        ensures
            final(self).wf(),
            final(self).cap() == old(self).cap(),
            final(self)@ == old(self)@.remove(workflow_id@),
            match r {
                Some(e) => old(self)@.contains_key(workflow_id@) && e@ == old(self)@[workflow_id@],
                None => !old(self)@.contains_key(workflow_id@),
            },
    {
        proof {
            self.lemma_view();
        }
        match self.find(workflow_id) {
            Some(i) => Some(self.remove_at(i)),
            None => {
                assert(self@ =~= self@.remove(workflow_id@));
                None
            },
        }
    }

    /// Removes every entry.
    pub fn clear(&mut self)
        requires
            old(self).wf(),
        ensures
            final(self).wf(),
            final(self).cap() == old(self).cap(),
            final(self)@ == Map::<Seq<char>, EntryView>::empty(),
    {
        self.entries.clear();
        assert(self.seq() =~= Seq::<EntryView>::empty());
    }

    /// The cached workflow ids, each once, in no particular order.
    pub fn keys(&self) -> (r: Vec<String>)
        requires
            self.wf(),
        ensures
            r@.len() == self@.len(),
            forall|i: int| 0 <= i < r@.len() ==> self@.contains_key(#[trigger] r@[i]@),
            forall|k: Seq<char>| #[trigger]
                self@.contains_key(k) ==> exists|i: int| 0 <= i < r@.len() && r@[i]@ == k,
    {
        proof {
            self.lemma_view();
        }
        let mut r: Vec<String> = Vec::new();
        let mut i: usize = 0;
        while i < self.entries.len()
            invariant
                self.wf(),
                i <= self.entries@.len(),
                r@.len() == i,
                forall|j: int| 0 <= j < i ==> (#[trigger] r@[j])@ == self.entries@[j].workflow.id@,
            decreases self.entries@.len() - i,
        {
            r.push(copy_string(&self.entries[i].workflow.id));
            i = i + 1;
        }
        proof {
            assert forall|j: int| 0 <= j < r@.len() implies self@.contains_key(#[trigger] r@[j]@) by {
                assert(r@[j]@ == self.entries@[j].workflow.id@);
            }
            assert forall|k: Seq<char>| #[trigger] self@.contains_key(k) implies exists|j: int|
                0 <= j < r@.len() && r@[j]@ == k by {
                let j = choose|j: int|
                    0 <= j < self.entries@.len() && (#[trigger] self.entries@[j]).workflow.id@ == k;
                assert(r@[j]@ == k);
            }
        }
        r
    }

    /// Every cached `(workflow id, digest)` pair, each id once, in no particular order.
    pub fn digests(&self) -> (r: Vec<(String, String)>)
        requires
            self.wf(),
        ensures
            r@.len() == self@.len(),
            forall|i: int|
                0 <= i < r@.len() ==> self@.contains_key((#[trigger] r@[i]).0@) && self@[r@[i].0@].digest
                    == r@[i].1@,
            forall|k: Seq<char>| #[trigger]
                self@.contains_key(k) ==> exists|i: int| 0 <= i < r@.len() && r@[i].0@ == k,
    {
        proof {
            self.lemma_view();
        }
        let mut r: Vec<(String, String)> = Vec::new();
        let mut i: usize = 0;
        while i < self.entries.len()
            invariant
                self.wf(),
                i <= self.entries@.len(),
                r@.len() == i,
                forall|j: int|
                    0 <= j < i ==> (#[trigger] r@[j]).0@ == self.entries@[j].workflow.id@ && r@[j].1@
                        == self.entries@[j].digest@,
            decreases self.entries@.len() - i,
        {
            r.push((copy_string(&self.entries[i].workflow.id), copy_string(&self.entries[i].digest)));
            i = i + 1;
        }
        proof {
            assert forall|j: int| 0 <= j < r@.len() implies self@.contains_key(
                (#[trigger] r@[j]).0@,
            ) && self@[r@[j].0@].digest == r@[j].1@ by {
                assert(self@[self.entries@[j].workflow.id@] == self.entries@[j]@);
            }
            assert forall|k: Seq<char>| #[trigger] self@.contains_key(k) implies exists|j: int|
                0 <= j < r@.len() && r@[j].0@ == k by {
                let j = choose|j: int|
                    0 <= j < self.entries@.len() && (#[trigger] self.entries@[j]).workflow.id@ == k;
                assert(r@[j].0@ == k);
            }
        }
        r
    }

    /// Number of cached entries.
    pub fn len(&self) -> (r: usize)
        requires
            self.wf(),
        ensures
            r == self@.len(),
            r <= self.cap(),
    {
        proof {
            self.lemma_view();
        }
        self.entries.len()
    }

    /// True when nothing is cached.
    pub fn is_empty(&self) -> (r: bool)
        requires
            self.wf(),
        ensures
            r == (self@.len() == 0),
    {
        self.len() == 0
    }
}

impl WorkflowCache {
    /// A well-formed cache has a finite domain within its bound.
    pub proof fn lemma_bounded(&self)
        requires
            self.wf(),
        ensures
            self@.dom().finite(),
            self@.len() <= self.cap(),
            self.cap() >= 1,
    {
        self.lemma_view();
    }
}

} // verus!
