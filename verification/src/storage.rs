//! The in-memory storage backend: a key-to-bytes mapping with the uniform
//! backend operations `put` (idempotent overwrite), `get`, and the
//! existence check.
//!
//! This is the one backend whose semantics live entirely in this crate; it
//! is the model against which the artifact service is verified. The
//! filesystem and cloud backends perform asynchronous I/O and are driven by
//! the embedding application, which reuses the request decisions verified
//! here.

use vstd::prelude::*;

verus! {

struct Entry {
    key: String,
    value: Vec<u8>,
}

/// No two entries share a key, so the association list denotes a map and
/// `put` can overwrite in place.
spec fn unique_keys(s: Seq<Entry>) -> bool {
    forall|i: int, j: int| 0 <= i < j < s.len() ==> s[i].key@ != s[j].key@
}

/// The mapping an entry list denotes; a later entry would win, but
/// `unique_keys` rules repetition out.
spec fn entries_map(s: Seq<Entry>) -> Map<Seq<char>, Seq<u8>>
    decreases s.len(),
{
    if s.len() == 0 {
        Map::empty()
    } else {
        entries_map(s.drop_last()).insert(s.last().key@, s.last().value@)
    }
}

proof fn lemma_entries_map_domain(s: Seq<Entry>, k: Seq<char>)
    ensures
        entries_map(s).contains_key(k) <==> exists|i: int| 0 <= i < s.len() && s[i].key@ == k,
    decreases s.len(),
{
    if s.len() > 0 {
        lemma_entries_map_domain(s.drop_last(), k);
        if s.last().key@ == k {
            assert(s[s.len() - 1].key@ == k);
        } else {
            if exists|i: int| 0 <= i < s.len() && s[i].key@ == k {
                let i = choose|i: int| 0 <= i < s.len() && s[i].key@ == k;
                assert(s.drop_last()[i] == s[i]);
            }
        }
    }
}

proof fn lemma_entries_map_at(s: Seq<Entry>, i: int)
    requires
        unique_keys(s),
        0 <= i < s.len(),
    ensures
        entries_map(s).contains_key(s[i].key@),
        entries_map(s)[s[i].key@] == s[i].value@,
    decreases s.len(),
{
    if i < s.len() - 1 {
        assert(unique_keys(s.drop_last()));
        lemma_entries_map_at(s.drop_last(), i);
        assert(s.drop_last()[i] == s[i]);
        assert(s.last().key@ != s[i].key@);
    }
}

proof fn lemma_entries_map_update(s: Seq<Entry>, i: int, e: Entry)
    requires
        unique_keys(s),
        0 <= i < s.len(),
        e.key@ == s[i].key@,
    ensures
        entries_map(s.update(i, e)) == entries_map(s).insert(e.key@, e.value@),
    decreases s.len(),
{
    let t = s.update(i, e);
    if i == s.len() - 1 {
        assert(t.drop_last() =~= s.drop_last());
        assert(t.last() == e);
        assert(entries_map(t) =~= entries_map(s).insert(e.key@, e.value@));
    } else {
        assert(unique_keys(s.drop_last()));
        assert(t.drop_last() =~= s.drop_last().update(i, e));
        assert(s.drop_last()[i] == s[i]);
        lemma_entries_map_update(s.drop_last(), i, e);
        assert(t.last() == s.last());
        assert(s.last().key@ != e.key@);
        assert(entries_map(t) =~= entries_map(s).insert(e.key@, e.value@));
    }
}

proof fn lemma_entries_map_push(s: Seq<Entry>, e: Entry)
    ensures
        entries_map(s.push(e)) == entries_map(s).insert(e.key@, e.value@),
{
    assert(s.push(e).drop_last() =~= s);
    assert(s.push(e).last() == e);
}

/// The in-memory backend: process-local and volatile. Its view is the
/// key-to-bytes mapping it currently holds.
pub struct MemoryStore {
    entries: Vec<Entry>,
}

impl MemoryStore {
    /// Internal well-formedness: one entry per key.
    pub closed spec fn wf(self) -> bool {
        unique_keys(self.entries@)
    }

    pub closed spec fn view(self) -> Map<Seq<char>, Seq<u8>> {
        entries_map(self.entries@)
    }

    /// A fresh, empty store.
    pub fn new() -> (s: Self)
        ensures
            s.wf(),
            s@ == Map::<Seq<char>, Seq<u8>>::empty(),
    {
        let s = MemoryStore { entries: Vec::new() };
        proof {
            assert(s@ =~= Map::<Seq<char>, Seq<u8>>::empty());
        }
        s
    }

    /// The position of the entry for `path`, if there is one.
    fn find(&self, path: &String) -> (r: Option<usize>)
        ensures
            match r {
                Some(i) => i < self.entries@.len() && self.entries@[i as int].key@ == path@,
                None => forall|j: int| 0 <= j < self.entries@.len() ==> self.entries@[j].key@ != path@,
            },
    {
        let n = self.entries.len();
        let mut i: usize = 0;
        while i < n
            invariant
                n == self.entries@.len(),
                0 <= i <= n,
                forall|j: int| 0 <= j < i ==> self.entries@[j].key@ != path@,
            decreases n - i,
        {
            if self.entries[i].key == *path {
                return Some(i);
            }
            i = i + 1;
        }
        None
    }

    /// Whether `path` currently maps to a value; the backend existence
    /// check. Never fails.
    pub fn contains(&self, path: &String) -> (r: bool)
        requires
            self.wf(),
        ensures
            r == self@.contains_key(path@),
    {
        let r = self.find(path);
        proof {
            lemma_entries_map_domain(self.entries@, path@);
        }
        match r {
            Some(_) => true,
            None => false,
        }
    }

    /// The bytes stored under `path`, or `None` if the key is absent.
    pub fn get(&self, path: &String) -> (r: Option<Vec<u8>>)
        requires
            self.wf(),
        ensures
            r is Some <==> self@.contains_key(path@),
            r is Some ==> r.unwrap()@ == self@[path@],
    {
        proof {
            lemma_entries_map_domain(self.entries@, path@);
        }
        match self.find(path) {
            Some(i) => {
                let data = self.entries[i].value.clone();
                proof {
                    lemma_entries_map_at(self.entries@, i as int);
                    assert(data@ =~= self.entries@[i as int].value@);
                }
                Some(data)
            },
            None => None,
        }
    }

    /// Stores `data` under `path`, overwriting any previous value.
    pub fn put(&mut self, path: &String, data: Vec<u8>)
        requires
            old(self).wf(),
        ensures
            final(self).wf(),
            final(self)@ == old(self)@.insert(path@, data@),
    {
        let e = Entry { key: path.clone(), value: data };
        match self.find(path) {
            Some(i) => {
                proof {
                    lemma_entries_map_update(self.entries@, i as int, e);
                }
                self.entries[i] = e;
                proof {
                    assert forall|p: int, q: int|
                        0 <= p < q < self.entries@.len() implies self.entries@[p].key@
                        != self.entries@[q].key@ by {
                        assert(old(self).entries@[p].key@ != old(self).entries@[q].key@);
                    }
                }
            },
            None => {
                proof {
                    lemma_entries_map_push(self.entries@, e);
                }
                self.entries.push(e);
                proof {
                    assert forall|p: int, q: int|
                        0 <= p < q < self.entries@.len() implies self.entries@[p].key@
                        != self.entries@[q].key@ by {
                        if q < old(self).entries@.len() {
                            assert(old(self).entries@[p].key@ != old(self).entries@[q].key@);
                        } else {
                            assert(self.entries@[q].key@ == path@);
                            assert(old(self).entries@[p].key@ != path@);
                        }
                    }
                }
            },
        }
    }
}

} // verus!
