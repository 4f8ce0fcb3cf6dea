//! The in-memory virtual filesystem: a mapping from rootless path names to
//! stored entries, owned exclusively by one adapter instance.
//!
//! The abstract model of a store is a finite `Map` from the name's character
//! sequence to the entry it holds. Writing a name that is already present
//! replaces its entry (last write wins); removal of an absent name leaves the
//! store unchanged.

use vstd::prelude::*;
use vstd::string::StrSliceExecFns;

verus! {

/// What one stored file holds, as a specification-level value.
pub enum EntrySnap {
    /// An opaque byte blob.
    Bin(Seq<u8>),
    /// UTF-8 source text.
    Text(Seq<char>),
}

/// The content stored under one virtual path: either an opaque byte blob
/// (images, fonts, and the like) or UTF-8 source text.
pub enum FileEntry {
    Bin(Vec<u8>),
    Text(String),
}

impl View for FileEntry {
    type V = EntrySnap;

    open spec fn view(&self) -> EntrySnap {
        match self {
            FileEntry::Bin(b) => EntrySnap::Bin(b@),
            FileEntry::Text(t) => EntrySnap::Text(t@),
        }
    }
}

/// Why a lookup failed: the name has no entry at all, or it has one but of
/// the wrong kind (binary where source text was wanted).
#[derive(Debug)]
pub enum FsError {
    /// No entry is stored under this name; carries the name that was asked for.
    NotFound(String),
    /// The entry under this name is binary, but source text was asked for.
    NotSource,
}

/// A mapping from rootless path names to file entries.
///
/// Entries are kept as a vector of pairs with pairwise-distinct names, so
/// that the store abstracts to a finite map from names to entries.
pub struct FileStore {
    entries: Vec<(String, FileEntry)>,
}

impl View for FileStore {
    type V = Map<Seq<char>, EntrySnap>;

    closed spec fn view(&self) -> Map<Seq<char>, EntrySnap> {
        Map::new(
            |n: Seq<char>|
                exists|i: int| 0 <= i < self.entries@.len() && self.entries@[i].0@ == n,
            |n: Seq<char>|
                {
                    let i = choose|i: int|
                        0 <= i < self.entries@.len() && self.entries@[i].0@ == n;
                    self.entries@[i].1@
                },
        )
    }
}

impl FileStore {
    /// Names of the stored entries, in storage order.
    pub closed spec fn names(&self) -> Seq<Seq<char>> {
        self.entries@.map_values(|e: (String, FileEntry)| e.0@)
    }

    /// Well-formed: no name occurs twice.
    pub closed spec fn wf(&self) -> bool {
        forall|i: int, j: int|
            0 <= i < j < self.entries@.len() ==> self.entries@[i].0@ != self.entries@[j].0@
    }

    /// Number of stored entries.
    pub closed spec fn len(&self) -> nat {
        self.entries@.len()
    }

    proof fn lemma_entry_in_view(&self, i: int)
        requires
            self.wf(),
            0 <= i < self.entries@.len(),
        ensures
            self@.contains_key(self.entries@[i].0@),
            self@[self.entries@[i].0@] == self.entries@[i].1@,
    {
        let n = self.entries@[i].0@;
        assert(exists|k: int| 0 <= k < self.entries@.len() && self.entries@[k].0@ == n);
        let k = choose|k: int| 0 <= k < self.entries@.len() && self.entries@[k].0@ == n;
        if k != i {
            if k < i {
                assert(self.entries@[k].0@ != self.entries@[i].0@);
            } else {
                assert(self.entries@[i].0@ != self.entries@[k].0@);
            }
        }
    }

    /// An empty store.
    pub fn new() -> (r: Self)
        ensures
            r.wf(),
            r@ == Map::<Seq<char>, EntrySnap>::empty(),
            r.len() == 0,
    {
        let s = FileStore { entries: Vec::new() };
        proof {
            assert(s@ =~= Map::<Seq<char>, EntrySnap>::empty());
        }
        s
    }

    /// Index of the entry stored under `name`, if any.
    fn find(&self, name: &String) -> (r: Option<usize>)
        requires
            self.wf(),
        ensures
            match r {
                Some(i) => i < self.entries@.len() && self.entries@[i as int].0@ == name@,
                None => !self@.contains_key(name@),
            },
    {
        let n = self.entries.len();
        for i in 0..n
            invariant
                n == self.entries@.len(),
                forall|k: int| 0 <= k < i ==> self.entries@[k].0@ != name@,
        {
            if self.entries[i].0 == *name {
                return Some(i);
            }
        }
        None
    }

    /// Stores `entry` under `name`, replacing any prior entry with that name.
    fn insert(&mut self, name: String, entry: FileEntry)
        requires
            old(self).wf(),
        ensures
            final(self).wf(),
            final(self)@ == old(self)@.insert(name@, entry@),
            final(self).len() == if old(self)@.contains_key(name@) {
                old(self).len()
            } else {
                old(self).len() + 1
            },
            final(self).names() == if old(self)@.contains_key(name@) {
                old(self).names()
            } else {
                old(self).names().push(name@)
            },
    {
        let ghost n = name@;
        let ghost e = entry@;
        match self.find(&name) {
            Some(i) => {
                proof {
                    self.lemma_entry_in_view(i as int);
                }
                self.entries.set(i, (name, entry));
                proof {
                    self.lemma_insert_replaces(old(self), i as int, n, e);
                }
            },
            None => {
                self.entries.push((name, entry));
                proof {
                    self.lemma_insert_appends(old(self), n, e);
                }
            },
        }
    }

    proof fn lemma_insert_replaces(&self, prev: &Self, i: int, n: Seq<char>, e: EntrySnap)
        requires
            prev.wf(),
            0 <= i < prev.entries@.len(),
            prev.entries@[i].0@ == n,
            self.entries@ == prev.entries@.update(i, (self.entries@[i].0, self.entries@[i].1)),
            self.entries@[i].0@ == n,
            self.entries@[i].1@ == e,
        ensures
            self.wf(),
            self@ == prev@.insert(n, e),
            self.names() == prev.names(),
    {
        assert forall|p: int, q: int|
            0 <= p < q < self.entries@.len() implies self.entries@[p].0@
            != self.entries@[q].0@ by {
            assert(prev.entries@[p].0@ != prev.entries@[q].0@);
        }
        assert(self.names() =~= prev.names());
        assert forall|m: Seq<char>| #![all_triggers] true implies {
            (self@.contains_key(m) <==> prev@.insert(n, e).contains_key(m))
            && (self@.contains_key(m) ==> self@[m] == prev@.insert(n, e)[m])
        } by {
            if m == n {
                self.lemma_entry_in_view(i);
            } else {
                if exists|k: int|
                    0 <= k < prev.entries@.len() && prev.entries@[k].0@ == m {
                    let k = choose|k: int|
                        0 <= k < prev.entries@.len() && prev.entries@[k].0@ == m;
                    prev.lemma_entry_in_view(k);
                    self.lemma_entry_in_view(k);
                } else {
                    assert(!self@.contains_key(m));
                }
            }
        }
        assert(self@ =~= prev@.insert(n, e));
    }

    proof fn lemma_insert_appends(&self, prev: &Self, n: Seq<char>, e: EntrySnap)
        requires
            prev.wf(),
            !prev@.contains_key(n),
            self.entries@ == prev.entries@.push(
                (self.entries@[prev.entries@.len() as int].0,
                self.entries@[prev.entries@.len() as int].1),
            ),
            self.entries@[prev.entries@.len() as int].0@ == n,
            self.entries@[prev.entries@.len() as int].1@ == e,
        ensures
            self.wf(),
            self@ == prev@.insert(n, e),
            self.names() == prev.names().push(n),
    {
        let last = prev.entries@.len() as int;
        assert forall|k: int| 0 <= k < last implies prev.entries@[k].0@ != n by {
            if prev.entries@[k].0@ == n {
                prev.lemma_entry_in_view(k);
            }
        }
        assert forall|p: int, q: int|
            0 <= p < q < self.entries@.len() implies self.entries@[p].0@
            != self.entries@[q].0@ by {
            if q < last {
                assert(prev.entries@[p].0@ != prev.entries@[q].0@);
            }
        }
        assert(self.names() =~= prev.names().push(n));
        assert forall|m: Seq<char>| #![all_triggers] true implies {
            (self@.contains_key(m) <==> prev@.insert(n, e).contains_key(m))
            && (self@.contains_key(m) ==> self@[m] == prev@.insert(n, e)[m])
        } by {
            if m == n {
                self.lemma_entry_in_view(last);
            } else {
                if exists|k: int|
                    0 <= k < prev.entries@.len() && prev.entries@[k].0@ == m {
                    let k = choose|k: int|
                        0 <= k < prev.entries@.len() && prev.entries@[k].0@ == m;
                    prev.lemma_entry_in_view(k);
                    self.lemma_entry_in_view(k);
                } else {
                    assert(!self@.contains_key(m));
                }
            }
        }
        assert(self@ =~= prev@.insert(n, e));
    }

    /// Stores source text under `name` (upsert, last write wins).
    pub fn insert_text(&mut self, name: String, text: String)
        requires
            old(self).wf(),
        ensures
            final(self).wf(),
            final(self)@ == old(self)@.insert(name@, EntrySnap::Text(text@)),
            final(self).len() == if old(self)@.contains_key(name@) {
                old(self).len()
            } else {
                old(self).len() + 1
            },
    {
        self.insert(name, FileEntry::Text(text));
    }

    /// Stores a byte blob under `name` (upsert, last write wins).
    pub fn insert_binary(&mut self, name: String, data: Vec<u8>)
        requires
            old(self).wf(),
        ensures
            final(self).wf(),
            final(self)@ == old(self)@.insert(name@, EntrySnap::Bin(data@)),
            final(self).len() == if old(self)@.contains_key(name@) {
                old(self).len()
            } else {
                old(self).len() + 1
            },
    {
        self.insert(name, FileEntry::Bin(data));
    }

    /// Removes the entry stored under `name`, if any; absent names are a no-op.
    pub fn remove(&mut self, name: &String)
        requires
            old(self).wf(),
        ensures
            final(self).wf(),
            final(self)@ == old(self)@.remove(name@),
            !old(self)@.contains_key(name@) ==> final(self)@ == old(self)@,
    {
        let ghost n = name@;
        match self.find(name) {
            Some(i) => {
                self.entries.remove(i);
                proof {
                    self.lemma_remove_at(old(self), i as int, n);
                }
            },
            None => {
                proof {
                    assert(self@ =~= old(self)@.remove(n));
                }
            },
        }
    }

    proof fn lemma_remove_at(&self, prev: &Self, i: int, n: Seq<char>)
        requires
            prev.wf(),
            0 <= i < prev.entries@.len(),
            prev.entries@[i].0@ == n,
            self.entries@ == prev.entries@.remove(i),
        ensures
            self.wf(),
            self@ == prev@.remove(n),
    {
        assert forall|p: int, q: int|
            0 <= p < q < self.entries@.len() implies self.entries@[p].0@
            != self.entries@[q].0@ by {
            let p0 = if p < i { p } else { p + 1 };
            let q0 = if q < i { q } else { q + 1 };
            assert(self.entries@[p] == prev.entries@[p0]);
            assert(self.entries@[q] == prev.entries@[q0]);
            assert(prev.entries@[p0].0@ != prev.entries@[q0].0@);
        }
        assert forall|m: Seq<char>| #![all_triggers] true implies {
            (self@.contains_key(m) <==> prev@.remove(n).contains_key(m))
            && (self@.contains_key(m) ==> self@[m] == prev@.remove(n)[m])
        } by {
            if exists|k: int|
                0 <= k < self.entries@.len() && self.entries@[k].0@ == m {
                let k = choose|k: int|
                    0 <= k < self.entries@.len() && self.entries@[k].0@ == m;
                let k0 = if k < i { k } else { k + 1 };
                assert(self.entries@[k] == prev.entries@[k0]);
                self.lemma_entry_in_view(k);
                prev.lemma_entry_in_view(k0);
                if m == n {
                    assert(prev.entries@[k0].0@ == prev.entries@[i].0@);
                    assert(k0 != i ==> prev.entries@[k0].0@ != prev.entries@[i].0@);
                    assert(false);
                }
            } else {
                assert(!self@.contains_key(m));
                if m != n && prev@.contains_key(m) {
                    let k0 = choose|k: int|
                        0 <= k < prev.entries@.len() && prev.entries@[k].0@ == m;
                    let k = if k0 < i { k0 } else { k0 - 1 };
                    assert(k0 != i);
                    assert(self.entries@[k] == prev.entries@[k0]);
                    assert(false);
                }
            }
        }
        assert(self@ =~= prev@.remove(n));
    }

    /// The stored names, in storage order, without duplicates.
    pub fn list(&self) -> (r: Vec<String>)
        requires
            self.wf(),
        ensures
            r@.len() == self.len(),
            forall|i: int| 0 <= i < r@.len() ==> r@[i]@ == self.names()[i],
            forall|i: int, j: int| 0 <= i < j < r@.len() ==> r@[i]@ != r@[j]@,
            forall|n: Seq<char>|
                self@.contains_key(n) <==> exists|i: int| 0 <= i < r@.len() && r@[i]@ == n,
    {
        let mut r: Vec<String> = Vec::new();
        let n = self.entries.len();
        for i in 0..n
            invariant
                n == self.entries@.len(),
                r@.len() == i,
                forall|k: int| 0 <= k < i ==> r@[k]@ == self.entries@[k].0@,
        {
            r.push(self.entries[i].0.clone());
        }
        proof {
            assert forall|n0: Seq<char>|
                self@.contains_key(n0) <==> exists|i: int|
                    0 <= i < r@.len() && r@[i]@ == n0 by {
                if self@.contains_key(n0) {
                    let k = choose|k: int|
                        0 <= k < self.entries@.len() && self.entries@[k].0@ == n0;
                    assert(r@[k]@ == n0);
                }
                if exists|i: int| 0 <= i < r@.len() && r@[i]@ == n0 {
                    let k = choose|i: int| 0 <= i < r@.len() && r@[i]@ == n0;
                    self.lemma_entry_in_view(k);
                }
            }
        }
        r
    }

    /// Source text stored under `name`: the text if the entry is textual,
    /// `NotSource` if it is binary, `NotFound` if there is none.
    pub fn get_source(&self, name: &String) -> (r: Result<String, FsError>)
        requires
            self.wf(),
        ensures
            match r {
                Ok(t) => self@.contains_key(name@) && self@[name@] == EntrySnap::Text(t@),
                Err(FsError::NotSource) => self@.contains_key(name@) && self@[name@] is Bin,
                Err(FsError::NotFound(p)) => !self@.contains_key(name@) && p@ == name@,
            },
    {
        match self.find(name) {
            Some(i) => {
                proof {
                    self.lemma_entry_in_view(i as int);
                }
                match &self.entries[i].1 {
                    FileEntry::Text(t) => Ok(t.clone()),
                    FileEntry::Bin(_) => Err(FsError::NotSource),
                }
            },
            None => Err(FsError::NotFound(name.clone())),
        }
    }

    /// Raw bytes stored under `name`: a binary entry's bytes as they are, a
    /// text entry re-encoded as UTF-8 on demand, `NotFound` if there is none.
    pub fn get_bytes(&self, name: &String) -> (r: Result<Vec<u8>, FsError>)
        requires
            self.wf(),
        ensures
            match r {
                Ok(b) => self@.contains_key(name@) && match self@[name@] {
                    EntrySnap::Bin(bb) => b@ == bb,
                    EntrySnap::Text(t) => b@ == vstd::utf8::encode_utf8(t),
                },
                Err(FsError::NotSource) => false,
                Err(FsError::NotFound(p)) => !self@.contains_key(name@) && p@ == name@,
            },
    {
        match self.find(name) {
            Some(i) => {
                proof {
                    self.lemma_entry_in_view(i as int);
                }
                match &self.entries[i].1 {
                    FileEntry::Text(t) => {
                        let b = t.as_str().as_bytes_vec();
                        Ok(b)
                    },
                    FileEntry::Bin(b) => Ok(b.clone()),
                }
            },
            None => Err(FsError::NotFound(name.clone())),
        }
    }
}

} // verus!
