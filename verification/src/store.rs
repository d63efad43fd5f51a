//! The paste store: a key/value table mapping identifiers to paste bodies.
//!
//! The store is modelled as a finite map from identifier text to body bytes.
//! Identifiers are unique (the table's primary key): an insert never
//! overwrites, and a lookup is an exact match on the identifier.

use vstd::prelude::*;

verus! {

/// Why a store operation failed.
#[derive(Clone, Copy, Debug, PartialEq, Eq, Structural)]
pub enum StoreError {
    /// The identifier is already taken; the store never overwrites a paste.
    Conflict,
    /// The backing store could not be reached or the transaction failed.
    Unavailable,
}

/// What a lookup of `id` in a store holding `m` returns: the stored body if
/// the identifier is present, and nothing otherwise.
pub open spec fn lookup(m: Map<Seq<char>, Seq<u8>>, id: Seq<char>) -> Option<Seq<u8>> {
    if m.contains_key(id) {
        Some(m[id])
    } else {
        None
    }
}

/// The map an association list denotes; a later entry would win, though a
/// well-formed store never holds two entries with one key.
pub open spec fn map_of(s: Seq<(String, Vec<u8>)>) -> Map<Seq<char>, Seq<u8>>
    decreases s.len(),
{
    if s.len() == 0 {
        Map::empty()
    } else {
        map_of(s.drop_last()).insert(s.last().0@, s.last().1@)
    }
}

/// An identifier occurs in `s` exactly when the denoted map has it as a key.
proof fn lemma_map_of_domain(s: Seq<(String, Vec<u8>)>, k: Seq<char>)
    ensures
        map_of(s).contains_key(k) <==> exists|i: int| 0 <= i < s.len() && s[i].0@ == k,
    decreases s.len(),
{
    if s.len() > 0 {
        lemma_map_of_domain(s.drop_last(), k);
        if s.last().0@ == k {
            assert(s[s.len() - 1].0@ == k);
        } else {
            if map_of(s).contains_key(k) {
                let i = choose|i: int| 0 <= i < s.drop_last().len() && s.drop_last()[i].0@ == k;
                assert(s[i].0@ == k);
            }
            if exists|i: int| 0 <= i < s.len() && s[i].0@ == k {
                let i = choose|i: int| 0 <= i < s.len() && s[i].0@ == k;
                assert(s.drop_last()[i].0@ == k);
            }
        }
    }
}

/// With no repeated identifiers, the denoted map sends each entry's
/// identifier to that entry's body.
proof fn lemma_map_of_value(s: Seq<(String, Vec<u8>)>, i: int)
    requires
        0 <= i < s.len(),
        forall|a: int, b: int| 0 <= a < b < s.len() ==> s[a].0@ != s[b].0@,
    ensures
        map_of(s).contains_key(s[i].0@),
        map_of(s)[s[i].0@] == s[i].1@,
    decreases s.len(),
{
    if i < s.len() - 1 {
        assert(forall|a: int, b: int|
            0 <= a < b < s.drop_last().len() ==> s.drop_last()[a].0@ != s.drop_last()[b].0@);
        lemma_map_of_value(s.drop_last(), i);
        assert(s[i].0@ != s.last().0@);
    }
}

/// The durable paste table. Each entry pairs an identifier with the paste
/// body stored under it; identifiers never repeat.
pub struct Store {
    entries: Vec<(String, Vec<u8>)>,
}

impl View for Store {
    type V = Map<Seq<char>, Seq<u8>>;

    /// The pastes the store holds, as a map from identifier to body.
    closed spec fn view(&self) -> Map<Seq<char>, Seq<u8>> {
        map_of(self.entries@)
    }
}

impl Store {
    /// The table's primary-key invariant: no identifier occurs twice.
    pub closed spec fn wf(&self) -> bool {
        forall|a: int, b: int|
            0 <= a < b < self.entries@.len() ==> self.entries@[a].0@ != self.entries@[b].0@
    }

    /// An empty store.
    pub fn new() -> (s: Store)
        ensures
            s.wf(),
            s@ == Map::<Seq<char>, Seq<u8>>::empty(),
    {
        Store { entries: Vec::new() }
    }

    /// The position of the entry keyed by `id`, if there is one.
    fn find_index(&self, id: &String) -> (r: Option<usize>)
        ensures
            match r {
                Some(i) => i < self.entries@.len() && self.entries@[i as int].0@ == id@,
                None => forall|j: int| 0 <= j < self.entries@.len() ==> self.entries@[j].0@ != id@,
            },
    {
        let n = self.entries.len();
        let mut i: usize = 0;
        while i < n
            invariant
                n == self.entries@.len(),
                i <= n,
                forall|j: int| 0 <= j < i ==> self.entries@[j].0@ != id@,
            decreases n - i,
        {
            if self.entries[i].0 == *id {
                return Some(i);
            }
            i = i + 1;
        }
        None
    }

    /// Inserts a new paste under `id`. Never overwrites: if `id` is already
    /// present the store is unchanged and the insert reports a conflict.
    pub fn put(&mut self, id: String, content: Vec<u8>) -> (r: Result<(), StoreError>)
        requires
            old(self).wf(),
        ensures
            final(self).wf(),
            match r {
                Ok(()) => !old(self)@.contains_key(id@)
                    && final(self)@ == old(self)@.insert(id@, content@),
                Err(e) => e == StoreError::Conflict
                    && old(self)@.contains_key(id@)
                    && final(self)@ == old(self)@,
            },
    {
        match self.find_index(&id) {
            Some(i) => {
                proof {
                    lemma_map_of_value(self.entries@, i as int);
                }
                Err(StoreError::Conflict)
            },
            None => {
                proof {
                    lemma_map_of_domain(self.entries@, id@);
                }
                let ghost prior = self.entries@;
                let ghost gid = id@;
                let ghost gcontent = content@;
                self.entries.push((id, content));
                proof {
                    assert(self.entries@.drop_last() =~= prior);
                    assert(self.entries@.last().0@ == gid);
                    assert forall|a: int, b: int|
                        0 <= a < b < self.entries@.len() implies self.entries@[a].0@
                        != self.entries@[b].0@ by {
                        if b < self.entries@.len() - 1 {
                            assert(prior[a].0@ != prior[b].0@);
                        } else {
                            assert(self.entries@[a] == prior[a]);
                        }
                    }
                }
                Ok(())
            },
        }
    }

    /// Looks up a paste by exact identifier match.
    pub fn get<'a>(&'a self, id: &String) -> (r: Option<&'a Vec<u8>>)
        requires
            self.wf(),
        ensures
            match r {
                Some(c) => lookup(self@, id@) == Some(c@),
                None => lookup(self@, id@) is None,
            },
    {
        match self.find_index(id) {
            Some(i) => {
                proof {
                    lemma_map_of_value(self.entries@, i as int);
                }
                Some(&self.entries[i].1)
            },
            None => {
                proof {
                    lemma_map_of_domain(self.entries@, id@);
                }
                None
            },
        }
    }
}

} // verus!
