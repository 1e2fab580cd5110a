//! The maps that a build fills: nodes and notes by identifier, in the order in
//! which they were made.

use crate::comment::Comment;
use crate::document::Block;
use crate::uid::Uid;
use vstd::prelude::*;

verus! {

/// A map from identifiers to values that remembers the order in which its
/// identifiers came in.  Its view lists the entries, each as the text of its
/// identifier and the model of its value.  No identifier occurs twice: a value
/// that is put under an identifier takes the place of the value that stood there.
#[derive(Debug, PartialEq)]
pub struct UidMap<T: View> {
    entries: Vec<(Uid, T)>,
}

impl<T: View + Clone> Clone for UidMap<T> {
    fn clone(&self) -> (copy: UidMap<T>)
        ensures
            copy@.len() == self@.len(),
            forall|k: int| 0 <= k < self@.len() ==> (#[trigger] copy@[k]).0 == self@[k].0,
    {
        proof {
            use_type_invariant(self);
        }
        let mut entries: Vec<(Uid, T)> = Vec::new();
        let mut i: usize = 0;
        while i < self.entries.len()
            invariant
                0 <= i <= self.entries.len(),
                entries.len() == i,
                forall|k: int| 0 <= k < i ==> (#[trigger] entries@[k]).0@ == self.entries@[k].0@,
            decreases self.entries.len() - i,
        {
            entries.push((self.entries[i].0.clone(), self.entries[i].1.clone()));
            i = i + 1;
        }
        proof {
            let ours = entries_view(self.entries@);
            let theirs = entries_view(entries@);
            assert forall|a: int, b: int| 0 <= a < b < theirs.len() implies (
            #[trigger] theirs[a]).0 != (#[trigger] theirs[b]).0 by {
                assert(ours[a].0 != ours[b].0);
            }
        }
        UidMap { entries }
    }
}

/// The nodes of a build.
pub type BlockMap = UidMap<Block>;

/// The notes of a build.
pub type CommentMap = UidMap<Comment>;

/// The models of a list of entries.
pub open spec fn entries_view<T: View>(entries: Seq<(Uid, T)>) -> Seq<(Seq<char>, T::V)> {
    entries.map_values(|entry: (Uid, T)| (entry.0@, entry.1@))
}

/// Viewing commutes with appending an entry.
pub proof fn lemma_entries_view_push<T: View>(entries: Seq<(Uid, T)>, entry: (Uid, T))
    ensures
        entries_view(entries.push(entry)) == entries_view(entries).push((entry.0@, entry.1@)),
{
    assert(entries_view(entries.push(entry)) =~= entries_view(entries).push(
        (entry.0@, entry.1@),
    ));
}

/// The value under `key`: that of the last entry under it.
pub open spec fn lookup<V>(entries: Seq<(Seq<char>, V)>, key: Seq<char>) -> Option<V>
    decreases entries.len(),
{
    if entries.len() == 0 {
        None
    } else if entries.last().0 == key {
        Some(entries.last().1)
    } else {
        lookup(entries.drop_last(), key)
    }
}

/// Whether some entry stands under `key`.
pub open spec fn has_key<V>(entries: Seq<(Seq<char>, V)>, key: Seq<char>) -> bool {
    exists|i: int| 0 <= i < entries.len() && (#[trigger] entries[i]).0 == key
}

/// Whether no identifier occurs twice.
pub open spec fn distinct_keys<V>(entries: Seq<(Seq<char>, V)>) -> bool {
    forall|i: int, j: int|
        0 <= i < j < entries.len() ==> (#[trigger] entries[i]).0 != (#[trigger] entries[j]).0
}

/// `lookup` finds a value exactly under the identifiers that occur.
pub proof fn lemma_lookup_has_key<V>(entries: Seq<(Seq<char>, V)>, key: Seq<char>)
    ensures
        lookup(entries, key) is Some <==> has_key(entries, key),
    decreases entries.len(),
{
    if entries.len() > 0 {
        if entries.last().0 == key {
            assert(entries[entries.len() - 1].0 == key);
        } else {
            let front = entries.drop_last();
            lemma_lookup_has_key(front, key);
            if has_key(front, key) {
                let i = choose|i: int| 0 <= i < front.len() && (#[trigger] front[i]).0 == key;
                assert(entries[i].0 == key);
            }
            if has_key(entries, key) {
                let i = choose|i: int| 0 <= i < entries.len() && (#[trigger] entries[i]).0 == key;
                assert(front[i].0 == key);
            }
        }
    }
}

/// Where no identifier occurs twice, `lookup` finds each entry's own value.
pub proof fn lemma_lookup_distinct<V>(entries: Seq<(Seq<char>, V)>, i: int)
    requires
        distinct_keys(entries),
        0 <= i < entries.len(),
    ensures
        lookup(entries, entries[i].0) == Some(entries[i].1),
    decreases entries.len(),
{
    if i < entries.len() - 1 {
        let front = entries.drop_last();
        assert(entries.last() == entries[entries.len() - 1]);
        assert(entries[i].0 != entries[entries.len() - 1].0);
        assert forall|a: int, b: int| 0 <= a < b < front.len() implies (#[trigger] front[a]).0 != (
        #[trigger] front[b]).0 by {
            assert(entries[a].0 != entries[b].0);
        }
        lemma_lookup_distinct(front, i);
    }
}

/// The place of the first entry under `key` at or after `from`.
pub open spec fn entry_index<V>(entries: Seq<(Seq<char>, V)>, key: Seq<char>, from: int) -> Option<
    int,
>
    decreases entries.len() - from,
{
    if from < 0 || from >= entries.len() {
        None
    } else if entries[from].0 == key {
        Some(from)
    } else {
        entry_index(entries, key, from + 1)
    }
}

/// The entries after `value` was put under `key`: in the place of the entry under
/// that key, or behind all entries where there was none.
pub open spec fn put_entry<V>(entries: Seq<(Seq<char>, V)>, key: Seq<char>, value: V) -> Seq<
    (Seq<char>, V),
> {
    match entry_index(entries, key, 0) {
        Some(i) => entries.update(i, (key, value)),
        None => entries.push((key, value)),
    }
}

/// What `entry_index` returns is the first place at or after `from` under the key.
pub proof fn lemma_entry_index<V>(entries: Seq<(Seq<char>, V)>, key: Seq<char>, from: int)
    requires
        0 <= from,
    ensures
        match entry_index(entries, key, from) {
            Some(i) => {
                &&& from <= i < entries.len()
                &&& entries[i].0 == key
                &&& forall|j: int| from <= j < i ==> entries[j].0 != key
            },
            None => forall|j: int| from <= j < entries.len() ==> entries[j].0 != key,
        },
    decreases entries.len() - from,
{
    if from < entries.len() && entries[from].0 != key {
        lemma_entry_index(entries, key, from + 1);
    }
}

/// Putting a value under an identifier that is not in use adds an entry at the
/// end.
pub proof fn lemma_put_new<V>(entries: Seq<(Seq<char>, V)>, key: Seq<char>, value: V)
    requires
        !has_key(entries, key),
    ensures
        put_entry(entries, key, value) == entries.push((key, value)),
{
    lemma_entry_index(entries, key, 0);
    match entry_index(entries, key, 0) {
        Some(i) => {
            assert(entries[i].0 == key);
        },
        None => {},
    }
}

/// Putting a value under an identifier keeps every identifier that was in use,
/// brings that identifier into use, and keeps the identifiers apart.
pub proof fn lemma_put_entry<V>(entries: Seq<(Seq<char>, V)>, key: Seq<char>, value: V)
    ensures
        has_key(put_entry(entries, key, value), key),
        forall|id: Seq<char>| has_key(entries, id) ==> has_key(put_entry(entries, key, value), id),
        distinct_keys(entries) ==> distinct_keys(put_entry(entries, key, value)),
{
    lemma_entry_index(entries, key, 0);
    let after = put_entry(entries, key, value);
    match entry_index(entries, key, 0) {
        Some(i) => {
            assert(after[i].0 == key);
            assert forall|id: Seq<char>| has_key(entries, id) implies has_key(after, id) by {
                let k = choose|k: int| 0 <= k < entries.len() && (#[trigger] entries[k]).0 == id;
                assert(after[k].0 == id);
            }
            if distinct_keys(entries) {
                assert forall|a: int, b: int| 0 <= a < b < after.len() implies (
                #[trigger] after[a]).0 != (#[trigger] after[b]).0 by {
                    assert(entries[a].0 != entries[b].0);
                    assert(after[a].0 == entries[a].0);
                    assert(after[b].0 == entries[b].0);
                }
            }
        },
        None => {
            assert(after[entries.len() as int].0 == key);
            assert forall|id: Seq<char>| has_key(entries, id) implies has_key(after, id) by {
                let k = choose|k: int| 0 <= k < entries.len() && (#[trigger] entries[k]).0 == id;
                assert(after[k].0 == id);
            }
            if distinct_keys(entries) {
                assert forall|a: int, b: int| 0 <= a < b < after.len() implies (
                #[trigger] after[a]).0 != (#[trigger] after[b]).0 by {
                    if b < entries.len() {
                        assert(entries[a].0 != entries[b].0);
                    } else {
                        assert(entries[a].0 != key);
                    }
                }
            }
        },
    }
}

impl<T: View> View for UidMap<T> {
    type V = Seq<(Seq<char>, T::V)>;

    closed spec fn view(&self) -> Self::V {
        entries_view(self.entries@)
    }
}

impl<T: View> UidMap<T> {
    #[verifier::type_invariant]
    spec fn each_identifier_once(self) -> bool {
        distinct_keys(entries_view(self.entries@))
    }

    /// A map without entries.
    pub fn new() -> (map: Self)
        ensures
            map@ == Seq::<(Seq<char>, T::V)>::empty(),
    {
        let entries: Vec<(Uid, T)> = Vec::new();
        assert(entries_view(entries@) =~= Seq::<(Seq<char>, T::V)>::empty());
        UidMap { entries }
    }

    /// The number of entries, which is the number of identifiers in use.
    pub fn len(&self) -> (n: usize)
        ensures
            n == self@.len(),
            distinct_keys(self@),
    {
        proof {
            use_type_invariant(self);
        }
        self.entries.len()
    }

    /// Whether the map has no entry.
    pub fn is_empty(&self) -> (empty: bool)
        ensures
            empty == (self@.len() == 0),
    {
        self.entries.len() == 0
    }

    fn position(&self, uid: &Uid) -> (found: Option<usize>)
        ensures
            match found {
                Some(i) => entry_index(self@, uid@, 0) == Some(i as int) && i < self.entries.len(),
                None => entry_index(self@, uid@, 0) is None,
            },
    {
        let mut i: usize = 0;
        while i < self.entries.len()
            invariant
                0 <= i <= self.entries.len(),
                self@ == entries_view(self.entries@),
                entry_index(self@, uid@, 0) == entry_index(self@, uid@, i as int),
            decreases self.entries.len() - i,
        {
            if self.entries[i].0 == *uid {
                return Some(i);
            }
            i = i + 1;
        }
        None
    }

    /// Puts `value` under `uid`, in place of the value that stood there.
    pub fn insert(&mut self, uid: Uid, value: T)
        ensures
            final(self)@ == put_entry(old(self)@, uid@, value@),
            distinct_keys(final(self)@),
    {
        proof {
            use_type_invariant(&*self);
            lemma_put_entry(self@, uid@, value@);
        }
        let found = self.position(&uid);
        let mut entries: Vec<(Uid, T)> = Vec::new();
        core::mem::swap(&mut entries, &mut self.entries);
        let ghost before = entries@;
        match found {
            Some(i) => {
                entries.set(i, (uid, value));
                assert(entries_view(entries@) =~= entries_view(before).update(
                    i as int,
                    (uid@, value@),
                ));
            },
            None => {
                proof {
                    lemma_entries_view_push(before, (uid, value));
                }
                entries.push((uid, value));
            },
        }
        self.entries = entries;
    }

    /// The value under `uid`, if there is one.
    pub fn get(&self, uid: &Uid) -> (found: Option<&T>)
        ensures
            match found {
                Some(value) => lookup(self@, uid@) == Some(value@),
                None => lookup(self@, uid@) is None,
            },
    {
        let mut i: usize = self.entries.len();
        assert(self@.subrange(0, i as int) =~= self@);
        while i > 0
            invariant
                0 <= i <= self.entries.len(),
                self@.len() == self.entries.len(),
                self@ == entries_view(self.entries@),
                lookup(self@, uid@) == lookup(self@.subrange(0, i as int), uid@),
            decreases i,
        {
            i = i - 1;
            let entry = &self.entries[i];
            proof {
                let part = self@.subrange(0, i + 1);
                assert(part.last() == (entry.0@, entry.1@));
                assert(part.drop_last() =~= self@.subrange(0, i as int));
            }
            if entry.0 == *uid {
                return Some(&entry.1);
            }
        }
        None
    }

    /// Whether a value stands under `uid`.
    pub fn contains_key(&self, uid: &Uid) -> (found: bool)
        ensures
            found == has_key(self@, uid@),
    {
        proof {
            lemma_lookup_has_key(self@, uid@);
        }
        self.get(uid).is_some()
    }

    /// The `i`-th entry.
    pub fn entry(&self, i: usize) -> (entry: (&Uid, &T))
        requires
            i < self@.len(),
        ensures
            (entry.0@, entry.1@) == self@[i as int],
    {
        let e = &self.entries[i];
        (&e.0, &e.1)
    }

    /// Gives up the map for its entries in order.
    pub fn into_entries(self) -> (entries: Vec<(Uid, T)>)
        ensures
            entries_view(entries@) == self@,
            distinct_keys(self@),
    {
        proof {
            use_type_invariant(&self);
        }
        self.entries
    }
}

} // verus!
