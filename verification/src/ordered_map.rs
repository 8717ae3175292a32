//! An insertion-ordered map from names to values, both text, in which every name
//! occurs once.

use vstd::prelude::*;

verus! {

/// The mathematical content of an ordered map: its entries in insertion order.
pub type Pairs = Seq<(Seq<char>, Seq<char>)>;

/// No name occurs in two entries.
pub open spec fn distinct_keys(s: Pairs) -> bool {
    forall|i: int, j: int| 0 <= i < j < s.len() ==> s[i].0 != s[j].0
}

/// The index of the first entry named `key`, or the number of entries where there is none.
pub open spec fn position(s: Pairs, key: Seq<char>) -> int
    decreases s.len(),
{
    if s.len() == 0 {
        0
    } else if s[0].0 == key {
        0
    } else {
        1 + position(s.drop_first(), key)
    }
}

/// Whether some entry is named `key`.
pub open spec fn has_key(s: Pairs, key: Seq<char>) -> bool {
    position(s, key) < s.len()
}

/// The value stored under `key`, if any.
pub open spec fn lookup(s: Pairs, key: Seq<char>) -> Option<Seq<char>> {
    if has_key(s, key) {
        Some(s[position(s, key)].1)
    } else {
        None
    }
}

/// The entries after `val` was written under `key`: an entry of that name keeps its
/// place and takes the new value; otherwise a new entry is appended.
pub open spec fn inserted(s: Pairs, key: Seq<char>, val: Seq<char>) -> Pairs {
    if has_key(s, key) {
        s.update(position(s, key), (key, val))
    } else {
        s.push((key, val))
    }
}

/// `position` is within bounds, names the key where it stops inside the sequence, and
/// passes over no entry of that name.
pub proof fn lemma_position(s: Pairs, key: Seq<char>)
    ensures
        0 <= position(s, key) <= s.len(),
        position(s, key) < s.len() ==> s[position(s, key)].0 == key,
        forall|j: int| 0 <= j < position(s, key) ==> s[j].0 != key,
    decreases s.len(),
{
    if s.len() > 0 && s[0].0 != key {
        let rest = s.drop_first();
        lemma_position(rest, key);
        assert forall|j: int| 0 <= j < position(s, key) implies s[j].0 != key by {
            if j > 0 {
                assert(rest[j - 1] == s[j]);
            }
        }
    }
}

/// The first index at which `key` is found (or the length, when it is found nowhere) is
/// its position.
pub proof fn lemma_position_is_first(s: Pairs, key: Seq<char>, i: int)
    requires
        0 <= i <= s.len(),
        forall|j: int| 0 <= j < i ==> s[j].0 != key,
        i < s.len() ==> s[i].0 == key,
    ensures
        position(s, key) == i,
{
    lemma_position(s, key);
}

/// Writing under a name keeps the names distinct, leaves exactly one entry of that name,
/// and makes its value the one written.
pub proof fn lemma_inserted(s: Pairs, key: Seq<char>, val: Seq<char>)
    requires
        distinct_keys(s),
    ensures
        distinct_keys(inserted(s, key, val)),
        lookup(inserted(s, key, val), key) == Some(val),
        inserted(s, key, val).len() == if has_key(s, key) {
            s.len()
        } else {
            s.len() + 1
        },
        forall|other: Seq<char>|
            other != key ==> lookup(inserted(s, key, val), other) == lookup(s, other),
{
    let t = inserted(s, key, val);
    let p = position(s, key);
    lemma_position(s, key);
    assert forall|i: int, j: int| 0 <= i < j < t.len() implies t[i].0 != t[j].0 by {
        if has_key(s, key) {
            if i != p && j != p {
                assert(s[i].0 != s[j].0);
            } else if i == p {
                assert(s[p].0 != s[j].0);
            } else {
                assert(s[i].0 != s[p].0);
            }
        } else {
            if j < s.len() {
                assert(s[i].0 != s[j].0);
            }
        }
    }
    lemma_position_is_first(t, key, p);
    assert forall|other: Seq<char>| other != key implies lookup(t, other) == lookup(
        s,
        other,
    ) by {
        let q = position(s, other);
        lemma_position(s, other);
        if q < s.len() {
            lemma_position_is_first(t, other, q);
        } else {
            lemma_position_is_first(t, other, t.len() as int);
        }
    }
}

/// A second write under the same name replaces the first: the result is as if only the
/// second had been made, and the name still occurs once.
pub proof fn lemma_insert_overwrites(s: Pairs, key: Seq<char>, first: Seq<char>, second: Seq<char>)
    requires
        distinct_keys(s),
    ensures
        inserted(inserted(s, key, first), key, second) == inserted(s, key, second),
        inserted(inserted(s, key, first), key, second).len() == inserted(s, key, first).len(),
        distinct_keys(inserted(inserted(s, key, first), key, second)),
{
    let t = inserted(s, key, first);
    let p = position(s, key);
    lemma_position(s, key);
    lemma_position_is_first(t, key, p);
    lemma_inserted(s, key, first);
    lemma_inserted(t, key, second);
    assert(inserted(t, key, second) =~= inserted(s, key, second));
}

/// An insertion-ordered map from names to values.
#[derive(Debug, PartialEq, Eq)]
pub struct OrderedMap {
    entries: Vec<(String, String)>,
}

/// The entries of a vector of pairs of strings, each string taken by its characters.
pub open spec fn pairs_of(entries: Seq<(String, String)>) -> Pairs {
    Seq::new(entries.len(), |i: int| (entries[i].0@, entries[i].1@))
}

impl View for OrderedMap {
    type V = Pairs;

    closed spec fn view(&self) -> Pairs {
        pairs_of(self.entries@)
    }
}

impl Clone for OrderedMap {
    fn clone(&self) -> (copy: Self)
        ensures
            copy@ == self@,
    {
        proof {
            use_type_invariant(self);
        }
        let mut entries: Vec<(String, String)> = Vec::new();
        let mut i: usize = 0;
        while i < self.entries.len()
            invariant
                i <= self.entries.len(),
                entries@.len() == i,
                forall|j: int|
                    0 <= j < i ==> entries@[j].0@ == self.entries@[j].0@ && entries@[j].1@
                        == self.entries@[j].1@,
            decreases self.entries.len() - i,
        {
            entries.push((self.entries[i].0.clone(), self.entries[i].1.clone()));
            i += 1;
        }
        assert(pairs_of(entries@) =~= pairs_of(self.entries@));
        OrderedMap { entries }
    }
}

impl OrderedMap {
    #[verifier::type_invariant]
    spec fn names_occur_once(self) -> bool {
        distinct_keys(pairs_of(self.entries@))
    }

    /// The map without entries.
    pub fn new() -> (map: Self)
        ensures
            map@ == Seq::<(Seq<char>, Seq<char>)>::empty(),
    {
        let map = OrderedMap { entries: Vec::new() };
        assert(map@ =~= Seq::<(Seq<char>, Seq<char>)>::empty());
        map
    }

    /// The number of entries.
    pub fn len(&self) -> (n: usize)
        ensures
            n == self@.len(),
    {
        self.entries.len()
    }

    /// Whether the map has no entry.
    pub fn is_empty(&self) -> (empty: bool)
        ensures
            empty == (self@.len() == 0),
    {
        self.entries.len() == 0
    }

    /// The entries in insertion order. Their names are distinct.
    pub fn entries(&self) -> (entries: &Vec<(String, String)>)
        ensures
            pairs_of(entries@) == self@,
            distinct_keys(self@),
    {
        proof {
            use_type_invariant(self);
        }
        &self.entries
    }

    /// The index of the entry named `key`, or `len()` where there is none.
    pub fn find(&self, key: &str) -> (i: usize)
        ensures
            i == position(self@, key@),
    {
        let wanted = key.to_owned();
        let mut i: usize = 0;
        while i < self.entries.len()
            invariant
                i <= self.entries.len(),
                wanted@ == key@,
                forall|j: int| 0 <= j < i ==> self@[j].0 != key@,
            decreases self.entries.len() - i,
        {
            if self.entries[i].0 == wanted {
                proof {
                    lemma_position_is_first(self@, key@, i as int);
                }
                return i;
            }
            i += 1;
        }
        proof {
            lemma_position_is_first(self@, key@, i as int);
        }
        i
    }

    /// The value stored under `key`, if any.
    pub fn get(&self, key: &str) -> (found: Option<&String>)
        ensures
            match found {
                Some(val) => lookup(self@, key@) == Some(val@),
                None => lookup(self@, key@).is_none(),
            },
    {
        let i = self.find(key);
        if i < self.entries.len() {
            Some(&self.entries[i].1)
        } else {
            None
        }
    }

    /// Writes `val` under `key`. An entry of that name keeps its place and takes the new
    /// value; otherwise a new entry is appended.
    pub fn insert(&mut self, key: &str, val: &str)
        ensures
            final(self)@ == inserted(old(self)@, key@, val@),
    {
        proof {
            use_type_invariant(&*self);
            lemma_inserted(self@, key@, val@);
        }
        let i = self.find(key);
        let entry = (key.to_owned(), val.to_owned());
        let ghost before = self@;
        let mut entries: Vec<(String, String)> = Vec::new();
        core::mem::swap(&mut self.entries, &mut entries);
        if i < entries.len() {
            entries.set(i, entry);
        } else {
            entries.push(entry);
        }
        assert(pairs_of(entries@) =~= inserted(before, key@, val@));
        self.entries = entries;
    }
}

} // verus!
