//! The values that a user typed into a modal, by the id of the field.

use vstd::prelude::*;

verus! {

/// Whether two strings hold the same text, by `str`'s own `==`: true exactly
/// when both are the same sequence of characters.
#[verifier::external_body]
pub(crate) fn same_text(a: &str, b: &str) -> (same: bool)
    ensures
        same == (a@ == b@),
{
    a == b
}

/// The key of entry `i`.
spec fn key_at(entries: Seq<(String, String)>, i: int) -> Seq<char> {
    entries[i].0@
}

/// No key occurs in two entries.
spec fn distinct_keys(entries: Seq<(String, String)>) -> bool {
    forall|i: int, j: int|
        0 <= i < j < entries.len() ==> #[trigger] key_at(entries, i) != #[trigger] key_at(
            entries,
            j,
        )
}

/// Some entry has the key.
spec fn holds(entries: Seq<(String, String)>, key: Seq<char>) -> bool {
    exists|i: int| 0 <= i < entries.len() && #[trigger] key_at(entries, i) == key
}

/// The place of an entry with the key, where there is one.
spec fn position(entries: Seq<(String, String)>, key: Seq<char>) -> int {
    choose|i: int| 0 <= i < entries.len() && #[trigger] key_at(entries, i) == key
}

/// The map that the entries stand for.
spec fn entries_map(entries: Seq<(String, String)>) -> Map<Seq<char>, Seq<char>> {
    Map::new(
        |key: Seq<char>| holds(entries, key),
        |key: Seq<char>| entries[position(entries, key)].1@,
    )
}

/// Among entries with distinct keys, an entry is found under its key.
proof fn lemma_entry_found(entries: Seq<(String, String)>, i: int)
    requires
        distinct_keys(entries),
        0 <= i < entries.len(),
    ensures
        entries_map(entries).contains_key(entries[i].0@),
        entries_map(entries)[entries[i].0@] == entries[i].1@,
{
    let key = key_at(entries, i);
    let p = position(entries, key);
    assert(key_at(entries, p) == key);
    if p < i {
        assert(key_at(entries, p) != key_at(entries, i));
    } else if i < p {
        assert(key_at(entries, i) != key_at(entries, p));
    }
}

/// A key of the map is the key of some entry.
proof fn lemma_key_listed(entries: Seq<(String, String)>, key: Seq<char>) -> (i: int)
    requires
        entries_map(entries).contains_key(key),
    ensures
        0 <= i < entries.len(),
        entries[i].0@ == key,
{
    let i = position(entries, key);
    assert(key_at(entries, i) == key);
    i
}

/// A mapping from field id to submitted text. No id occurs twice: a value
/// stored under an id that is already there takes the place of the earlier
/// one.
#[derive(Debug)]
pub struct FieldValues {
    entries: Vec<(String, String)>,
}

impl View for FieldValues {
    type V = Map<Seq<char>, Seq<char>>;

    /// The mapping as a mathematical map from id to text.
    closed spec fn view(&self) -> Map<Seq<char>, Seq<char>> {
        entries_map(self.entries@)
    }
}

impl FieldValues {
    /// No id occurs twice.
    #[verifier::type_invariant]
    spec fn well_formed(&self) -> bool {
        distinct_keys(self.entries@)
    }

    /// A mapping without entries.
    pub fn new() -> (values: FieldValues)
        ensures
            values@ == Map::<Seq<char>, Seq<char>>::empty(),
    {
        let entries: Vec<(String, String)> = Vec::new();
        assert(entries_map(entries@) =~= Map::<Seq<char>, Seq<char>>::empty()) by {
            assert forall|key: Seq<char>| !entries_map(entries@).contains_key(key) by {
                if entries_map(entries@).contains_key(key) {
                    lemma_key_listed(entries@, key);
                }
            }
        }
        FieldValues { entries }
    }

    /// Stores `value` under `key`, in place of what was stored under it
    /// before, if anything.
    pub fn insert(&mut self, key: String, value: String)
        ensures
            final(self)@ == old(self)@.insert(key@, value@),
    {
        proof {
            use_type_invariant(&*self);
        }
        let mut taken = FieldValues { entries: Vec::new() };
        std::mem::swap(self, &mut taken);
        let mut entries = taken.entries;
        let ghost before = entries@;
        let count = entries.len();
        let mut i: usize = 0;
        let mut found = false;
        while i < count && !found
            invariant
                entries@ == before,
                count == before.len(),
                i <= count,
                found ==> i < count && key_at(before, i as int) == key@,
                forall|j: int| 0 <= j < i ==> key_at(before, j) != key@,
            decreases count - i + if found { 0int } else { 1int },
        {
            if entries[i].0 == key {
                found = true;
            } else {
                i += 1;
            }
        }
        if found {
            entries.set(i, (key, value));
        } else {
            entries.push((key, value));
        }
        proof {
            let after = entries@;
            assert(after[i as int] == (key, value));
            assert forall|j: int| 0 <= j < after.len() && j != i implies after[j] == before[j]
                && key_at(after, j) != key@ by {
                assert(key_at(before, j) == key_at(after, j));
                if found && j > i {
                    assert(key_at(before, i as int) != key_at(before, j));
                }
            }
            assert(distinct_keys(after)) by {
                assert forall|a: int, b: int| 0 <= a < b < after.len() implies key_at(after, a)
                    != key_at(after, b) by {
                    if a != i && b != i {
                        assert(key_at(before, a) != key_at(before, b));
                    }
                }
            }
            let wanted = entries_map(before).insert(key@, value@);
            assert forall|k: Seq<char>| #[trigger]
                entries_map(after).dom().contains(k) implies wanted.dom().contains(k)
                && entries_map(after)[k] == wanted[k] by {
                let p = lemma_key_listed(after, k);
                lemma_entry_found(after, p);
                if p != i {
                    assert(key_at(before, p) == k);
                    lemma_entry_found(before, p);
                }
            }
            assert forall|k: Seq<char>| #[trigger]
                wanted.dom().contains(k) implies entries_map(after).dom().contains(k) by {
                if k == key@ {
                    lemma_entry_found(after, i as int);
                } else {
                    let p = lemma_key_listed(before, k);
                    assert(key_at(before, p) == k);
                    lemma_entry_found(after, p);
                }
            }
            assert(entries_map(after) =~= entries_map(before).insert(key@, value@));
        }
        *self = FieldValues { entries };
    }

    /// The text stored under `key`, if any.
    pub fn get(&self, key: &str) -> (found: Option<&String>)
        ensures
            match found {
                Some(value) => self@.contains_key(key@) && self@[key@] == value@,
                None => !self@.contains_key(key@),
            },
    {
        proof {
            use_type_invariant(self);
        }
        let count = self.entries.len();
        let mut i: usize = 0;
        while i < count
            invariant
                count == self.entries@.len(),
                distinct_keys(self.entries@),
                i <= count,
                forall|j: int| 0 <= j < i ==> key_at(self.entries@, j) != key@,
            decreases count - i,
        {
            if same_text(self.entries[i].0.as_str(), key) {
                proof {
                    lemma_entry_found(self.entries@, i as int);
                }
                return Some(&self.entries[i].1);
            }
            i += 1;
        }
        proof {
            if self@.contains_key(key@) {
                lemma_key_listed(self.entries@, key@);
            }
        }
        None
    }
}

} // verus!
