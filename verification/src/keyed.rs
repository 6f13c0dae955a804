//! Keyed entry lists: the one shape this crate stores mappings in.
//!
//! A mapping from names to values is held as a vector of `(String, value)`
//! entries whose keys are pairwise distinct.  Storing under a name that is
//! already present replaces that entry in place; storing under a fresh name
//! appends.  Property maps, object schemas and the tool registry all share
//! this shape and its lemmas.

use vstd::prelude::*;

verus! {

/// True when some entry of `entries` carries the key `k`.
pub open spec fn has_key<T>(entries: Seq<(String, T)>, k: Seq<char>) -> bool {
    exists|i: int| 0 <= i < entries.len() && entries[i].0@ == k
}

/// The index of the entry carrying `k`; meaningful when `has_key` holds.
pub open spec fn key_index<T>(entries: Seq<(String, T)>, k: Seq<char>) -> int {
    choose|i: int| 0 <= i < entries.len() && entries[i].0@ == k
}

/// The value stored under `k`; meaningful when `has_key` holds.
pub open spec fn value_of<T>(entries: Seq<(String, T)>, k: Seq<char>) -> T {
    entries[key_index(entries, k)].1
}

/// No two entries carry the same key.
pub open spec fn keys_unique<T>(entries: Seq<(String, T)>) -> bool {
    forall|i: int, j: int|
        0 <= i < entries.len() && 0 <= j < entries.len() && entries[i].0@ == entries[j].0@
            ==> i == j
}

/// What storing `v` under `key` does to a keyed list: an entry already
/// carrying the key is replaced in place, any other entry is untouched, and
/// a fresh key is appended at the end.
pub open spec fn spec_store<T>(entries: Seq<(String, T)>, key: String, v: T) -> Seq<
    (String, T),
> {
    if has_key(entries, key@) {
        entries.update(key_index(entries, key@), (key, v))
    } else {
        entries.push((key, v))
    }
}

/// Storing preserves key uniqueness, makes `v` the value retrievable under
/// `key`, and neither touches nor shadows any entry under another key.
pub proof fn lemma_store<T>(entries: Seq<(String, T)>, key: String, v: T)
    requires
        keys_unique(entries),
    ensures
        keys_unique(spec_store(entries, key, v)),
        has_key(spec_store(entries, key, v), key@),
        value_of(spec_store(entries, key, v), key@) == v,
        forall|k: Seq<char>|
            k != key@ ==> has_key(spec_store(entries, key, v), k) == has_key(entries, k),
        forall|k: Seq<char>|
            k != key@ && has_key(entries, k) ==> value_of(spec_store(entries, key, v), k)
                == value_of(entries, k),
        spec_store(entries, key, v).len() == if has_key(entries, key@) {
            entries.len()
        } else {
            entries.len() + 1
        },
{
    let stored = spec_store(entries, key, v);
    if has_key(entries, key@) {
        let i = key_index(entries, key@);
        assert(0 <= i < entries.len() && entries[i].0@ == key@);
        assert(stored[i].0@ == key@);
        assert forall|k: Seq<char>| k != key@ && has_key(entries, k) implies has_key(stored, k)
            && value_of(stored, k) == value_of(entries, k) by {
            let j = key_index(entries, k);
            assert(0 <= j < entries.len() && entries[j].0@ == k);
            assert(j != i);
            assert(stored[j] == entries[j]);
            assert(has_key(stored, k));
            let j2 = key_index(stored, k);
            assert(0 <= j2 < stored.len() && stored[j2].0@ == k);
            assert(j2 != i);
            assert(stored[j2] == entries[j2]);
            assert(j2 == j);
        }
        assert forall|k: Seq<char>| k != key@ && has_key(stored, k) implies has_key(entries, k) by {
            let j = key_index(stored, k);
            assert(0 <= j < stored.len() && stored[j].0@ == k);
            assert(j != i);
            assert(stored[j] == entries[j]);
        }
        let i2 = key_index(stored, key@);
        assert(0 <= i2 < stored.len() && stored[i2].0@ == key@);
        assert(i2 == i);
    } else {
        let n = entries.len() as int;
        assert(stored[n].0@ == key@);
        assert(has_key(stored, key@));
        let i2 = key_index(stored, key@);
        assert(0 <= i2 < stored.len() && stored[i2].0@ == key@);
        assert(i2 == n);
        assert forall|k: Seq<char>| k != key@ && has_key(entries, k) implies has_key(stored, k)
            && value_of(stored, k) == value_of(entries, k) by {
            let j = key_index(entries, k);
            assert(0 <= j < entries.len() && entries[j].0@ == k);
            assert(stored[j] == entries[j]);
            assert(has_key(stored, k));
            let j2 = key_index(stored, k);
            assert(0 <= j2 < stored.len() && stored[j2].0@ == k);
            assert(j2 != n);
            assert(stored[j2] == entries[j2]);
            assert(j2 == j);
        }
        assert forall|k: Seq<char>| k != key@ && has_key(stored, k) implies has_key(entries, k) by {
            let j = key_index(stored, k);
            assert(0 <= j < stored.len() && stored[j].0@ == k);
            assert(j != n);
            assert(stored[j] == entries[j]);
        }
    }
}

/// Store `v` under `key`: replace the entry that carried the key before, or
/// append a fresh entry when none did.
#[verifier::loop_isolation(false)]
pub fn store<T>(entries: &mut Vec<(String, T)>, key: String, v: T)
    requires
        keys_unique(old(entries)@),
    ensures
        final(entries)@ == spec_store(old(entries)@, key, v),
        keys_unique(final(entries)@),
        has_key(final(entries)@, key@),
        value_of(final(entries)@, key@) == v,
{
    proof {
        lemma_store(entries@, key, v);
    }
    let ghost orig = entries@;
    let n = entries.len();
    let mut i: usize = 0;
    while i < n
        invariant
            entries@ == orig,
            n == entries.len(),
            i <= n,
            forall|j: int| 0 <= j < i ==> entries@[j].0@ != key@,
        decreases n - i,
    {
        if entries[i].0 == key {
            assert(has_key(orig, key@));
            proof {
                let j = key_index(orig, key@);
                assert(0 <= j < orig.len() && orig[j].0@ == key@);
                assert(keys_unique(orig));
                assert(j == i);
            }
            entries.set(i, (key, v));
            return ;
        }
        i += 1;
    }
    assert(!has_key(orig, key@)) by {
        if has_key(orig, key@) {
            let j = key_index(orig, key@);
            assert(0 <= j < orig.len() && orig[j].0@ == key@);
        }
    }
    entries.push((key, v));
}

/// Borrow the value stored under `key`, or learn that no entry carries it.
#[verifier::loop_isolation(false)]
pub fn lookup<'a, T>(entries: &'a Vec<(String, T)>, key: &String) -> (r: Option<&'a T>)
    requires
        keys_unique(entries@),
    ensures
        match r {
            Some(v) => has_key(entries@, key@) && *v == value_of(entries@, key@),
            None => !has_key(entries@, key@),
        },
{
    let n = entries.len();
    let mut i: usize = 0;
    while i < n
        invariant
            i <= n,
            forall|j: int| 0 <= j < i ==> entries@[j].0@ != key@,
        decreases n - i,
    {
        if entries[i].0 == *key {
            assert(has_key(entries@, key@));
            proof {
                let j = key_index(entries@, key@);
                assert(0 <= j < entries@.len() && entries@[j].0@ == key@);
                assert(j == i);
            }
            return Some(&entries[i].1);
        }
        i += 1;
    }
    proof {
        if has_key(entries@, key@) {
            let j = key_index(entries@, key@);
            assert(0 <= j < entries@.len() && entries@[j].0@ == key@);
        }
    }
    None
}

/// Law: storing twice under one name leaves exactly one entry carrying that
/// name, and it holds the value stored second; every index carrying the name
/// coincides with the one `key_index` picks.
pub proof fn lemma_store_overwrites<T>(
    entries: Seq<(String, T)>,
    key1: String,
    key2: String,
    v1: T,
    v2: T,
)
    requires
        keys_unique(entries),
        key1@ == key2@,
    ensures
        ({
            let twice = spec_store(spec_store(entries, key1, v1), key2, v2);
            &&& keys_unique(twice)
            &&& has_key(twice, key2@)
            &&& value_of(twice, key2@) == v2
            &&& forall|i: int|
                0 <= i < twice.len() && twice[i].0@ == key2@ ==> i == key_index(twice, key2@)
        }),
{
    let once = spec_store(entries, key1, v1);
    lemma_store(entries, key1, v1);
    lemma_store(once, key2, v2);
    let twice = spec_store(once, key2, v2);
    assert forall|i: int| 0 <= i < twice.len() && twice[i].0@ == key2@ implies i == key_index(
        twice,
        key2@,
    ) by {
        let j = key_index(twice, key2@);
        assert(0 <= j < twice.len() && twice[j].0@ == key2@);
    }
}

} // verus!
