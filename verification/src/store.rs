//! The store: at most one hash under each key, and the last one put wins.

use vstd::hash_map::StringHashMap;
use vstd::prelude::*;

verus! {

/// The records `records` with `hash` put under `key`, in place of any hash
/// that stood there.
pub open spec fn stored(
    records: Map<Seq<char>, Seq<char>>,
    key: Seq<char>,
    hash: Seq<char>,
) -> Map<Seq<char>, Seq<char>> {
    records.insert(key, hash)
}

/// The hash that `records` hold under `key`, if any.
pub open spec fn lookup(records: Map<Seq<char>, Seq<char>>, key: Seq<char>) -> Option<Seq<char>> {
    if records.contains_key(key) {
        Some(records[key])
    } else {
        None
    }
}

/// The records `records` after each pair of `puts`, a key and its hash, was
/// put in turn.
pub open spec fn after_puts(
    records: Map<Seq<char>, Seq<char>>,
    puts: Seq<(Seq<char>, Seq<char>)>,
) -> Map<Seq<char>, Seq<char>>
    decreases puts.len(),
{
    if puts.len() == 0 {
        records
    } else {
        stored(after_puts(records, puts.drop_last()), puts.last().0, puts.last().1)
    }
}

/// The puts of each of `hashes`, in turn, under the one key `key`.
pub open spec fn puts_under(key: Seq<char>, hashes: Seq<Seq<char>>) -> Seq<(Seq<char>, Seq<char>)> {
    Seq::new(hashes.len(), |i: int| (key, hashes[i]))
}

/// Why a store could not answer.
#[derive(Debug, Clone, Copy, PartialEq, Eq)]
pub enum StoreError {
    /// The backend that holds the records could not be reached.
    Unavailable,
}

/// The store that lives in the process's memory. It starts empty and cannot
/// fail.
pub struct MemoryStore {
    records: StringHashMap<String>,
}

impl View for MemoryStore {
    type V = Map<Seq<char>, Seq<char>>;

    closed spec fn view(&self) -> Map<Seq<char>, Seq<char>> {
        self.records@.map_values(|hash: String| hash@)
    }
}

impl MemoryStore {
    /// A store without records.
    pub fn new() -> (store: Self)
        ensures
            store@ == Map::<Seq<char>, Seq<char>>::empty(),
    {
        let store = MemoryStore { records: StringHashMap::new() };
        assert(store@ =~= Map::<Seq<char>, Seq<char>>::empty());
        store
    }

    /// Puts `hash` under `key`. A hash that stood under `key` is replaced;
    /// every other record stays.
    pub fn put(&mut self, key: String, hash: String)
        ensures
            final(self)@ == stored(old(self)@, key@, hash@),
    {
        self.records.insert(key, hash);
        assert(self@ =~= stored(old(self)@, key@, hash@));
    }

    /// The hash under `key`, or `None` where the store holds none.
    pub fn get(&self, key: &str) -> (found: Option<String>)
        ensures
            match found {
                Some(hash) => lookup(self@, key@) == Some(hash@),
                None => lookup(self@, key@) is None,
            },
    {
        match self.records.get(key) {
            Some(hash) => Some(hash.clone()),
            None => None,
        }
    }
}

/// A hash that was put under a key is the one that a lookup of that key
/// finds.
pub proof fn law_put_then_get(records: Map<Seq<char>, Seq<char>>, key: Seq<char>, hash: Seq<char>)
    ensures
        lookup(stored(records, key, hash), key) == Some(hash),
{
}

/// A put changes the lookup of no key but its own.
pub proof fn law_put_keeps_other_keys(
    records: Map<Seq<char>, Seq<char>>,
    key: Seq<char>,
    hash: Seq<char>,
    other: Seq<char>,
)
    requires
        other != key,
    ensures
        lookup(stored(records, key, hash), other) == lookup(records, other),
{
}

/// Puts that all go to other keys leave the lookup of a key as it was.
pub proof fn law_puts_elsewhere_keep_lookup(
    records: Map<Seq<char>, Seq<char>>,
    puts: Seq<(Seq<char>, Seq<char>)>,
    key: Seq<char>,
)
    requires
        forall|i: int| 0 <= i < puts.len() ==> (#[trigger] puts[i]).0 != key,
    ensures
        lookup(after_puts(records, puts), key) == lookup(records, key),
    decreases puts.len(),
{
    if puts.len() > 0 {
        let rest = puts.drop_last();
        assert forall|i: int| 0 <= i < rest.len() implies (#[trigger] rest[i]).0 != key by {
            assert(rest[i] == puts[i]);
        }
        law_puts_elsewhere_keep_lookup(records, rest, key);
        assert(puts.last() == puts[puts.len() - 1]);
    }
}

/// A key that nothing was ever put under is not found: whatever was put into
/// an empty store under other keys, its lookup finds nothing.
pub proof fn law_never_put_is_not_found(puts: Seq<(Seq<char>, Seq<char>)>, key: Seq<char>)
    requires
        forall|i: int| 0 <= i < puts.len() ==> (#[trigger] puts[i]).0 != key,
    ensures
        lookup(after_puts(Map::empty(), puts), key) is None,
{
    law_puts_elsewhere_keep_lookup(Map::empty(), puts, key);
}

/// The last write wins: of two puts under one key the second is the one
/// found, and the store is as if the first had never been made.
pub proof fn law_overwrite(
    records: Map<Seq<char>, Seq<char>>,
    key: Seq<char>,
    first: Seq<char>,
    second: Seq<char>,
)
    ensures
        lookup(stored(stored(records, key, first), key, second), key) == Some(second),
        stored(stored(records, key, first), key, second) == stored(records, key, second),
{
    assert(stored(stored(records, key, first), key, second) =~= stored(records, key, second));
}

/// A put is idempotent: made twice, it leaves the store as made once.
pub proof fn law_put_is_idempotent(
    records: Map<Seq<char>, Seq<char>>,
    key: Seq<char>,
    hash: Seq<char>,
)
    ensures
        stored(stored(records, key, hash), key, hash) == stored(records, key, hash),
{
    law_overwrite(records, key, hash, hash);
}

/// After any run of puts of which at least one went to `key`, the lookup of
/// `key` finds the hash of the last of them that did.
pub proof fn law_last_put_wins(
    records: Map<Seq<char>, Seq<char>>,
    puts: Seq<(Seq<char>, Seq<char>)>,
    key: Seq<char>,
)
    requires
        exists|i: int| 0 <= i < puts.len() && (#[trigger] puts[i]).0 == key,
    ensures
        exists|j: int|
            {
                &&& 0 <= j < puts.len()
                &&& (#[trigger] puts[j]).0 == key
                &&& lookup(after_puts(records, puts), key) == Some(puts[j].1)
                &&& forall|l: int| j < l < puts.len() ==> (#[trigger] puts[l]).0 != key
            },
    decreases puts.len(),
{
    let last = puts.len() - 1;
    if puts[last].0 == key {
        assert(lookup(after_puts(records, puts), key) == Some(puts[last].1));
    } else {
        let rest = puts.drop_last();
        let i = choose|i: int| 0 <= i < puts.len() && (#[trigger] puts[i]).0 == key;
        assert(rest[i] == puts[i]);
        law_last_put_wins(records, rest, key);
        let j = choose|j: int|
            {
                &&& 0 <= j < rest.len()
                &&& (#[trigger] rest[j]).0 == key
                &&& lookup(after_puts(records, rest), key) == Some(rest[j].1)
                &&& forall|l: int| j < l < rest.len() ==> (#[trigger] rest[l]).0 != key
            };
        assert(puts[j] == rest[j]);
        assert forall|l: int| j < l < puts.len() implies (#[trigger] puts[l]).0 != key by {
            if l < rest.len() {
                assert(rest[l] == puts[l]);
            }
        }
    }
}

/// Writers that race for one key leave one of their hashes there. Whatever
/// order `order` the store takes the puts of `hashes` in, the lookup that
/// follows finds a hash that one of them wrote: the one that came last.
pub proof fn law_racing_puts_leave_a_written_hash(
    records: Map<Seq<char>, Seq<char>>,
    key: Seq<char>,
    hashes: Seq<Seq<char>>,
    order: Seq<Seq<char>>,
)
    requires
        hashes.len() > 0,
        order.to_multiset() == hashes.to_multiset(),
    ensures
        lookup(after_puts(records, puts_under(key, order)), key) == Some(order.last()),
        exists|j: int|
            0 <= j < hashes.len() && lookup(after_puts(records, puts_under(key, order)), key)
                == Some(#[trigger] hashes[j]),
{
    broadcast use vstd::seq_lib::group_to_multiset_ensures;

    assert(order.len() == hashes.len()) by {
        assert(order.to_multiset().len() == order.len());
        assert(hashes.to_multiset().len() == hashes.len());
    }
    let puts = puts_under(key, order);
    assert(puts.last() == (key, order.last()));
    assert(order.to_multiset().count(order.last()) > 0) by {
        assert(order.contains(order.last()));
    }
    assert(hashes.contains(order.last()));
    let j = choose|j: int| 0 <= j < hashes.len() && hashes[j] == order.last();
    assert(lookup(after_puts(records, puts), key) == Some(hashes[j]));
}

} // verus!
