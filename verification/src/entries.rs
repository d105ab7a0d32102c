//! Keyed entries that keep the order in which their keys first came.

use crate::text::same;
use vstd::prelude::*;

verus! {

/// The place of the first entry with the given key among the first `n`.
pub open spec fn index_within<V>(entries: Seq<(Seq<char>, V)>, key: Seq<char>, n: nat) -> Option<
    int,
>
    decreases n,
{
    if n == 0 || n > entries.len() {
        None
    } else {
        match index_within(entries, key, (n - 1) as nat) {
            Some(i) => Some(i),
            None => if entries[n - 1].0 == key {
                Some(n - 1)
            } else {
                None
            },
        }
    }
}

/// The place of the entry with the given key.
pub open spec fn index_of<V>(entries: Seq<(Seq<char>, V)>, key: Seq<char>) -> Option<int> {
    index_within(entries, key, entries.len())
}

/// The value under the given key.
pub open spec fn get<V>(entries: Seq<(Seq<char>, V)>, key: Seq<char>) -> Option<V> {
    match index_of(entries, key) {
        Some(i) => Some(entries[i].1),
        None => None,
    }
}

/// The entries with `value` under `key`: in the place of the value that
/// was there, or at the end where the key is new.
pub open spec fn put<V>(entries: Seq<(Seq<char>, V)>, key: Seq<char>, value: V) -> Seq<
    (Seq<char>, V),
> {
    match index_of(entries, key) {
        Some(i) => entries.update(i, (key, value)),
        None => entries.push((key, value)),
    }
}

/// The keys of the entries, in their order.
pub open spec fn keys_of<V>(entries: Seq<(Seq<char>, V)>) -> Seq<Seq<char>> {
    Seq::new(entries.len(), |i: int| entries[i].0)
}

/// Whether no key occurs twice.
pub open spec fn distinct_keys<V>(entries: Seq<(Seq<char>, V)>) -> bool {
    forall|i: int, j: int|
        0 <= i < j < entries.len() ==> (#[trigger] entries[i]).0 != (#[trigger] entries[j]).0
}

/// A place that `index_within` gives holds the key, and no place before
/// it does.
pub proof fn lemma_index_within<V>(entries: Seq<(Seq<char>, V)>, key: Seq<char>, n: nat)
    requires
        n <= entries.len(),
    ensures
        match index_within(entries, key, n) {
            Some(i) => 0 <= i < n && entries[i].0 == key && forall|j: int|
                0 <= j < i ==> (#[trigger] entries[j]).0 != key,
            None => forall|j: int| 0 <= j < n ==> (#[trigger] entries[j]).0 != key,
        },
    decreases n,
{
    if n > 0 {
        lemma_index_within(entries, key, (n - 1) as nat);
    }
}

/// Once a key has been found, looking further finds the same place.
pub proof fn lemma_index_within_stays<V>(
    entries: Seq<(Seq<char>, V)>,
    key: Seq<char>,
    n: nat,
    m: nat,
)
    requires
        n <= m <= entries.len(),
        index_within(entries, key, n) is Some,
    ensures
        index_within(entries, key, m) == index_within(entries, key, n),
    decreases m,
{
    if n < m {
        lemma_index_within_stays(entries, key, n, (m - 1) as nat);
    }
}

/// Putting a value keeps the keys distinct, and keeps every other key's
/// place and value.
pub proof fn lemma_put<V>(entries: Seq<(Seq<char>, V)>, key: Seq<char>, value: V)
    requires
        distinct_keys(entries),
    ensures
        distinct_keys(put(entries, key, value)),
        get(put(entries, key, value), key) == Some(value),
        keys_of(put(entries, key, value)) == if index_of(entries, key) is Some {
            keys_of(entries)
        } else {
            keys_of(entries).push(key)
        },
{
    lemma_index_within(entries, key, entries.len());
    let after = put(entries, key, value);
    lemma_index_within(after, key, after.len());
    match index_of(entries, key) {
        Some(i) => {
            assert(after[i].0 == key);
            assert(keys_of(after) =~= keys_of(entries));
        },
        None => {
            assert(after[entries.len() as int].0 == key);
            assert(keys_of(after) =~= keys_of(entries).push(key));
        },
    }
}

/// Finds the entry with the given key.
pub fn position<T: DeepView>(entries: &Vec<(String, T)>, key: &str) -> (r: Option<usize>)
    ensures
        match r {
            Some(i) => index_of(entries.deep_view(), key@) == Some(i as int) && i < entries.len(),
            None => index_of(entries.deep_view(), key@) is None,
        },
{
    let n = entries.len();
    let mut i: usize = 0;
    while i < n
        invariant
            i <= n,
            n == entries.len(),
            index_within(entries.deep_view(), key@, i as nat) is None,
        decreases n - i,
    {
        if same(entries[i].0.as_str(), key) {
            proof {
                lemma_index_within_stays(entries.deep_view(), key@, i as nat + 1, n as nat);
            }
            return Some(i);
        }
        i += 1;
    }
    None
}

/// Puts `value` under `key`: in the place of the value that was there, or
/// at the end where the key is new.
pub fn insert<T: DeepView>(entries: &mut Vec<(String, T)>, key: String, value: T)
    ensures
        final(entries).deep_view() == put(old(entries).deep_view(), key@, value.deep_view()),
{
    let ghost before = entries.deep_view();
    match position(entries, key.as_str()) {
        Some(i) => {
            entries.set(i, (key, value));
            assert(entries.deep_view() =~= before.update(i as int, (key@, value.deep_view())));
        },
        None => {
            entries.push((key, value));
            assert(entries.deep_view() =~= before.push((key@, value.deep_view())));
        },
    }
}

} // verus!
