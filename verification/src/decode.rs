//! The common part of every option decoder.
//!
//! An option group is written as a list of items. Each key may be given
//! once; the value behind a key is decoded on its own. What this module
//! settles is which errors a list gives, and in which order: a literal in
//! place of a key, an unknown key, a key given again, and whatever the
//! first entry of a key failed with.

use crate::error::{fail, only, under, Error, ErrorKind, ErrorKindModel, ErrorModel, Format, Keys};
use crate::meta::{Entry, EntryModel, Meta, MetaModel, NestedMeta, NestedMetaModel};
use crate::text::same;
use vstd::prelude::*;

verus! {

/// The name of an item, if it is a named entry.
pub open spec fn entry_name(item: NestedMetaModel) -> Option<Seq<char>> {
    match item.entry {
        EntryModel::Meta(m) => Some(m.name),
        EntryModel::Lit(_) => None,
    }
}

/// The place of the first entry named `key` among the first `n` items.
pub open spec fn first_index(items: Seq<NestedMetaModel>, key: Seq<char>, n: nat) -> Option<int>
    decreases n,
{
    if n == 0 || n > items.len() {
        None
    } else {
        match first_index(items, key, (n - 1) as nat) {
            Some(i) => Some(i),
            None => if entry_name(items[n - 1]) == Some(key) {
                Some(n - 1)
            } else {
                None
            },
        }
    }
}

/// The first entry named `key`.
pub open spec fn first_entry(items: Seq<NestedMetaModel>, key: Seq<char>) -> Option<MetaModel> {
    match first_index(items, key, items.len()) {
        Some(i) => Some(items[i].entry->Meta_0),
        None => None,
    }
}

/// The place of `name` among the first `n` of `keys`.
pub open spec fn key_index(keys: Seq<Seq<char>>, name: Seq<char>, n: nat) -> Option<int>
    decreases n,
{
    if n == 0 || n > keys.len() {
        None
    } else {
        match key_index(keys, name, (n - 1) as nat) {
            Some(i) => Some(i),
            None => if keys[n - 1] == name {
                Some(n - 1)
            } else {
                None
            },
        }
    }
}

/// How a list of items is held against a group of keys.
pub ghost struct Scheme {
    /// The keys that may be given.
    pub keys: Seq<Seq<char>>,
    /// The group, as an unknown key is reported with.
    pub among: Keys,
    /// For each key, what the first entry of that key failed with.
    pub failures: Seq<Seq<ErrorModel>>,
}

/// The errors that item `i` gives.
pub open spec fn item_errors(items: Seq<NestedMetaModel>, scheme: Scheme, i: int) -> Seq<
    ErrorModel,
> {
    match items[i].entry {
        EntryModel::Lit(_) => only(ErrorKindModel::UnexpectedFormat(Format::Literal)),
        EntryModel::Meta(m) => match key_index(scheme.keys, m.name, scheme.keys.len()) {
            None => only(ErrorKindModel::UnknownField { name: m.name, among: scheme.among }),
            Some(k) => if first_index(items, m.name, i as nat) is Some {
                only(ErrorKindModel::DuplicateField(m.name))
            } else {
                scheme.failures[k]
            },
        },
    }
}

/// The errors of the first `n` items, in the order of the items.
pub open spec fn collected(items: Seq<NestedMetaModel>, scheme: Scheme, n: nat) -> Seq<ErrorModel>
    decreases n,
{
    if n == 0 || n > items.len() {
        Seq::empty()
    } else {
        collected(items, scheme, (n - 1) as nat) + item_errors(items, scheme, n - 1)
    }
}

/// The errors of the first among the first `n` items that gives any.
pub open spec fn first_failure(items: Seq<NestedMetaModel>, scheme: Scheme, n: nat) -> Seq<
    ErrorModel,
>
    decreases n,
{
    if n == 0 || n > items.len() {
        Seq::empty()
    } else {
        let before = first_failure(items, scheme, (n - 1) as nat);
        if before.len() > 0 {
            before
        } else {
            item_errors(items, scheme, n - 1)
        }
    }
}

/// What a key's first entry decoded to, if there is one and it decoded.
pub open spec fn slot_value<T>(decoded: Option<Result<T, Seq<ErrorModel>>>) -> Option<T> {
    match decoded {
        Some(Ok(v)) => Some(v),
        _ => None,
    }
}

/// What a key's first entry failed with, located under the key.
pub open spec fn slot_errors<T>(decoded: Option<Result<T, Seq<ErrorModel>>>, key: Seq<char>) -> Seq<
    ErrorModel,
> {
    match decoded {
        Some(Err(e)) => under(e, key),
        _ => Seq::empty(),
    }
}

/// Whether an outcome of decoding a key, if the key was given, is the one
/// that the model gives.
pub open spec fn slot_agrees<T: DeepView>(
    r: Option<Result<T, Vec<Error>>>,
    model: Option<Result<T::V, Seq<ErrorModel>>>,
) -> bool {
    match r {
        Some(Ok(v)) => model == Some(Ok::<T::V, Seq<ErrorModel>>(v.deep_view())),
        Some(Err(e)) => model == Some(Err::<T::V, Seq<ErrorModel>>(e.deep_view())),
        None => model is None,
    }
}

/// Finds the first entry named `key` among the first `n` items.
pub(crate) fn find_before<'a>(
    items: &'a Vec<NestedMeta>,
    key: &str,
    n: usize,
) -> (r: Option<&'a Meta>)
    requires
        n <= items.len(),
    ensures
        match r {
            Some(m) => {
                &&& first_index(items.deep_view(), key@, n as nat) matches Some(i)
                &&& items.deep_view()[i].entry == EntryModel::Meta(m.deep_view())
            },
            None => first_index(items.deep_view(), key@, n as nat) is None,
        },
{
    let mut i: usize = 0;
    while i < n
        invariant
            i <= n <= items.len(),
            first_index(items.deep_view(), key@, i as nat) is None,
        decreases n - i,
    {
        match &items[i].entry {
            Entry::Meta(m) => {
                if same(m.name.as_str(), key) {
                    proof {
                        lemma_first_index_stays(items.deep_view(), key@, i as nat + 1, n as nat);
                    }
                    return Some(m);
                }
            },
            Entry::Lit(_) => {},
        }
        i += 1;
    }
    None
}

/// Finds the first entry named `key`.
pub(crate) fn find<'a>(items: &'a Vec<NestedMeta>, key: &str) -> (r: Option<&'a Meta>)
    ensures
        r.deep_view() == first_entry(items.deep_view(), key@),
{
    find_before(items, key, items.len())
}

/// Once a key has been found, looking further finds the same entry.
pub proof fn lemma_first_index_stays(items: Seq<NestedMetaModel>, key: Seq<char>, n: nat, m: nat)
    requires
        n <= m <= items.len(),
        first_index(items, key, n) is Some,
    ensures
        first_index(items, key, m) == first_index(items, key, n),
    decreases m,
{
    if n < m {
        lemma_first_index_stays(items, key, n, (m - 1) as nat);
    }
}

/// Finds `name` among `keys`.
pub(crate) fn key_position(keys: &Vec<String>, name: &str) -> (r: Option<usize>)
    ensures
        match r {
            Some(k) => key_index(keys.deep_view(), name@, keys.len() as nat) == Some(k as int) && k
                < keys.len() && keys[k as int]@ == name@,
            None => key_index(keys.deep_view(), name@, keys.len() as nat) is None,
        },
{
    let n = keys.len();
    let mut i: usize = 0;
    while i < n
        invariant
            i <= n,
            n == keys.len(),
            key_index(keys.deep_view(), name@, i as nat) is None,
        decreases n - i,
    {
        if same(keys[i].as_str(), name) {
            proof {
                lemma_key_index_stays(keys.deep_view(), name@, i as nat + 1, n as nat);
            }
            return Some(i);
        }
        i += 1;
    }
    None
}

/// Once a name has been found among the keys, looking further finds the same place.
pub proof fn lemma_key_index_stays(keys: Seq<Seq<char>>, name: Seq<char>, n: nat, m: nat)
    requires
        n <= m <= keys.len(),
        key_index(keys, name, n) is Some,
    ensures
        key_index(keys, name, m) == key_index(keys, name, n),
    decreases m,
{
    if n < m {
        lemma_key_index_stays(keys, name, n, (m - 1) as nat);
    }
}

/// Parts what decoding a key's first entry gave into the value and the
/// errors, the errors located under the key.
pub(crate) fn part<T: DeepView>(
    decoded: Option<Result<T, Vec<Error>>>,
    key: &str,
    Ghost(model): Ghost<Option<Result<T::V, Seq<ErrorModel>>>>,
) -> (r: (Option<T>, Vec<Error>))
    requires
        slot_agrees(decoded, model),
    ensures
        r.0.deep_view() == slot_value(model),
        r.1.deep_view() == slot_errors(model, key@),
{
    match decoded {
        Some(Ok(v)) => {
            let e: Vec<Error> = Vec::new();
            assert(e.deep_view() =~= Seq::<ErrorModel>::empty());
            (Some(v), e)
        },
        Some(Err(e)) => (None, crate::error::locate(e, key)),
        None => {
            let e: Vec<Error> = Vec::new();
            assert(e.deep_view() =~= Seq::<ErrorModel>::empty());
            (None, e)
        },
    }
}

/// A list of failures for no key yet.
pub(crate) fn no_failures() -> (r: Vec<Vec<Error>>)
    ensures
        r.deep_view() == Seq::<Seq<ErrorModel>>::empty(),
        r.len() == 0,
{
    let r: Vec<Vec<Error>> = Vec::new();
    assert(r.deep_view() =~= Seq::<Seq<ErrorModel>>::empty());
    r
}

/// Adds the failures of one more key.
pub(crate) fn add_failures(failures: &mut Vec<Vec<Error>>, errors: Vec<Error>)
    ensures
        final(failures).deep_view() == old(failures).deep_view().push(errors.deep_view()),
        final(failures).len() == old(failures).len() + 1,
{
    let ghost before = failures.deep_view();
    failures.push(errors);
    assert(failures.deep_view() =~= before.push(errors.deep_view()));
}

/// No errors.
pub(crate) fn no_errors() -> (r: Vec<Error>)
    ensures
        r.deep_view() == Seq::<ErrorModel>::empty(),
{
    let r: Vec<Error> = Vec::new();
    assert(r.deep_view() =~= Seq::<ErrorModel>::empty());
    r
}

/// The errors of one item. A key's failures are handed out once, at the
/// key's first entry, and `failures` holds an empty list in their place
/// afterwards.
fn errors_at(
    items: &Vec<NestedMeta>,
    keys: &Vec<String>,
    among: Keys,
    failures: &mut Vec<Vec<Error>>,
    i: usize,
    Ghost(all): Ghost<Seq<Seq<ErrorModel>>>,
) -> (r: Vec<Error>)
    requires
        i < items.len(),
        old(failures).len() == keys.len(),
        all.len() == keys.len(),
        forall|k: int|
            0 <= k < keys.len() && first_index(items.deep_view(), #[trigger] keys[k]@, i as nat)
                is None ==> old(failures)[k].deep_view() == all[k],
    ensures
        final(failures).len() == keys.len(),
        forall|k: int|
            0 <= k < keys.len() && first_index(
                items.deep_view(),
                #[trigger] keys[k]@,
                (i + 1) as nat,
            ) is None ==> final(failures)[k].deep_view() == all[k],
        r.deep_view() == item_errors(
            items.deep_view(),
            Scheme { keys: keys.deep_view(), among, failures: all },
            i as int,
        ),
{
    match &items[i].entry {
        Entry::Lit(_) => fail(ErrorKind::UnexpectedFormat(Format::Literal)),
        Entry::Meta(m) => {
            match key_position(keys, m.name.as_str()) {
                None => fail(ErrorKind::UnknownField { name: m.name.clone(), among }),
                Some(k) => {
                    match find_before(items, m.name.as_str(), i) {
                        Some(_) => fail(ErrorKind::DuplicateField(m.name.clone())),
                        None => {
                            let mut e: Vec<Error> = Vec::new();
                            std::mem::swap(&mut e, &mut failures[k]);
                            e
                        },
                    }
                },
            }
        },
    }
}

/// The errors of a list of items, all of them, in the order of the items.
pub(crate) fn collect(
    items: &Vec<NestedMeta>,
    keys: &Vec<String>,
    among: Keys,
    failures: Vec<Vec<Error>>,
) -> (r: Vec<Error>)
    requires
        failures.len() == keys.len(),
    ensures
        r.deep_view() == collected(
            items.deep_view(),
            Scheme { keys: keys.deep_view(), among, failures: failures.deep_view() },
            items.len() as nat,
        ),
        r.len() == r.deep_view().len(),
{
    let ghost all = failures.deep_view();
    let ghost scheme = Scheme { keys: keys.deep_view(), among, failures: all };
    let mut failures = failures;
    let mut errors: Vec<Error> = Vec::new();
    let n = items.len();
    let mut i: usize = 0;
    assert(errors.deep_view() =~= Seq::<ErrorModel>::empty());
    while i < n
        invariant
            i <= n,
            n == items.len(),
            failures.len() == keys.len(),
            all.len() == keys.len(),
            scheme == (Scheme { keys: keys.deep_view(), among, failures: all }),
            forall|k: int|
                0 <= k < keys.len() && first_index(items.deep_view(), #[trigger] keys[k]@, i as nat)
                    is None ==> failures[k].deep_view() == all[k],
            errors.deep_view() == collected(items.deep_view(), scheme, i as nat),
        decreases n - i,
    {
        let mut more = errors_at(items, keys, among, &mut failures, i, Ghost(all));
        let ghost before = errors.deep_view();
        let ghost added = more.deep_view();
        errors.append(&mut more);
        assert(errors.deep_view() =~= before + added);
        i += 1;
    }
    errors
}

/// The errors of the first item of a list that gives any.
pub(crate) fn collect_first(
    items: &Vec<NestedMeta>,
    keys: &Vec<String>,
    among: Keys,
    failures: Vec<Vec<Error>>,
) -> (r: Vec<Error>)
    requires
        failures.len() == keys.len(),
    ensures
        r.deep_view() == first_failure(
            items.deep_view(),
            Scheme { keys: keys.deep_view(), among, failures: failures.deep_view() },
            items.len() as nat,
        ),
        r.len() == r.deep_view().len(),
{
    let ghost all = failures.deep_view();
    let ghost scheme = Scheme { keys: keys.deep_view(), among, failures: all };
    let mut left = failures;
    let n = items.len();
    let mut i: usize = 0;
    while i < n
        invariant
            i <= n,
            n == items.len(),
            left.len() == keys.len(),
            all.len() == keys.len(),
            all == failures.deep_view(),
            scheme == (Scheme { keys: keys.deep_view(), among, failures: all }),
            forall|k: int|
                0 <= k < keys.len() && first_index(items.deep_view(), #[trigger] keys[k]@, i as nat)
                    is None ==> left[k].deep_view() == all[k],
            first_failure(items.deep_view(), scheme, i as nat).len() == 0,
        decreases n - i,
    {
        let found = errors_at(items, keys, among, &mut left, i, Ghost(all));
        if found.len() > 0 {
            proof {
                assert(found.deep_view().len() == found.len());
                assert(first_failure(items.deep_view(), scheme, i as nat + 1) == found.deep_view());
                lemma_first_failure_stays(items.deep_view(), scheme, i as nat + 1, n as nat);
            }
            return found;
        }
        assert(found.deep_view().len() == found.len());
        i += 1;
    }
    let e: Vec<Error> = Vec::new();
    assert(e.deep_view() =~= Seq::<ErrorModel>::empty());
    e
}

/// Once an item has given errors, no later item changes the first failure.
pub proof fn lemma_first_failure_stays(items: Seq<NestedMetaModel>, scheme: Scheme, n: nat, m: nat)
    requires
        n <= m <= items.len(),
        first_failure(items, scheme, n).len() > 0,
    ensures
        first_failure(items, scheme, m) == first_failure(items, scheme, n),
    decreases m,
{
    if n < m {
        lemma_first_failure_stays(items, scheme, n, (m - 1) as nat);
    }
}

/// What the first entry of a key failed with is among the errors of the
/// list: the list has at least as many errors.
pub proof fn lemma_collected_covers(
    items: Seq<NestedMetaModel>,
    scheme: Scheme,
    key: Seq<char>,
    k: int,
    n: nat,
)
    requires
        n <= items.len(),
        first_index(items, key, n) is Some,
        key_index(scheme.keys, key, scheme.keys.len()) == Some(k),
    ensures
        collected(items, scheme, n).len() >= scheme.failures[k].len(),
    decreases n,
{
    if n > 0 {
        if first_index(items, key, (n - 1) as nat) is Some {
            lemma_collected_covers(items, scheme, key, k, (n - 1) as nat);
        } else {
            assert(entry_name(items[n - 1]) == Some(key));
            assert(item_errors(items, scheme, n - 1) == scheme.failures[k]);
        }
    }
}

} // verus!
