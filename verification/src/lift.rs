//! From annotation text to annotation trees.
//!
//! The syntax parser is asked about one item at a time; the tree is put
//! together here. Nesting is followed down to [`DEPTH`] levels.

use crate::meta::{
    lemma_items_model, Entry, EntryModel, Meta, MetaModel, NestedMeta, NestedMetaModel, Value,
    ValueModel,
};
use crate::reader::{item_of, literal_of, parse_item, parse_literal};
use crate::syntax::{ItemSyntax, ItemSyntaxModel};
use vstd::prelude::*;

verus! {

/// How many levels of nested lists are followed.
pub const DEPTH: usize = 32;

/// The tree of the item written in `text`, following nested lists for
/// `fuel` more levels; `None` where `text` is no item, holds a literal
/// that cannot be read, or nests deeper.
pub open spec fn lifted_item(text: Seq<char>, fuel: nat) -> Option<NestedMetaModel>
    decreases fuel, 0nat,
{
    match item_of(text) {
        ItemSyntaxModel::Unreadable => None,
        ItemSyntaxModel::Lit(literal) => match literal_of(literal) {
            Some(lit) => Some(NestedMetaModel { tokens: text, entry: EntryModel::Lit(lit) }),
            None => None,
        },
        ItemSyntaxModel::Word(name) => Some(
            NestedMetaModel {
                tokens: text,
                entry: EntryModel::Meta(MetaModel { name, value: ValueModel::Word }),
            },
        ),
        ItemSyntaxModel::NameValue(name, literal) => match literal_of(literal) {
            Some(lit) => Some(
                NestedMetaModel {
                    tokens: text,
                    entry: EntryModel::Meta(MetaModel { name, value: ValueModel::NameValue(lit) }),
                },
            ),
            None => None,
        },
        ItemSyntaxModel::List(name, children) => if fuel == 0 {
            None
        } else {
            match lifted_prefix(children, (fuel - 1) as nat, children.len()) {
                Some(items) => Some(
                    NestedMetaModel {
                        tokens: text,
                        entry: EntryModel::Meta(MetaModel { name, value: ValueModel::List(items) }),
                    },
                ),
                None => None,
            }
        },
    }
}

/// The trees of the first `n` of `texts`; `None` where one of them has none.
pub open spec fn lifted_prefix(texts: Seq<Seq<char>>, fuel: nat, n: nat) -> Option<
    Seq<NestedMetaModel>,
>
    decreases fuel, n + 1,
{
    if n == 0 || n > texts.len() {
        Some(Seq::empty())
    } else {
        match (lifted_prefix(texts, fuel, (n - 1) as nat), lifted_item(texts[n - 1], fuel)) {
            (Some(before), Some(item)) => Some(before.push(item)),
            _ => None,
        }
    }
}

/// The trees of the items written in `texts`.
pub open spec fn lifted_items(texts: Seq<Seq<char>>, fuel: nat) -> Option<Seq<NestedMetaModel>> {
    lifted_prefix(texts, fuel, texts.len())
}

/// Reads one item.
pub fn lift_item(text: String, fuel: usize) -> (r: Option<NestedMeta>)
    ensures
        r.deep_view() == lifted_item(text@, fuel as nat),
    decreases fuel, 0nat,
{
    match parse_item(text.as_str()) {
        ItemSyntax::Unreadable => None,
        ItemSyntax::Lit(literal) => match parse_literal(literal.as_str()) {
            Some(lit) => Some(NestedMeta { tokens: text, entry: Entry::Lit(lit) }),
            None => None,
        },
        ItemSyntax::Word(name) => Some(
            NestedMeta { tokens: text, entry: Entry::Meta(Meta { name, value: Value::Word }) },
        ),
        ItemSyntax::NameValue(name, literal) => match parse_literal(literal.as_str()) {
            Some(lit) => Some(
                NestedMeta {
                    tokens: text,
                    entry: Entry::Meta(Meta { name, value: Value::NameValue(lit) }),
                },
            ),
            None => None,
        },
        ItemSyntax::List(name, children) => {
            if fuel == 0 {
                return None;
            }
            match lift_items(&children, fuel - 1) {
                Some(items) => {
                    proof {
                        lemma_items_model(items);
                    }
                    Some(
                        NestedMeta {
                            tokens: text,
                            entry: Entry::Meta(Meta { name, value: Value::List(items) }),
                        },
                    )
                },
                None => None,
            }
        },
    }
}

/// Reads a list of items.
pub fn lift_items(texts: &Vec<String>, fuel: usize) -> (r: Option<Vec<NestedMeta>>)
    ensures
        r.deep_view() == lifted_items(texts.deep_view(), fuel as nat),
    decreases fuel, 1nat,
{
    let mut items: Vec<NestedMeta> = Vec::new();
    let n = texts.len();
    let mut i: usize = 0;
    while i < n
        invariant
            i <= n,
            n == texts.len(),
            lifted_prefix(texts.deep_view(), fuel as nat, i as nat) == Some(items.deep_view()),
        decreases n - i,
    {
        match lift_item(texts[i].clone(), fuel) {
            Some(item) => {
                let ghost before = items.deep_view();
                items.push(item);
                assert(items.deep_view() =~= before.push(item.deep_view()));
            },
            None => {
                proof {
                    lemma_lifted_prefix_none(
                        texts.deep_view(),
                        fuel as nat,
                        i as nat + 1,
                        n as nat,
                    );
                }
                return None;
            },
        }
        i += 1;
    }
    Some(items)
}

/// Once a prefix has no trees, no longer prefix has.
pub proof fn lemma_lifted_prefix_none(texts: Seq<Seq<char>>, fuel: nat, n: nat, m: nat)
    requires
        n <= m <= texts.len(),
        lifted_prefix(texts, fuel, n) is None,
    ensures
        lifted_prefix(texts, fuel, m) is None,
    decreases m,
{
    if n < m {
        lemma_lifted_prefix_none(texts, fuel, n, (m - 1) as nat);
    }
}

} // verus!
