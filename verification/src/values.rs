//! Decoders of the values that stand behind a key: a flag, a text, a
//! piece of Rust syntax, one word of a fixed choice.

use crate::decode::{
    find, first_entry, key_index, key_position, part, slot_errors, slot_value,
};
use crate::error::{agrees, fail, only, Error, ErrorKind, ErrorKindModel, ErrorModel, Format, Keys};
use crate::keys::key_names;
use crate::meta::{
    lemma_items_model, Entry, EntryModel, Lit, LitModel, Meta, MetaModel, NestedMeta,
    NestedMetaModel, Value, ValueModel,
};
use crate::reader::{
    ident_of, parse_ident, parse_path, parse_type, parse_visibility, path_of, type_of,
    visibility_of,
};
use crate::text::same;
use vstd::prelude::*;

verus! {

/// The kinds of Rust syntax that an option can hold.
#[derive(Clone, Copy, Debug, PartialEq, Eq, Structural)]
pub enum Leaf {
    Ident,
    Type,
    Visibility,
    Path,
}

/// The tokens of `text` read as syntax of the given kind, if it is such.
pub open spec fn leaf_of(kind: Leaf, text: Seq<char>) -> Option<Seq<char>> {
    match kind {
        Leaf::Ident => ident_of(text),
        Leaf::Type => type_of(text),
        Leaf::Visibility => visibility_of(text),
        Leaf::Path => path_of(text),
    }
}

/// The flag that an entry stands for: a bare word sets it, a boolean
/// literal or the text `true` or `false` says which way.
pub open spec fn flag_from_meta(m: MetaModel) -> Result<bool, Seq<ErrorModel>> {
    match m.value {
        ValueModel::Word => Ok(true),
        ValueModel::List(_) => Err(only(ErrorKindModel::UnexpectedFormat(Format::List))),
        ValueModel::NameValue(LitModel::Bool(b)) => Ok(b),
        ValueModel::NameValue(LitModel::Str(s)) => if s == "true"@ {
            Ok(true)
        } else if s == "false"@ {
            Ok(false)
        } else {
            Err(only(ErrorKindModel::UnknownValue(s)))
        },
        ValueModel::NameValue(l) => Err(only(ErrorKindModel::UnexpectedType(l.lit_type()))),
    }
}

/// The text that an entry stands for: that of its string literal.
pub open spec fn text_from_meta(m: MetaModel) -> Result<Seq<char>, Seq<ErrorModel>> {
    match m.value {
        ValueModel::Word => Err(only(ErrorKindModel::UnexpectedFormat(Format::Word))),
        ValueModel::List(_) => Err(only(ErrorKindModel::UnexpectedFormat(Format::List))),
        ValueModel::NameValue(LitModel::Str(s)) => Ok(s),
        ValueModel::NameValue(l) => Err(only(ErrorKindModel::UnexpectedType(l.lit_type()))),
    }
}

/// The syntax that an entry stands for: its string literal, read as
/// syntax of the given kind.
pub open spec fn leaf_from_meta(kind: Leaf, m: MetaModel) -> Result<Seq<char>, Seq<ErrorModel>> {
    match m.value {
        ValueModel::Word => Err(only(ErrorKindModel::UnexpectedFormat(Format::Word))),
        ValueModel::List(_) => Err(only(ErrorKindModel::UnexpectedFormat(Format::List))),
        ValueModel::NameValue(LitModel::Str(s)) => match leaf_of(kind, s) {
            Some(tokens) => Ok(tokens),
            None => Err(only(ErrorKindModel::UnknownValue(s))),
        },
        ValueModel::NameValue(l) => Err(only(ErrorKindModel::UnexpectedType(l.lit_type()))),
    }
}

/// The place, among the words of `group`, of the word that an entry
/// stands for: that of its string literal.
pub open spec fn choice_from_meta(group: Keys, m: MetaModel) -> Result<int, Seq<ErrorModel>> {
    let words = key_names(group);
    match m.value {
        ValueModel::Word => Err(only(ErrorKindModel::UnexpectedFormat(Format::Word))),
        ValueModel::List(items) => if items.len() == 0 {
            Err(only(ErrorKindModel::TooFewItems))
        } else if items.len() > 1 {
            Err(only(ErrorKindModel::TooManyItems))
        } else {
            match items[0].entry {
                EntryModel::Lit(_) => Err(only(ErrorKindModel::UnexpectedFormat(Format::Literal))),
                EntryModel::Meta(inner) => if key_index(words, inner.name, words.len()) is Some {
                    Err(only(ErrorKindModel::UnexpectedFormat(Format::List)))
                } else {
                    Err(only(ErrorKindModel::UnknownField { name: inner.name, among: group }))
                },
            }
        },
        ValueModel::NameValue(LitModel::Str(s)) => match key_index(words, s, words.len()) {
            Some(k) => Ok(k),
            None => Err(only(ErrorKindModel::UnknownValue(s))),
        },
        ValueModel::NameValue(l) => Err(only(ErrorKindModel::UnexpectedType(l.lit_type()))),
    }
}

/// The items of an option group: those of the list that the entry is.
pub open spec fn group_items(m: MetaModel) -> Result<Seq<NestedMetaModel>, Seq<ErrorModel>> {
    match m.value {
        ValueModel::List(items) => Ok(items),
        ValueModel::Word => Err(only(ErrorKindModel::UnexpectedFormat(Format::Word))),
        ValueModel::NameValue(l) => Err(only(ErrorKindModel::UnexpectedType(l.lit_type()))),
    }
}

/// Reads `text` as syntax of the given kind.
pub fn parse_leaf(kind: Leaf, text: &str) -> (r: Option<String>)
    ensures
        r.deep_view() == leaf_of(kind, text@),
{
    match kind {
        Leaf::Ident => parse_ident(text),
        Leaf::Type => parse_type(text),
        Leaf::Visibility => parse_visibility(text),
        Leaf::Path => parse_path(text),
    }
}

/// Decodes a flag.
pub fn flag(m: &Meta) -> (r: Result<bool, Vec<Error>>)
    ensures
        agrees(r, flag_from_meta(m.deep_view())),
{
    match &m.value {
        Value::Word => Ok(true),
        Value::List(_) => Err(fail(ErrorKind::UnexpectedFormat(Format::List))),
        Value::NameValue(Lit::Bool(b)) => Ok(*b),
        Value::NameValue(Lit::Str(s)) => {
            if same(s.as_str(), "true") {
                Ok(true)
            } else if same(s.as_str(), "false") {
                Ok(false)
            } else {
                Err(fail(ErrorKind::UnknownValue(s.clone())))
            }
        },
        Value::NameValue(l) => Err(fail(ErrorKind::UnexpectedType(l.lit_type()))),
    }
}

/// Decodes a text.
pub fn text(m: &Meta) -> (r: Result<String, Vec<Error>>)
    ensures
        agrees(r, text_from_meta(m.deep_view())),
{
    match &m.value {
        Value::Word => Err(fail(ErrorKind::UnexpectedFormat(Format::Word))),
        Value::List(_) => Err(fail(ErrorKind::UnexpectedFormat(Format::List))),
        Value::NameValue(Lit::Str(s)) => Ok(s.clone()),
        Value::NameValue(l) => Err(fail(ErrorKind::UnexpectedType(l.lit_type()))),
    }
}

/// Decodes a piece of syntax of the given kind.
pub fn leaf(kind: Leaf, m: &Meta) -> (r: Result<String, Vec<Error>>)
    ensures
        agrees(r, leaf_from_meta(kind, m.deep_view())),
{
    match &m.value {
        Value::Word => Err(fail(ErrorKind::UnexpectedFormat(Format::Word))),
        Value::List(_) => Err(fail(ErrorKind::UnexpectedFormat(Format::List))),
        Value::NameValue(Lit::Str(s)) => match parse_leaf(kind, s.as_str()) {
            Some(tokens) => Ok(tokens),
            None => Err(fail(ErrorKind::UnknownValue(s.clone()))),
        },
        Value::NameValue(l) => Err(fail(ErrorKind::UnexpectedType(l.lit_type()))),
    }
}

/// Decodes one word of the choice that `group` lists.
pub fn choice(group: Keys, m: &Meta) -> (r: Result<usize, Vec<Error>>)
    ensures
        match r {
            Ok(k) => choice_from_meta(group, m.deep_view()) == Ok::<int, Seq<ErrorModel>>(k as int)
                && k < key_names(group).len(),
            Err(e) => choice_from_meta(group, m.deep_view()) == Err::<int, Seq<ErrorModel>>(
                e.deep_view(),
            ),
        },
{
    let words = group.names();
    match &m.value {
        Value::Word => Err(fail(ErrorKind::UnexpectedFormat(Format::Word))),
        Value::List(items) => {
            proof {
                lemma_items_model(*items);
            }
            if items.len() == 0 {
                Err(fail(ErrorKind::TooFewItems))
            } else if items.len() > 1 {
                Err(fail(ErrorKind::TooManyItems))
            } else {
                match &items[0].entry {
                    Entry::Lit(_) => Err(fail(ErrorKind::UnexpectedFormat(Format::Literal))),
                    Entry::Meta(inner) => match key_position(&words, inner.name.as_str()) {
                        Some(_) => Err(fail(ErrorKind::UnexpectedFormat(Format::List))),
                        None => Err(
                            fail(
                                ErrorKind::UnknownField {
                                    name: inner.name.clone(),
                                    among: group,
                                },
                            ),
                        ),
                    },
                }
            }
        },
        Value::NameValue(Lit::Str(s)) => match key_position(&words, s.as_str()) {
            Some(k) => Ok(k),
            None => Err(fail(ErrorKind::UnknownValue(s.clone()))),
        },
        Value::NameValue(l) => Err(fail(ErrorKind::UnexpectedType(l.lit_type()))),
    }
}

/// The items of the list that an entry is.
pub fn items_of<'a>(m: &'a Meta) -> (r: Result<&'a Vec<NestedMeta>, Vec<Error>>)
    ensures
        match r {
            Ok(items) => group_items(m.deep_view()) == Ok::<
                Seq<NestedMetaModel>,
                Seq<ErrorModel>,
            >(items.deep_view()),
            Err(e) => group_items(m.deep_view()) == Err::<Seq<NestedMetaModel>, Seq<ErrorModel>>(
                e.deep_view(),
            ),
        },
{
    match &m.value {
        Value::List(items) => {
            proof {
                lemma_items_model(*items);
            }
            Ok(items)
        },
        Value::Word => Err(fail(ErrorKind::UnexpectedFormat(Format::Word))),
        Value::NameValue(l) => Err(fail(ErrorKind::UnexpectedType(l.lit_type()))),
    }
}

/// What the first entry named `key` decodes to as a flag, if there is one.
#[verifier::opaque]
pub open spec fn flag_entry(items: Seq<NestedMetaModel>, key: Seq<char>) -> Option<
    Result<bool, Seq<ErrorModel>>,
> {
    match first_entry(items, key) {
        Some(m) => Some(flag_from_meta(m)),
        None => None,
    }
}

/// Decodes the first entry named `key` as a flag: the value, if it
/// decoded, and else the errors, located under the key.
pub(crate) fn flag_slot(items: &Vec<NestedMeta>, key: &str) -> (r: (Option<bool>, Vec<Error>))
    ensures
        r.0.deep_view() == slot_value(flag_entry(items.deep_view(), key@)),
        r.1.deep_view() == slot_errors(flag_entry(items.deep_view(), key@), key@),
{
    proof {
        reveal(flag_entry);
    }
    let decoded = match find(items, key) {
        Some(m) => Some(flag(m)),
        None => None,
    };
    part(decoded, key, Ghost(flag_entry(items.deep_view(), key@)))
}

/// What the first entry named `key` decodes to as a text, if there is one.
#[verifier::opaque]
pub open spec fn text_entry(items: Seq<NestedMetaModel>, key: Seq<char>) -> Option<
    Result<Seq<char>, Seq<ErrorModel>>,
> {
    match first_entry(items, key) {
        Some(m) => Some(text_from_meta(m)),
        None => None,
    }
}

/// Decodes the first entry named `key` as a text: the value, if it
/// decoded, and else the errors, located under the key.
pub(crate) fn text_slot(items: &Vec<NestedMeta>, key: &str) -> (r: (Option<String>, Vec<Error>))
    ensures
        r.0.deep_view() == slot_value(text_entry(items.deep_view(), key@)),
        r.1.deep_view() == slot_errors(text_entry(items.deep_view(), key@), key@),
{
    proof {
        reveal(text_entry);
    }
    let decoded = match find(items, key) {
        Some(m) => Some(text(m)),
        None => None,
    };
    part(decoded, key, Ghost(text_entry(items.deep_view(), key@)))
}

/// What the first entry named `key` decodes to as syntax of the given kind, if there is one.
#[verifier::opaque]
pub open spec fn leaf_entry(kind: Leaf, items: Seq<NestedMetaModel>, key: Seq<char>) -> Option<
    Result<Seq<char>, Seq<ErrorModel>>,
> {
    match first_entry(items, key) {
        Some(m) => Some(leaf_from_meta(kind, m)),
        None => None,
    }
}

/// Decodes the first entry named `key` as syntax of the given kind: the value, if it
/// decoded, and else the errors, located under the key.
pub(crate) fn leaf_slot(
    kind: Leaf,
    items: &Vec<NestedMeta>,
    key: &str,
) -> (r: (Option<String>, Vec<Error>))
    ensures
        r.0.deep_view() == slot_value(leaf_entry(kind, items.deep_view(), key@)),
        r.1.deep_view() == slot_errors(leaf_entry(kind, items.deep_view(), key@), key@),
{
    proof {
        reveal(leaf_entry);
    }
    let decoded = match find(items, key) {
        Some(m) => Some(leaf(kind, m)),
        None => None,
    };
    part(decoded, key, Ghost(leaf_entry(kind, items.deep_view(), key@)))
}

} // verus!
