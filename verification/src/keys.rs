//! The keys of each option group.

use crate::error::Keys;
use crate::text::owned;
use vstd::prelude::*;

verus! {

/// The keys of a group, in the order in which the group lists them.
pub open spec fn key_names(group: Keys) -> Seq<Seq<char>> {
    match group {
        Keys::StructBlock => seq![
            "name"@,
            "attributes"@,
            "getters"@,
            "setters"@,
            "converter"@,
            "vis"@,
            "bound"@,
            "extra"@,
        ],
        Keys::FieldBlock => seq![
            "skip"@,
            "type"@,
            "rename"@,
            "parent"@,
            "from"@,
            "into"@,
            "getter"@,
            "setter"@,
            "vis"@,
            "attributes"@,
        ],
        Keys::ExtraFieldBlock => seq!["default"@, "getter"@, "setter"@, "vis"@, "attributes"@],
        Keys::Skip => seq!["default"@],
        Keys::Bound => seq!["inherit"@, "extra"@],
        Keys::Extra => seq!["field_attributes"@, "fields"@],
        Keys::Converter => seq!["try_from"@, "try_into"@, "from"@, "into"@],
        Keys::Try => seq!["style"@, "error"@],
        Keys::FieldConverter => seq!["style"@, "fn"@],
        Keys::StructGetter => seq!["prefix"@, "style"@, "skip"@, "vis_all"@],
        Keys::FieldGetter => seq!["rename"@, "style"@, "skip"@, "vis"@, "result"@],
        Keys::Accessor => seq!["type"@, "converter"@, "bound"@],
        Keys::StructSetter => seq!["prefix"@, "style"@, "skip"@, "vis_all"@],
        Keys::FieldSetter => seq!["rename"@, "style"@, "skip"@, "vis"@, "bound"@],
        Keys::Style => seq!["ref"@, "move"@],
        Keys::SetterStyle => seq!["ref"@, "move"@, "into"@, "try_into"@],
    }
}

/// Adds a word to a list of words.
pub(crate) fn push_word(words: &mut Vec<String>, word: &str)
    ensures
        final(words).deep_view() == old(words).deep_view().push(word@),
        final(words).len() == old(words).len() + 1,
{
    let ghost before = words.deep_view();
    words.push(owned(word));
    assert(words.deep_view() =~= before.push(word@));
}

/// A list of no words.
pub(crate) fn no_words() -> (r: Vec<String>)
    ensures
        r.deep_view() == Seq::<Seq<char>>::empty(),
{
    let r: Vec<String> = Vec::new();
    assert(r.deep_view() =~= Seq::<Seq<char>>::empty());
    r
}

impl Keys {
    /// The keys of the group, in the order in which the group lists them.
    pub fn names(self) -> (r: Vec<String>)
        ensures
            r.deep_view() == key_names(self),
            r.len() == key_names(self).len(),
    {
        let mut r = no_words();
        match self {
            Keys::StructBlock => {
                push_word(&mut r, "name");
                push_word(&mut r, "attributes");
                push_word(&mut r, "getters");
                push_word(&mut r, "setters");
                push_word(&mut r, "converter");
                push_word(&mut r, "vis");
                push_word(&mut r, "bound");
                push_word(&mut r, "extra");
            },
            Keys::FieldBlock => {
                push_word(&mut r, "skip");
                push_word(&mut r, "type");
                push_word(&mut r, "rename");
                push_word(&mut r, "parent");
                push_word(&mut r, "from");
                push_word(&mut r, "into");
                push_word(&mut r, "getter");
                push_word(&mut r, "setter");
                push_word(&mut r, "vis");
                push_word(&mut r, "attributes");
            },
            Keys::ExtraFieldBlock => {
                push_word(&mut r, "default");
                push_word(&mut r, "getter");
                push_word(&mut r, "setter");
                push_word(&mut r, "vis");
                push_word(&mut r, "attributes");
            },
            Keys::Skip => {
                push_word(&mut r, "default");
            },
            Keys::Bound => {
                push_word(&mut r, "inherit");
                push_word(&mut r, "extra");
            },
            Keys::Extra => {
                push_word(&mut r, "field_attributes");
                push_word(&mut r, "fields");
            },
            Keys::Converter => {
                push_word(&mut r, "try_from");
                push_word(&mut r, "try_into");
                push_word(&mut r, "from");
                push_word(&mut r, "into");
            },
            Keys::Try => {
                push_word(&mut r, "style");
                push_word(&mut r, "error");
            },
            Keys::FieldConverter => {
                push_word(&mut r, "style");
                push_word(&mut r, "fn");
            },
            Keys::StructGetter | Keys::StructSetter => {
                push_word(&mut r, "prefix");
                push_word(&mut r, "style");
                push_word(&mut r, "skip");
                push_word(&mut r, "vis_all");
            },
            Keys::FieldGetter => {
                push_word(&mut r, "rename");
                push_word(&mut r, "style");
                push_word(&mut r, "skip");
                push_word(&mut r, "vis");
                push_word(&mut r, "result");
            },
            Keys::Accessor => {
                push_word(&mut r, "type");
                push_word(&mut r, "converter");
                push_word(&mut r, "bound");
            },
            Keys::FieldSetter => {
                push_word(&mut r, "rename");
                push_word(&mut r, "style");
                push_word(&mut r, "skip");
                push_word(&mut r, "vis");
                push_word(&mut r, "bound");
            },
            Keys::Style => {
                push_word(&mut r, "ref");
                push_word(&mut r, "move");
            },
            Keys::SetterStyle => {
                push_word(&mut r, "ref");
                push_word(&mut r, "move");
                push_word(&mut r, "into");
                push_word(&mut r, "try_into");
            },
        }
        assert(r.deep_view() =~= key_names(self));
        r
    }
}

} // verus!
