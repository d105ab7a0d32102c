//! The annotation language as a tree of plain values.
//!
//! An annotation block is a list of items. An item is a literal or a named
//! entry, and a named entry is a bare word, a name with a literal, or a
//! name with a nested list of items. Every item also carries the token
//! text it was read from, for the places that pass an item on verbatim.

use vstd::prelude::*;

verus! {

/// The types a literal can have.
#[derive(Clone, Copy, Debug, PartialEq, Eq, Structural)]
pub enum LitType {
    Str,
    Bool,
    Char,
    ByteStr,
    Byte,
    Int,
    Decimal,
    Verbatim,
}

/// A literal value.
#[derive(Clone, Debug, PartialEq, Eq)]
pub enum Lit {
    Str(String),
    Bool(bool),
    Char(char),
    /// A literal of a type whose value no option reads.
    Other(LitType),
}

/// What stands behind the name of a named entry.
#[derive(Debug, PartialEq, Eq)]
pub enum Value {
    /// Nothing: a bare word.
    Word,
    /// A nested list of items.
    List(Vec<NestedMeta>),
    /// A literal after `=`.
    NameValue(Lit),
}

/// A named entry.
#[derive(Debug, PartialEq, Eq)]
pub struct Meta {
    pub name: String,
    pub value: Value,
}

/// What an item is.
#[derive(Debug, PartialEq, Eq)]
pub enum Entry {
    Lit(Lit),
    Meta(Meta),
}

/// One item of an annotation list, with its token text.
#[derive(Debug, PartialEq, Eq)]
pub struct NestedMeta {
    pub tokens: String,
    pub entry: Entry,
}

/// Mathematical form of [`Lit`].
pub ghost enum LitModel {
    Str(Seq<char>),
    Bool(bool),
    Char(char),
    Other(LitType),
}

/// Mathematical form of [`Value`].
pub ghost enum ValueModel {
    Word,
    List(Seq<NestedMetaModel>),
    NameValue(LitModel),
}

/// Mathematical form of [`Meta`].
pub ghost struct MetaModel {
    pub name: Seq<char>,
    pub value: ValueModel,
}

/// Mathematical form of [`Entry`].
pub ghost enum EntryModel {
    Lit(LitModel),
    Meta(MetaModel),
}

/// Mathematical form of [`NestedMeta`].
pub ghost struct NestedMetaModel {
    pub tokens: Seq<char>,
    pub entry: EntryModel,
}

impl DeepView for Lit {
    type V = LitModel;

    open spec fn deep_view(&self) -> LitModel {
        match self {
            Lit::Str(s) => LitModel::Str(s@),
            Lit::Bool(b) => LitModel::Bool(*b),
            Lit::Char(c) => LitModel::Char(*c),
            Lit::Other(k) => LitModel::Other(*k),
        }
    }
}

impl LitModel {
    /// The type of the literal.
    pub open spec fn lit_type(self) -> LitType {
        match self {
            LitModel::Str(_) => LitType::Str,
            LitModel::Bool(_) => LitType::Bool,
            LitModel::Char(_) => LitType::Char,
            LitModel::Other(t) => t,
        }
    }
}

impl Lit {
    /// The type of the literal.
    pub fn lit_type(&self) -> (r: LitType)
        ensures
            r == self.deep_view().lit_type(),
    {
        match self {
            Lit::Str(_) => LitType::Str,
            Lit::Bool(_) => LitType::Bool,
            Lit::Char(_) => LitType::Char,
            Lit::Other(t) => *t,
        }
    }
}

/// The mathematical form of a list of items.
pub open spec fn items_model(items: Vec<NestedMeta>) -> Seq<NestedMetaModel>
    decreases items,
{
    Seq::new(
        items@.len(),
        |i: int|
            if 0 <= i < items@.len() {
                item_model(items@[i])
            } else {
                arbitrary()
            },
    )
}

/// The mathematical form of what stands behind a name.
pub open spec fn value_model(value: Value) -> ValueModel
    decreases value,
{
    match value {
        Value::Word => ValueModel::Word,
        Value::NameValue(l) => ValueModel::NameValue(l.deep_view()),
        Value::List(items) => ValueModel::List(items_model(items)),
    }
}

/// The mathematical form of a named entry.
pub open spec fn meta_model(meta: Meta) -> MetaModel
    decreases meta,
{
    MetaModel { name: meta.name@, value: value_model(meta.value) }
}

/// The mathematical form of an item.
pub open spec fn item_model(item: NestedMeta) -> NestedMetaModel
    decreases item,
{
    NestedMetaModel {
        tokens: item.tokens@,
        entry: match item.entry {
            Entry::Lit(l) => EntryModel::Lit(l.deep_view()),
            Entry::Meta(m) => EntryModel::Meta(meta_model(m)),
        },
    }
}

impl DeepView for Value {
    type V = ValueModel;

    open spec fn deep_view(&self) -> ValueModel {
        value_model(*self)
    }
}

impl DeepView for Meta {
    type V = MetaModel;

    open spec fn deep_view(&self) -> MetaModel {
        meta_model(*self)
    }
}

impl DeepView for NestedMeta {
    type V = NestedMetaModel;

    open spec fn deep_view(&self) -> NestedMetaModel {
        item_model(*self)
    }
}

/// The mathematical form of a list of items is the list of their forms.
pub broadcast proof fn lemma_items_model(items: Vec<NestedMeta>)
    ensures
        #[trigger] items_model(items) == items.deep_view(),
{
    assert(items_model(items) =~= items.deep_view());
}

} // verus!
