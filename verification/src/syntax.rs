//! The boundary to the Rust syntax parser.
//!
//! Everything here reads a piece of token text with `syn` (and, for
//! attributes, `darling`) and hands the outcome back as plain values:
//! names, flags, and token text. None of it is proved. Each function
//! states that its outcome is the value of a named, uninterpreted function
//! of the text it was given.
//!
//! Two things make that so. Each function first switches `proc-macro2` to
//! its own lexer and printer, so that the outcome does not depend on
//! whether a compiler hosts the process. And each function asks of its
//! caller that the text is [`readable`]: the parser has no reading for a
//! C string literal, nor for the marker that the lexer leaves for an
//! error, and gives up on them instead of answering. Nothing outside
//! [`crate::reader`] calls these functions; it makes the test.

use crate::meta::{Lit, LitModel, LitType};
use crate::reader::readable;
use darling::util::{parse_attribute_to_meta_list, path_to_string};
use proc_macro2::fallback::force;
use quote::ToTokens;
use syn::parse::Parser;
use syn::{Attribute, Meta, NestedMeta};
use vstd::prelude::*;

verus! {

/// One annotation item, read one level deep: what it is, its name, and
/// what stands behind the name as token text.
#[derive(Clone, Debug, PartialEq, Eq)]
pub enum ItemSyntax {
    /// A literal, as token text.
    Lit(String),
    /// A bare word, by its name.
    Word(String),
    /// A name with a nested list, the items of the list as token text.
    List(String, Vec<String>),
    /// A name with a literal after `=`, the literal as token text.
    NameValue(String, String),
    /// Not an annotation item at all.
    Unreadable,
}

/// Mathematical form of [`ItemSyntax`].
pub ghost enum ItemSyntaxModel {
    Lit(Seq<char>),
    Word(Seq<char>),
    List(Seq<char>, Seq<Seq<char>>),
    NameValue(Seq<char>, Seq<char>),
    Unreadable,
}

impl DeepView for ItemSyntax {
    type V = ItemSyntaxModel;

    open spec fn deep_view(&self) -> ItemSyntaxModel {
        match self {
            ItemSyntax::Lit(l) => ItemSyntaxModel::Lit(l@),
            ItemSyntax::Word(n) => ItemSyntaxModel::Word(n@),
            ItemSyntax::List(n, items) => ItemSyntaxModel::List(n@, items.deep_view()),
            ItemSyntax::NameValue(n, l) => ItemSyntaxModel::NameValue(n@, l@),
            ItemSyntax::Unreadable => ItemSyntaxModel::Unreadable,
        }
    }
}

/// One attribute: its path and the whole of it, as token text.
#[derive(Clone, Debug, PartialEq, Eq)]
pub struct AttributeSyntax {
    pub path: String,
    pub tokens: String,
}

/// Mathematical form of [`AttributeSyntax`].
pub ghost struct AttributeSyntaxModel {
    pub path: Seq<char>,
    pub tokens: Seq<char>,
}

impl DeepView for AttributeSyntax {
    type V = AttributeSyntaxModel;

    open spec fn deep_view(&self) -> AttributeSyntaxModel {
        AttributeSyntaxModel { path: self.path@, tokens: self.tokens@ }
    }
}

/// What an attribute holds between its parentheses.
#[derive(Clone, Debug, PartialEq, Eq)]
pub enum ListSyntax {
    /// The items of its list, as token text; none for a bare path.
    Items(Vec<String>),
    /// It is no list: what is wrong with it.
    Refused(String),
}

/// Mathematical form of [`ListSyntax`].
pub ghost enum ListSyntaxModel {
    Items(Seq<Seq<char>>),
    Refused(Seq<char>),
}

impl DeepView for ListSyntax {
    type V = ListSyntaxModel;

    open spec fn deep_view(&self) -> ListSyntaxModel {
        match self {
            ListSyntax::Items(items) => ListSyntaxModel::Items(items.deep_view()),
            ListSyntax::Refused(message) => ListSyntaxModel::Refused(message@),
        }
    }
}

/// One field of a field list, as token text.
#[derive(Clone, Debug, PartialEq, Eq)]
pub struct FieldSyntax {
    /// The field's name; `None` for a positional field.
    pub name: Option<String>,
    /// The field's type.
    pub ty: String,
    /// The field's visibility; empty when it has none.
    pub vis: String,
    /// The field's attributes, one text each.
    pub attrs: Vec<String>,
}

/// Mathematical form of [`FieldSyntax`].
pub ghost struct FieldSyntaxModel {
    pub name: Option<Seq<char>>,
    pub ty: Seq<char>,
    pub vis: Seq<char>,
    pub attrs: Seq<Seq<char>>,
}

impl DeepView for FieldSyntax {
    type V = FieldSyntaxModel;

    open spec fn deep_view(&self) -> FieldSyntaxModel {
        FieldSyntaxModel {
            name: self.name.deep_view(),
            ty: self.ty@,
            vis: self.vis@,
            attrs: self.attrs.deep_view(),
        }
    }
}

/// A generic parameter list in the three renderings the generator uses.
#[derive(Clone, Debug, PartialEq, Eq)]
pub struct GenericsSyntax {
    /// The list as declared, bounds and defaults included.
    pub params: String,
    /// The list as it stands behind `impl`: bounds kept, defaults dropped.
    pub impl_generics: String,
    /// The list as it stands behind a type's name: parameter names only.
    pub ty_generics: String,
}

/// Mathematical form of [`GenericsSyntax`].
pub ghost struct GenericsSyntaxModel {
    pub params: Seq<char>,
    pub impl_generics: Seq<char>,
    pub ty_generics: Seq<char>,
}

impl DeepView for GenericsSyntax {
    type V = GenericsSyntaxModel;

    open spec fn deep_view(&self) -> GenericsSyntaxModel {
        GenericsSyntaxModel {
            params: self.params@,
            impl_generics: self.impl_generics@,
            ty_generics: self.ty_generics@,
        }
    }
}

/// Whether an outcome with a message for its failure is the one that the
/// model gives.
pub open spec fn told<T: DeepView>(r: Result<T, String>, model: Result<T::V, Seq<char>>) -> bool {
    match r {
        Ok(v) => model == Ok::<T::V, Seq<char>>(v.deep_view()),
        Err(e) => model == Err::<T::V, Seq<char>>(e@),
    }
}

/// The outer attributes that `text` consists of, in their order, or the
/// parser's message where `text` is no sequence of outer attributes.
pub uninterp spec fn parsed_attributes(text: Seq<char>) -> Result<
    Seq<AttributeSyntaxModel>,
    Seq<char>,
>;

/// For each outer attribute that `text` consists of, what it holds
/// between its parentheses; or the parser's message where `text` is no
/// sequence of outer attributes.
pub uninterp spec fn parsed_lists(text: Seq<char>) -> Result<Seq<ListSyntaxModel>, Seq<char>>;

/// The annotation item written in `item`, read one level deep: a literal
/// or a named entry, the name with its segments joined by `::`.
pub uninterp spec fn parsed_item(item: Seq<char>) -> ItemSyntaxModel;

/// The literal written in `text`, if `text` is one: for text, a boolean
/// and a character the value that it denotes, for any other literal its
/// type.
pub uninterp spec fn parsed_literal(text: Seq<char>) -> Option<LitModel>;

/// The identifier written in `text`, if `text` is one.
pub uninterp spec fn parsed_ident(text: Seq<char>) -> Option<Seq<char>>;

/// The tokens of the type written in `text`, if `text` is one.
pub uninterp spec fn parsed_type(text: Seq<char>) -> Option<Seq<char>>;

/// The tokens of the visibility written in `text`, if `text` is one.
pub uninterp spec fn parsed_visibility(text: Seq<char>) -> Option<Seq<char>>;

/// The tokens of the path written in `text`, if `text` is one.
pub uninterp spec fn parsed_path(text: Seq<char>) -> Option<Seq<char>>;

/// The generic parameter list that `text` consists of, or the parser's
/// message.
pub uninterp spec fn parsed_generics(text: Seq<char>) -> Result<GenericsSyntaxModel, Seq<char>>;

/// The fields of the brace-delimited, named field list written in `text`.
pub uninterp spec fn parsed_named_fields(text: Seq<char>) -> Option<Seq<FieldSyntaxModel>>;

/// The fields of the parenthesised, positional field list written in `text`.
pub uninterp spec fn parsed_unnamed_fields(text: Seq<char>) -> Option<Seq<FieldSyntaxModel>>;

/// `syn::Attribute::parse_outer` on all of `text`: of each attribute its
/// path and the whole of it, rendered as tokens, or the parser's message.
#[verifier::external_body]
pub(crate) fn attributes(text: &str) -> (r: Result<Vec<AttributeSyntax>, String>)
    requires
        readable(text@),
    ensures
        told(r, parsed_attributes(text@)),
{
    force();
    let attrs = Attribute::parse_outer.parse_str(text).map_err(|e| e.to_string())?;
    Ok(attrs.iter().map(|a| AttributeSyntax {
        path: a.path.to_token_stream().to_string(),
        tokens: a.to_token_stream().to_string(),
    }).collect())
}

/// `darling::util::parse_attribute_to_meta_list` on each attribute that
/// `syn::Attribute::parse_outer` reads from `text`: the nested items of
/// its list, each rendered as tokens, or the message of darling's error;
/// the parser's message where `text` is no sequence of attributes.
#[verifier::external_body]
pub(crate) fn lists(text: &str) -> (r: Result<Vec<ListSyntax>, String>)
    requires
        readable(text@),
    ensures
        told(r, parsed_lists(text@)),
{
    force();
    let attrs = Attribute::parse_outer.parse_str(text).map_err(|e| e.to_string())?;
    Ok(attrs.iter().map(|a| match parse_attribute_to_meta_list(a) {
        Ok(l) => ListSyntax::Items(
            l.nested.iter().map(|n| n.to_token_stream().to_string()).collect(),
        ),
        Err(e) => ListSyntax::Refused(e.to_string()),
    }).collect())
}

/// `syn::parse_str::<syn::NestedMeta>` on `text`, converted variant by
/// variant; a name is what `darling::util::path_to_string` gives, and
/// literals and nested items are rendered as tokens.
#[verifier::external_body]
pub(crate) fn item(text: &str) -> (r: ItemSyntax)
    requires
        readable(text@),
    ensures
        r.deep_view() == parsed_item(text@),
{
    force();
    match syn::parse_str::<NestedMeta>(text) {
        Ok(NestedMeta::Lit(l)) => ItemSyntax::Lit(l.to_token_stream().to_string()),
        Ok(NestedMeta::Meta(Meta::Path(p))) => ItemSyntax::Word(path_to_string(&p)),
        Ok(NestedMeta::Meta(Meta::List(l))) => ItemSyntax::List(
            path_to_string(&l.path),
            l.nested.iter().map(|n| n.to_token_stream().to_string()).collect(),
        ),
        Ok(NestedMeta::Meta(Meta::NameValue(v))) => ItemSyntax::NameValue(
            path_to_string(&v.path),
            v.lit.to_token_stream().to_string(),
        ),
        Err(_) => ItemSyntax::Unreadable,
    }
}

/// `syn::parse_str::<syn::Lit>` on `text`, converted variant by variant.
#[verifier::external_body]
pub(crate) fn literal(text: &str) -> (r: Option<Lit>)
    requires
        readable(text@),
    ensures
        r.deep_view() == parsed_literal(text@),
{
    force();
    let lit = syn::parse_str::<syn::Lit>(text).ok()?;
    Some(match lit {
        syn::Lit::Str(s) => Lit::Str(s.value()),
        syn::Lit::Bool(b) => Lit::Bool(b.value),
        syn::Lit::Char(c) => Lit::Char(c.value()),
        syn::Lit::ByteStr(_) => Lit::Other(LitType::ByteStr),
        syn::Lit::Byte(_) => Lit::Other(LitType::Byte),
        syn::Lit::Int(_) => Lit::Other(LitType::Int),
        syn::Lit::Float(_) => Lit::Other(LitType::Decimal),
        syn::Lit::Verbatim(_) => Lit::Other(LitType::Verbatim),
    })
}

/// `syn::parse_str::<syn::Ident>`.
#[verifier::external_body]
pub(crate) fn ident(text: &str) -> (r: Option<String>)
    requires
        readable(text@),
    ensures
        r.deep_view() == parsed_ident(text@),
{
    force();
    syn::parse_str::<syn::Ident>(text).ok().map(|i| i.to_string())
}

/// `syn::parse_str::<syn::Type>`, rendered as tokens.
#[verifier::external_body]
pub(crate) fn ty(text: &str) -> (r: Option<String>)
    requires
        readable(text@),
    ensures
        r.deep_view() == parsed_type(text@),
{
    force();
    syn::parse_str::<syn::Type>(text).ok().map(|t| t.to_token_stream().to_string())
}

/// `syn::parse_str::<syn::Visibility>`, rendered as tokens.
#[verifier::external_body]
pub(crate) fn visibility(text: &str) -> (r: Option<String>)
    requires
        readable(text@),
    ensures
        r.deep_view() == parsed_visibility(text@),
{
    force();
    syn::parse_str::<syn::Visibility>(text).ok().map(|v| v.to_token_stream().to_string())
}

/// `syn::parse_str::<syn::Path>`, rendered as tokens.
#[verifier::external_body]
pub(crate) fn path(text: &str) -> (r: Option<String>)
    requires
        readable(text@),
    ensures
        r.deep_view() == parsed_path(text@),
{
    force();
    syn::parse_str::<syn::Path>(text).ok().map(|p| p.to_token_stream().to_string())
}

/// `syn::parse_str::<syn::Generics>`, then `split_for_impl`: the list itself
/// and its two halves rendered as tokens, or the parser's message.
#[verifier::external_body]
pub(crate) fn generics(text: &str) -> (r: Result<GenericsSyntax, String>)
    requires
        readable(text@),
    ensures
        told(r, parsed_generics(text@)),
{
    force();
    let g = syn::parse_str::<syn::Generics>(text).map_err(|e| e.to_string())?;
    let (impl_generics, ty_generics, _) = g.split_for_impl();
    Ok(GenericsSyntax {
        params: g.to_token_stream().to_string(),
        impl_generics: impl_generics.to_token_stream().to_string(),
        ty_generics: ty_generics.to_token_stream().to_string(),
    })
}

/// `syn::parse_str::<syn::FieldsNamed>`, each field rendered as text.
#[verifier::external_body]
pub(crate) fn named_fields(text: &str) -> (r: Option<Vec<FieldSyntax>>)
    requires
        readable(text@),
    ensures
        r.deep_view() == parsed_named_fields(text@),
{
    force();
    let fields = syn::parse_str::<syn::FieldsNamed>(text).ok()?;
    Some(fields.named.iter().map(|f| FieldSyntax {
        name: f.ident.as_ref().map(|i| i.to_string()),
        ty: f.ty.to_token_stream().to_string(),
        vis: f.vis.to_token_stream().to_string(),
        attrs: f.attrs.iter().map(|a| a.to_token_stream().to_string()).collect(),
    }).collect())
}

/// `syn::parse_str::<syn::FieldsUnnamed>`, each field rendered as text.
#[verifier::external_body]
pub(crate) fn unnamed_fields(text: &str) -> (r: Option<Vec<FieldSyntax>>)
    requires
        readable(text@),
    ensures
        r.deep_view() == parsed_unnamed_fields(text@),
{
    force();
    let fields = syn::parse_str::<syn::FieldsUnnamed>(text).ok()?;
    Some(fields.unnamed.iter().map(|f| FieldSyntax {
        name: f.ident.as_ref().map(|i| i.to_string()),
        ty: f.ty.to_token_stream().to_string(),
        vis: f.vis.to_token_stream().to_string(),
        attrs: f.attrs.iter().map(|a| a.to_token_stream().to_string()).collect(),
    }).collect())
}

} // verus!
