//! How a value is handed over, and how one field is converted.

use crate::decode::{
    add_failures, collect, collected, find, first_entry, no_failures, part, slot_errors,
    slot_value, Scheme,
};
use crate::error::{agrees, Error, ErrorModel, Keys};
use crate::keys::key_names;
use crate::meta::{Meta, MetaModel, NestedMeta, NestedMetaModel};
use crate::values::{
    choice, choice_from_meta, group_items, items_of, leaf_entry, leaf_slot, Leaf,
};
use vstd::prelude::*;

verus! {

/// Whether a value is handed over by reference or moved.
#[derive(Clone, Copy, Debug, PartialEq, Eq, Structural)]
pub enum Style {
    Ref,
    Move,
}

/// The shape of a generated setter.
#[derive(Clone, Copy, Debug, PartialEq, Eq, Structural)]
pub enum SetterStyle {
    /// Changes the value in place.
    Ref,
    /// Takes the value and gives it back changed.
    Move,
    /// As `Move`, taking anything that converts into the field's type.
    Into,
    /// As `Move`, taking anything that may convert into the field's type.
    TryInto,
}

impl DeepView for Style {
    type V = Style;

    open spec fn deep_view(&self) -> Style {
        *self
    }
}

impl DeepView for SetterStyle {
    type V = SetterStyle;

    open spec fn deep_view(&self) -> SetterStyle {
        *self
    }
}

impl Default for Style {
    fn default() -> (r: Style)
        ensures
            r == Style::Move,
    {
        Style::Move
    }
}

impl Default for SetterStyle {
    fn default() -> (r: SetterStyle)
        ensures
            r == SetterStyle::Move,
    {
        SetterStyle::Move
    }
}

/// The style that stands at a place of [`Keys::Style`].
pub open spec fn style_at(k: int) -> Style {
    if k == 0 {
        Style::Ref
    } else {
        Style::Move
    }
}

/// The setter style that stands at a place of [`Keys::SetterStyle`].
pub open spec fn setter_style_at(k: int) -> SetterStyle {
    if k == 0 {
        SetterStyle::Ref
    } else if k == 1 {
        SetterStyle::Move
    } else if k == 2 {
        SetterStyle::Into
    } else {
        SetterStyle::TryInto
    }
}

/// The style that an entry stands for: `"ref"` or `"move"`.
pub open spec fn style_from_meta(m: MetaModel) -> Result<Style, Seq<ErrorModel>> {
    match choice_from_meta(Keys::Style, m) {
        Ok(k) => Ok(style_at(k)),
        Err(e) => Err(e),
    }
}

/// The setter style that an entry stands for: `"ref"`, `"move"`, `"into"`
/// or `"try_into"`.
pub open spec fn setter_style_from_meta(m: MetaModel) -> Result<SetterStyle, Seq<ErrorModel>> {
    match choice_from_meta(Keys::SetterStyle, m) {
        Ok(k) => Ok(setter_style_at(k)),
        Err(e) => Err(e),
    }
}

impl Style {
    /// Decodes a style.
    pub fn from_meta(m: &Meta) -> (r: Result<Style, Vec<Error>>)
        ensures
            agrees(r, style_from_meta(m.deep_view())),
    {
        match choice(Keys::Style, m) {
            Ok(k) => Ok(
                if k == 0 {
                    Style::Ref
                } else {
                    Style::Move
                },
            ),
            Err(e) => Err(e),
        }
    }

    /// What stands before a value handed over in this style: `&` or nothing.
    pub fn prefix(self) -> (r: &'static str)
        ensures
            r@ == style_prefix(self),
    {
        match self {
            Style::Ref => "&",
            Style::Move => "",
        }
    }
}

/// What stands before a value handed over in a style: `&` or nothing.
pub open spec fn style_prefix(style: Style) -> Seq<char> {
    match style {
        Style::Ref => "&"@,
        Style::Move => ""@,
    }
}

impl SetterStyle {
    /// Decodes a setter style.
    pub fn from_meta(m: &Meta) -> (r: Result<SetterStyle, Vec<Error>>)
        ensures
            agrees(r, setter_style_from_meta(m.deep_view())),
    {
        match choice(Keys::SetterStyle, m) {
            Ok(k) => Ok(
                if k == 0 {
                    SetterStyle::Ref
                } else if k == 1 {
                    SetterStyle::Move
                } else if k == 2 {
                    SetterStyle::Into
                } else {
                    SetterStyle::TryInto
                },
            ),
            Err(e) => Err(e),
        }
    }
}

/// What the first entry named `key` decodes to as a style, if there is one.
#[verifier::opaque]
pub open spec fn style_entry(items: Seq<NestedMetaModel>, key: Seq<char>) -> Option<
    Result<Style, Seq<ErrorModel>>,
> {
    match first_entry(items, key) {
        Some(m) => Some(style_from_meta(m)),
        None => None,
    }
}

/// Decodes the first entry named `key` as a style: the value, if it
/// decoded, and else the errors, located under the key.
pub(crate) fn style_slot(items: &Vec<NestedMeta>, key: &str) -> (r: (Option<Style>, Vec<Error>))
    ensures
        r.0.deep_view() == slot_value(style_entry(items.deep_view(), key@)),
        r.1.deep_view() == slot_errors(style_entry(items.deep_view(), key@), key@),
{
    proof {
        reveal(style_entry);
    }
    let decoded = match find(items, key) {
        Some(m) => Some(Style::from_meta(m)),
        None => None,
    };
    part(decoded, key, Ghost(style_entry(items.deep_view(), key@)))
}

/// What the first entry named `key` decodes to as a setter style, if there is one.
#[verifier::opaque]
pub open spec fn setter_style_entry(items: Seq<NestedMetaModel>, key: Seq<char>) -> Option<
    Result<SetterStyle, Seq<ErrorModel>>,
> {
    match first_entry(items, key) {
        Some(m) => Some(setter_style_from_meta(m)),
        None => None,
    }
}

/// Decodes the first entry named `key` as a setter style: the value, if it
/// decoded, and else the errors, located under the key.
pub(crate) fn setter_style_slot(
    items: &Vec<NestedMeta>,
    key: &str,
) -> (r: (Option<SetterStyle>, Vec<Error>))
    ensures
        r.0.deep_view() == slot_value(setter_style_entry(items.deep_view(), key@)),
        r.1.deep_view() == slot_errors(setter_style_entry(items.deep_view(), key@), key@),
{
    proof {
        reveal(setter_style_entry);
    }
    let decoded = match find(items, key) {
        Some(m) => Some(SetterStyle::from_meta(m)),
        None => None,
    };
    part(decoded, key, Ghost(setter_style_entry(items.deep_view(), key@)))
}

/// How one field's value is converted: by which function, if any, and in
/// which style, if not in that of the whole conversion.
#[derive(Clone, Debug, PartialEq, Eq)]
pub struct FieldConverter {
    pub style: Option<Style>,
    pub func: Option<String>,
}

/// Mathematical form of [`FieldConverter`].
pub ghost struct FieldConverterModel {
    pub style: Option<Style>,
    pub func: Option<Seq<char>>,
}

impl DeepView for FieldConverter {
    type V = FieldConverterModel;

    open spec fn deep_view(&self) -> FieldConverterModel {
        FieldConverterModel { style: self.style, func: self.func.deep_view() }
    }
}

/// The converter that a list of items stands for: keys `style` and `fn`.
pub open spec fn field_converter_from_list(items: Seq<NestedMetaModel>) -> Result<
    FieldConverterModel,
    Seq<ErrorModel>,
> {
    let style = style_entry(items, "style"@);
    let func = leaf_entry(Leaf::Path, items, "fn"@);
    let errors = collected(
        items,
        Scheme {
            keys: key_names(Keys::FieldConverter),
            among: Keys::FieldConverter,
            failures: seq![slot_errors(style, "style"@), slot_errors(func, "fn"@)],
        },
        items.len(),
    );
    if errors.len() > 0 {
        Err(errors)
    } else {
        Ok(FieldConverterModel { style: slot_value(style), func: slot_value(func) })
    }
}

/// The converter that an entry stands for.
pub open spec fn field_converter_from_meta(m: MetaModel) -> Result<
    FieldConverterModel,
    Seq<ErrorModel>,
> {
    match group_items(m) {
        Ok(items) => field_converter_from_list(items),
        Err(e) => Err(e),
    }
}

impl FieldConverter {
    /// Decodes a converter from the items of its list.
    pub fn from_list(items: &Vec<NestedMeta>) -> (r: Result<FieldConverter, Vec<Error>>)
        ensures
            agrees(r, field_converter_from_list(items.deep_view())),
    {
        let (style, style_errors) = style_slot(items, "style");
        let (func, func_errors) = leaf_slot(Leaf::Path, items, "fn");
        let mut failures = no_failures();
        add_failures(&mut failures, style_errors);
        add_failures(&mut failures, func_errors);
        let keys = Keys::FieldConverter.names();
        assert(failures.deep_view() == seq![
            slot_errors(style_entry(items.deep_view(), "style"@), "style"@),
            slot_errors(leaf_entry(Leaf::Path, items.deep_view(), "fn"@), "fn"@),
        ]);
        let errors = collect(items, &keys, Keys::FieldConverter, failures);
        if errors.len() > 0 {
            Err(errors)
        } else {
            Ok(FieldConverter { style, func })
        }
    }

    /// Decodes a converter.
    pub fn from_meta(m: &Meta) -> (r: Result<FieldConverter, Vec<Error>>)
        ensures
            agrees(r, field_converter_from_meta(m.deep_view())),
    {
        match items_of(m) {
            Ok(items) => FieldConverter::from_list(items),
            Err(e) => Err(e),
        }
    }
}

/// What the first entry named `key` decodes to as a converter, if there is one.
#[verifier::opaque]
pub open spec fn field_converter_entry(items: Seq<NestedMetaModel>, key: Seq<char>) -> Option<
    Result<FieldConverterModel, Seq<ErrorModel>>,
> {
    match first_entry(items, key) {
        Some(m) => Some(field_converter_from_meta(m)),
        None => None,
    }
}

/// Decodes the first entry named `key` as a converter: the value, if it
/// decoded, and else the errors, located under the key.
pub(crate) fn field_converter_slot(
    items: &Vec<NestedMeta>,
    key: &str,
) -> (r: (Option<FieldConverter>, Vec<Error>))
    ensures
        r.0.deep_view() == slot_value(field_converter_entry(items.deep_view(), key@)),
        r.1.deep_view() == slot_errors(field_converter_entry(items.deep_view(), key@), key@),
{
    proof {
        reveal(field_converter_entry);
    }
    let decoded = match find(items, key) {
        Some(m) => Some(FieldConverter::from_meta(m)),
        None => None,
    };
    part(decoded, key, Ghost(field_converter_entry(items.deep_view(), key@)))
}

/// A converter that fails to decode fails with at least one error.
pub proof fn lemma_field_converter_failure(m: MetaModel)
    ensures
        field_converter_from_meta(m) matches Err(e) ==> e.len() > 0,
{
}

} // verus!
