//! What the annotations say about a derived type as a whole.

use crate::blocks::{extra_field_block_from_list, ExtraFieldBlock, ExtraFieldBlockModel};
use crate::decode::{
    add_failures, collect, collect_first, collected, find, first_entry, first_failure,
    no_errors, no_failures, part, slot_errors, slot_value, Scheme,
};
use crate::entries::{distinct_keys, index_of, insert, lemma_put, put};
use crate::error::{
    agrees, fail, only, Error, ErrorKind, ErrorKindModel, ErrorModel, Format, Keys,
};
use crate::field::{ExtraField, ExtraFieldModel};
use crate::getter::{default_field_getter, FieldLevelGetter};
use crate::meta::{lemma_items_model, Lit, LitModel, Value, ValueModel};
use crate::setter::{default_field_setter, FieldLevelSetter};
use crate::source::{
    annotated_fields_of, AnnotatedField, AnnotatedFieldModel, Annotation, AnnotationModel,
};
use crate::syntax::{FieldSyntax, FieldSyntaxModel};
use crate::text::{
    decimal, decimal_text, find_char, first_of, join, last_of, rfind_char, slice,
};
use crate::keys::{key_names, no_words};
use crate::meta::{Meta, MetaModel, NestedMeta, NestedMetaModel};
use crate::style::{style_entry, style_slot, Style};
use crate::reader::{
    attribute_of, named_fields_of, parse_attribute, parse_named_fields, parse_unnamed_fields,
    unnamed_fields_of,
};
use crate::values::{
    flag_entry, flag_slot, group_items, items_of, leaf_entry, leaf_slot, text_entry, text_slot,
    Leaf,
};
use vstd::prelude::*;

verus! {

/// A fallible conversion of the whole type: its style and its error type.
#[derive(Clone, Debug, PartialEq, Eq)]
pub struct Try {
    /// How the value to convert is taken.
    pub style: Style,
    /// The error type; a boxed error where none is given.
    pub error: Option<String>,
}

/// Mathematical form of [`Try`].
pub ghost struct TryModel {
    pub style: Style,
    pub error: Option<Seq<char>>,
}

impl DeepView for Try {
    type V = TryModel;

    open spec fn deep_view(&self) -> TryModel {
        TryModel {
            style: self.style,
            error: self.error.deep_view(),
        }
    }
}

/// The fallible conversion that a list of items stands for: keys `style`
/// and `error`. Without `style` it moves.
pub open spec fn try_from_list(items: Seq<NestedMetaModel>) -> Result<
    TryModel,
    Seq<ErrorModel>,
> {
    let style = style_entry(items, "style"@);
    let error = leaf_entry(Leaf::Type, items, "error"@);
    let errors = collected(
        items,
        Scheme {
            keys: key_names(Keys::Try),
            among: Keys::Try,
            failures: seq![
                slot_errors(style, "style"@),
                slot_errors(error, "error"@),
            ],
        },
        items.len(),
    );
    if errors.len() > 0 {
        Err(errors)
    } else {
        Ok(
            TryModel {
                style: match slot_value(style) {
                    Some(v) => v,
                    None => Style::Move,
                },
                error: slot_value(error),
            },
        )
    }
}

/// The same, of the entry whose list the items are.
pub open spec fn try_from_meta(m: MetaModel) -> Result<TryModel, Seq<ErrorModel>> {
    match group_items(m) {
        Ok(items) => try_from_list(items),
        Err(e) => Err(e),
    }
}

impl Try {
    /// Decodes the items of a list.
    pub fn from_list(items: &Vec<NestedMeta>) -> (r: Result<Try, Vec<Error>>)
        ensures
            agrees(r, try_from_list(items.deep_view())),
    {
        let (style, style_errors) = style_slot(items, "style");
        let (error, error_errors) = leaf_slot(Leaf::Type, items, "error");
        let mut failures = no_failures();
        add_failures(&mut failures, style_errors);
        add_failures(&mut failures, error_errors);
        let keys = Keys::Try.names();
        assert(failures.deep_view() == seq![
            slot_errors(style_entry(items.deep_view(), "style"@), "style"@),
            slot_errors(leaf_entry(Leaf::Type, items.deep_view(), "error"@), "error"@),
        ]);
        let errors = collect(items, &keys, Keys::Try, failures);
        if errors.len() > 0 {
            Err(errors)
        } else {
            Ok(
                Try {
                    style: match style {
                        Some(v) => v,
                        None => Style::Move,
                    },
                    error,
                },
            )
        }
    }

    /// Decodes an entry.
    pub fn from_meta(m: &Meta) -> (r: Result<Try, Vec<Error>>)
        ensures
            agrees(r, try_from_meta(m.deep_view())),
    {
        match items_of(m) {
            Ok(items) => Try::from_list(items),
            Err(e) => Err(e),
        }
    }
}

/// What the first entry named `key` decodes to as a fallible conversion, if there is one.
#[verifier::opaque]
pub open spec fn try_entry(items: Seq<NestedMetaModel>, key: Seq<char>) -> Option<
    Result<TryModel, Seq<ErrorModel>>,
> {
    match first_entry(items, key) {
        Some(m) => Some(try_from_meta(m)),
        None => None,
    }
}

/// Decodes the first entry named `key` as a fallible conversion: the value, if it
/// decoded, and else the errors, located under the key.
pub(crate) fn try_slot(items: &Vec<NestedMeta>, key: &str) -> (r: (Option<Try>, Vec<Error>))
    ensures
        r.0.deep_view() == slot_value(try_entry(items.deep_view(), key@)),
        r.1.deep_view() == slot_errors(try_entry(items.deep_view(), key@), key@),
{
    proof {
        reveal(try_entry);
    }
    let decoded = match find(items, key) {
        Some(m) => Some(Try::from_meta(m)),
        None => None,
    };
    part(decoded, key, Ghost(try_entry(items.deep_view(), key@)))
}

/// Which conversions a derived type gets: from the original type and back
/// into it, each plain or fallible.
#[derive(Clone, Debug, PartialEq, Eq)]
pub struct Converter {
    pub try_from: Option<Try>,
    pub try_into: Option<Try>,
    pub from: Option<Style>,
    pub into: Option<Style>,
}

/// Mathematical form of [`Converter`].
pub ghost struct ConverterModel {
    pub try_from: Option<TryModel>,
    pub try_into: Option<TryModel>,
    pub from: Option<Style>,
    pub into: Option<Style>,
}

impl DeepView for Converter {
    type V = ConverterModel;

    open spec fn deep_view(&self) -> ConverterModel {
        ConverterModel {
            try_from: self.try_from.deep_view(),
            try_into: self.try_into.deep_view(),
            from: self.from,
            into: self.into,
        }
    }
}

/// The conversions that a list of items stands for: keys `try_from`,
/// `try_into`, `from` and `into`. A direction that is not named gets none.
pub open spec fn converter_from_list(items: Seq<NestedMetaModel>) -> Result<
    ConverterModel,
    Seq<ErrorModel>,
> {
    let try_from = try_entry(items, "try_from"@);
    let try_into = try_entry(items, "try_into"@);
    let from = style_entry(items, "from"@);
    let into = style_entry(items, "into"@);
    let errors = collected(
        items,
        Scheme {
            keys: key_names(Keys::Converter),
            among: Keys::Converter,
            failures: seq![
                slot_errors(try_from, "try_from"@),
                slot_errors(try_into, "try_into"@),
                slot_errors(from, "from"@),
                slot_errors(into, "into"@),
            ],
        },
        items.len(),
    );
    if errors.len() > 0 {
        Err(errors)
    } else {
        Ok(
            ConverterModel {
                try_from: slot_value(try_from),
                try_into: slot_value(try_into),
                from: slot_value(from),
                into: slot_value(into),
            },
        )
    }
}

/// The same, of the entry whose list the items are.
pub open spec fn converter_from_meta(m: MetaModel) -> Result<ConverterModel, Seq<ErrorModel>> {
    match group_items(m) {
        Ok(items) => converter_from_list(items),
        Err(e) => Err(e),
    }
}

impl Converter {
    /// Decodes the items of a list.
    pub fn from_list(items: &Vec<NestedMeta>) -> (r: Result<Converter, Vec<Error>>)
        ensures
            agrees(r, converter_from_list(items.deep_view())),
    {
        let (try_from, try_from_errors) = try_slot(items, "try_from");
        let (try_into, try_into_errors) = try_slot(items, "try_into");
        let (from, from_errors) = style_slot(items, "from");
        let (into, into_errors) = style_slot(items, "into");
        let mut failures = no_failures();
        add_failures(&mut failures, try_from_errors);
        add_failures(&mut failures, try_into_errors);
        add_failures(&mut failures, from_errors);
        add_failures(&mut failures, into_errors);
        let keys = Keys::Converter.names();
        assert(failures.deep_view() == seq![
            slot_errors(try_entry(items.deep_view(), "try_from"@), "try_from"@),
            slot_errors(try_entry(items.deep_view(), "try_into"@), "try_into"@),
            slot_errors(style_entry(items.deep_view(), "from"@), "from"@),
            slot_errors(style_entry(items.deep_view(), "into"@), "into"@),
        ]);
        let errors = collect(items, &keys, Keys::Converter, failures);
        if errors.len() > 0 {
            Err(errors)
        } else {
            Ok(
                Converter {
                    try_from,
                    try_into,
                    from,
                    into,
                },
            )
        }
    }

    /// Decodes an entry.
    pub fn from_meta(m: &Meta) -> (r: Result<Converter, Vec<Error>>)
        ensures
            agrees(r, converter_from_meta(m.deep_view())),
    {
        match items_of(m) {
            Ok(items) => Converter::from_list(items),
            Err(e) => Err(e),
        }
    }
}

/// What the first entry named `key` decodes to as the conversions of a derived
/// type, if there is one.
#[verifier::opaque]
pub open spec fn converter_entry(items: Seq<NestedMetaModel>, key: Seq<char>) -> Option<
    Result<ConverterModel, Seq<ErrorModel>>,
> {
    match first_entry(items, key) {
        Some(m) => Some(converter_from_meta(m)),
        None => None,
    }
}

/// Decodes the first entry named `key` as the conversions of a derived type: the value, if it
/// decoded, and else the errors, located under the key.
pub(crate) fn converter_slot(
    items: &Vec<NestedMeta>,
    key: &str,
) -> (r: (Option<Converter>, Vec<Error>))
    ensures
        r.0.deep_view() == slot_value(converter_entry(items.deep_view(), key@)),
        r.1.deep_view() == slot_errors(converter_entry(items.deep_view(), key@), key@),
{
    proof {
        reveal(converter_entry);
    }
    let decoded = match find(items, key) {
        Some(m) => Some(Converter::from_meta(m)),
        None => None,
    };
    part(decoded, key, Ghost(converter_entry(items.deep_view(), key@)))
}

/// How a derived type gets its generic parameters.
#[derive(Clone, Debug, PartialEq, Eq)]
pub struct Bound {
    /// Whether the original type's parameters are taken over.
    pub inherit: bool,
    /// Parameters of the derived type's own, as they stand between `<` and `>`.
    pub extra: Option<String>,
}

/// Mathematical form of [`Bound`].
pub ghost struct BoundModel {
    pub inherit: bool,
    pub extra: Option<Seq<char>>,
}

impl DeepView for Bound {
    type V = BoundModel;

    open spec fn deep_view(&self) -> BoundModel {
        BoundModel {
            inherit: self.inherit,
            extra: self.extra.deep_view(),
        }
    }
}

/// The bound policy that a list of items stands for: keys `inherit` and
/// `extra`.
pub open spec fn bound_from_list(items: Seq<NestedMetaModel>) -> Result<
    BoundModel,
    Seq<ErrorModel>,
> {
    let inherit = flag_entry(items, "inherit"@);
    let extra = text_entry(items, "extra"@);
    let errors = collected(
        items,
        Scheme {
            keys: key_names(Keys::Bound),
            among: Keys::Bound,
            failures: seq![
                slot_errors(inherit, "inherit"@),
                slot_errors(extra, "extra"@),
            ],
        },
        items.len(),
    );
    if errors.len() > 0 {
        Err(errors)
    } else {
        Ok(
            BoundModel {
                inherit: match slot_value(inherit) {
                    Some(v) => v,
                    None => false,
                },
                extra: slot_value(extra),
            },
        )
    }
}

/// The same, of the entry whose list the items are.
pub open spec fn bound_from_meta(m: MetaModel) -> Result<BoundModel, Seq<ErrorModel>> {
    match group_items(m) {
        Ok(items) => bound_from_list(items),
        Err(e) => Err(e),
    }
}

impl Bound {
    /// Decodes the items of a list.
    pub fn from_list(items: &Vec<NestedMeta>) -> (r: Result<Bound, Vec<Error>>)
        ensures
            agrees(r, bound_from_list(items.deep_view())),
    {
        let (inherit, inherit_errors) = flag_slot(items, "inherit");
        let (extra, extra_errors) = text_slot(items, "extra");
        let mut failures = no_failures();
        add_failures(&mut failures, inherit_errors);
        add_failures(&mut failures, extra_errors);
        let keys = Keys::Bound.names();
        assert(failures.deep_view() == seq![
            slot_errors(flag_entry(items.deep_view(), "inherit"@), "inherit"@),
            slot_errors(text_entry(items.deep_view(), "extra"@), "extra"@),
        ]);
        let errors = collect(items, &keys, Keys::Bound, failures);
        if errors.len() > 0 {
            Err(errors)
        } else {
            Ok(
                Bound {
                    inherit: match inherit {
                        Some(v) => v,
                        None => false,
                    },
                    extra,
                },
            )
        }
    }

    /// Decodes an entry.
    pub fn from_meta(m: &Meta) -> (r: Result<Bound, Vec<Error>>)
        ensures
            agrees(r, bound_from_meta(m.deep_view())),
    {
        match items_of(m) {
            Ok(items) => Bound::from_list(items),
            Err(e) => Err(e),
        }
    }
}

/// What the first entry named `key` decodes to as a bound policy, if there is one.
#[verifier::opaque]
pub open spec fn bound_entry(items: Seq<NestedMetaModel>, key: Seq<char>) -> Option<
    Result<BoundModel, Seq<ErrorModel>>,
> {
    match first_entry(items, key) {
        Some(m) => Some(bound_from_meta(m)),
        None => None,
    }
}

/// Decodes the first entry named `key` as a bound policy: the value, if it
/// decoded, and else the errors, located under the key.
pub(crate) fn bound_slot(items: &Vec<NestedMeta>, key: &str) -> (r: (Option<Bound>, Vec<Error>))
    ensures
        r.0.deep_view() == slot_value(bound_entry(items.deep_view(), key@)),
        r.1.deep_view() == slot_errors(bound_entry(items.deep_view(), key@), key@),
{
    proof {
        reveal(bound_entry);
    }
    let decoded = match find(items, key) {
        Some(m) => Some(Bound::from_meta(m)),
        None => None,
    };
    part(decoded, key, Ghost(bound_entry(items.deep_view(), key@)))
}

impl Default for Converter {
    /// The conversions of a derived type that names none: plain ones, both
    /// ways, moving.
    fn default() -> (r: Converter)
        ensures
            r.deep_view() == default_converter(),
    {
        Converter {
            try_from: None,
            try_into: None,
            from: Some(Style::Move),
            into: Some(Style::Move),
        }
    }
}

/// The conversions of a derived type that names none.
pub open spec fn default_converter() -> ConverterModel {
    ConverterModel {
        try_from: None,
        try_into: None,
        from: Some(Style::Move),
        into: Some(Style::Move),
    }
}

/// The attribute that an item is made into: the item between `#[` and `]`.
pub open spec fn attribute_text(item: NestedMetaModel) -> Seq<char> {
    "#["@ + item.tokens + "]"@
}

/// The attributes that the first `n` items stand for, or the message of
/// the first that is no attribute.
pub open spec fn attributes_within(items: Seq<NestedMetaModel>, n: nat) -> Result<
    Seq<Seq<char>>,
    Seq<ErrorModel>,
>
    decreases n,
{
    if n == 0 || n > items.len() {
        Ok(Seq::empty())
    } else {
        match attributes_within(items, (n - 1) as nat) {
            Err(e) => Err(e),
            Ok(before) => match attribute_of(attribute_text(items[n - 1])) {
                Ok(attribute) => Ok(before.push(attribute.tokens)),
                Err(message) => Err(only(ErrorKindModel::Syntax(message))),
            },
        }
    }
}

/// The raw attributes that a list of items stands for: each item is one
/// attribute, passed on as written.
pub open spec fn attributes_from_list(items: Seq<NestedMetaModel>) -> Result<
    Seq<Seq<char>>,
    Seq<ErrorModel>,
> {
    attributes_within(items, items.len())
}

/// The same, of the entry whose list the items are.
pub open spec fn attributes_from_meta(m: MetaModel) -> Result<Seq<Seq<char>>, Seq<ErrorModel>> {
    match group_items(m) {
        Ok(items) => attributes_from_list(items),
        Err(e) => Err(e),
    }
}

/// Once an item was no attribute, the outcome is settled.
pub proof fn lemma_attributes_within_err(items: Seq<NestedMetaModel>, n: nat, m: nat)
    requires
        n <= m <= items.len(),
        attributes_within(items, n) is Err,
    ensures
        attributes_within(items, m) == attributes_within(items, n),
    decreases m,
{
    if n < m {
        lemma_attributes_within_err(items, n, (m - 1) as nat);
    }
}

/// Decodes raw attributes from the items of their list.
pub fn attributes_of_list(items: &Vec<NestedMeta>) -> (r: Result<Vec<String>, Vec<Error>>)
    ensures
        agrees(r, attributes_from_list(items.deep_view())),
{
    let mut attributes = no_words();
    let n = items.len();
    let mut i: usize = 0;
    while i < n
        invariant
            i <= n,
            n == items.len(),
            attributes_within(items.deep_view(), i as nat) == Ok::<
                Seq<Seq<char>>,
                Seq<ErrorModel>,
            >(attributes.deep_view()),
        decreases n - i,
    {
        let written = join(join("#[", items[i].tokens.as_str()).as_str(), "]");
        match parse_attribute(written.as_str()) {
            Ok(attribute) => {
                let ghost before = attributes.deep_view();
                attributes.push(attribute.tokens);
                assert(attributes.deep_view() =~= before.push(attribute.tokens@));
            },
            Err(message) => {
                proof {
                    lemma_attributes_within_err(items.deep_view(), i as nat + 1, n as nat);
                }
                return Err(fail(ErrorKind::Syntax(message)));
            },
        }
        i += 1;
    }
    Ok(attributes)
}

/// Decodes raw attributes.
pub fn attributes_of(m: &Meta) -> (r: Result<Vec<String>, Vec<Error>>)
    ensures
        agrees(r, attributes_from_meta(m.deep_view())),
{
    match items_of(m) {
        Ok(items) => attributes_of_list(items),
        Err(e) => Err(e),
    }
}

/// What the first entry named `key` decodes to as raw attributes, if there is one.
#[verifier::opaque]
pub open spec fn attributes_entry(items: Seq<NestedMetaModel>, key: Seq<char>) -> Option<
    Result<Seq<Seq<char>>, Seq<ErrorModel>>,
> {
    match first_entry(items, key) {
        Some(m) => Some(attributes_from_meta(m)),
        None => None,
    }
}

/// Decodes the first entry named `key` as raw attributes: the value, if it
/// decoded, and else the errors, located under the key.
pub(crate) fn attributes_slot(
    items: &Vec<NestedMeta>,
    key: &str,
) -> (r: (Option<Vec<String>>, Vec<Error>))
    ensures
        r.0.deep_view() == slot_value(attributes_entry(items.deep_view(), key@)),
        r.1.deep_view() == slot_errors(attributes_entry(items.deep_view(), key@), key@),
{
    proof {
        reveal(attributes_entry);
    }
    let decoded = match find(items, key) {
        Some(m) => Some(attributes_of(m)),
        None => None,
    };
    part(decoded, key, Ghost(attributes_entry(items.deep_view(), key@)))
}

/// The name under which a field is kept: its own, or its position written
/// in decimal.
pub open spec fn field_key(name: Option<Seq<char>>, position: nat) -> Seq<char> {
    match name {
        Some(n) => n,
        None => decimal(position),
    }
}

/// The name under which a field is kept.
pub fn key_of(name: &Option<String>, position: usize) -> (r: String)
    ensures
        r@ == field_key(name.deep_view(), position as nat),
{
    match name {
        Some(n) => n.clone(),
        None => decimal_text(position),
    }
}

/// The token text of the first `n` items, set in a row with commas.
pub open spec fn row(items: Seq<NestedMetaModel>, n: nat) -> Seq<char>
    decreases n,
{
    if n == 0 || n > items.len() {
        Seq::empty()
    } else if n == 1 {
        items[0].tokens
    } else {
        row(items, (n - 1) as nat) + " , "@ + items[n - 1].tokens
    }
}

/// The text in which an entry holds a field list: that of its string
/// literal, or the token text of its list.
pub open spec fn field_list_text(m: MetaModel) -> Result<Seq<char>, Seq<ErrorModel>> {
    match m.value {
        ValueModel::Word => Err(only(ErrorKindModel::UnexpectedFormat(Format::Path))),
        ValueModel::List(items) => Ok(row(items, items.len())),
        ValueModel::NameValue(LitModel::Str(s)) => Ok(s),
        ValueModel::NameValue(_) => Err(only(ErrorKindModel::ExpectedStringLiteral)),
    }
}

/// The field list written in `raw`: what stands from the first `{` to the
/// last `}`, read as named fields or else, with parentheses in place of
/// the two braces, as positional ones. The flag says whether the fields
/// are named.
pub open spec fn field_list_of(raw: Seq<char>) -> Result<
    (bool, Seq<FieldSyntaxModel>),
    Seq<ErrorModel>,
> {
    match first_of(raw, '{') {
        None => Err(only(ErrorKindModel::ExpectedLeftBrace)),
        Some(start) => match last_of(raw, '}') {
            None => Err(only(ErrorKindModel::ExpectedRightBrace)),
            Some(end) => if end < start {
                Err(only(ErrorKindModel::ExtraFieldsSyntax))
            } else {
                let list = raw.subrange(start, end + 1);
                match named_fields_of(list) {
                    Some(fields) => Ok((true, fields)),
                    None => match unnamed_fields_of(
                        "("@ + raw.subrange(start + 1, end) + ")"@,
                    ) {
                        Some(fields) => Ok((false, fields)),
                        None => Err(only(ErrorKindModel::ExtraFieldsSyntax)),
                    },
                }
            },
        },
    }
}

/// The extra field that a field of the list is, with what one of its
/// annotation blocks says.
pub open spec fn extra_field_from_block(
    field: AnnotatedFieldModel,
    named: bool,
    block: ExtraFieldBlockModel,
) -> ExtraFieldModel {
    ExtraFieldModel {
        name: field.name,
        src_ty: field.ty,
        src_vis: field.vis,
        vis: block.vis,
        getter: match block.getter {
            Some(g) => g,
            None => default_field_getter(),
        },
        setter: match block.setter {
            Some(s) => s,
            None => default_field_setter(),
        },
        default: block.default,
        attributes: match block.attributes {
            Some(a) => a,
            None => Seq::empty(),
        },
        named,
    }
}

/// The extra field that a field of the list is when it has no annotation.
pub open spec fn plain_extra_field(field: AnnotatedFieldModel, named: bool) -> ExtraFieldModel {
    extra_field_from_block(
        field,
        named,
        ExtraFieldBlockModel {
            default: None,
            getter: None,
            setter: None,
            vis: None,
            attributes: None,
        },
    )
}

/// The extra fields after the first `n` annotations of `field` have been
/// taken in: each block puts the field anew under its key.
pub open spec fn extra_annotated(
    fields: Seq<(Seq<char>, ExtraFieldModel)>,
    field: AnnotatedFieldModel,
    named: bool,
    key: Seq<char>,
    n: nat,
) -> Result<Seq<(Seq<char>, ExtraFieldModel)>, Seq<ErrorModel>>
    decreases n,
{
    if n == 0 || n > field.annotations.len() {
        Ok(fields)
    } else {
        match extra_annotated(fields, field, named, key, (n - 1) as nat) {
            Err(e) => Err(e),
            Ok(before) => match field.annotations[n - 1] {
                AnnotationModel::Silent => Ok(before),
                AnnotationModel::Broken(e) => Err(e),
                AnnotationModel::Block(items) => match extra_field_block_from_list(items) {
                    Err(e) => Err(e),
                    Ok(block) => Ok(put(before, key, extra_field_from_block(field, named, block))),
                },
            },
        }
    }
}

/// The extra fields after the field at `position` has been taken in: with
/// its annotations, or plain where it has none and its key is free.
pub open spec fn extra_field_added(
    fields: Seq<(Seq<char>, ExtraFieldModel)>,
    field: AnnotatedFieldModel,
    named: bool,
    position: nat,
) -> Result<Seq<(Seq<char>, ExtraFieldModel)>, Seq<ErrorModel>> {
    let key = field_key(field.name, position);
    match extra_annotated(fields, field, named, key, field.annotations.len()) {
        Err(e) => Err(e),
        Ok(after) => if index_of(after, key) is Some {
            Ok(after)
        } else {
            Ok(put(after, key, plain_extra_field(field, named)))
        },
    }
}

/// The extra fields that the first `n` fields of a field list give.
pub open spec fn extra_fields_within(list: Seq<AnnotatedFieldModel>, named: bool, n: nat) -> Result<
    Seq<(Seq<char>, ExtraFieldModel)>,
    Seq<ErrorModel>,
>
    decreases n,
{
    if n == 0 || n > list.len() {
        Ok(Seq::empty())
    } else {
        match extra_fields_within(list, named, (n - 1) as nat) {
            Err(e) => Err(e),
            Ok(before) => extra_field_added(before, list[n - 1], named, (n - 1) as nat),
        }
    }
}

/// The extra fields that a field list gives, keyed by name or position,
/// in the order of the list.
pub open spec fn extra_fields(list: Seq<AnnotatedFieldModel>, named: bool) -> Result<
    Seq<(Seq<char>, ExtraFieldModel)>,
    Seq<ErrorModel>,
> {
    extra_fields_within(list, named, list.len())
}

/// The field list that an entry holds.
pub open spec fn field_list_from_meta(m: MetaModel) -> Result<
    (bool, Seq<FieldSyntaxModel>),
    Seq<ErrorModel>,
> {
    match field_list_text(m) {
        Err(e) => Err(e),
        Ok(raw) => field_list_of(raw),
    }
}

/// What a derived type has beyond the fields of the original type.
#[derive(Clone, Debug, PartialEq, Eq)]
pub struct Extra {
    /// Attributes to put on every field of the derived type.
    pub attributes: Vec<String>,
    /// The extra fields, each under its name or position.
    pub fields: Vec<(String, ExtraField)>,
}

/// Mathematical form of [`Extra`].
pub ghost struct ExtraModel {
    pub attributes: Seq<Seq<char>>,
    pub fields: Seq<(Seq<char>, ExtraFieldModel)>,
}

impl DeepView for Extra {
    type V = ExtraModel;

    open spec fn deep_view(&self) -> ExtraModel {
        ExtraModel { attributes: self.attributes.deep_view(), fields: self.fields.deep_view() }
    }
}

/// What a key's first entry failed with, as it is.
pub open spec fn raw_errors<T>(decoded: Option<Result<T, Seq<ErrorModel>>>) -> Seq<ErrorModel> {
    match decoded {
        Some(Err(e)) => e,
        _ => Seq::empty(),
    }
}

/// The extras that a list of items stands for: keys `field_attributes`
/// and `fields`. The first item that is wrong decides the failure; the
/// annotations inside the field list are looked at once the items are
/// all right.
pub open spec fn extra_from_list(items: Seq<NestedMetaModel>) -> Result<
    ExtraModel,
    Seq<ErrorModel>,
> {
    let attributes = attributes_entry(items, "field_attributes"@);
    let fields = match first_entry(items, "fields"@) {
        Some(m) => Some(field_list_from_meta(m)),
        None => None,
    };
    let errors = first_failure(
        items,
        Scheme {
            keys: key_names(Keys::Extra),
            among: Keys::Extra,
            failures: seq![slot_errors(attributes, "field_attributes"@), raw_errors(fields)],
        },
        items.len(),
    );
    let shared = match slot_value(attributes) {
        Some(a) => a,
        None => Seq::empty(),
    };
    if errors.len() > 0 {
        Err(errors)
    } else {
        match slot_value(fields) {
            None => Ok(ExtraModel { attributes: shared, fields: Seq::empty() }),
            Some(list) => match extra_fields(annotated_fields_of(list.1), list.0) {
                Err(e) => Err(e),
                Ok(made) => Ok(ExtraModel { attributes: shared, fields: made }),
            },
        }
    }
}

/// The same, of the entry whose list the items are.
pub open spec fn extra_from_meta(m: MetaModel) -> Result<ExtraModel, Seq<ErrorModel>> {
    match group_items(m) {
        Ok(items) => extra_from_list(items),
        Err(e) => Err(e),
    }
}

/// The token text of a list of items, set in a row with commas.
fn row_text(items: &Vec<NestedMeta>) -> (r: String)
    ensures
        r@ == row(items.deep_view(), items.len() as nat),
{
    let mut r = String::new();
    let n = items.len();
    let mut i: usize = 0;
    while i < n
        invariant
            i <= n,
            n == items.len(),
            r@ == row(items.deep_view(), i as nat),
        decreases n - i,
    {
        let ghost before = r@;
        if i > 0 {
            r.append(" , ");
        }
        r.append(items[i].tokens.as_str());
        proof {
            if i == 0 {
                assert(r@ =~= items.deep_view()[0].tokens);
            } else {
                assert(r@ =~= before + " , "@ + items.deep_view()[i as int].tokens);
            }
        }
        i += 1;
    }
    r
}

/// The text in which an entry holds a field list.
fn field_list_text_of(m: &Meta) -> (r: Result<String, Vec<Error>>)
    ensures
        agrees(r, field_list_text(m.deep_view())),
{
    match &m.value {
        Value::Word => Err(fail(ErrorKind::UnexpectedFormat(Format::Path))),
        Value::List(items) => {
            proof {
                lemma_items_model(*items);
            }
            Ok(row_text(items))
        },
        Value::NameValue(Lit::Str(s)) => Ok(s.clone()),
        Value::NameValue(_) => Err(fail(ErrorKind::ExpectedStringLiteral)),
    }
}

/// Reads the field list written in a text: what stands from the first `{`
/// to the last `}`, as named fields or else, with parentheses in place of
/// the two braces, as positional ones.
pub fn parse_fields(raw: &str) -> (r: Result<(bool, Vec<FieldSyntax>), Vec<Error>>)
    ensures
        match r {
            Ok(list) => field_list_of(raw@) == Ok::<(bool, Seq<FieldSyntaxModel>), Seq<ErrorModel>>(
                (list.0, list.1.deep_view()),
            ),
            Err(e) => field_list_of(raw@) == Err::<(bool, Seq<FieldSyntaxModel>), Seq<ErrorModel>>(
                e.deep_view(),
            ),
        },
{
    let n = raw.unicode_len();
    let start = match find_char(raw, '{') {
        Some(start) => start,
        None => {
            return Err(fail(ErrorKind::ExpectedLeftBrace));
        },
    };
    let end = match rfind_char(raw, '}') {
        Some(end) => end,
        None => {
            return Err(fail(ErrorKind::ExpectedRightBrace));
        },
    };
    if end < start {
        return Err(fail(ErrorKind::ExtraFieldsSyntax));
    }
    let list = slice(raw, start, end + 1);
    match parse_named_fields(list.as_str()) {
        Some(fields) => Ok((true, fields)),
        None => {
            let inner = slice(raw, start + 1, end);
            let tuple = join(join("(", inner.as_str()).as_str(), ")");
            match parse_unnamed_fields(tuple.as_str()) {
                Some(fields) => Ok((false, fields)),
                None => Err(fail(ErrorKind::ExtraFieldsSyntax)),
            }
        },
    }
}

/// The extra field that a field of the list is, with what one of its
/// annotation blocks says.
fn extra_field(field: &AnnotatedField, named: bool, block: ExtraFieldBlock) -> (r: ExtraField)
    ensures
        r.deep_view() == extra_field_from_block(field.deep_view(), named, block.deep_view()),
{
    ExtraField {
        name: field.name.clone(),
        src_ty: field.ty.clone(),
        src_vis: field.vis.clone(),
        vis: block.vis,
        getter: match block.getter {
            Some(g) => g,
            None => FieldLevelGetter::default(),
        },
        setter: match block.setter {
            Some(s) => s,
            None => FieldLevelSetter::default(),
        },
        default: block.default,
        attributes: match block.attributes {
            Some(a) => a,
            None => no_words(),
        },
        named,
    }
}

/// Once an annotation has failed, the outcome is settled.
pub proof fn lemma_extra_annotated_err(
    fields: Seq<(Seq<char>, ExtraFieldModel)>,
    field: AnnotatedFieldModel,
    named: bool,
    key: Seq<char>,
    n: nat,
    m: nat,
)
    requires
        n <= m <= field.annotations.len(),
        extra_annotated(fields, field, named, key, n) is Err,
    ensures
        extra_annotated(fields, field, named, key, m) == extra_annotated(
            fields,
            field,
            named,
            key,
            n,
        ),
    decreases m,
{
    if n < m {
        lemma_extra_annotated_err(fields, field, named, key, n, (m - 1) as nat);
    }
}

/// Once a field has failed, the outcome is settled.
pub proof fn lemma_extra_fields_within_err(
    list: Seq<AnnotatedFieldModel>,
    named: bool,
    n: nat,
    m: nat,
)
    requires
        n <= m <= list.len(),
        extra_fields_within(list, named, n) is Err,
    ensures
        extra_fields_within(list, named, m) == extra_fields_within(list, named, n),
    decreases m,
{
    if n < m {
        lemma_extra_fields_within_err(list, named, n, (m - 1) as nat);
    }
}

/// Takes the field at `position` of a field list into the extra fields.
fn add_extra_field(
    fields: &mut Vec<(String, ExtraField)>,
    field: &AnnotatedField,
    named: bool,
    position: usize,
) -> (r: Result<(), Vec<Error>>)
    ensures
        match r {
            Ok(_) => extra_field_added(
                old(fields).deep_view(),
                field.deep_view(),
                named,
                position as nat,
            ) == Ok::<Seq<(Seq<char>, ExtraFieldModel)>, Seq<ErrorModel>>(
                final(fields).deep_view(),
            ),
            Err(e) => extra_field_added(
                old(fields).deep_view(),
                field.deep_view(),
                named,
                position as nat,
            ) == Err::<Seq<(Seq<char>, ExtraFieldModel)>, Seq<ErrorModel>>(e.deep_view()),
        },
{
    let ghost before = fields.deep_view();
    let key = key_of(&field.name, position);
    let n = field.annotations.len();
    let mut j: usize = 0;
    while j < n
        invariant
            j <= n,
            n == field.annotations.len(),
            key@ == field_key(field.deep_view().name, position as nat),
            before == old(fields).deep_view(),
            extra_annotated(before, field.deep_view(), named, key@, j as nat) == Ok::<
                Seq<(Seq<char>, ExtraFieldModel)>,
                Seq<ErrorModel>,
            >(fields.deep_view()),
        decreases n - j,
    {
        match &field.annotations[j] {
            Annotation::Silent => {},
            Annotation::Broken(e) => {
                proof {
                    lemma_extra_annotated_err(
                        before,
                        field.deep_view(),
                        named,
                        key@,
                        j as nat + 1,
                        n as nat,
                    );
                }
                return Err(crate::error::copy_errors(e));
            },
            Annotation::Block(items) => match ExtraFieldBlock::from_list(items) {
                Err(e) => {
                    proof {
                        lemma_extra_annotated_err(
                            before,
                            field.deep_view(),
                            named,
                            key@,
                            j as nat + 1,
                            n as nat,
                        );
                    }
                    return Err(e);
                },
                Ok(block) => {
                    insert(fields, key.clone(), extra_field(field, named, block));
                },
            },
        }
        j += 1;
    }
    if crate::entries::position(fields, key.as_str()).is_none() {
        let blank = ExtraFieldBlock {
            default: None,
            getter: None,
            setter: None,
            vis: None,
            attributes: None,
        };
        insert(fields, key, extra_field(field, named, blank));
    }
    Ok(())
}

/// The extra fields that a field list gives, keyed by name or position,
/// in the order of the list.
pub fn extra_fields_of(list: &Vec<AnnotatedField>, named: bool) -> (r: Result<
    Vec<(String, ExtraField)>,
    Vec<Error>,
>)
    ensures
        agrees(r, extra_fields(list.deep_view(), named)),
{
    let mut fields: Vec<(String, ExtraField)> = Vec::new();
    assert(fields.deep_view() =~= Seq::<(Seq<char>, ExtraFieldModel)>::empty());
    let n = list.len();
    let mut i: usize = 0;
    while i < n
        invariant
            i <= n,
            n == list.len(),
            extra_fields_within(list.deep_view(), named, i as nat) == Ok::<
                Seq<(Seq<char>, ExtraFieldModel)>,
                Seq<ErrorModel>,
            >(fields.deep_view()),
        decreases n - i,
    {
        match add_extra_field(&mut fields, &list[i], named, i) {
            Ok(_) => {},
            Err(e) => {
                proof {
                    lemma_extra_fields_within_err(list.deep_view(), named, i as nat + 1, n as nat);
                }
                return Err(e);
            },
        }
        i += 1;
    }
    Ok(fields)
}

/// Reads the field list that an entry holds.
fn field_list_of_meta(m: &Meta) -> (r: Result<(bool, Vec<FieldSyntax>), Vec<Error>>)
    ensures
        match r {
            Ok(list) => field_list_from_meta(m.deep_view()) == Ok::<
                (bool, Seq<FieldSyntaxModel>),
                Seq<ErrorModel>,
            >((list.0, list.1.deep_view())),
            Err(e) => field_list_from_meta(m.deep_view()) == Err::<
                (bool, Seq<FieldSyntaxModel>),
                Seq<ErrorModel>,
            >(e.deep_view()),
        },
{
    match field_list_text_of(m) {
        Ok(raw) => parse_fields(raw.as_str()),
        Err(e) => Err(e),
    }
}

impl Extra {
    /// Decodes the items of a list.
    pub fn from_list(items: &Vec<NestedMeta>) -> (r: Result<Extra, Vec<Error>>)
        ensures
            agrees(r, extra_from_list(items.deep_view())),
    {
        let (attributes, attributes_errors) = attributes_slot(items, "field_attributes");
        let fields = match find(items, "fields") {
            Some(m) => Some(field_list_of_meta(m)),
            None => None,
        };
        let ghost fields_model = match first_entry(items.deep_view(), "fields"@) {
            Some(m) => Some(field_list_from_meta(m)),
            None => None,
        };
        let (fields, fields_errors) = match fields {
            Some(Ok(f)) => (Some(f), no_errors()),
            Some(Err(e)) => (None, e),
            None => (None, no_errors()),
        };
        let mut failures = no_failures();
        add_failures(&mut failures, attributes_errors);
        add_failures(&mut failures, fields_errors);
        let keys = Keys::Extra.names();
        assert(failures.deep_view() == seq![
            slot_errors(
                attributes_entry(items.deep_view(), "field_attributes"@),
                "field_attributes"@,
            ),
            raw_errors(fields_model),
        ]);
        let errors = collect_first(items, &keys, Keys::Extra, failures);
        if errors.len() > 0 {
            return Err(errors);
        }
        let attributes = match attributes {
            Some(a) => a,
            None => no_words(),
        };
        match fields {
            None => {
                let fields: Vec<(String, ExtraField)> = Vec::new();
                assert(fields.deep_view() =~= Seq::<(Seq<char>, ExtraFieldModel)>::empty());
                Ok(Extra { attributes, fields })
            },
            Some((named, list)) => match extra_fields_of(&AnnotatedField::read_all(&list), named) {
                Err(e) => Err(e),
                Ok(fields) => Ok(Extra { attributes, fields }),
            },
        }
    }

    /// Decodes an entry.
    pub fn from_meta(m: &Meta) -> (r: Result<Extra, Vec<Error>>)
        ensures
            agrees(r, extra_from_meta(m.deep_view())),
    {
        match items_of(m) {
            Ok(items) => Extra::from_list(items),
            Err(e) => Err(e),
        }
    }
}

/// What the first entry named `key` decodes to as the extras of a derived type, if there is one.
#[verifier::opaque]
pub open spec fn extra_entry(items: Seq<NestedMetaModel>, key: Seq<char>) -> Option<
    Result<ExtraModel, Seq<ErrorModel>>,
> {
    match first_entry(items, key) {
        Some(m) => Some(extra_from_meta(m)),
        None => None,
    }
}

/// Decodes the first entry named `key` as the extras of a derived type: the value, if it
/// decoded, and else the errors, located under the key.
pub(crate) fn extra_slot(items: &Vec<NestedMeta>, key: &str) -> (r: (Option<Extra>, Vec<Error>))
    ensures
        r.0.deep_view() == slot_value(extra_entry(items.deep_view(), key@)),
        r.1.deep_view() == slot_errors(extra_entry(items.deep_view(), key@), key@),
{
    proof {
        reveal(extra_entry);
    }
    let decoded = match find(items, key) {
        Some(m) => Some(Extra::from_meta(m)),
        None => None,
    };
    part(decoded, key, Ghost(extra_entry(items.deep_view(), key@)))
}

/// Taking the annotations of a field in keeps the keys of the extra
/// fields distinct.
pub proof fn lemma_extra_annotated_distinct(
    fields: Seq<(Seq<char>, ExtraFieldModel)>,
    field: AnnotatedFieldModel,
    named: bool,
    key: Seq<char>,
    n: nat,
)
    requires
        n <= field.annotations.len(),
        distinct_keys(fields),
    ensures
        extra_annotated(fields, field, named, key, n) matches Ok(after) ==> distinct_keys(after),
    decreases n,
{
    if n > 0 {
        lemma_extra_annotated_distinct(fields, field, named, key, (n - 1) as nat);
        match extra_annotated(fields, field, named, key, (n - 1) as nat) {
            Err(_) => {},
            Ok(before) => match field.annotations[n - 1] {
                AnnotationModel::Block(items) => match extra_field_block_from_list(items) {
                    Ok(block) => {
                        lemma_put(before, key, extra_field_from_block(field, named, block));
                    },
                    Err(_) => {},
                },
                _ => {},
            },
        }
    }
}

/// No two extra fields stand under the same key: of two fields of a list
/// with the same name, the later takes the place of the earlier.
pub proof fn lemma_extra_fields_distinct(list: Seq<AnnotatedFieldModel>, named: bool, n: nat)
    requires
        n <= list.len(),
    ensures
        extra_fields_within(list, named, n) matches Ok(fields) ==> distinct_keys(fields),
    decreases n,
{
    if n > 0 {
        lemma_extra_fields_distinct(list, named, (n - 1) as nat);
        match extra_fields_within(list, named, (n - 1) as nat) {
            Err(_) => {},
            Ok(before) => {
                let field = list[n - 1];
                let key = field_key(field.name, (n - 1) as nat);
                lemma_extra_annotated_distinct(before, field, named, key, field.annotations.len());
                match extra_annotated(before, field, named, key, field.annotations.len()) {
                    Err(_) => {},
                    Ok(after) => {
                        lemma_put(after, key, plain_extra_field(field, named));
                    },
                }
            },
        }
    }
}

} // verus!
