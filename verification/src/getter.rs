//! Getters: what the annotations say about them.

use crate::decode::{
    add_failures, collect, collected, find, first_entry, key_index, lemma_collected_covers,
    no_failures, part, slot_errors, slot_value, Scheme,
};
use crate::error::{
    agrees, fail, only, Error, ErrorKind, ErrorKindModel, ErrorModel, Format, Keys,
};
use crate::keys::key_names;
use crate::meta::{Lit, LitModel, Meta, MetaModel, NestedMeta, NestedMetaModel, Value, ValueModel};
use crate::style::{
    field_converter_entry, field_converter_from_meta, field_converter_slot,
    lemma_field_converter_failure, style_entry, style_slot, FieldConverter, FieldConverterModel,
    Style,
};
use crate::reader::{generics_of, parse_generics};
use crate::text::join;
use crate::values::{
    flag_entry, flag_slot, group_items, items_of, leaf_entry, leaf_slot, Leaf,
};
use vstd::prelude::*;

verus! {

/// Generic parameters of one generated method, as they stand behind its
/// name; `None` where it has none.
#[derive(Clone, Debug, PartialEq, Eq)]
pub struct FieldLevelBound {
    pub bound: Option<String>,
}

/// Mathematical form of [`FieldLevelBound`].
pub ghost struct FieldLevelBoundModel {
    pub bound: Option<Seq<char>>,
}

impl DeepView for FieldLevelBound {
    type V = FieldLevelBoundModel;

    open spec fn deep_view(&self) -> FieldLevelBoundModel {
        FieldLevelBoundModel { bound: self.bound.deep_view() }
    }
}

/// The parameters that an entry stands for: its text, set between `<` and
/// `>` and read as a generic parameter list; none for the empty text.
pub open spec fn method_bound_from_meta(
    m: MetaModel,
) -> Result<FieldLevelBoundModel, Seq<ErrorModel>> {
    match m.value {
        ValueModel::Word => Err(only(ErrorKindModel::UnexpectedFormat(Format::Word))),
        ValueModel::List(_) => Err(only(ErrorKindModel::UnexpectedFormat(Format::List))),
        ValueModel::NameValue(LitModel::Str(s)) => if s.len() == 0 {
            Ok(FieldLevelBoundModel { bound: None })
        } else {
            match generics_of("<"@ + s + ">"@) {
                Ok(g) => Ok(FieldLevelBoundModel { bound: Some(g.params) }),
                Err(message) => Err(only(ErrorKindModel::Syntax(message))),
            }
        },
        ValueModel::NameValue(_) => Err(only(ErrorKindModel::ExpectedStringLiteral)),
    }
}

impl FieldLevelBound {
    /// Decodes the generic parameters of a method.
    pub fn from_meta(m: &Meta) -> (r: Result<FieldLevelBound, Vec<Error>>)
        ensures
            agrees(r, method_bound_from_meta(m.deep_view())),
    {
        match &m.value {
            Value::Word => Err(fail(ErrorKind::UnexpectedFormat(Format::Word))),
            Value::List(_) => Err(fail(ErrorKind::UnexpectedFormat(Format::List))),
            Value::NameValue(Lit::Str(s)) => {
                if s.as_str().is_empty() {
                    Ok(FieldLevelBound { bound: None })
                } else {
                    let list = join(join("<", s.as_str()).as_str(), ">");
                    match parse_generics(list.as_str()) {
                        Ok(g) => Ok(FieldLevelBound { bound: Some(g.params) }),
                        Err(message) => Err(fail(ErrorKind::Syntax(message))),
                    }
                }
            },
            Value::NameValue(_) => Err(fail(ErrorKind::ExpectedStringLiteral)),
        }
    }
}

/// What the first entry named `key` decodes to as the generic parameters of a
/// method, if there is one.
#[verifier::opaque]
pub open spec fn method_bound_entry(items: Seq<NestedMetaModel>, key: Seq<char>) -> Option<
    Result<FieldLevelBoundModel, Seq<ErrorModel>>,
> {
    match first_entry(items, key) {
        Some(m) => Some(method_bound_from_meta(m)),
        None => None,
    }
}

/// Decodes the first entry named `key` as the generic parameters of a method: the value, if it
/// decoded, and else the errors, located under the key.
pub(crate) fn method_bound_slot(
    items: &Vec<NestedMeta>,
    key: &str,
) -> (r: (Option<FieldLevelBound>, Vec<Error>))
    ensures
        r.0.deep_view() == slot_value(method_bound_entry(items.deep_view(), key@)),
        r.1.deep_view() == slot_errors(method_bound_entry(items.deep_view(), key@), key@),
{
    proof {
        reveal(method_bound_entry);
    }
    let decoded = match find(items, key) {
        Some(m) => Some(FieldLevelBound::from_meta(m)),
        None => None,
    };
    part(decoded, key, Ghost(method_bound_entry(items.deep_view(), key@)))
}

/// What a getter returns in place of the field itself.
#[derive(Clone, Debug, PartialEq, Eq)]
pub struct AccessorConverter {
    /// The type returned, if not the field's.
    pub ty: Option<String>,
    /// How the field's value becomes what is returned.
    pub converter: FieldConverter,
    /// Generic parameters of the getter itself.
    pub bound: FieldLevelBound,
}

/// Mathematical form of [`AccessorConverter`].
pub ghost struct AccessorConverterModel {
    pub ty: Option<Seq<char>>,
    pub converter: FieldConverterModel,
    pub bound: FieldLevelBoundModel,
}

impl DeepView for AccessorConverter {
    type V = AccessorConverterModel;

    open spec fn deep_view(&self) -> AccessorConverterModel {
        AccessorConverterModel {
            ty: self.ty.deep_view(),
            converter: self.converter.deep_view(),
            bound: self.bound.deep_view(),
        }
    }
}

/// The accessor that a list of items stands for: keys `type`, `converter`
/// and `bound`, of which `converter` must be given.
pub open spec fn accessor_converter_from_list(items: Seq<NestedMetaModel>) -> Result<
    AccessorConverterModel,
    Seq<ErrorModel>,
> {
    let ty = leaf_entry(Leaf::Type, items, "type"@);
    let converter = field_converter_entry(items, "converter"@);
    let bound = method_bound_entry(items, "bound"@);
    let given = collected(
        items,
        Scheme {
            keys: key_names(Keys::Accessor),
            among: Keys::Accessor,
            failures: seq![
                slot_errors(ty, "type"@),
                slot_errors(converter, "converter"@),
                slot_errors(bound, "bound"@),
            ],
        },
        items.len(),
    );
    let errors = if converter is None {
        given + only(ErrorKindModel::MissingField("converter"@))
    } else {
        given
    };
    if errors.len() > 0 {
        Err(errors)
    } else {
        Ok(
            AccessorConverterModel {
                ty: slot_value(ty),
                converter: slot_value(converter)->0,
                bound: match slot_value(bound) {
                    Some(v) => v,
                    None => FieldLevelBoundModel { bound: None },
                },
            },
        )
    }
}

/// An accessor that decodes without errors has its converter.
pub proof fn lemma_accessor_has_converter(items: Seq<NestedMetaModel>)
    ensures
        accessor_converter_from_list(items) is Ok ==> slot_value(
            field_converter_entry(items, "converter"@),
        ) is Some,
{
    reveal(field_converter_entry);
    reveal_strlit("type");
    reveal_strlit("converter");
    reveal_strlit("bound");
    let converter = field_converter_entry(items, "converter"@);
    let scheme = Scheme {
        keys: key_names(Keys::Accessor),
        among: Keys::Accessor,
        failures: seq![
            slot_errors(leaf_entry(Leaf::Type, items, "type"@), "type"@),
            slot_errors(converter, "converter"@),
            slot_errors(method_bound_entry(items, "bound"@), "bound"@),
        ],
    };
    if accessor_converter_from_list(items) is Ok {
        match first_entry(items, "converter"@) {
            None => {},
            Some(m) => {
                lemma_field_converter_failure(m);
                assert("type"@ != "converter"@) by {
                    assert("type"@.len() == 4);
                    assert("converter"@.len() == 9);
                }
                assert(scheme.keys.len() == 3);
                assert(scheme.keys[0] == "type"@);
                assert(scheme.keys[1] == "converter"@);
                assert(key_index(scheme.keys, "converter"@, 0) is None);
                assert(key_index(scheme.keys, "converter"@, 1) is None);
                assert(key_index(scheme.keys, "converter"@, 2) == Some(1int));
                assert(key_index(scheme.keys, "converter"@, 3) == Some(1int));
                lemma_collected_covers(items, scheme, "converter"@, 1, items.len());
                match field_converter_from_meta(m) {
                    Ok(_) => {},
                    Err(e) => {
                        assert(slot_errors(converter, "converter"@).len() == e.len());
                    },
                }
            },
        }
    }
}

/// The same, of the entry whose list the items are.
pub open spec fn accessor_converter_from_meta(m: MetaModel) -> Result<
    AccessorConverterModel,
    Seq<ErrorModel>,
> {
    match group_items(m) {
        Ok(items) => accessor_converter_from_list(items),
        Err(e) => Err(e),
    }
}

impl AccessorConverter {
    /// Decodes the items of a list.
    pub fn from_list(items: &Vec<NestedMeta>) -> (r: Result<AccessorConverter, Vec<Error>>)
        ensures
            agrees(r, accessor_converter_from_list(items.deep_view())),
    {
        let missing = find(items, "converter").is_none();
        proof {
            reveal(field_converter_entry);
        }
        let (ty, ty_errors) = leaf_slot(Leaf::Type, items, "type");
        let (converter, converter_errors) = field_converter_slot(items, "converter");
        let (bound, bound_errors) = method_bound_slot(items, "bound");
        let mut failures = no_failures();
        add_failures(&mut failures, ty_errors);
        add_failures(&mut failures, converter_errors);
        add_failures(&mut failures, bound_errors);
        let keys = Keys::Accessor.names();
        assert(failures.deep_view() == seq![
            slot_errors(leaf_entry(Leaf::Type, items.deep_view(), "type"@), "type"@),
            slot_errors(field_converter_entry(items.deep_view(), "converter"@), "converter"@),
            slot_errors(method_bound_entry(items.deep_view(), "bound"@), "bound"@),
        ]);
        let mut errors = collect(items, &keys, Keys::Accessor, failures);
        if missing {
            let ghost given = errors.deep_view();
            let mut more = fail(ErrorKind::MissingField(crate::text::owned("converter")));
            let ghost added = more.deep_view();
            errors.append(&mut more);
            assert(errors.deep_view() =~= given + added);
        }
        if errors.len() > 0 {
            return Err(errors);
        }
        proof {
            lemma_accessor_has_converter(items.deep_view());
        }
        match converter {
            Some(c) => Ok(
                AccessorConverter {
                    ty,
                    converter: c,
                    bound: match bound {
                        Some(v) => v,
                        None => FieldLevelBound { bound: None },
                    },
                },
            ),
            None => Err(errors),
        }
    }

    /// Decodes an entry.
    pub fn from_meta(m: &Meta) -> (r: Result<AccessorConverter, Vec<Error>>)
        ensures
            agrees(r, accessor_converter_from_meta(m.deep_view())),
    {
        match items_of(m) {
            Ok(items) => AccessorConverter::from_list(items),
            Err(e) => Err(e),
        }
    }
}

/// What the first entry named `key` decodes to as an accessor, if there is one.
#[verifier::opaque]
pub open spec fn accessor_converter_entry(items: Seq<NestedMetaModel>, key: Seq<char>) -> Option<
    Result<AccessorConverterModel, Seq<ErrorModel>>,
> {
    match first_entry(items, key) {
        Some(m) => Some(accessor_converter_from_meta(m)),
        None => None,
    }
}

/// Decodes the first entry named `key` as an accessor: the value, if it
/// decoded, and else the errors, located under the key.
pub(crate) fn accessor_converter_slot(
    items: &Vec<NestedMeta>,
    key: &str,
) -> (r: (Option<AccessorConverter>, Vec<Error>))
    ensures
        r.0.deep_view() == slot_value(accessor_converter_entry(items.deep_view(), key@)),
        r.1.deep_view() == slot_errors(accessor_converter_entry(items.deep_view(), key@), key@),
{
    proof {
        reveal(accessor_converter_entry);
    }
    let decoded = match find(items, key) {
        Some(m) => Some(AccessorConverter::from_meta(m)),
        None => None,
    };
    part(decoded, key, Ghost(accessor_converter_entry(items.deep_view(), key@)))
}

/// What one field says about its getter.
#[derive(Clone, Debug, PartialEq, Eq)]
pub struct FieldLevelGetter {
    /// The getter's name, if not the usual one.
    pub rename: Option<String>,
    /// How the getter hands the value out, if not as the derived type says.
    pub style: Option<Style>,
    /// Whether the field gets no getter.
    pub ignore: bool,
    /// The getter's visibility, if not the usual one.
    pub vis: Option<String>,
    /// What the getter returns, if not the field itself.
    pub result: Option<AccessorConverter>,
}

/// Mathematical form of [`FieldLevelGetter`].
pub ghost struct FieldLevelGetterModel {
    pub rename: Option<Seq<char>>,
    pub style: Option<Style>,
    pub ignore: bool,
    pub vis: Option<Seq<char>>,
    pub result: Option<AccessorConverterModel>,
}

impl DeepView for FieldLevelGetter {
    type V = FieldLevelGetterModel;

    open spec fn deep_view(&self) -> FieldLevelGetterModel {
        FieldLevelGetterModel {
            rename: self.rename.deep_view(),
            style: self.style,
            ignore: self.ignore,
            vis: self.vis.deep_view(),
            result: self.result.deep_view(),
        }
    }
}

/// The getter options that a list of items stands for: keys `rename`,
/// `style`, `skip`, `vis` and `result`.
pub open spec fn field_level_getter_from_list(items: Seq<NestedMetaModel>) -> Result<
    FieldLevelGetterModel,
    Seq<ErrorModel>,
> {
    let rename = leaf_entry(Leaf::Ident, items, "rename"@);
    let style = style_entry(items, "style"@);
    let ignore = flag_entry(items, "skip"@);
    let vis = leaf_entry(Leaf::Visibility, items, "vis"@);
    let result = accessor_converter_entry(items, "result"@);
    let errors = collected(
        items,
        Scheme {
            keys: key_names(Keys::FieldGetter),
            among: Keys::FieldGetter,
            failures: seq![
                slot_errors(rename, "rename"@),
                slot_errors(style, "style"@),
                slot_errors(ignore, "skip"@),
                slot_errors(vis, "vis"@),
                slot_errors(result, "result"@),
            ],
        },
        items.len(),
    );
    if errors.len() > 0 {
        Err(errors)
    } else {
        Ok(
            FieldLevelGetterModel {
                rename: slot_value(rename),
                style: slot_value(style),
                ignore: match slot_value(ignore) {
                    Some(v) => v,
                    None => false,
                },
                vis: slot_value(vis),
                result: slot_value(result),
            },
        )
    }
}

/// The same, of the entry whose list the items are.
pub open spec fn field_level_getter_from_meta(m: MetaModel) -> Result<
    FieldLevelGetterModel,
    Seq<ErrorModel>,
> {
    match group_items(m) {
        Ok(items) => field_level_getter_from_list(items),
        Err(e) => Err(e),
    }
}

impl FieldLevelGetter {
    /// Decodes the items of a list.
    pub fn from_list(items: &Vec<NestedMeta>) -> (r: Result<FieldLevelGetter, Vec<Error>>)
        ensures
            agrees(r, field_level_getter_from_list(items.deep_view())),
    {
        let (rename, rename_errors) = leaf_slot(Leaf::Ident, items, "rename");
        let (style, style_errors) = style_slot(items, "style");
        let (ignore, ignore_errors) = flag_slot(items, "skip");
        let (vis, vis_errors) = leaf_slot(Leaf::Visibility, items, "vis");
        let (result, result_errors) = accessor_converter_slot(items, "result");
        let mut failures = no_failures();
        add_failures(&mut failures, rename_errors);
        add_failures(&mut failures, style_errors);
        add_failures(&mut failures, ignore_errors);
        add_failures(&mut failures, vis_errors);
        add_failures(&mut failures, result_errors);
        let keys = Keys::FieldGetter.names();
        assert(failures.deep_view() == seq![
            slot_errors(leaf_entry(Leaf::Ident, items.deep_view(), "rename"@), "rename"@),
            slot_errors(style_entry(items.deep_view(), "style"@), "style"@),
            slot_errors(flag_entry(items.deep_view(), "skip"@), "skip"@),
            slot_errors(leaf_entry(Leaf::Visibility, items.deep_view(), "vis"@), "vis"@),
            slot_errors(accessor_converter_entry(items.deep_view(), "result"@), "result"@),
        ]);
        let errors = collect(items, &keys, Keys::FieldGetter, failures);
        if errors.len() > 0 {
            Err(errors)
        } else {
            Ok(
                FieldLevelGetter {
                    rename,
                    style,
                    ignore: match ignore {
                        Some(v) => v,
                        None => false,
                    },
                    vis,
                    result,
                },
            )
        }
    }

    /// Decodes an entry.
    pub fn from_meta(m: &Meta) -> (r: Result<FieldLevelGetter, Vec<Error>>)
        ensures
            agrees(r, field_level_getter_from_meta(m.deep_view())),
    {
        match items_of(m) {
            Ok(items) => FieldLevelGetter::from_list(items),
            Err(e) => Err(e),
        }
    }
}

/// What the first entry named `key` decodes to as getter options of a field, if there is one.
#[verifier::opaque]
pub open spec fn field_level_getter_entry(items: Seq<NestedMetaModel>, key: Seq<char>) -> Option<
    Result<FieldLevelGetterModel, Seq<ErrorModel>>,
> {
    match first_entry(items, key) {
        Some(m) => Some(field_level_getter_from_meta(m)),
        None => None,
    }
}

/// Decodes the first entry named `key` as getter options of a field: the value, if it
/// decoded, and else the errors, located under the key.
pub(crate) fn field_level_getter_slot(items: &Vec<NestedMeta>, key: &str) -> (r: (
    Option<FieldLevelGetter>,
    Vec<Error>,
))
    ensures
        r.0.deep_view() == slot_value(field_level_getter_entry(items.deep_view(), key@)),
        r.1.deep_view() == slot_errors(field_level_getter_entry(items.deep_view(), key@), key@),
{
    proof {
        reveal(field_level_getter_entry);
    }
    let decoded = match find(items, key) {
        Some(m) => Some(FieldLevelGetter::from_meta(m)),
        None => None,
    };
    part(decoded, key, Ghost(field_level_getter_entry(items.deep_view(), key@)))
}

/// What a derived type says about the getters of all its fields.
#[derive(Clone, Debug, PartialEq, Eq)]
pub struct StructLevelGetter {
    /// What stands before each field's name in its getter's name.
    pub prefix: Option<String>,
    /// How getters hand the value out.
    pub style: Style,
    /// Whether the derived type gets no getters at all.
    pub ignore: bool,
    /// The visibility of every getter.
    pub vis_all: Option<String>,
}

/// Mathematical form of [`StructLevelGetter`].
pub ghost struct StructLevelGetterModel {
    pub prefix: Option<Seq<char>>,
    pub style: Style,
    pub ignore: bool,
    pub vis_all: Option<Seq<char>>,
}

impl DeepView for StructLevelGetter {
    type V = StructLevelGetterModel;

    open spec fn deep_view(&self) -> StructLevelGetterModel {
        StructLevelGetterModel {
            prefix: self.prefix.deep_view(),
            style: self.style,
            ignore: self.ignore,
            vis_all: self.vis_all.deep_view(),
        }
    }
}

/// The getter policy that a list of items stands for: keys `prefix`,
/// `style`, `skip` and `vis_all`. Without `style` getters hand out references.
pub open spec fn struct_level_getter_from_list(items: Seq<NestedMetaModel>) -> Result<
    StructLevelGetterModel,
    Seq<ErrorModel>,
> {
    let prefix = leaf_entry(Leaf::Ident, items, "prefix"@);
    let style = style_entry(items, "style"@);
    let ignore = flag_entry(items, "skip"@);
    let vis_all = leaf_entry(Leaf::Visibility, items, "vis_all"@);
    let errors = collected(
        items,
        Scheme {
            keys: key_names(Keys::StructGetter),
            among: Keys::StructGetter,
            failures: seq![
                slot_errors(prefix, "prefix"@),
                slot_errors(style, "style"@),
                slot_errors(ignore, "skip"@),
                slot_errors(vis_all, "vis_all"@),
            ],
        },
        items.len(),
    );
    if errors.len() > 0 {
        Err(errors)
    } else {
        Ok(
            StructLevelGetterModel {
                prefix: slot_value(prefix),
                style: match slot_value(style) {
                    Some(v) => v,
                    None => Style::Ref,
                },
                ignore: match slot_value(ignore) {
                    Some(v) => v,
                    None => false,
                },
                vis_all: slot_value(vis_all),
            },
        )
    }
}

/// The same, of the entry whose list the items are.
pub open spec fn struct_level_getter_from_meta(m: MetaModel) -> Result<
    StructLevelGetterModel,
    Seq<ErrorModel>,
> {
    match group_items(m) {
        Ok(items) => struct_level_getter_from_list(items),
        Err(e) => Err(e),
    }
}

impl StructLevelGetter {
    /// Decodes the items of a list.
    pub fn from_list(items: &Vec<NestedMeta>) -> (r: Result<StructLevelGetter, Vec<Error>>)
        ensures
            agrees(r, struct_level_getter_from_list(items.deep_view())),
    {
        let (prefix, prefix_errors) = leaf_slot(Leaf::Ident, items, "prefix");
        let (style, style_errors) = style_slot(items, "style");
        let (ignore, ignore_errors) = flag_slot(items, "skip");
        let (vis_all, vis_all_errors) = leaf_slot(Leaf::Visibility, items, "vis_all");
        let mut failures = no_failures();
        add_failures(&mut failures, prefix_errors);
        add_failures(&mut failures, style_errors);
        add_failures(&mut failures, ignore_errors);
        add_failures(&mut failures, vis_all_errors);
        let keys = Keys::StructGetter.names();
        assert(failures.deep_view() == seq![
            slot_errors(leaf_entry(Leaf::Ident, items.deep_view(), "prefix"@), "prefix"@),
            slot_errors(style_entry(items.deep_view(), "style"@), "style"@),
            slot_errors(flag_entry(items.deep_view(), "skip"@), "skip"@),
            slot_errors(leaf_entry(Leaf::Visibility, items.deep_view(), "vis_all"@), "vis_all"@),
        ]);
        let errors = collect(items, &keys, Keys::StructGetter, failures);
        if errors.len() > 0 {
            Err(errors)
        } else {
            Ok(
                StructLevelGetter {
                    prefix,
                    style: match style {
                        Some(v) => v,
                        None => Style::Ref,
                    },
                    ignore: match ignore {
                        Some(v) => v,
                        None => false,
                    },
                    vis_all,
                },
            )
        }
    }

    /// Decodes an entry.
    pub fn from_meta(m: &Meta) -> (r: Result<StructLevelGetter, Vec<Error>>)
        ensures
            agrees(r, struct_level_getter_from_meta(m.deep_view())),
    {
        match items_of(m) {
            Ok(items) => StructLevelGetter::from_list(items),
            Err(e) => Err(e),
        }
    }
}

/// What the first entry named `key` decodes to as the getter policy of a
/// derived type, if there is one.
#[verifier::opaque]
pub open spec fn struct_level_getter_entry(items: Seq<NestedMetaModel>, key: Seq<char>) -> Option<
    Result<StructLevelGetterModel, Seq<ErrorModel>>,
> {
    match first_entry(items, key) {
        Some(m) => Some(struct_level_getter_from_meta(m)),
        None => None,
    }
}

/// Decodes the first entry named `key` as the getter policy of a derived type: the value, if it
/// decoded, and else the errors, located under the key.
pub(crate) fn struct_level_getter_slot(items: &Vec<NestedMeta>, key: &str) -> (r: (
    Option<StructLevelGetter>,
    Vec<Error>,
))
    ensures
        r.0.deep_view() == slot_value(struct_level_getter_entry(items.deep_view(), key@)),
        r.1.deep_view() == slot_errors(struct_level_getter_entry(items.deep_view(), key@), key@),
{
    proof {
        reveal(struct_level_getter_entry);
    }
    let decoded = match find(items, key) {
        Some(m) => Some(StructLevelGetter::from_meta(m)),
        None => None,
    };
    part(decoded, key, Ghost(struct_level_getter_entry(items.deep_view(), key@)))
}

impl Default for FieldLevelGetter {
    /// A field that says nothing about its getter.
    fn default() -> (r: FieldLevelGetter)
        ensures
            r.deep_view() == default_field_getter(),
    {
        FieldLevelGetter { rename: None, style: None, ignore: false, vis: None, result: None }
    }
}

impl Default for StructLevelGetter {
    /// A derived type that says nothing about its getters: they hand out
    /// references.
    fn default() -> (r: StructLevelGetter)
        ensures
            r.deep_view() == default_struct_getter(),
    {
        StructLevelGetter { prefix: None, style: Style::Ref, ignore: false, vis_all: None }
    }
}

/// The getter options of a field that gives none.
pub open spec fn default_field_getter() -> FieldLevelGetterModel {
    FieldLevelGetterModel { rename: None, style: None, ignore: false, vis: None, result: None }
}

/// The getter policy of a derived type that gives none.
pub open spec fn default_struct_getter() -> StructLevelGetterModel {
    StructLevelGetterModel { prefix: None, style: Style::Ref, ignore: false, vis_all: None }
}

impl FieldLevelGetter {
    /// Whether these are the getter options of a field that gives none.
    pub fn is_default(&self) -> (r: bool)
        ensures
            r == (self.deep_view() == default_field_getter()),
    {
        self.rename.is_none() && self.style.is_none() && !self.ignore && self.vis.is_none()
            && self.result.is_none()
    }
}

} // verus!
