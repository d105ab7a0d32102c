//! Annotation blocks, decoded as written.
//!
//! A block is the list of one annotation. There are three kinds: on the
//! original type, on one of its fields, and on an extra field. Each is
//! decoded key by key; the first item that is wrong ends the decoding.

use crate::decode::{
    add_failures, collect_first, first_failure, no_failures, slot_errors, slot_value, Scheme,
};
use crate::error::{agrees, fail, only, Error, ErrorKind, ErrorKindModel, ErrorModel, Keys};
use crate::field::{skip_entry, skip_slot, FieldLevelSkip, FieldLevelSkipModel};
use crate::getter::{
    field_level_getter_entry, field_level_getter_slot, struct_level_getter_entry,
    struct_level_getter_slot, FieldLevelGetter, FieldLevelGetterModel, StructLevelGetter,
    StructLevelGetterModel,
};
use crate::keys::{key_names, push_word};
use crate::meta::{NestedMeta, NestedMetaModel};
use crate::setter::{
    field_level_setter_entry, field_level_setter_slot, struct_level_setter_entry,
    struct_level_setter_slot, FieldLevelSetter, FieldLevelSetterModel, StructLevelSetter,
    StructLevelSetterModel,
};
use crate::structure::{
    attributes_entry, attributes_slot, bound_entry, bound_slot, converter_entry, converter_slot,
    extra_entry, extra_slot, Bound, BoundModel, Converter, ConverterModel, Extra, ExtraModel,
};
use crate::style::{
    field_converter_entry, field_converter_slot, FieldConverter, FieldConverterModel,
};
use crate::text::owned;
use crate::values::{leaf_entry, leaf_slot, Leaf};
use vstd::prelude::*;

verus! {

/// One annotation block on an extra field, as written: under each key
/// what the block gives for it, and `None` where it does not give the key.
#[derive(Clone, Debug, PartialEq, Eq)]
pub struct ExtraFieldBlock {
    pub default: Option<String>,
    pub getter: Option<FieldLevelGetter>,
    pub setter: Option<FieldLevelSetter>,
    pub vis: Option<String>,
    pub attributes: Option<Vec<String>>,
}

/// Mathematical form of [`ExtraFieldBlock`].
pub ghost struct ExtraFieldBlockModel {
    pub default: Option<Seq<char>>,
    pub getter: Option<FieldLevelGetterModel>,
    pub setter: Option<FieldLevelSetterModel>,
    pub vis: Option<Seq<char>>,
    pub attributes: Option<Seq<Seq<char>>>,
}

impl DeepView for ExtraFieldBlock {
    type V = ExtraFieldBlockModel;

    open spec fn deep_view(&self) -> ExtraFieldBlockModel {
        ExtraFieldBlockModel {
            default: self.default.deep_view(),
            getter: self.getter.deep_view(),
            setter: self.setter.deep_view(),
            vis: self.vis.deep_view(),
            attributes: self.attributes.deep_view(),
        }
    }
}

/// The block that a list of items stands for: keys `default`, `getter`,
/// `setter`, `vis` and `attributes`. The first item that is wrong decides
/// the failure; a key that only fields of the original type take is wrong.
pub open spec fn extra_field_block_from_list(items: Seq<NestedMetaModel>) -> Result<
    ExtraFieldBlockModel,
    Seq<ErrorModel>,
> {
    let default = leaf_entry(Leaf::Path, items, "default"@);
    let getter = field_level_getter_entry(items, "getter"@);
    let setter = field_level_setter_entry(items, "setter"@);
    let vis = leaf_entry(Leaf::Visibility, items, "vis"@);
    let attributes = attributes_entry(items, "attributes"@);
    let errors = first_failure(
        items,
        Scheme {
            keys: key_names(Keys::ExtraFieldBlock)
                .push("skip"@)
                .push("type"@)
                .push("rename"@)
                .push("parent"@)
                .push("from"@)
                .push("into"@),
            among: Keys::ExtraFieldBlock,
            failures: seq![
                slot_errors(default, "default"@),
                slot_errors(getter, "getter"@),
                slot_errors(setter, "setter"@),
                slot_errors(vis, "vis"@),
                slot_errors(attributes, "attributes"@),
                only(ErrorKindModel::ExtraFieldKey("skip"@)),
                only(ErrorKindModel::ExtraFieldKey("type"@)),
                only(ErrorKindModel::ExtraFieldKey("rename"@)),
                only(ErrorKindModel::ExtraFieldKey("parent"@)),
                only(ErrorKindModel::ExtraFieldKey("from"@)),
                only(ErrorKindModel::ExtraFieldKey("into"@)),
            ],
        },
        items.len(),
    );
    if errors.len() > 0 {
        Err(errors)
    } else {
        Ok(
            ExtraFieldBlockModel {
                default: slot_value(default),
                getter: slot_value(getter),
                setter: slot_value(setter),
                vis: slot_value(vis),
                attributes: slot_value(attributes),
            },
        )
    }
}

impl ExtraFieldBlock {
    /// Decodes the items of a list.
    pub fn from_list(items: &Vec<NestedMeta>) -> (r: Result<ExtraFieldBlock, Vec<Error>>)
        ensures
            agrees(r, extra_field_block_from_list(items.deep_view())),
    {
        let (default, default_errors) = leaf_slot(Leaf::Path, items, "default");
        let (getter, getter_errors) = field_level_getter_slot(items, "getter");
        let (setter, setter_errors) = field_level_setter_slot(items, "setter");
        let (vis, vis_errors) = leaf_slot(Leaf::Visibility, items, "vis");
        let (attributes, attributes_errors) = attributes_slot(items, "attributes");
        let mut failures = no_failures();
        add_failures(&mut failures, default_errors);
        add_failures(&mut failures, getter_errors);
        add_failures(&mut failures, setter_errors);
        add_failures(&mut failures, vis_errors);
        add_failures(&mut failures, attributes_errors);
        add_failures(&mut failures, fail(ErrorKind::ExtraFieldKey(owned("skip"))));
        add_failures(&mut failures, fail(ErrorKind::ExtraFieldKey(owned("type"))));
        add_failures(&mut failures, fail(ErrorKind::ExtraFieldKey(owned("rename"))));
        add_failures(&mut failures, fail(ErrorKind::ExtraFieldKey(owned("parent"))));
        add_failures(&mut failures, fail(ErrorKind::ExtraFieldKey(owned("from"))));
        add_failures(&mut failures, fail(ErrorKind::ExtraFieldKey(owned("into"))));
        let mut keys = Keys::ExtraFieldBlock.names();
        push_word(&mut keys, "skip");
        push_word(&mut keys, "type");
        push_word(&mut keys, "rename");
        push_word(&mut keys, "parent");
        push_word(&mut keys, "from");
        push_word(&mut keys, "into");
        assert(failures.deep_view() == seq![
            slot_errors(leaf_entry(Leaf::Path, items.deep_view(), "default"@), "default"@),
            slot_errors(field_level_getter_entry(items.deep_view(), "getter"@), "getter"@),
            slot_errors(field_level_setter_entry(items.deep_view(), "setter"@), "setter"@),
            slot_errors(leaf_entry(Leaf::Visibility, items.deep_view(), "vis"@), "vis"@),
            slot_errors(attributes_entry(items.deep_view(), "attributes"@), "attributes"@),
            only(ErrorKindModel::ExtraFieldKey("skip"@)),
            only(ErrorKindModel::ExtraFieldKey("type"@)),
            only(ErrorKindModel::ExtraFieldKey("rename"@)),
            only(ErrorKindModel::ExtraFieldKey("parent"@)),
            only(ErrorKindModel::ExtraFieldKey("from"@)),
            only(ErrorKindModel::ExtraFieldKey("into"@)),
        ]);
        let errors = collect_first(items, &keys, Keys::ExtraFieldBlock, failures);
        if errors.len() > 0 {
            Err(errors)
        } else {
            Ok(
                ExtraFieldBlock {
                    default,
                    getter,
                    setter,
                    vis,
                    attributes,
                },
            )
        }
    }
}

/// One annotation block on a field of the original type, as written:
/// under each key what the block gives for it, and `None` where it does
/// not give the key.
#[derive(Clone, Debug, PartialEq, Eq)]
pub struct FieldBlock {
    pub skip: Option<FieldLevelSkip>,
    pub typ: Option<String>,
    pub rename: Option<String>,
    pub parent: Option<String>,
    pub from: Option<FieldConverter>,
    pub into: Option<FieldConverter>,
    pub getter: Option<FieldLevelGetter>,
    pub setter: Option<FieldLevelSetter>,
    pub vis: Option<String>,
    pub attributes: Option<Vec<String>>,
}

/// Mathematical form of [`FieldBlock`].
pub ghost struct FieldBlockModel {
    pub skip: Option<FieldLevelSkipModel>,
    pub typ: Option<Seq<char>>,
    pub rename: Option<Seq<char>>,
    pub parent: Option<Seq<char>>,
    pub from: Option<FieldConverterModel>,
    pub into: Option<FieldConverterModel>,
    pub getter: Option<FieldLevelGetterModel>,
    pub setter: Option<FieldLevelSetterModel>,
    pub vis: Option<Seq<char>>,
    pub attributes: Option<Seq<Seq<char>>>,
}

impl DeepView for FieldBlock {
    type V = FieldBlockModel;

    open spec fn deep_view(&self) -> FieldBlockModel {
        FieldBlockModel {
            skip: self.skip.deep_view(),
            typ: self.typ.deep_view(),
            rename: self.rename.deep_view(),
            parent: self.parent.deep_view(),
            from: self.from.deep_view(),
            into: self.into.deep_view(),
            getter: self.getter.deep_view(),
            setter: self.setter.deep_view(),
            vis: self.vis.deep_view(),
            attributes: self.attributes.deep_view(),
        }
    }
}

/// The block that a list of items stands for: keys `skip`, `type`,
/// `rename`, `parent`, `from`, `into`, `getter`, `setter`, `vis` and
/// `attributes`. The first item that is wrong decides the failure; the key
/// `default` is wrong here.
pub open spec fn field_block_from_list(items: Seq<NestedMetaModel>) -> Result<
    FieldBlockModel,
    Seq<ErrorModel>,
> {
    let skip = skip_entry(items, "skip"@);
    let typ = leaf_entry(Leaf::Type, items, "type"@);
    let rename = leaf_entry(Leaf::Ident, items, "rename"@);
    let parent = leaf_entry(Leaf::Ident, items, "parent"@);
    let from = field_converter_entry(items, "from"@);
    let into = field_converter_entry(items, "into"@);
    let getter = field_level_getter_entry(items, "getter"@);
    let setter = field_level_setter_entry(items, "setter"@);
    let vis = leaf_entry(Leaf::Visibility, items, "vis"@);
    let attributes = attributes_entry(items, "attributes"@);
    let errors = first_failure(
        items,
        Scheme {
            keys: key_names(Keys::FieldBlock).push("default"@),
            among: Keys::FieldBlock,
            failures: seq![
                slot_errors(skip, "skip"@),
                slot_errors(typ, "type"@),
                slot_errors(rename, "rename"@),
                slot_errors(parent, "parent"@),
                slot_errors(from, "from"@),
                slot_errors(into, "into"@),
                slot_errors(getter, "getter"@),
                slot_errors(setter, "setter"@),
                slot_errors(vis, "vis"@),
                slot_errors(attributes, "attributes"@),
                only(ErrorKindModel::DefaultOnSourceField),
            ],
        },
        items.len(),
    );
    if errors.len() > 0 {
        Err(errors)
    } else {
        Ok(
            FieldBlockModel {
                skip: slot_value(skip),
                typ: slot_value(typ),
                rename: slot_value(rename),
                parent: slot_value(parent),
                from: slot_value(from),
                into: slot_value(into),
                getter: slot_value(getter),
                setter: slot_value(setter),
                vis: slot_value(vis),
                attributes: slot_value(attributes),
            },
        )
    }
}

impl FieldBlock {
    /// Decodes the items of a list.
    pub fn from_list(items: &Vec<NestedMeta>) -> (r: Result<FieldBlock, Vec<Error>>)
        ensures
            agrees(r, field_block_from_list(items.deep_view())),
    {
        let (skip, skip_errors) = skip_slot(items, "skip");
        let (typ, typ_errors) = leaf_slot(Leaf::Type, items, "type");
        let (rename, rename_errors) = leaf_slot(Leaf::Ident, items, "rename");
        let (parent, parent_errors) = leaf_slot(Leaf::Ident, items, "parent");
        let (from, from_errors) = field_converter_slot(items, "from");
        let (into, into_errors) = field_converter_slot(items, "into");
        let (getter, getter_errors) = field_level_getter_slot(items, "getter");
        let (setter, setter_errors) = field_level_setter_slot(items, "setter");
        let (vis, vis_errors) = leaf_slot(Leaf::Visibility, items, "vis");
        let (attributes, attributes_errors) = attributes_slot(items, "attributes");
        let mut failures = no_failures();
        add_failures(&mut failures, skip_errors);
        add_failures(&mut failures, typ_errors);
        add_failures(&mut failures, rename_errors);
        add_failures(&mut failures, parent_errors);
        add_failures(&mut failures, from_errors);
        add_failures(&mut failures, into_errors);
        add_failures(&mut failures, getter_errors);
        add_failures(&mut failures, setter_errors);
        add_failures(&mut failures, vis_errors);
        add_failures(&mut failures, attributes_errors);
        add_failures(&mut failures, fail(ErrorKind::DefaultOnSourceField));
        let mut keys = Keys::FieldBlock.names();
        push_word(&mut keys, "default");
        assert(failures.deep_view() == seq![
            slot_errors(skip_entry(items.deep_view(), "skip"@), "skip"@),
            slot_errors(leaf_entry(Leaf::Type, items.deep_view(), "type"@), "type"@),
            slot_errors(leaf_entry(Leaf::Ident, items.deep_view(), "rename"@), "rename"@),
            slot_errors(leaf_entry(Leaf::Ident, items.deep_view(), "parent"@), "parent"@),
            slot_errors(field_converter_entry(items.deep_view(), "from"@), "from"@),
            slot_errors(field_converter_entry(items.deep_view(), "into"@), "into"@),
            slot_errors(field_level_getter_entry(items.deep_view(), "getter"@), "getter"@),
            slot_errors(field_level_setter_entry(items.deep_view(), "setter"@), "setter"@),
            slot_errors(leaf_entry(Leaf::Visibility, items.deep_view(), "vis"@), "vis"@),
            slot_errors(attributes_entry(items.deep_view(), "attributes"@), "attributes"@),
            only(ErrorKindModel::DefaultOnSourceField),
        ]);
        let errors = collect_first(items, &keys, Keys::FieldBlock, failures);
        if errors.len() > 0 {
            Err(errors)
        } else {
            Ok(
                FieldBlock {
                    skip,
                    typ,
                    rename,
                    parent,
                    from,
                    into,
                    getter,
                    setter,
                    vis,
                    attributes,
                },
            )
        }
    }
}

/// One annotation block on the original type, as written: under each key
/// what the block gives for it, and `None` where it does not give the key.
#[derive(Clone, Debug, PartialEq, Eq)]
pub struct StructBlock {
    pub name: Option<String>,
    pub extra: Option<Extra>,
    pub attributes: Option<Vec<String>>,
    pub getters: Option<StructLevelGetter>,
    pub setters: Option<StructLevelSetter>,
    pub converter: Option<Converter>,
    pub vis: Option<String>,
    pub bound: Option<Bound>,
}

/// Mathematical form of [`StructBlock`].
pub ghost struct StructBlockModel {
    pub name: Option<Seq<char>>,
    pub extra: Option<ExtraModel>,
    pub attributes: Option<Seq<Seq<char>>>,
    pub getters: Option<StructLevelGetterModel>,
    pub setters: Option<StructLevelSetterModel>,
    pub converter: Option<ConverterModel>,
    pub vis: Option<Seq<char>>,
    pub bound: Option<BoundModel>,
}

impl DeepView for StructBlock {
    type V = StructBlockModel;

    open spec fn deep_view(&self) -> StructBlockModel {
        StructBlockModel {
            name: self.name.deep_view(),
            extra: self.extra.deep_view(),
            attributes: self.attributes.deep_view(),
            getters: self.getters.deep_view(),
            setters: self.setters.deep_view(),
            converter: self.converter.deep_view(),
            vis: self.vis.deep_view(),
            bound: self.bound.deep_view(),
        }
    }
}

/// The block that a list of items stands for: keys `name`, `attributes`,
/// `getters`, `setters`, `converter`, `vis`, `bound` and `extra`. The first
/// item that is wrong decides the failure.
pub open spec fn struct_block_from_list(items: Seq<NestedMetaModel>) -> Result<
    StructBlockModel,
    Seq<ErrorModel>,
> {
    let name = leaf_entry(Leaf::Ident, items, "name"@);
    let extra = extra_entry(items, "extra"@);
    let attributes = attributes_entry(items, "attributes"@);
    let getters = struct_level_getter_entry(items, "getters"@);
    let setters = struct_level_setter_entry(items, "setters"@);
    let converter = converter_entry(items, "converter"@);
    let vis = leaf_entry(Leaf::Visibility, items, "vis"@);
    let bound = bound_entry(items, "bound"@);
    let errors = first_failure(
        items,
        Scheme {
            keys: key_names(Keys::StructBlock),
            among: Keys::StructBlock,
            failures: seq![
                slot_errors(name, "name"@),
                slot_errors(attributes, "attributes"@),
                slot_errors(getters, "getters"@),
                slot_errors(setters, "setters"@),
                slot_errors(converter, "converter"@),
                slot_errors(vis, "vis"@),
                slot_errors(bound, "bound"@),
                slot_errors(extra, "extra"@),
            ],
        },
        items.len(),
    );
    if errors.len() > 0 {
        Err(errors)
    } else {
        Ok(
            StructBlockModel {
                name: slot_value(name),
                extra: slot_value(extra),
                attributes: slot_value(attributes),
                getters: slot_value(getters),
                setters: slot_value(setters),
                converter: slot_value(converter),
                vis: slot_value(vis),
                bound: slot_value(bound),
            },
        )
    }
}

impl StructBlock {
    /// Decodes the items of a list.
    pub fn from_list(items: &Vec<NestedMeta>) -> (r: Result<StructBlock, Vec<Error>>)
        ensures
            agrees(r, struct_block_from_list(items.deep_view())),
    {
        let (name, name_errors) = leaf_slot(Leaf::Ident, items, "name");
        let (extra, extra_errors) = extra_slot(items, "extra");
        let (attributes, attributes_errors) = attributes_slot(items, "attributes");
        let (getters, getters_errors) = struct_level_getter_slot(items, "getters");
        let (setters, setters_errors) = struct_level_setter_slot(items, "setters");
        let (converter, converter_errors) = converter_slot(items, "converter");
        let (vis, vis_errors) = leaf_slot(Leaf::Visibility, items, "vis");
        let (bound, bound_errors) = bound_slot(items, "bound");
        let mut failures = no_failures();
        add_failures(&mut failures, name_errors);
        add_failures(&mut failures, attributes_errors);
        add_failures(&mut failures, getters_errors);
        add_failures(&mut failures, setters_errors);
        add_failures(&mut failures, converter_errors);
        add_failures(&mut failures, vis_errors);
        add_failures(&mut failures, bound_errors);
        add_failures(&mut failures, extra_errors);
        let keys = Keys::StructBlock.names();
        assert(failures.deep_view() == seq![
            slot_errors(leaf_entry(Leaf::Ident, items.deep_view(), "name"@), "name"@),
            slot_errors(attributes_entry(items.deep_view(), "attributes"@), "attributes"@),
            slot_errors(struct_level_getter_entry(items.deep_view(), "getters"@), "getters"@),
            slot_errors(struct_level_setter_entry(items.deep_view(), "setters"@), "setters"@),
            slot_errors(converter_entry(items.deep_view(), "converter"@), "converter"@),
            slot_errors(leaf_entry(Leaf::Visibility, items.deep_view(), "vis"@), "vis"@),
            slot_errors(bound_entry(items.deep_view(), "bound"@), "bound"@),
            slot_errors(extra_entry(items.deep_view(), "extra"@), "extra"@),
        ]);
        let errors = collect_first(items, &keys, Keys::StructBlock, failures);
        if errors.len() > 0 {
            Err(errors)
        } else {
            Ok(
                StructBlock {
                    name,
                    extra,
                    attributes,
                    getters,
                    setters,
                    converter,
                    vis,
                    bound,
                },
            )
        }
    }
}

} // verus!
