//! Setters: what the annotations say about them.

use crate::decode::{
    add_failures, collect, collected, find, first_entry, no_failures, part, slot_errors,
    slot_value, Scheme,
};
use crate::error::{agrees, Error, ErrorModel, Keys};
use crate::getter::{
    method_bound_entry, method_bound_slot, FieldLevelBound, FieldLevelBoundModel,
};
use crate::keys::key_names;
use crate::meta::{Meta, MetaModel, NestedMeta, NestedMetaModel};
use crate::style::{setter_style_entry, setter_style_slot, SetterStyle};
use crate::values::{
    flag_entry, flag_slot, group_items, items_of, leaf_entry, leaf_slot, Leaf,
};
use vstd::prelude::*;

verus! {

/// What one field says about its setter.
#[derive(Clone, Debug, PartialEq, Eq)]
pub struct FieldLevelSetter {
    /// The setter's name, if not the usual one.
    pub rename: Option<String>,
    /// The setter's shape, if not the one the derived type says.
    pub style: Option<SetterStyle>,
    /// Whether the field gets no setter.
    pub ignore: bool,
    /// The setter's visibility, if not the usual one.
    pub vis: Option<String>,
    /// Generic parameters of the setter itself.
    pub bound: FieldLevelBound,
}

/// Mathematical form of [`FieldLevelSetter`].
pub ghost struct FieldLevelSetterModel {
    pub rename: Option<Seq<char>>,
    pub style: Option<SetterStyle>,
    pub ignore: bool,
    pub vis: Option<Seq<char>>,
    pub bound: FieldLevelBoundModel,
}

impl DeepView for FieldLevelSetter {
    type V = FieldLevelSetterModel;

    open spec fn deep_view(&self) -> FieldLevelSetterModel {
        FieldLevelSetterModel {
            rename: self.rename.deep_view(),
            style: self.style,
            ignore: self.ignore,
            vis: self.vis.deep_view(),
            bound: self.bound.deep_view(),
        }
    }
}

/// The setter options that a list of items stands for: keys `rename`,
/// `style`, `skip`, `vis` and `bound`.
pub open spec fn field_level_setter_from_list(items: Seq<NestedMetaModel>) -> Result<
    FieldLevelSetterModel,
    Seq<ErrorModel>,
> {
    let rename = leaf_entry(Leaf::Ident, items, "rename"@);
    let style = setter_style_entry(items, "style"@);
    let ignore = flag_entry(items, "skip"@);
    let vis = leaf_entry(Leaf::Visibility, items, "vis"@);
    let bound = method_bound_entry(items, "bound"@);
    let errors = collected(
        items,
        Scheme {
            keys: key_names(Keys::FieldSetter),
            among: Keys::FieldSetter,
            failures: seq![
                slot_errors(rename, "rename"@),
                slot_errors(style, "style"@),
                slot_errors(ignore, "skip"@),
                slot_errors(vis, "vis"@),
                slot_errors(bound, "bound"@),
            ],
        },
        items.len(),
    );
    if errors.len() > 0 {
        Err(errors)
    } else {
        Ok(
            FieldLevelSetterModel {
                rename: slot_value(rename),
                style: slot_value(style),
                ignore: match slot_value(ignore) {
                    Some(v) => v,
                    None => false,
                },
                vis: slot_value(vis),
                bound: match slot_value(bound) {
                    Some(v) => v,
                    None => FieldLevelBoundModel { bound: None },
                },
            },
        )
    }
}

/// The same, of the entry whose list the items are.
pub open spec fn field_level_setter_from_meta(m: MetaModel) -> Result<
    FieldLevelSetterModel,
    Seq<ErrorModel>,
> {
    match group_items(m) {
        Ok(items) => field_level_setter_from_list(items),
        Err(e) => Err(e),
    }
}

impl FieldLevelSetter {
    /// Decodes the items of a list.
    pub fn from_list(items: &Vec<NestedMeta>) -> (r: Result<FieldLevelSetter, Vec<Error>>)
        ensures
            agrees(r, field_level_setter_from_list(items.deep_view())),
    {
        let (rename, rename_errors) = leaf_slot(Leaf::Ident, items, "rename");
        let (style, style_errors) = setter_style_slot(items, "style");
        let (ignore, ignore_errors) = flag_slot(items, "skip");
        let (vis, vis_errors) = leaf_slot(Leaf::Visibility, items, "vis");
        let (bound, bound_errors) = method_bound_slot(items, "bound");
        let mut failures = no_failures();
        add_failures(&mut failures, rename_errors);
        add_failures(&mut failures, style_errors);
        add_failures(&mut failures, ignore_errors);
        add_failures(&mut failures, vis_errors);
        add_failures(&mut failures, bound_errors);
        let keys = Keys::FieldSetter.names();
        assert(failures.deep_view() == seq![
            slot_errors(leaf_entry(Leaf::Ident, items.deep_view(), "rename"@), "rename"@),
            slot_errors(setter_style_entry(items.deep_view(), "style"@), "style"@),
            slot_errors(flag_entry(items.deep_view(), "skip"@), "skip"@),
            slot_errors(leaf_entry(Leaf::Visibility, items.deep_view(), "vis"@), "vis"@),
            slot_errors(method_bound_entry(items.deep_view(), "bound"@), "bound"@),
        ]);
        let errors = collect(items, &keys, Keys::FieldSetter, failures);
        if errors.len() > 0 {
            Err(errors)
        } else {
            Ok(
                FieldLevelSetter {
                    rename,
                    style,
                    ignore: match ignore {
                        Some(v) => v,
                        None => false,
                    },
                    vis,
                    bound: match bound {
                        Some(v) => v,
                        None => FieldLevelBound { bound: None },
                    },
                },
            )
        }
    }

    /// Decodes an entry.
    pub fn from_meta(m: &Meta) -> (r: Result<FieldLevelSetter, Vec<Error>>)
        ensures
            agrees(r, field_level_setter_from_meta(m.deep_view())),
    {
        match items_of(m) {
            Ok(items) => FieldLevelSetter::from_list(items),
            Err(e) => Err(e),
        }
    }
}

/// What the first entry named `key` decodes to as setter options of a field, if there is one.
#[verifier::opaque]
pub open spec fn field_level_setter_entry(items: Seq<NestedMetaModel>, key: Seq<char>) -> Option<
    Result<FieldLevelSetterModel, Seq<ErrorModel>>,
> {
    match first_entry(items, key) {
        Some(m) => Some(field_level_setter_from_meta(m)),
        None => None,
    }
}

/// Decodes the first entry named `key` as setter options of a field: the value, if it
/// decoded, and else the errors, located under the key.
pub(crate) fn field_level_setter_slot(items: &Vec<NestedMeta>, key: &str) -> (r: (
    Option<FieldLevelSetter>,
    Vec<Error>,
))
    ensures
        r.0.deep_view() == slot_value(field_level_setter_entry(items.deep_view(), key@)),
        r.1.deep_view() == slot_errors(field_level_setter_entry(items.deep_view(), key@), key@),
{
    proof {
        reveal(field_level_setter_entry);
    }
    let decoded = match find(items, key) {
        Some(m) => Some(FieldLevelSetter::from_meta(m)),
        None => None,
    };
    part(decoded, key, Ghost(field_level_setter_entry(items.deep_view(), key@)))
}

/// What a derived type says about the setters of all its fields.
#[derive(Clone, Debug, PartialEq, Eq)]
pub struct StructLevelSetter {
    /// What stands before each field's name in its setter's name.
    pub prefix: Option<String>,
    /// The shape of the setters.
    pub style: SetterStyle,
    /// Whether the derived type gets no setters at all.
    pub ignore: bool,
    /// The visibility of every setter.
    pub vis_all: Option<String>,
}

/// Mathematical form of [`StructLevelSetter`].
pub ghost struct StructLevelSetterModel {
    pub prefix: Option<Seq<char>>,
    pub style: SetterStyle,
    pub ignore: bool,
    pub vis_all: Option<Seq<char>>,
}

impl DeepView for StructLevelSetter {
    type V = StructLevelSetterModel;

    open spec fn deep_view(&self) -> StructLevelSetterModel {
        StructLevelSetterModel {
            prefix: self.prefix.deep_view(),
            style: self.style,
            ignore: self.ignore,
            vis_all: self.vis_all.deep_view(),
        }
    }
}

/// The setter policy that a list of items stands for: keys `prefix`,
/// `style`, `skip` and `vis_all`. Without `style` setters move.
pub open spec fn struct_level_setter_from_list(items: Seq<NestedMetaModel>) -> Result<
    StructLevelSetterModel,
    Seq<ErrorModel>,
> {
    let prefix = leaf_entry(Leaf::Ident, items, "prefix"@);
    let style = setter_style_entry(items, "style"@);
    let ignore = flag_entry(items, "skip"@);
    let vis_all = leaf_entry(Leaf::Visibility, items, "vis_all"@);
    let errors = collected(
        items,
        Scheme {
            keys: key_names(Keys::StructSetter),
            among: Keys::StructSetter,
            failures: seq![
                slot_errors(prefix, "prefix"@),
                slot_errors(style, "style"@),
                slot_errors(ignore, "skip"@),
                slot_errors(vis_all, "vis_all"@),
            ],
        },
        items.len(),
    );
    if errors.len() > 0 {
        Err(errors)
    } else {
        Ok(
            StructLevelSetterModel {
                prefix: slot_value(prefix),
                style: match slot_value(style) {
                    Some(v) => v,
                    None => SetterStyle::Move,
                },
                ignore: match slot_value(ignore) {
                    Some(v) => v,
                    None => false,
                },
                vis_all: slot_value(vis_all),
            },
        )
    }
}

/// The same, of the entry whose list the items are.
pub open spec fn struct_level_setter_from_meta(m: MetaModel) -> Result<
    StructLevelSetterModel,
    Seq<ErrorModel>,
> {
    match group_items(m) {
        Ok(items) => struct_level_setter_from_list(items),
        Err(e) => Err(e),
    }
}

impl StructLevelSetter {
    /// Decodes the items of a list.
    pub fn from_list(items: &Vec<NestedMeta>) -> (r: Result<StructLevelSetter, Vec<Error>>)
        ensures
            agrees(r, struct_level_setter_from_list(items.deep_view())),
    {
        let (prefix, prefix_errors) = leaf_slot(Leaf::Ident, items, "prefix");
        let (style, style_errors) = setter_style_slot(items, "style");
        let (ignore, ignore_errors) = flag_slot(items, "skip");
        let (vis_all, vis_all_errors) = leaf_slot(Leaf::Visibility, items, "vis_all");
        let mut failures = no_failures();
        add_failures(&mut failures, prefix_errors);
        add_failures(&mut failures, style_errors);
        add_failures(&mut failures, ignore_errors);
        add_failures(&mut failures, vis_all_errors);
        let keys = Keys::StructSetter.names();
        assert(failures.deep_view() == seq![
            slot_errors(leaf_entry(Leaf::Ident, items.deep_view(), "prefix"@), "prefix"@),
            slot_errors(setter_style_entry(items.deep_view(), "style"@), "style"@),
            slot_errors(flag_entry(items.deep_view(), "skip"@), "skip"@),
            slot_errors(leaf_entry(Leaf::Visibility, items.deep_view(), "vis_all"@), "vis_all"@),
        ]);
        let errors = collect(items, &keys, Keys::StructSetter, failures);
        if errors.len() > 0 {
            Err(errors)
        } else {
            Ok(
                StructLevelSetter {
                    prefix,
                    style: match style {
                        Some(v) => v,
                        None => SetterStyle::Move,
                    },
                    ignore: match ignore {
                        Some(v) => v,
                        None => false,
                    },
                    vis_all,
                },
            )
        }
    }

    /// Decodes an entry.
    pub fn from_meta(m: &Meta) -> (r: Result<StructLevelSetter, Vec<Error>>)
        ensures
            agrees(r, struct_level_setter_from_meta(m.deep_view())),
    {
        match items_of(m) {
            Ok(items) => StructLevelSetter::from_list(items),
            Err(e) => Err(e),
        }
    }
}

/// What the first entry named `key` decodes to as the setter policy of a
/// derived type, if there is one.
#[verifier::opaque]
pub open spec fn struct_level_setter_entry(items: Seq<NestedMetaModel>, key: Seq<char>) -> Option<
    Result<StructLevelSetterModel, Seq<ErrorModel>>,
> {
    match first_entry(items, key) {
        Some(m) => Some(struct_level_setter_from_meta(m)),
        None => None,
    }
}

/// Decodes the first entry named `key` as the setter policy of a derived type: the value, if it
/// decoded, and else the errors, located under the key.
pub(crate) fn struct_level_setter_slot(items: &Vec<NestedMeta>, key: &str) -> (r: (
    Option<StructLevelSetter>,
    Vec<Error>,
))
    ensures
        r.0.deep_view() == slot_value(struct_level_setter_entry(items.deep_view(), key@)),
        r.1.deep_view() == slot_errors(struct_level_setter_entry(items.deep_view(), key@), key@),
{
    proof {
        reveal(struct_level_setter_entry);
    }
    let decoded = match find(items, key) {
        Some(m) => Some(StructLevelSetter::from_meta(m)),
        None => None,
    };
    part(decoded, key, Ghost(struct_level_setter_entry(items.deep_view(), key@)))
}

impl Default for FieldLevelSetter {
    /// A field that says nothing about its setter.
    fn default() -> (r: FieldLevelSetter)
        ensures
            r.deep_view() == default_field_setter(),
    {
        FieldLevelSetter {
            rename: None,
            style: None,
            ignore: false,
            vis: None,
            bound: FieldLevelBound { bound: None },
        }
    }
}

impl Default for StructLevelSetter {
    /// A derived type that says nothing about its setters: they move.
    fn default() -> (r: StructLevelSetter)
        ensures
            r.deep_view() == default_struct_setter(),
    {
        StructLevelSetter { prefix: None, style: SetterStyle::Move, ignore: false, vis_all: None }
    }
}

/// The setter options of a field that gives none.
pub open spec fn default_field_setter() -> FieldLevelSetterModel {
    FieldLevelSetterModel {
        rename: None,
        style: None,
        ignore: false,
        vis: None,
        bound: FieldLevelBoundModel { bound: None },
    }
}

/// The setter policy of a derived type that gives none.
pub open spec fn default_struct_setter() -> StructLevelSetterModel {
    StructLevelSetterModel { prefix: None, style: SetterStyle::Move, ignore: false, vis_all: None }
}

impl FieldLevelSetter {
    /// Whether these are the setter options of a field that gives none.
    pub fn is_default(&self) -> (r: bool)
        ensures
            r == (self.deep_view() == default_field_setter()),
    {
        self.rename.is_none() && self.style.is_none() && !self.ignore && self.vis.is_none()
            && self.bound.bound.is_none()
    }
}

} // verus!
