//! One field of a derived type.

use crate::decode::{
    add_failures, collect_first, find, first_entry, first_failure, no_failures, part,
    slot_errors, slot_value, Scheme,
};
use crate::error::{
    agrees, fail, only, Error, ErrorKind, ErrorKindModel, ErrorModel, Format, Keys,
};
use crate::getter::{default_field_getter, FieldLevelGetter, FieldLevelGetterModel};
use crate::keys::key_names;
use crate::meta::{
    lemma_items_model, Meta, MetaModel, NestedMeta, NestedMetaModel, Value, ValueModel,
};
use crate::setter::{default_field_setter, FieldLevelSetter, FieldLevelSetterModel};
use crate::style::{FieldConverter, FieldConverterModel};
use crate::values::{leaf_entry, leaf_slot, Leaf};
use vstd::prelude::*;

verus! {

/// That a field of the original type is left out of a derived type, and
/// which function gives its value on the way back, if not the type's
/// default.
#[derive(Clone, Debug, PartialEq, Eq)]
pub struct FieldLevelSkip {
    pub default: Option<String>,
}

/// Mathematical form of [`FieldLevelSkip`].
pub ghost struct FieldLevelSkipModel {
    pub default: Option<Seq<char>>,
}

impl DeepView for FieldLevelSkip {
    type V = FieldLevelSkipModel;

    open spec fn deep_view(&self) -> FieldLevelSkipModel {
        FieldLevelSkipModel { default: self.default.deep_view() }
    }
}

/// The skip marker that an entry stands for: the bare word, or a list
/// whose key `default` names a function. Any other key in the list is
/// an unknown one.
pub open spec fn skip_from_meta(m: MetaModel) -> Result<FieldLevelSkipModel, Seq<ErrorModel>> {
    match m.value {
        ValueModel::Word => Ok(FieldLevelSkipModel { default: None }),
        ValueModel::NameValue(_) => Err(only(ErrorKindModel::UnexpectedFormat(Format::NameValue))),
        ValueModel::List(items) => {
            let default = leaf_entry(Leaf::Path, items, "default"@);
            let errors = first_failure(
                items,
                Scheme {
                    keys: key_names(Keys::Skip),
                    among: Keys::Skip,
                    failures: seq![slot_errors(default, "default"@)],
                },
                items.len(),
            );
            if errors.len() > 0 {
                Err(errors)
            } else {
                Ok(FieldLevelSkipModel { default: slot_value(default) })
            }
        },
    }
}

impl FieldLevelSkip {
    /// Decodes a skip marker.
    pub fn from_meta(m: &Meta) -> (r: Result<FieldLevelSkip, Vec<Error>>)
        ensures
            agrees(r, skip_from_meta(m.deep_view())),
    {
        match &m.value {
            Value::Word => Ok(FieldLevelSkip { default: None }),
            Value::NameValue(_) => Err(fail(ErrorKind::UnexpectedFormat(Format::NameValue))),
            Value::List(items) => {
                proof {
                    lemma_items_model(*items);
                }
                let (default, default_errors) = leaf_slot(Leaf::Path, items, "default");
                let mut failures = no_failures();
                add_failures(&mut failures, default_errors);
                let keys = Keys::Skip.names();
                assert(failures.deep_view() == seq![
                    slot_errors(leaf_entry(Leaf::Path, items.deep_view(), "default"@), "default"@),
                ]);
                let errors = collect_first(items, &keys, Keys::Skip, failures);
                if errors.len() > 0 {
                    Err(errors)
                } else {
                    Ok(FieldLevelSkip { default })
                }
            },
        }
    }
}

/// What the first entry named `key` decodes to as a skip marker, if there is one.
#[verifier::opaque]
pub open spec fn skip_entry(items: Seq<NestedMetaModel>, key: Seq<char>) -> Option<
    Result<FieldLevelSkipModel, Seq<ErrorModel>>,
> {
    match first_entry(items, key) {
        Some(m) => Some(skip_from_meta(m)),
        None => None,
    }
}

/// Decodes the first entry named `key` as a skip marker: the value, if it
/// decoded, and else the errors, located under the key.
pub(crate) fn skip_slot(
    items: &Vec<NestedMeta>,
    key: &str,
) -> (r: (Option<FieldLevelSkip>, Vec<Error>))
    ensures
        r.0.deep_view() == slot_value(skip_entry(items.deep_view(), key@)),
        r.1.deep_view() == slot_errors(skip_entry(items.deep_view(), key@), key@),
{
    proof {
        reveal(skip_entry);
    }
    let decoded = match find(items, key) {
        Some(m) => Some(FieldLevelSkip::from_meta(m)),
        None => None,
    };
    part(decoded, key, Ghost(skip_entry(items.deep_view(), key@)))
}

/// One field of a derived type that stands for a field of the original
/// type.
#[derive(Clone, Debug, PartialEq, Eq)]
pub struct Field {
    /// The type of the original field.
    pub src_ty: String,
    /// The visibility of the original field.
    pub src_vis: String,
    /// Set where the derived type leaves the field out.
    pub skip: Option<FieldLevelSkip>,
    /// The field's visibility in the derived type, if not the original's.
    pub vis: Option<String>,
    /// The field's type in the derived type, if not the original's.
    pub typ: Option<String>,
    /// The field's name in the derived type, if not the original's.
    pub rename: Option<String>,
    /// The derived type that the field belongs to.
    pub parent: Option<String>,
    /// What the field says about its getter; the default where it says
    /// nothing.
    pub getter: FieldLevelGetter,
    /// Whether an annotation says anything about the getter.
    pub getter_set: bool,
    /// What the field says about its setter; the default where it says
    /// nothing.
    pub setter: FieldLevelSetter,
    /// Whether an annotation says anything about the setter.
    pub setter_set: bool,
    /// How the field is converted from the original, if not in the usual way.
    pub from: Option<FieldConverter>,
    /// How the field is converted back, if not in the usual way.
    pub into: Option<FieldConverter>,
    /// Attributes to put on the field.
    pub attributes: Vec<String>,
    /// Whether the original field has a name; else it has a position.
    pub named: bool,
}

/// Mathematical form of [`Field`].
pub ghost struct FieldModel {
    pub src_ty: Seq<char>,
    pub src_vis: Seq<char>,
    pub skip: Option<FieldLevelSkipModel>,
    pub vis: Option<Seq<char>>,
    pub typ: Option<Seq<char>>,
    pub rename: Option<Seq<char>>,
    pub parent: Option<Seq<char>>,
    pub getter: FieldLevelGetterModel,
    pub getter_set: bool,
    pub setter: FieldLevelSetterModel,
    pub setter_set: bool,
    pub from: Option<FieldConverterModel>,
    pub into: Option<FieldConverterModel>,
    pub attributes: Seq<Seq<char>>,
    pub named: bool,
}

impl DeepView for Field {
    type V = FieldModel;

    open spec fn deep_view(&self) -> FieldModel {
        FieldModel {
            src_ty: self.src_ty@,
            src_vis: self.src_vis@,
            skip: self.skip.deep_view(),
            vis: self.vis.deep_view(),
            typ: self.typ.deep_view(),
            rename: self.rename.deep_view(),
            parent: self.parent.deep_view(),
            getter: self.getter.deep_view(),
            getter_set: self.getter_set,
            setter: self.setter.deep_view(),
            setter_set: self.setter_set,
            from: self.from.deep_view(),
            into: self.into.deep_view(),
            attributes: self.attributes.deep_view(),
            named: self.named,
        }
    }
}

/// One field of a derived type that the original type has no field for.
#[derive(Clone, Debug, PartialEq, Eq)]
pub struct ExtraField {
    /// The field's name; `None` for a positional field.
    pub name: Option<String>,
    /// The field's type, as the field list declares it.
    pub src_ty: String,
    /// The field's visibility, as the field list declares it.
    pub src_vis: String,
    /// The field's visibility, if an annotation sets another.
    pub vis: Option<String>,
    pub getter: FieldLevelGetter,
    pub setter: FieldLevelSetter,
    /// The function that gives the field's value; the type's default
    /// where none is named.
    pub default: Option<String>,
    /// Attributes to put on the field.
    pub attributes: Vec<String>,
    /// Whether the field list is one of named fields.
    pub named: bool,
}

/// Mathematical form of [`ExtraField`].
pub ghost struct ExtraFieldModel {
    pub name: Option<Seq<char>>,
    pub src_ty: Seq<char>,
    pub src_vis: Seq<char>,
    pub vis: Option<Seq<char>>,
    pub getter: FieldLevelGetterModel,
    pub setter: FieldLevelSetterModel,
    pub default: Option<Seq<char>>,
    pub attributes: Seq<Seq<char>>,
    pub named: bool,
}

impl DeepView for ExtraField {
    type V = ExtraFieldModel;

    open spec fn deep_view(&self) -> ExtraFieldModel {
        ExtraFieldModel {
            name: self.name.deep_view(),
            src_ty: self.src_ty@,
            src_vis: self.src_vis@,
            vis: self.vis.deep_view(),
            getter: self.getter.deep_view(),
            setter: self.setter.deep_view(),
            default: self.default.deep_view(),
            attributes: self.attributes.deep_view(),
            named: self.named,
        }
    }
}

/// The later of two settings of one attribute, where the later one is
/// made; else the earlier.
pub open spec fn later<T>(earlier: Option<T>, later: Option<T>) -> Option<T> {
    if later is Some {
        later
    } else {
        earlier
    }
}

/// Whether a field says anything about its getter: an annotation gave
/// getter options, or the options that the field holds are not the
/// default ones.
pub open spec fn sets_getter(field: FieldModel) -> bool {
    field.getter_set || field.getter != default_field_getter()
}

/// Whether a field says anything about its setter: an annotation gave
/// setter options, or the options that the field holds are not the
/// default ones.
pub open spec fn sets_setter(field: FieldModel) -> bool {
    field.setter_set || field.setter != default_field_setter()
}

/// What a field is after a later annotation of the same field, for the
/// same derived type, has been merged into it: every attribute that the
/// later annotation sets is taken from it, the getter and the setter
/// options among them, and its raw attributes follow the earlier ones.
pub open spec fn merged(existing: FieldModel, incoming: FieldModel) -> FieldModel {
    FieldModel {
        skip: later(existing.skip, incoming.skip),
        vis: later(existing.vis, incoming.vis),
        typ: later(existing.typ, incoming.typ),
        rename: later(existing.rename, incoming.rename),
        parent: later(existing.parent, incoming.parent),
        getter: if sets_getter(incoming) {
            incoming.getter
        } else {
            existing.getter
        },
        getter_set: existing.getter_set || incoming.getter_set,
        setter: if sets_setter(incoming) {
            incoming.setter
        } else {
            existing.setter
        },
        setter_set: existing.setter_set || incoming.setter_set,
        from: later(existing.from, incoming.from),
        into: later(existing.into, incoming.into),
        attributes: existing.attributes + incoming.attributes,
        ..existing
    }
}

/// The field that a derived type holds for an original field that no
/// annotation mentions for it.
pub open spec fn unannotated(
    src_ty: Seq<char>,
    src_vis: Seq<char>,
    parent: Seq<char>,
    named: bool,
) -> FieldModel {
    FieldModel {
        src_ty,
        src_vis,
        skip: None,
        vis: None,
        typ: None,
        rename: None,
        parent: Some(parent),
        getter: default_field_getter(),
        getter_set: false,
        setter: default_field_setter(),
        setter_set: false,
        from: None,
        into: None,
        attributes: Seq::empty(),
        named,
    }
}

/// Whether two annotations set no attribute in common, and not both
/// bring raw attributes.
pub open spec fn disjoint(a: FieldModel, b: FieldModel) -> bool {
    &&& !(a.skip is Some && b.skip is Some)
    &&& !(a.vis is Some && b.vis is Some)
    &&& !(a.typ is Some && b.typ is Some)
    &&& !(a.rename is Some && b.rename is Some)
    &&& !(a.parent is Some && b.parent is Some)
    &&& !(sets_getter(a) && sets_getter(b))
    &&& !(sets_setter(a) && sets_setter(b))
    &&& !(a.from is Some && b.from is Some)
    &&& !(a.into is Some && b.into is Some)
    &&& (a.attributes.len() == 0 || b.attributes.len() == 0)
}

/// Puts the later of two settings of one attribute in the place of the
/// earlier, where the later one is made.
fn put_later<T: DeepView>(slot: &mut Option<T>, incoming: Option<T>)
    ensures
        final(slot).deep_view() == later(old(slot).deep_view(), incoming.deep_view()),
{
    if incoming.is_some() {
        *slot = incoming;
    }
}

impl Field {
    /// Merges a later annotation of the same field into this one.
    pub fn merge(&mut self, other: Field)
        ensures
            final(self).deep_view() == merged(old(self).deep_view(), other.deep_view()),
    {
        let mut other = other;
        let ghost before = self.attributes.deep_view();
        let ghost added = other.attributes.deep_view();
        put_later(&mut self.skip, other.skip);
        put_later(&mut self.vis, other.vis);
        put_later(&mut self.typ, other.typ);
        put_later(&mut self.rename, other.rename);
        put_later(&mut self.parent, other.parent);
        put_later(&mut self.from, other.from);
        put_later(&mut self.into, other.into);
        if other.getter_set || !other.getter.is_default() {
            self.getter = other.getter;
        }
        if other.getter_set {
            self.getter_set = true;
        }
        if other.setter_set || !other.setter.is_default() {
            self.setter = other.setter;
        }
        if other.setter_set {
            self.setter_set = true;
        }
        self.attributes.append(&mut other.attributes);
        assert(self.attributes.deep_view() =~= before + added);
    }

    /// The field that a derived type holds for an original field that no
    /// annotation mentions for it.
    pub fn unannotated(src_ty: String, src_vis: String, parent: String, named: bool) -> (r: Field)
        ensures
            r.deep_view() == unannotated(src_ty@, src_vis@, parent@, named),
    {
        let attributes: Vec<String> = Vec::new();
        assert(attributes.deep_view() =~= Seq::<Seq<char>>::empty());
        Field {
            src_ty,
            src_vis,
            skip: None,
            vis: None,
            typ: None,
            rename: None,
            parent: Some(parent),
            getter: FieldLevelGetter::default(),
            getter_set: false,
            setter: FieldLevelSetter::default(),
            setter_set: false,
            from: None,
            into: None,
            attributes,
            named,
        }
    }
}

/// Merging is associative: three annotations of one field give the same
/// field whichever two are merged first.
pub proof fn lemma_merge_associative(a: FieldModel, b: FieldModel, c: FieldModel)
    ensures
        merged(merged(a, b), c) == merged(a, merged(b, c)),
{
    assert((a.attributes + b.attributes) + c.attributes =~= a.attributes + (b.attributes
        + c.attributes));
}

/// Merging is right-biased: an attribute that the later annotation sets
/// has the later value, one that it leaves open keeps the earlier value,
/// and raw attributes pile up in the order given.
pub proof fn lemma_merge_right_biased(a: FieldModel, b: FieldModel)
    ensures
        b.skip is Some ==> merged(a, b).skip == b.skip,
        b.vis is Some ==> merged(a, b).vis == b.vis,
        b.typ is Some ==> merged(a, b).typ == b.typ,
        b.rename is Some ==> merged(a, b).rename == b.rename,
        b.parent is Some ==> merged(a, b).parent == b.parent,
        b.from is Some ==> merged(a, b).from == b.from,
        b.into is Some ==> merged(a, b).into == b.into,
        sets_getter(b) ==> merged(a, b).getter == b.getter,
        sets_setter(b) ==> merged(a, b).setter == b.setter,
        b.skip is None ==> merged(a, b).skip == a.skip,
        b.vis is None ==> merged(a, b).vis == a.vis,
        b.typ is None ==> merged(a, b).typ == a.typ,
        b.rename is None ==> merged(a, b).rename == a.rename,
        b.parent is None ==> merged(a, b).parent == a.parent,
        b.from is None ==> merged(a, b).from == a.from,
        b.into is None ==> merged(a, b).into == a.into,
        !sets_getter(b) ==> merged(a, b).getter == a.getter,
        !sets_setter(b) ==> merged(a, b).setter == a.setter,
        merged(a, b).attributes == a.attributes + b.attributes,
        merged(a, b).src_ty == a.src_ty,
        merged(a, b).src_vis == a.src_vis,
        merged(a, b).named == a.named,
{
}

/// Merging commutes on annotations that set no attribute in common:
/// merged into one field in either order, they give the same field.
pub proof fn lemma_merge_commutes(x: FieldModel, a: FieldModel, b: FieldModel)
    requires
        disjoint(a, b),
    ensures
        merged(merged(x, a), b) == merged(merged(x, b), a),
{
    assert((x.attributes + a.attributes) + b.attributes =~= (x.attributes + b.attributes)
        + a.attributes);
}

} // verus!
