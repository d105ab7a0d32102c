//! The definition of a derived type.

use crate::field::{unannotated, ExtraField, ExtraFieldModel, Field, FieldModel};
use crate::from::{derived_name, extra_name, extras_of, name_in_derived, name_of_extra};
use crate::generics::{FinalGenerics, FinalGenericsModel};
use crate::resolve::{StructOpts, StructOptsModel};
use vstd::prelude::*;

verus! {

/// One field of the definition of a derived type.
#[derive(Clone, Debug, PartialEq, Eq)]
pub struct FieldDef {
    /// The attributes on the field.
    pub attributes: Vec<String>,
    pub vis: String,
    pub name: String,
    pub ty: String,
}

/// The definition of a derived type.
#[derive(Clone, Debug, PartialEq, Eq)]
pub struct StructPlan {
    /// The attributes on the type.
    pub attributes: Vec<String>,
    pub vis: String,
    pub name: String,
    /// The generic parameters that the type is declared with.
    pub generics: String,
    pub where_clause: Option<String>,
    /// The fields that the original type has no field for.
    pub extra_fields: Vec<FieldDef>,
    /// The fields kept from the original type.
    pub fields: Vec<FieldDef>,
}

/// Mathematical form of [`FieldDef`].
pub ghost struct FieldDefModel {
    pub attributes: Seq<Seq<char>>,
    pub vis: Seq<char>,
    pub name: Seq<char>,
    pub ty: Seq<char>,
}

/// Mathematical form of [`StructPlan`].
pub ghost struct StructPlanModel {
    pub attributes: Seq<Seq<char>>,
    pub vis: Seq<char>,
    pub name: Seq<char>,
    pub generics: Seq<char>,
    pub where_clause: Option<Seq<char>>,
    pub extra_fields: Seq<FieldDefModel>,
    pub fields: Seq<FieldDefModel>,
}

impl DeepView for FieldDef {
    type V = FieldDefModel;

    open spec fn deep_view(&self) -> FieldDefModel {
        FieldDefModel {
            attributes: self.attributes.deep_view(),
            vis: self.vis@,
            name: self.name@,
            ty: self.ty@,
        }
    }
}

impl DeepView for StructPlan {
    type V = StructPlanModel;

    open spec fn deep_view(&self) -> StructPlanModel {
        StructPlanModel {
            attributes: self.attributes.deep_view(),
            vis: self.vis@,
            name: self.name@,
            generics: self.generics@,
            where_clause: self.where_clause.deep_view(),
            extra_fields: self.extra_fields.deep_view(),
            fields: self.fields.deep_view(),
        }
    }
}

/// The attributes that a derived type puts on every field.
pub open spec fn shared_attributes(opts: StructOptsModel) -> Seq<Seq<char>> {
    match opts.extra {
        Some(extra) => extra.attributes,
        None => Seq::empty(),
    }
}

/// The definition of a kept field: under its new name and type where it
/// has them, with its own attributes before the shared ones.
pub open spec fn field_def(
    key: Seq<char>,
    field: FieldModel,
    shared: Seq<Seq<char>>,
) -> FieldDefModel {
    FieldDefModel {
        attributes: field.attributes + shared,
        vis: match field.vis {
            Some(v) => v,
            None => field.src_vis,
        },
        name: derived_name(key, field),
        ty: match field.typ {
            Some(t) => t,
            None => field.src_ty,
        },
    }
}

/// The definition of an extra field.
pub open spec fn extra_field_def(
    key: Seq<char>,
    field: ExtraFieldModel,
    shared: Seq<Seq<char>>,
) -> FieldDefModel {
    FieldDefModel {
        attributes: field.attributes + shared,
        vis: match field.vis {
            Some(v) => v,
            None => field.src_vis,
        },
        name: extra_name(key, field),
        ty: field.src_ty,
    }
}

/// The definitions of the fields among the first `n` that the derived
/// type keeps.
pub open spec fn field_defs(
    fields: Seq<(Seq<char>, FieldModel)>,
    shared: Seq<Seq<char>>,
    n: nat,
) -> Seq<
    FieldDefModel,
>
    decreases n,
{
    if n == 0 || n > fields.len() {
        Seq::empty()
    } else {
        let before = field_defs(fields, shared, (n - 1) as nat);
        if fields[n - 1].1.skip is Some {
            before
        } else {
            before.push(field_def(fields[n - 1].0, fields[n - 1].1, shared))
        }
    }
}

/// The definitions of the extra fields.
pub open spec fn extra_field_defs(
    fields: Seq<(Seq<char>, ExtraFieldModel)>,
    shared: Seq<Seq<char>>,
) -> Seq<FieldDefModel> {
    Seq::new(fields.len(), |i: int| extra_field_def(fields[i].0, fields[i].1, shared))
}

/// The definition of a derived type: its extra fields and, of the fields
/// of the original type, those that it does not leave out.
pub open spec fn struct_plan(
    opts: StructOptsModel,
    generics: FinalGenericsModel,
) -> StructPlanModel {
    StructPlanModel {
        attributes: opts.attributes,
        vis: opts.vis,
        name: opts.name,
        generics: generics.final_struct_generics,
        where_clause: generics.where_clause,
        extra_fields: extra_field_defs(extras_of(opts), shared_attributes(opts)),
        fields: field_defs(opts.fields, shared_attributes(opts), opts.fields.len()),
    }
}

/// One list of attributes behind another.
pub fn chain(first: &Vec<String>, second: &Vec<String>) -> (r: Vec<String>)
    ensures
        r.deep_view() == first.deep_view() + second.deep_view(),
{
    let mut r = first.clone();
    let mut more = second.clone();
    let ghost a = r.deep_view();
    let ghost b = more.deep_view();
    r.append(&mut more);
    assert(r.deep_view() =~= a + b);
    r
}

/// The definition of a kept field.
fn define(key: &String, field: &Field, shared: &Vec<String>) -> (r: FieldDef)
    ensures
        r.deep_view() == field_def(key@, field.deep_view(), shared.deep_view()),
{
    FieldDef {
        attributes: chain(&field.attributes, shared),
        vis: match &field.vis {
            Some(v) => v.clone(),
            None => field.src_vis.clone(),
        },
        name: name_in_derived(key, field),
        ty: match &field.typ {
            Some(t) => t.clone(),
            None => field.src_ty.clone(),
        },
    }
}

/// The definition of an extra field.
fn define_extra(key: &String, field: &ExtraField, shared: &Vec<String>) -> (r: FieldDef)
    ensures
        r.deep_view() == extra_field_def(key@, field.deep_view(), shared.deep_view()),
{
    FieldDef {
        attributes: chain(&field.attributes, shared),
        vis: match &field.vis {
            Some(v) => v.clone(),
            None => field.src_vis.clone(),
        },
        name: name_of_extra(key, field),
        ty: field.src_ty.clone(),
    }
}

/// Plans the definition of a derived type.
pub fn generate_struct(opts: &StructOpts, generics: &FinalGenerics) -> (r: StructPlan)
    ensures
        r.deep_view() == struct_plan(opts.deep_view(), generics.deep_view()),
{
    let mut extra_fields: Vec<FieldDef> = Vec::new();
    let shared = match &opts.extra {
        Some(extra) => {
            let shared = extra.attributes.clone();
            let n = extra.fields.len();
            let mut i: usize = 0;
            while i < n
                invariant
                    i <= n,
                    n == extra.fields.len(),
                    extra_fields.len() == i,
                    shared.deep_view() == extra.attributes.deep_view(),
                    forall|j: int|
                        0 <= j < i ==> extra_fields[j].deep_view() == extra_field_def(
                            extra.fields[j].0@,
                            extra.fields[j].1.deep_view(),
                            shared.deep_view(),
                        ),
                decreases n - i,
            {
                let (key, field) = &extra.fields[i];
                extra_fields.push(define_extra(key, field, &shared));
                i += 1;
            }
            shared
        },
        None => crate::keys::no_words(),
    };
    assert(extra_fields.deep_view() =~= extra_field_defs(
        extras_of(opts.deep_view()),
        shared_attributes(opts.deep_view()),
    ));
    let mut fields: Vec<FieldDef> = Vec::new();
    let n = opts.fields.len();
    let mut i: usize = 0;
    assert(fields.deep_view() =~= field_defs(opts.deep_view().fields, shared.deep_view(), 0));
    while i < n
        invariant
            i <= n,
            n == opts.fields.len(),
            fields.deep_view() == field_defs(opts.deep_view().fields, shared.deep_view(), i as nat),
        decreases n - i,
    {
        let (key, field) = &opts.fields[i];
        if field.skip.is_none() {
            let ghost before = fields.deep_view();
            let def = define(key, field, &shared);
            fields.push(def);
            assert(fields.deep_view() =~= before.push(def.deep_view()));
        }
        i += 1;
    }
    StructPlan {
        attributes: opts.attributes.clone(),
        vis: opts.vis.clone(),
        name: opts.name.clone(),
        generics: generics.final_struct_generics.clone(),
        where_clause: generics.where_clause.clone(),
        extra_fields,
        fields,
    }
}

/// A field that the derived type leaves out is no field of its
/// definition.
pub proof fn lemma_left_out_of_definition(
    fields: Seq<(Seq<char>, FieldModel)>,
    shared: Seq<Seq<char>>,
    i: int,
)
    requires
        0 <= i < fields.len(),
        fields[i].1.skip is Some,
    ensures
        field_defs(fields, shared, (i + 1) as nat) == field_defs(fields, shared, i as nat),
{
}

/// A field about which nothing is said stands in the definition of the
/// derived type as it stands in the original type: under the same name,
/// with the same type and visibility.
pub proof fn lemma_definition_as_it_stands(
    key: Seq<char>,
    ty: Seq<char>,
    vis: Seq<char>,
    parent: Seq<char>,
    named: bool,
    shared: Seq<Seq<char>>,
)
    ensures
        field_def(key, unannotated(ty, vis, parent, named), shared) == (FieldDefModel {
            attributes: shared,
            vis,
            name: key,
            ty,
        }),
{
    assert(Seq::<Seq<char>>::empty() + shared =~= shared);
}

} // verus!
