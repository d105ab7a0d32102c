//! From the annotated definition to one complete configuration for each
//! derived type.
//!
//! The annotations on the original type declare the derived types, one
//! each. The fields of the original type are then walked once: each
//! annotation on a field goes to the derived type that it names as its
//! parent (without a parent, to the one derived type where only one is
//! declared), merging with
//! what an earlier annotation of the same field put there; and every
//! derived type that has heard nothing of a field gets the field as it
//! stands.

use crate::blocks::{
    field_block_from_list, struct_block_from_list, FieldBlock, FieldBlockModel, StructBlock,
    StructBlockModel,
};
use crate::entries::{index_of, insert, lemma_index_within, position, put};
use crate::error::{
    copy_errors, fail, only, settles, Error, ErrorKind, ErrorKindModel, ErrorModel, Failure,
    FailureModel, Origin, OriginModel, Shape,
};
use crate::field::{merged, unannotated, Field, FieldModel};
use crate::getter::{
    default_field_getter, default_struct_getter, FieldLevelGetter, StructLevelGetter,
    StructLevelGetterModel,
};
use crate::keys::no_words;
use crate::setter::{
    default_field_setter, default_struct_setter, FieldLevelSetter, StructLevelSetter,
    StructLevelSetterModel,
};
use crate::source::{
    annotated_of, Annotated, AnnotatedData, AnnotatedDataModel, AnnotatedField,
    AnnotatedFieldModel, AnnotatedModel, Annotation, AnnotationModel, Data, DeriveInput,
};
use crate::structure::{
    default_converter, field_key, key_of, Bound, BoundModel, Converter, ConverterModel, Extra,
    ExtraModel,
};
use crate::text::owned;
use vstd::prelude::*;

verus! {

/// The complete configuration of one derived type.
#[derive(Clone, Debug, PartialEq, Eq)]
pub struct StructOpts {
    /// The derived type's name.
    pub name: String,
    /// The derived type's visibility.
    pub vis: String,
    /// How the derived type gets its generic parameters; `None` where it
    /// has none of its own and goes by those of the original type.
    pub bound: Option<Bound>,
    pub getters: StructLevelGetter,
    pub setters: StructLevelSetter,
    pub converter: Converter,
    /// Attributes to put on the derived type.
    pub attributes: Vec<String>,
    /// One entry for each field of the original type, under the field's
    /// name or position.
    pub fields: Vec<(String, Field)>,
    pub extra: Option<Extra>,
}

/// Mathematical form of [`StructOpts`].
pub ghost struct StructOptsModel {
    pub name: Seq<char>,
    pub vis: Seq<char>,
    pub bound: Option<BoundModel>,
    pub getters: StructLevelGetterModel,
    pub setters: StructLevelSetterModel,
    pub converter: ConverterModel,
    pub attributes: Seq<Seq<char>>,
    pub fields: Seq<(Seq<char>, FieldModel)>,
    pub extra: Option<ExtraModel>,
}

impl DeepView for StructOpts {
    type V = StructOptsModel;

    open spec fn deep_view(&self) -> StructOptsModel {
        StructOptsModel {
            name: self.name@,
            vis: self.vis@,
            bound: self.bound.deep_view(),
            getters: self.getters.deep_view(),
            setters: self.setters.deep_view(),
            converter: self.converter.deep_view(),
            attributes: self.attributes.deep_view(),
            fields: self.fields.deep_view(),
            extra: self.extra.deep_view(),
        }
    }
}

/// Everything resolved from one annotated definition.
#[derive(Clone, Debug, PartialEq, Eq)]
pub struct FromIt {
    /// The original type's name.
    pub name: String,
    /// The derived types, in the order in which they were declared, each
    /// under its name.
    pub struct_opts: Vec<(String, StructOpts)>,
    /// The original type's generic parameter list.
    pub generics: String,
    /// The original type's where clause.
    pub where_clause: Option<String>,
}

/// Mathematical form of [`FromIt`].
pub ghost struct FromItModel {
    pub name: Seq<char>,
    pub struct_opts: Seq<(Seq<char>, StructOptsModel)>,
    pub generics: Seq<char>,
    pub where_clause: Option<Seq<char>>,
}

impl DeepView for FromIt {
    type V = FromItModel;

    open spec fn deep_view(&self) -> FromItModel {
        FromItModel {
            name: self.name@,
            struct_opts: self.struct_opts.deep_view(),
            generics: self.generics@,
            where_clause: self.where_clause.deep_view(),
        }
    }
}

/// The derived type that a block on the original type declares under
/// `name`: what the block leaves open is as the original type has it, or
/// the default. Its fields come later.
pub open spec fn struct_opts_from_block(
    block: StructBlockModel,
    name: Seq<char>,
    vis: Seq<char>,
) -> StructOptsModel {
    StructOptsModel {
        name,
        vis: match block.vis {
            Some(v) => v,
            None => vis,
        },
        bound: block.bound,
        getters: match block.getters {
            Some(g) => g,
            None => default_struct_getter(),
        },
        setters: match block.setters {
            Some(s) => s,
            None => default_struct_setter(),
        },
        converter: match block.converter {
            Some(c) => c,
            None => default_converter(),
        },
        attributes: match block.attributes {
            Some(a) => a,
            None => Seq::empty(),
        },
        fields: Seq::empty(),
        extra: block.extra,
    }
}

/// The derived types after one more annotation on the original type.
pub open spec fn declared_one(
    types: Seq<(Seq<char>, StructOptsModel)>,
    annotation: AnnotationModel,
    vis: Seq<char>,
) -> Result<Seq<(Seq<char>, StructOptsModel)>, Seq<ErrorModel>> {
    match annotation {
        AnnotationModel::Silent => Ok(types),
        AnnotationModel::Broken(e) => Err(e),
        AnnotationModel::Block(items) => match struct_block_from_list(items) {
            Err(e) => Err(e),
            Ok(block) => match block.name {
                None => Err(only(ErrorKindModel::MissingField("name"@))),
                Some(name) => Ok(put(types, name, struct_opts_from_block(block, name, vis))),
            },
        },
    }
}

/// The derived types that the first `n` annotations on the original type
/// declare. A later declaration of a name takes the place of the earlier.
/// A failure arose in the attribute that failed.
pub open spec fn declared(annotations: Seq<AnnotationModel>, vis: Seq<char>, n: nat) -> Result<
    Seq<(Seq<char>, StructOptsModel)>,
    FailureModel,
>
    decreases n,
{
    if n == 0 || n > annotations.len() {
        Ok(Seq::empty())
    } else {
        match declared(annotations, vis, (n - 1) as nat) {
            Err(e) => Err(e),
            Ok(types) => match declared_one(types, annotations[n - 1], vis) {
                Err(errors) => Err(
                    FailureModel { origin: OriginModel::TypeAttribute((n - 1) as nat), errors },
                ),
                Ok(after) => Ok(after),
            },
        }
    }
}

/// The field that a block on a field of the original type describes.
pub open spec fn field_from_block(
    field: AnnotatedFieldModel,
    block: FieldBlockModel,
) -> FieldModel {
    FieldModel {
        src_ty: field.ty,
        src_vis: field.vis,
        skip: block.skip,
        vis: block.vis,
        typ: block.typ,
        rename: block.rename,
        parent: block.parent,
        getter: match block.getter {
            Some(g) => g,
            None => default_field_getter(),
        },
        getter_set: block.getter is Some,
        setter: match block.setter {
            Some(s) => s,
            None => default_field_setter(),
        },
        setter_set: block.setter is Some,
        from: block.from,
        into: block.into,
        attributes: match block.attributes {
            Some(a) => a,
            None => Seq::empty(),
        },
        named: field.name is Some,
    }
}

/// The fields with `field` taken in under `key`: merged into what stands
/// there, or put at the end where the key is new.
pub open spec fn merge_or_put(
    fields: Seq<(Seq<char>, FieldModel)>,
    key: Seq<char>,
    field: FieldModel,
) -> Seq<(Seq<char>, FieldModel)> {
    match index_of(fields, key) {
        Some(i) => fields.update(i, (key, merged(fields[i].1, field))),
        None => fields.push((key, field)),
    }
}

/// The derived types with `field` taken in under `key` by the type at
/// place `t`.
pub open spec fn with_field(
    types: Seq<(Seq<char>, StructOptsModel)>,
    t: int,
    key: Seq<char>,
    field: FieldModel,
) -> Seq<(Seq<char>, StructOptsModel)> {
    types.update(
        t,
        (
            types[t].0,
            StructOptsModel { fields: merge_or_put(types[t].1.fields, key, field), ..types[t].1 },
        ),
    )
}

/// Where one annotation block of a field goes: to the derived type that
/// the block names as its parent, which must be a declared one; without a
/// parent, to the one derived type where only one is declared.
pub open spec fn routed_block(
    types: Seq<(Seq<char>, StructOptsModel)>,
    field: AnnotatedFieldModel,
    key: Seq<char>,
    block: FieldBlockModel,
) -> Result<Seq<(Seq<char>, StructOptsModel)>, Seq<ErrorModel>> {
    if types.len() == 0 {
        Err(only(ErrorKindModel::NoDerivedType))
    } else {
        match block.parent {
            Some(parent) => match index_of(types, parent) {
                None => Err(only(ErrorKindModel::UnknownParent(parent))),
                Some(t) => Ok(with_field(types, t, key, field_from_block(field, block))),
            },
            None => if types.len() > 1 {
                Err(only(ErrorKindModel::ParentRequired))
            } else {
                Ok(with_field(types, 0, key, field_from_block(field, block)))
            },
        }
    }
}

/// The derived types after one more annotation of a field.
pub open spec fn routed_one(
    types: Seq<(Seq<char>, StructOptsModel)>,
    field: AnnotatedFieldModel,
    key: Seq<char>,
    annotation: AnnotationModel,
) -> Result<Seq<(Seq<char>, StructOptsModel)>, Seq<ErrorModel>> {
    match annotation {
        AnnotationModel::Silent => Ok(types),
        AnnotationModel::Broken(e) => Err(e),
        AnnotationModel::Block(items) => match field_block_from_list(items) {
            Err(e) => Err(e),
            Ok(block) => routed_block(types, field, key, block),
        },
    }
}

/// The derived types after the first `n` annotations of the field at
/// `place`. A failure arose in the attribute that failed.
pub open spec fn routed(
    types: Seq<(Seq<char>, StructOptsModel)>,
    field: AnnotatedFieldModel,
    key: Seq<char>,
    place: nat,
    n: nat,
) -> Result<Seq<(Seq<char>, StructOptsModel)>, FailureModel>
    decreases n,
{
    if n == 0 || n > field.annotations.len() {
        Ok(types)
    } else {
        match routed(types, field, key, place, (n - 1) as nat) {
            Err(e) => Err(e),
            Ok(before) => match routed_one(before, field, key, field.annotations[n - 1]) {
                Err(errors) => Err(
                    FailureModel {
                        origin: OriginModel::FieldAttribute {
                            field: place,
                            attribute: (n - 1) as nat,
                        },
                        errors,
                    },
                ),
                Ok(after) => Ok(after),
            },
        }
    }
}

/// A derived type with the field under `key` filled in as it stands in
/// the original type, where the derived type has nothing under that key.
pub open spec fn backfilled_one(
    name: Seq<char>,
    opts: StructOptsModel,
    field: AnnotatedFieldModel,
    key: Seq<char>,
) -> StructOptsModel {
    if index_of(opts.fields, key) is Some {
        opts
    } else {
        StructOptsModel {
            fields: opts.fields.push(
                (key, unannotated(field.ty, field.vis, name, field.name is Some)),
            ),
            ..opts
        }
    }
}

/// The derived types, each with the field under `key` filled in where it
/// has none.
pub open spec fn backfilled(
    types: Seq<(Seq<char>, StructOptsModel)>,
    field: AnnotatedFieldModel,
    key: Seq<char>,
) -> Seq<(Seq<char>, StructOptsModel)> {
    Seq::new(
        types.len(),
        |t: int| (types[t].0, backfilled_one(types[t].0, types[t].1, field, key)),
    )
}

/// The derived types after the field at `position` has been walked.
pub open spec fn walked_one(
    types: Seq<(Seq<char>, StructOptsModel)>,
    field: AnnotatedFieldModel,
    position: nat,
) -> Result<Seq<(Seq<char>, StructOptsModel)>, FailureModel> {
    let key = field_key(field.name, position);
    match routed(types, field, key, position, field.annotations.len()) {
        Err(e) => Err(e),
        Ok(after) => Ok(backfilled(after, field, key)),
    }
}

/// The derived types after the first `n` fields have been walked.
pub open spec fn walked(
    types: Seq<(Seq<char>, StructOptsModel)>,
    fields: Seq<AnnotatedFieldModel>,
    n: nat,
) -> Result<Seq<(Seq<char>, StructOptsModel)>, FailureModel>
    decreases n,
{
    if n == 0 || n > fields.len() {
        Ok(types)
    } else {
        match walked(types, fields, (n - 1) as nat) {
            Err(e) => Err(e),
            Ok(before) => walked_one(before, fields[n - 1], (n - 1) as nat),
        }
    }
}

/// The failure of a definition that is no record.
pub open spec fn wrong_shape(shape: Shape) -> FailureModel {
    FailureModel {
        origin: OriginModel::Definition,
        errors: only(ErrorKindModel::UnsupportedShape(shape)),
    }
}

/// What an annotated definition resolves to: for a record, its derived
/// types with all their fields; for anything else, the shape error. The
/// first thing that is wrong decides the failure.
pub open spec fn resolved(input: AnnotatedModel) -> Result<FromItModel, FailureModel> {
    match input.data {
        AnnotatedDataModel::Enum => Err(wrong_shape(Shape::Enum)),
        AnnotatedDataModel::Union => Err(wrong_shape(Shape::Union)),
        AnnotatedDataModel::Struct(fields) => match declared(
            input.annotations,
            input.vis,
            input.annotations.len(),
        ) {
            Err(e) => Err(e),
            Ok(types) => match walked(types, fields, fields.len()) {
                Err(e) => Err(e),
                Ok(done) => Ok(
                    FromItModel {
                        name: input.name,
                        struct_opts: done,
                        generics: input.generics,
                        where_clause: input.where_clause,
                    },
                ),
            },
        },
    }
}

/// Once an annotation on the original type has failed, the outcome is settled.
pub proof fn lemma_declared_err(annotations: Seq<AnnotationModel>, vis: Seq<char>, n: nat, m: nat)
    requires
        n <= m <= annotations.len(),
        declared(annotations, vis, n) is Err,
    ensures
        declared(annotations, vis, m) == declared(annotations, vis, n),
    decreases m,
{
    if n < m {
        lemma_declared_err(annotations, vis, n, (m - 1) as nat);
    }
}

/// Once an annotation of a field has failed, the outcome is settled.
pub proof fn lemma_routed_err(
    types: Seq<(Seq<char>, StructOptsModel)>,
    field: AnnotatedFieldModel,
    key: Seq<char>,
    place: nat,
    n: nat,
    m: nat,
)
    requires
        n <= m <= field.annotations.len(),
        routed(types, field, key, place, n) is Err,
    ensures
        routed(types, field, key, place, m) == routed(types, field, key, place, n),
    decreases m,
{
    if n < m {
        lemma_routed_err(types, field, key, place, n, (m - 1) as nat);
    }
}

/// Once a field has failed, the outcome is settled.
pub proof fn lemma_walked_err(
    types: Seq<(Seq<char>, StructOptsModel)>,
    fields: Seq<AnnotatedFieldModel>,
    n: nat,
    m: nat,
)
    requires
        n <= m <= fields.len(),
        walked(types, fields, n) is Err,
    ensures
        walked(types, fields, m) == walked(types, fields, n),
    decreases m,
{
    if n < m {
        lemma_walked_err(types, fields, n, (m - 1) as nat);
    }
}

impl StructOpts {
    /// The derived type that a block on the original type declares under
    /// `name`.
    pub fn from_block(block: StructBlock, name: String, vis: &str) -> (r: StructOpts)
        ensures
            r.deep_view() == struct_opts_from_block(block.deep_view(), name@, vis@),
    {
        let fields: Vec<(String, Field)> = Vec::new();
        assert(fields.deep_view() =~= Seq::<(Seq<char>, FieldModel)>::empty());
        StructOpts {
            name,
            vis: match block.vis {
                Some(v) => v,
                None => owned(vis),
            },
            bound: block.bound,
            getters: match block.getters {
                Some(g) => g,
                None => StructLevelGetter::default(),
            },
            setters: match block.setters {
                Some(s) => s,
                None => StructLevelSetter::default(),
            },
            converter: match block.converter {
                Some(c) => c,
                None => Converter::default(),
            },
            attributes: match block.attributes {
                Some(a) => a,
                None => no_words(),
            },
            fields,
            extra: block.extra,
        }
    }
}

impl Field {
    /// The field that a block on a field of the original type describes.
    pub fn from_block(field: &AnnotatedField, block: FieldBlock) -> (r: Field)
        ensures
            r.deep_view() == field_from_block(field.deep_view(), block.deep_view()),
    {
        let getter_set = block.getter.is_some();
        let setter_set = block.setter.is_some();
        Field {
            src_ty: field.ty.clone(),
            src_vis: field.vis.clone(),
            skip: block.skip,
            vis: block.vis,
            typ: block.typ,
            rename: block.rename,
            parent: block.parent,
            getter: match block.getter {
                Some(g) => g,
                None => FieldLevelGetter::default(),
            },
            getter_set,
            setter: match block.setter {
                Some(s) => s,
                None => FieldLevelSetter::default(),
            },
            setter_set,
            from: block.from,
            into: block.into,
            attributes: match block.attributes {
                Some(a) => a,
                None => no_words(),
            },
            named: field.name.is_some(),
        }
    }
}

/// Takes a field in under a key: merged into what stands there, or put at
/// the end where the key is new.
pub fn merge_or_insert(fields: &mut Vec<(String, Field)>, key: String, field: Field)
    ensures
        final(fields).deep_view() == merge_or_put(old(fields).deep_view(), key@, field.deep_view()),
{
    let ghost before = fields.deep_view();
    match position(fields, key.as_str()) {
        Some(i) => {
            proof {
                lemma_index_within(before, key@, before.len());
            }
            fields[i].1.merge(field);
            assert(fields.deep_view() =~= before.update(
                i as int,
                (key@, merged(before[i as int].1, field.deep_view())),
            ));
        },
        None => {
            fields.push((key, field));
            assert(fields.deep_view() =~= before.push((key@, field.deep_view())));
        },
    }
}

/// Declares the derived type of one annotation on the original type.
fn declare(types: &mut Vec<(String, StructOpts)>, annotation: &Annotation, vis: &str) -> (r: Result<
    (),
    Vec<Error>,
>)
    ensures
        match r {
            Ok(_) => declared_one(old(types).deep_view(), annotation.deep_view(), vis@) == Ok::<
                Seq<(Seq<char>, StructOptsModel)>,
                Seq<ErrorModel>,
            >(final(types).deep_view()),
            Err(e) => declared_one(old(types).deep_view(), annotation.deep_view(), vis@) == Err::<
                Seq<(Seq<char>, StructOptsModel)>,
                Seq<ErrorModel>,
            >(e.deep_view()),
        },
{
    match annotation {
        Annotation::Silent => Ok(()),
        Annotation::Broken(e) => Err(copy_errors(e)),
        Annotation::Block(items) => {
            let mut block = match StructBlock::from_list(items) {
                Ok(block) => block,
                Err(e) => {
                    return Err(e);
                },
            };
            let mut taken: Option<String> = None;
            std::mem::swap(&mut taken, &mut block.name);
            match taken {
                None => Err(fail(ErrorKind::MissingField(owned("name")))),
                Some(name) => {
                    let key = name.clone();
                    let opts = StructOpts::from_block(block, name, vis);
                    insert(types, key, opts);
                    Ok(())
                },
            }
        },
    }
}

/// Sends one annotation of a field to its derived type.
fn route(
    types: &mut Vec<(String, StructOpts)>,
    field: &AnnotatedField,
    key: &String,
    annotation: &Annotation,
) -> (r: Result<(), Vec<Error>>)
    ensures
        match r {
            Ok(_) => routed_one(
                old(types).deep_view(),
                field.deep_view(),
                key@,
                annotation.deep_view(),
            ) == Ok::<Seq<(Seq<char>, StructOptsModel)>, Seq<ErrorModel>>(final(types).deep_view()),
            Err(e) => routed_one(
                old(types).deep_view(),
                field.deep_view(),
                key@,
                annotation.deep_view(),
            ) == Err::<Seq<(Seq<char>, StructOptsModel)>, Seq<ErrorModel>>(e.deep_view()),
        },
{
    let ghost before = types.deep_view();
    match annotation {
        Annotation::Silent => Ok(()),
        Annotation::Broken(e) => Err(copy_errors(e)),
        Annotation::Block(items) => {
            let block = match FieldBlock::from_list(items) {
                Ok(block) => block,
                Err(e) => {
                    return Err(e);
                },
            };
            if types.len() == 0 {
                return Err(fail(ErrorKind::NoDerivedType));
            }
            let t = match &block.parent {
                Some(parent) => match position(types, parent.as_str()) {
                    None => {
                        return Err(fail(ErrorKind::UnknownParent(parent.clone())));
                    },
                    Some(t) => t,
                },
                None => {
                    if types.len() > 1 {
                        return Err(fail(ErrorKind::ParentRequired));
                    }
                    0
                },
            };
            let made = Field::from_block(field, block);
            merge_or_insert(&mut types[t].1.fields, key.clone(), made);
            assert(types.deep_view() =~= with_field(before, t as int, key@, made.deep_view()));
            Ok(())
        },
    }
}

/// Fills the field under `key` in, as it stands in the original type,
/// wherever a derived type has nothing under that key.
fn backfill(types: &mut Vec<(String, StructOpts)>, field: &AnnotatedField, key: &String)
    ensures
        final(types).deep_view() == backfilled(old(types).deep_view(), field.deep_view(), key@),
{
    let ghost before = types.deep_view();
    let n = types.len();
    let mut t: usize = 0;
    while t < n
        invariant
            t <= n,
            n == types.len(),
            before.len() == n,
            forall|u: int|
                0 <= u < t ==> types[u].deep_view() == (
                    before[u].0,
                    backfilled_one(before[u].0, before[u].1, field.deep_view(), key@),
                ),
            forall|u: int| t <= u < n ==> types[u].deep_view() == before[u],
        decreases n - t,
    {
        if position(&types[t].1.fields, key.as_str()).is_none() {
            let plain = Field::unannotated(
                field.ty.clone(),
                field.vis.clone(),
                types[t].0.clone(),
                field.name.is_some(),
            );
            let ghost fields = types[t as int].1.fields.deep_view();
            types[t].1.fields.push((key.clone(), plain));
            assert(types[t as int].1.fields.deep_view() =~= fields.push((key@, plain.deep_view())));
        }
        t += 1;
    }
    assert(types.deep_view() =~= backfilled(before, field.deep_view(), key@));
}

/// Walks one field of the original type.
fn walk(types: &mut Vec<(String, StructOpts)>, field: &AnnotatedField, place: usize) -> (r: Result<
    (),
    Failure,
>)
    ensures
        match r {
            Ok(_) => walked_one(old(types).deep_view(), field.deep_view(), place as nat) == Ok::<
                Seq<(Seq<char>, StructOptsModel)>,
                FailureModel,
            >(final(types).deep_view()),
            Err(e) => walked_one(old(types).deep_view(), field.deep_view(), place as nat) == Err::<
                Seq<(Seq<char>, StructOptsModel)>,
                FailureModel,
            >(e.deep_view()),
        },
{
    let ghost before = types.deep_view();
    let key = key_of(&field.name, place);
    let n = field.annotations.len();
    let mut j: usize = 0;
    while j < n
        invariant
            j <= n,
            n == field.annotations.len(),
            before == old(types).deep_view(),
            key@ == field_key(field.deep_view().name, place as nat),
            routed(before, field.deep_view(), key@, place as nat, j as nat) == Ok::<
                Seq<(Seq<char>, StructOptsModel)>,
                FailureModel,
            >(types.deep_view()),
        decreases n - j,
    {
        match route(types, field, &key, &field.annotations[j]) {
            Ok(_) => {},
            Err(errors) => {
                proof {
                    lemma_routed_err(
                        before,
                        field.deep_view(),
                        key@,
                        place as nat,
                        j as nat + 1,
                        n as nat,
                    );
                }
                return Err(
                    Failure {
                        origin: Origin::FieldAttribute { field: place, attribute: j },
                        errors,
                    },
                );
            },
        }
        j += 1;
    }
    backfill(types, field, &key);
    Ok(())
}

impl FromIt {
    /// Resolves an annotated definition whose attributes have been read.
    pub fn resolve(input: &Annotated) -> (r: Result<FromIt, Failure>)
        ensures
            settles(r, resolved(input.deep_view())),
    {
        let fields = match &input.data {
            AnnotatedData::Enum => {
                return Err(
                    Failure {
                        origin: Origin::Definition,
                        errors: fail(ErrorKind::UnsupportedShape(Shape::Enum)),
                    },
                );
            },
            AnnotatedData::Union => {
                return Err(
                    Failure {
                        origin: Origin::Definition,
                        errors: fail(ErrorKind::UnsupportedShape(Shape::Union)),
                    },
                );
            },
            AnnotatedData::Struct(fields) => fields,
        };
        let mut types: Vec<(String, StructOpts)> = Vec::new();
        assert(types.deep_view() =~= Seq::<(Seq<char>, StructOptsModel)>::empty());
        let n = input.annotations.len();
        let mut i: usize = 0;
        while i < n
            invariant
                i <= n,
                n == input.annotations.len(),
                input.deep_view().data == AnnotatedDataModel::Struct(fields.deep_view()),
                declared(input.deep_view().annotations, input.vis@, i as nat) == Ok::<
                    Seq<(Seq<char>, StructOptsModel)>,
                    FailureModel,
                >(types.deep_view()),
            decreases n - i,
        {
            match declare(&mut types, &input.annotations[i], input.vis.as_str()) {
                Ok(_) => {},
                Err(errors) => {
                    proof {
                        lemma_declared_err(
                            input.deep_view().annotations,
                            input.vis@,
                            i as nat + 1,
                            n as nat,
                        );
                    }
                    return Err(Failure { origin: Origin::TypeAttribute(i), errors });
                },
            }
            i += 1;
        }
        let ghost first = types.deep_view();
        let m = fields.len();
        let mut k: usize = 0;
        while k < m
            invariant
                k <= m,
                m == fields.len(),
                input.deep_view().data == AnnotatedDataModel::Struct(fields.deep_view()),
                declared(
                    input.deep_view().annotations,
                    input.vis@,
                    input.annotations.len() as nat,
                ) == Ok::<Seq<(Seq<char>, StructOptsModel)>, FailureModel>(first),
                walked(first, fields.deep_view(), k as nat) == Ok::<
                    Seq<(Seq<char>, StructOptsModel)>,
                    FailureModel,
                >(types.deep_view()),
            decreases m - k,
        {
            match walk(&mut types, &fields[k], k) {
                Ok(_) => {},
                Err(e) => {
                    proof {
                        lemma_walked_err(first, fields.deep_view(), k as nat + 1, m as nat);
                    }
                    return Err(e);
                },
            }
            k += 1;
        }
        Ok(
            FromIt {
                name: input.name.clone(),
                struct_opts: types,
                generics: input.generics.clone(),
                where_clause: input.where_clause.clone(),
            },
        )
    }

    /// Resolves an annotated definition. The shape is looked at first:
    /// of what is no record, no attribute is read.
    pub fn from_derive_input(input: &DeriveInput) -> (r: Result<FromIt, Failure>)
        ensures
            settles(r, resolved(annotated_of(input.deep_view()))),
    {
        match &input.data {
            Data::Enum => Err(
                Failure {
                    origin: Origin::Definition,
                    errors: fail(ErrorKind::UnsupportedShape(Shape::Enum)),
                },
            ),
            Data::Union => Err(
                Failure {
                    origin: Origin::Definition,
                    errors: fail(ErrorKind::UnsupportedShape(Shape::Union)),
                },
            ),
            Data::Struct(_) => FromIt::resolve(&Annotated::read(input)),
        }
    }
}

} // verus!
