//! The conversion from a derived type back into the original type.

use crate::convert::{
    ConversionPlan, ConversionPlanModel, Direction, FieldInit, FieldInitModel, Init, InitModel,
    TypeRef, TypeRefModel,
};
use crate::error::{agrees, fail, only, Error, ErrorKind, ErrorKindModel, ErrorModel};
use crate::field::{Field, FieldModel};
use crate::from::{
    convert, converted, derived_name, from_inits, lemma_from_plain, mirrored, name_in_derived,
    plain_field,
};
use crate::generics::{FinalGenerics, FinalGenericsModel};
use crate::resolve::{StructOpts, StructOptsModel};
use crate::structure::ConverterModel;
use crate::style::Style;
use vstd::prelude::*;

verus! {

/// What a derived type asks for in the direction into the original type.
pub open spec fn into_direction(converter: ConverterModel) -> Direction {
    match (converter.try_into, converter.into) {
        (None, None) => Direction::Absent,
        (None, Some(style)) => Direction::Plain(style),
        (Some(t), None) => Direction::Fallible(t.style, t.error),
        (Some(_), Some(_)) => Direction::Both,
    }
}

/// How a field of the original type gets its value back: a field that the
/// derived type left out, from its default; any other, converted from the
/// field of the derived type.
pub open spec fn into_init(key: Seq<char>, field: FieldModel, style: Style) -> FieldInitModel {
    FieldInitModel {
        name: key,
        init: match field.skip {
            Some(skip) => InitModel::Default { func: skip.default },
            None => converted(derived_name(key, field), field.into, style),
        },
    }
}

/// The fields that a conversion into the original type assigns: every
/// field of the original type, in order.
pub open spec fn into_fields(fields: Seq<(Seq<char>, FieldModel)>, style: Style) -> Seq<
    FieldInitModel,
> {
    Seq::new(fields.len(), |i: int| into_init(fields[i].0, fields[i].1, style))
}

/// The conversion into the original type, of the given kind.
pub open spec fn into_conversion(
    src_name: Seq<char>,
    opts: StructOptsModel,
    generics: FinalGenericsModel,
    fallible: bool,
    style: Style,
    error: Option<Seq<char>>,
) -> ConversionPlanModel {
    ConversionPlanModel {
        fallible,
        style,
        error,
        impl_generics: generics.final_impl_generics,
        source: TypeRefModel { name: opts.name, generics: generics.ty_generics },
        target: TypeRefModel { name: src_name, generics: generics.src_ty_generics },
        where_clause: generics.final_where_clause,
        fields: into_fields(opts.fields, style),
    }
}

/// The conversion from a derived type into the original type named
/// `src_name`: none where the derived type asks for none, and a failure
/// where it asks for both a plain and a fallible one.
pub open spec fn into_plan(
    src_name: Seq<char>,
    opts: StructOptsModel,
    generics: FinalGenericsModel,
) -> Result<
    Option<ConversionPlanModel>,
    Seq<ErrorModel>,
> {
    match into_direction(opts.converter) {
        Direction::Absent => Ok(None),
        Direction::Both => Err(only(ErrorKindModel::ConflictingConverters)),
        Direction::Plain(style) => Ok(
            Some(into_conversion(src_name, opts, generics, false, style, None)),
        ),
        Direction::Fallible(style, error) => Ok(
            Some(into_conversion(src_name, opts, generics, true, style, error)),
        ),
    }
}

/// How a field of the original type gets its value back.
fn init_into(key: &String, field: &Field, style: Style) -> (r: FieldInit)
    ensures
        r.deep_view() == into_init(key@, field.deep_view(), style),
{
    FieldInit {
        name: key.clone(),
        init: match &field.skip {
            Some(skip) => Init::Default { func: skip.default.clone() },
            None => convert(name_in_derived(key, field), &field.into, style),
        },
    }
}

/// The fields that a conversion into the original type assigns.
fn fields_into(fields: &Vec<(String, Field)>, style: Style) -> (r: Vec<FieldInit>)
    ensures
        r.deep_view() == into_fields(fields.deep_view(), style),
{
    let mut inits: Vec<FieldInit> = Vec::new();
    let n = fields.len();
    let mut i: usize = 0;
    while i < n
        invariant
            i <= n,
            n == fields.len(),
            inits.len() == i,
            forall|j: int|
                0 <= j < i ==> inits[j].deep_view() == into_init(
                    fields[j].0@,
                    fields[j].1.deep_view(),
                    style,
                ),
        decreases n - i,
    {
        let (key, field) = &fields[i];
        inits.push(init_into(key, field, style));
        i += 1;
    }
    assert(inits.deep_view() =~= into_fields(fields.deep_view(), style));
    inits
}

/// Plans the conversion from a derived type into the original type named
/// `src_name`.
pub fn generate_into(src_name: &str, opts: &StructOpts, generics: &FinalGenerics) -> (r: Result<
    Option<ConversionPlan>,
    Vec<Error>,
>)
    ensures
        agrees(r, into_plan(src_name@, opts.deep_view(), generics.deep_view())),
{
    let (fallible, style, error) = match (&opts.converter.try_into, &opts.converter.into) {
        (None, None) => {
            return Ok(None);
        },
        (None, Some(style)) => (false, *style, None),
        (Some(t), None) => (true, t.style, t.error.clone()),
        (Some(_), Some(_)) => {
            return Err(fail(ErrorKind::ConflictingConverters));
        },
    };
    Ok(
        Some(
            ConversionPlan {
                fallible,
                style,
                error,
                impl_generics: generics.final_impl_generics.clone(),
                source: TypeRef { name: opts.name.clone(), generics: generics.ty_generics.clone() },
                target: TypeRef {
                    name: crate::text::owned(src_name),
                    generics: generics.src_ty_generics.clone(),
                },
                where_clause: generics.final_where_clause.clone(),
                fields: fields_into(&opts.fields, style),
            },
        ),
    )
}

/// A derived type that asks for both the plain and the fallible
/// conversion into the original type gets neither: planning fails, and so
/// whatever fields there are.
pub proof fn lemma_into_conflict(
    src_name: Seq<char>,
    opts: StructOptsModel,
    generics: FinalGenericsModel,
)
    requires
        opts.converter.try_into is Some,
        opts.converter.into is Some,
    ensures
        into_plan(src_name, opts, generics) == Err::<Option<ConversionPlanModel>, Seq<ErrorModel>>(
            only(ErrorKindModel::ConflictingConverters),
        ),
{
}

/// A field that the derived type leaves out still gets a value on the way
/// back into the original type: that of the function which its skip
/// marker names, called without arguments, or, where the marker names
/// none, the type's default.
pub proof fn lemma_into_fills_in(fields: Seq<(Seq<char>, FieldModel)>, style: Style, i: int)
    requires
        0 <= i < fields.len(),
        fields[i].1.skip is Some,
    ensures
        into_fields(fields, style).len() == fields.len(),
        into_fields(fields, style)[i] == (FieldInitModel {
            name: fields[i].0,
            init: InitModel::Default { func: fields[i].1.skip->0.default },
        }),
{
}

/// With every field plain, the two conversions mirror each other: what
/// the conversion from the original type assigned to a field of the
/// derived type, the conversion into the original type reads from that
/// very field and assigns back to the field it came from, both in the
/// same style and both by the built-in conversion.
pub proof fn lemma_conversions_mirror(fields: Seq<(Seq<char>, FieldModel)>, style: Style)
    requires
        forall|i: int| 0 <= i < fields.len() ==> plain_field(#[trigger] fields[i].1),
    ensures
        into_fields(fields, style) == mirrored(fields, style, fields.len()),
        from_inits(fields, style, fields.len()) == into_fields(fields, style),
{
    lemma_from_plain(fields, style, fields.len());
    assert forall|i: int| 0 <= i < fields.len() implies into_fields(fields, style)[i] == mirrored(
        fields,
        style,
        fields.len(),
    )[i] by {
        assert(plain_field(fields[i].1));
    }
    assert(into_fields(fields, style) =~= mirrored(fields, style, fields.len()));
}

} // verus!
