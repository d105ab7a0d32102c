//! The conversion from the original type to a derived type.

use crate::convert::{
    ConversionPlan, ConversionPlanModel, Direction, FieldInit, FieldInitModel, Init, InitModel,
    TypeRef, TypeRefModel,
};
use crate::error::{agrees, fail, only, Error, ErrorKind, ErrorKindModel, ErrorModel};
use crate::field::{ExtraField, ExtraFieldModel, Field, FieldModel};
use crate::generics::{FinalGenerics, FinalGenericsModel};
use crate::resolve::{StructOpts, StructOptsModel};
use crate::structure::ConverterModel;
use crate::style::{FieldConverter, FieldConverterModel, Style};
use vstd::prelude::*;

verus! {

/// The name of a field in the derived type: the one it is renamed to, or
/// the key that it stands under.
pub open spec fn derived_name(key: Seq<char>, field: FieldModel) -> Seq<char> {
    match field.rename {
        Some(name) => name,
        None => key,
    }
}

/// The name of an extra field: its own, or the key that it stands under.
pub open spec fn extra_name(key: Seq<char>, field: ExtraFieldModel) -> Seq<char> {
    match field.name {
        Some(name) => name,
        None => key,
    }
}

/// What a derived type asks for in the direction from the original type.
pub open spec fn from_direction(converter: ConverterModel) -> Direction {
    match (converter.try_from, converter.from) {
        (None, None) => Direction::Absent,
        (None, Some(style)) => Direction::Plain(style),
        (Some(t), None) => Direction::Fallible(t.style, t.error),
        (Some(_), Some(_)) => Direction::Both,
    }
}

/// How a field is converted: by its own converter, where it has one, in
/// the converter's style or else in the style of the whole conversion;
/// without one, by the built-in conversion in the style of the whole.
pub open spec fn converted(
    source: Seq<char>,
    converter: Option<FieldConverterModel>,
    style: Style,
) -> InitModel {
    match converter {
        Some(c) => InitModel::Convert {
            source,
            style: match c.style {
                Some(s) => s,
                None => style,
            },
            func: c.func,
        },
        None => InitModel::Convert { source, style, func: None },
    }
}

/// How a field of the derived type gets its value from the original.
pub open spec fn from_init(key: Seq<char>, field: FieldModel, style: Style) -> FieldInitModel {
    FieldInitModel { name: derived_name(key, field), init: converted(key, field.from, style) }
}

/// How an extra field gets its value: from its default.
pub open spec fn extra_init(key: Seq<char>, field: ExtraFieldModel) -> FieldInitModel {
    FieldInitModel {
        name: extra_name(key, field),
        init: InitModel::Default { func: field.default },
    }
}

/// The extra fields of a derived type, each with its default.
pub open spec fn extra_inits(fields: Seq<(Seq<char>, ExtraFieldModel)>) -> Seq<FieldInitModel> {
    Seq::new(fields.len(), |i: int| extra_init(fields[i].0, fields[i].1))
}

/// The fields among the first `n` that the derived type keeps, each
/// converted from the original.
pub open spec fn from_inits(fields: Seq<(Seq<char>, FieldModel)>, style: Style, n: nat) -> Seq<
    FieldInitModel,
>
    decreases n,
{
    if n == 0 || n > fields.len() {
        Seq::empty()
    } else {
        let before = from_inits(fields, style, (n - 1) as nat);
        if fields[n - 1].1.skip is Some {
            before
        } else {
            before.push(from_init(fields[n - 1].0, fields[n - 1].1, style))
        }
    }
}

/// The extra fields that a derived type has.
pub open spec fn extras_of(opts: StructOptsModel) -> Seq<(Seq<char>, ExtraFieldModel)> {
    match opts.extra {
        Some(extra) => extra.fields,
        None => Seq::empty(),
    }
}

/// The fields that a conversion from the original type assigns: the extra
/// fields first, then the kept fields, in their order.
pub open spec fn from_fields(opts: StructOptsModel, style: Style) -> Seq<FieldInitModel> {
    extra_inits(extras_of(opts)) + from_inits(opts.fields, style, opts.fields.len())
}

/// The conversion from the original type named `src_name` to a derived
/// type: none where the derived type asks for none, and a failure where
/// it asks for both a plain and a fallible one.
pub open spec fn from_plan(
    src_name: Seq<char>,
    opts: StructOptsModel,
    generics: FinalGenericsModel,
) -> Result<
    Option<ConversionPlanModel>,
    Seq<ErrorModel>,
> {
    match from_direction(opts.converter) {
        Direction::Absent => Ok(None),
        Direction::Both => Err(only(ErrorKindModel::ConflictingConverters)),
        Direction::Plain(style) => Ok(
            Some(from_conversion(src_name, opts, generics, false, style, None)),
        ),
        Direction::Fallible(style, error) => Ok(
            Some(from_conversion(src_name, opts, generics, true, style, error)),
        ),
    }
}

/// The conversion from the original type, of the given kind.
pub open spec fn from_conversion(
    src_name: Seq<char>,
    opts: StructOptsModel,
    generics: FinalGenericsModel,
    fallible: bool,
    style: Style,
    error: Option<Seq<char>>,
) -> ConversionPlanModel {
    ConversionPlanModel {
        fallible,
        style,
        error,
        impl_generics: generics.final_impl_generics,
        source: TypeRefModel { name: src_name, generics: generics.src_ty_generics },
        target: TypeRefModel { name: opts.name, generics: generics.ty_generics },
        where_clause: generics.final_where_clause,
        fields: from_fields(opts, style),
    }
}

/// The value of one field, converted.
pub fn convert(source: String, converter: &Option<FieldConverter>, style: Style) -> (r: Init)
    ensures
        r.deep_view() == converted(source@, converter.deep_view(), style),
{
    match converter {
        Some(c) => Init::Convert {
            source,
            style: match c.style {
                Some(s) => s,
                None => style,
            },
            func: c.func.clone(),
        },
        None => Init::Convert { source, style, func: None },
    }
}

/// The name of a field in the derived type.
pub fn name_in_derived(key: &String, field: &Field) -> (r: String)
    ensures
        r@ == derived_name(key@, field.deep_view()),
{
    match &field.rename {
        Some(name) => name.clone(),
        None => key.clone(),
    }
}

/// The name of an extra field.
pub fn name_of_extra(key: &String, field: &ExtraField) -> (r: String)
    ensures
        r@ == extra_name(key@, field.deep_view()),
{
    match &field.name {
        Some(name) => name.clone(),
        None => key.clone(),
    }
}

/// The fields that a conversion from the original type assigns.
fn fields_from(opts: &StructOpts, style: Style) -> (r: Vec<FieldInit>)
    ensures
        r.deep_view() == from_fields(opts.deep_view(), style),
{
    let mut inits: Vec<FieldInit> = Vec::new();
    match &opts.extra {
        Some(extra) => {
            let n = extra.fields.len();
            let mut i: usize = 0;
            while i < n
                invariant
                    i <= n,
                    n == extra.fields.len(),
                    inits.len() == i,
                    forall|j: int|
                        0 <= j < i ==> inits[j].deep_view() == extra_init(
                            extra.fields[j].0@,
                            extra.fields[j].1.deep_view(),
                        ),
                decreases n - i,
            {
                let (key, field) = &extra.fields[i];
                inits.push(
                    FieldInit {
                        name: name_of_extra(key, field),
                        init: Init::Default { func: field.default.clone() },
                    },
                );
                i += 1;
            }
            assert(inits.deep_view() =~= extra_inits(extras_of(opts.deep_view())));
        },
        None => {
            assert(inits.deep_view() =~= extra_inits(extras_of(opts.deep_view())));
        },
    }
    let ghost first = inits.deep_view();
    let n = opts.fields.len();
    let mut i: usize = 0;
    assert(inits.deep_view() =~= first + from_inits(opts.deep_view().fields, style, 0));
    while i < n
        invariant
            i <= n,
            n == opts.fields.len(),
            inits.deep_view() == first + from_inits(opts.deep_view().fields, style, i as nat),
        decreases n - i,
    {
        let (key, field) = &opts.fields[i];
        if field.skip.is_none() {
            let ghost before = inits.deep_view();
            let init = FieldInit {
                name: name_in_derived(key, field),
                init: convert(key.clone(), &field.from, style),
            };
            inits.push(init);
            assert(inits.deep_view() =~= before.push(init.deep_view()));
            assert(inits.deep_view() =~= first + from_inits(
                opts.deep_view().fields,
                style,
                (i + 1) as nat,
            ));
        }
        i += 1;
    }
    inits
}

/// Plans the conversion from the original type named `src_name` to a
/// derived type.
pub fn generate_from(src_name: &str, opts: &StructOpts, generics: &FinalGenerics) -> (r: Result<
    Option<ConversionPlan>,
    Vec<Error>,
>)
    ensures
        agrees(r, from_plan(src_name@, opts.deep_view(), generics.deep_view())),
{
    let (fallible, style, error) = match (&opts.converter.try_from, &opts.converter.from) {
        (None, None) => {
            return Ok(None);
        },
        (None, Some(style)) => (false, *style, None),
        (Some(t), None) => (true, t.style, t.error.clone()),
        (Some(_), Some(_)) => {
            return Err(fail(ErrorKind::ConflictingConverters));
        },
    };
    Ok(
        Some(
            ConversionPlan {
                fallible,
                style,
                error,
                impl_generics: generics.final_impl_generics.clone(),
                source: TypeRef {
                    name: crate::text::owned(src_name),
                    generics: generics.src_ty_generics.clone(),
                },
                target: TypeRef { name: opts.name.clone(), generics: generics.ty_generics.clone() },
                where_clause: generics.final_where_clause.clone(),
                fields: fields_from(opts, style),
            },
        ),
    )
}

/// A derived type that asks for both the plain and the fallible
/// conversion from the original type gets neither: planning fails, and so
/// whatever fields there are.
pub proof fn lemma_from_conflict(
    src_name: Seq<char>,
    opts: StructOptsModel,
    generics: FinalGenericsModel,
)
    requires
        opts.converter.try_from is Some,
        opts.converter.from is Some,
    ensures
        from_plan(src_name, opts, generics) == Err::<Option<ConversionPlanModel>, Seq<ErrorModel>>(
            only(ErrorKindModel::ConflictingConverters),
        ),
{
}

/// A field that the derived type leaves out is assigned nothing by the
/// conversion from the original type.
pub proof fn lemma_from_leaves_out(fields: Seq<(Seq<char>, FieldModel)>, style: Style, i: int)
    requires
        0 <= i < fields.len(),
        fields[i].1.skip is Some,
    ensures
        from_inits(fields, style, (i + 1) as nat) == from_inits(fields, style, i as nat),
{
}

/// Whether a field is neither left out nor renamed, and converted in the
/// usual way in both directions.
pub open spec fn plain_field(field: FieldModel) -> bool {
    &&& field.skip is None
    &&& field.rename is None
    &&& field.from is None
    &&& field.into is None
}

/// The fields that a conversion in either direction assigns when every
/// field is plain: each under its own key, from the field of that key,
/// by the built-in conversion.
pub open spec fn mirrored(fields: Seq<(Seq<char>, FieldModel)>, style: Style, n: nat) -> Seq<
    FieldInitModel,
> {
    Seq::new(
        n,
        |i: int|
            FieldInitModel {
                name: fields[i].0,
                init: InitModel::Convert { source: fields[i].0, style, func: None },
            },
    )
}

/// With every field plain, the conversion from the original type assigns
/// each field of the derived type from the field of the same name.
pub proof fn lemma_from_plain(fields: Seq<(Seq<char>, FieldModel)>, style: Style, n: nat)
    requires
        n <= fields.len(),
        forall|i: int| 0 <= i < fields.len() ==> plain_field(#[trigger] fields[i].1),
    ensures
        from_inits(fields, style, n) == mirrored(fields, style, n),
    decreases n,
{
    if n == 0 {
        assert(from_inits(fields, style, n) =~= mirrored(fields, style, n));
    } else {
        lemma_from_plain(fields, style, (n - 1) as nat);
        assert(plain_field(fields[n - 1].1));
        assert(from_inits(fields, style, n) =~= mirrored(fields, style, n));
    }
}

} // verus!
