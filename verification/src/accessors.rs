//! The getters of a derived type.

use crate::field::{unannotated, ExtraFieldModel, FieldModel};
use crate::from::{derived_name, extra_name, extras_of, name_in_derived, name_of_extra};
use crate::generics::{FinalGenerics, FinalGenericsModel};
use crate::getter::{
    AccessorConverter, AccessorConverterModel, FieldLevelGetter, FieldLevelGetterModel,
};
use crate::resolve::{StructOpts, StructOptsModel};
use crate::style::Style;
use crate::text::join;
use vstd::prelude::*;

verus! {

/// One generated getter.
#[derive(Clone, Debug, PartialEq, Eq)]
pub struct GetterPlan {
    pub vis: String,
    /// The getter's name.
    pub fn_name: String,
    /// Generic parameters of the getter itself.
    pub bound: Option<String>,
    /// Whether the getter borrows the value it is called on or takes it.
    pub receiver: Style,
    /// The type returned, before which `&` stands where `ty_style` is by
    /// reference.
    pub ty: String,
    pub ty_style: Style,
    /// The field read.
    pub field: String,
    /// Whether the field is handed on by reference or moved.
    pub value_style: Style,
    /// The function that the field is handed to; without one the field
    /// itself is returned.
    pub func: Option<String>,
}

/// The getters of a derived type.
#[derive(Clone, Debug, PartialEq, Eq)]
pub struct AccessorPlan {
    /// The derived type's name.
    pub name: String,
    pub impl_generics: String,
    pub ty_generics: String,
    pub where_clause: Option<String>,
    /// The getters of the fields kept from the original type.
    pub getters: Vec<GetterPlan>,
    /// The getters of the extra fields.
    pub extra_getters: Vec<GetterPlan>,
}

/// Mathematical form of [`GetterPlan`].
pub ghost struct GetterPlanModel {
    pub vis: Seq<char>,
    pub fn_name: Seq<char>,
    pub bound: Option<Seq<char>>,
    pub receiver: Style,
    pub ty: Seq<char>,
    pub ty_style: Style,
    pub field: Seq<char>,
    pub value_style: Style,
    pub func: Option<Seq<char>>,
}

/// Mathematical form of [`AccessorPlan`].
pub ghost struct AccessorPlanModel {
    pub name: Seq<char>,
    pub impl_generics: Seq<char>,
    pub ty_generics: Seq<char>,
    pub where_clause: Option<Seq<char>>,
    pub getters: Seq<GetterPlanModel>,
    pub extra_getters: Seq<GetterPlanModel>,
}

impl DeepView for GetterPlan {
    type V = GetterPlanModel;

    open spec fn deep_view(&self) -> GetterPlanModel {
        GetterPlanModel {
            vis: self.vis@,
            fn_name: self.fn_name@,
            bound: self.bound.deep_view(),
            receiver: self.receiver,
            ty: self.ty@,
            ty_style: self.ty_style,
            field: self.field@,
            value_style: self.value_style,
            func: self.func.deep_view(),
        }
    }
}

impl DeepView for AccessorPlan {
    type V = AccessorPlanModel;

    open spec fn deep_view(&self) -> AccessorPlanModel {
        AccessorPlanModel {
            name: self.name@,
            impl_generics: self.impl_generics@,
            ty_generics: self.ty_generics@,
            where_clause: self.where_clause.deep_view(),
            getters: self.getters.deep_view(),
            extra_getters: self.extra_getters.deep_view(),
        }
    }
}

/// The visibility of a generated method: the most specific that is set,
/// of the method's own, the one for all methods of its kind, the field's,
/// and the derived type's.
pub open spec fn method_vis(
    own: Option<Seq<char>>,
    all: Option<Seq<char>>,
    field: Option<Seq<char>>,
    of_type: Seq<char>,
) -> Seq<char> {
    match own {
        Some(v) => v,
        None => match all {
            Some(v) => v,
            None => match field {
                Some(v) => v,
                None => of_type,
            },
        },
    }
}

/// The name of a getter: the one it is renamed to, else the field's name
/// behind the prefix and `_`, else the field's name.
pub open spec fn getter_name(
    rename: Option<Seq<char>>,
    prefix: Option<Seq<char>>,
    field: Seq<char>,
) -> Seq<char> {
    match rename {
        Some(name) => name,
        None => match prefix {
            Some(p) => p + "_"@ + field,
            None => field,
        },
    }
}

/// The getter of a field that only hands the field out.
pub open spec fn plain_getter(
    vis: Seq<char>,
    fn_name: Seq<char>,
    style: Style,
    field: Seq<char>,
    ty: Seq<char>,
) -> GetterPlanModel {
    GetterPlanModel {
        vis,
        fn_name,
        bound: None,
        receiver: Style::Ref,
        ty,
        ty_style: style,
        field,
        value_style: style,
        func: None,
    }
}

/// The getter of a field with an accessor of its own: the accessor's type
/// and parameters, and its converter in the converter's style or else in
/// the getter's.
pub open spec fn accessor_getter(
    accessor: AccessorConverterModel,
    field: Seq<char>,
    field_ty: Seq<char>,
    style: Style,
    vis: Seq<char>,
    fn_name: Seq<char>,
) -> GetterPlanModel {
    GetterPlanModel {
        vis,
        fn_name,
        bound: accessor.bound.bound,
        receiver: style,
        ty: match accessor.ty {
            Some(t) => t,
            None => field_ty,
        },
        ty_style: Style::Move,
        field,
        value_style: match accessor.converter.style {
            Some(s) => s,
            None => style,
        },
        func: accessor.converter.func,
    }
}

/// The getter of a field with the given getter options.
pub open spec fn getter_for(
    opts: StructOptsModel,
    getter: FieldLevelGetterModel,
    field_vis: Option<Seq<char>>,
    field: Seq<char>,
    field_ty: Seq<char>,
) -> GetterPlanModel {
    let vis = method_vis(getter.vis, opts.getters.vis_all, field_vis, opts.vis);
    let fn_name = getter_name(getter.rename, opts.getters.prefix, field);
    let style = match getter.style {
        Some(s) => s,
        None => opts.getters.style,
    };
    match getter.result {
        Some(accessor) => accessor_getter(accessor, field, field_ty, style, vis, fn_name),
        None => plain_getter(vis, fn_name, style, field, field_ty),
    }
}

/// The getter of a field kept from the original type.
pub open spec fn field_getter(
    opts: StructOptsModel,
    key: Seq<char>,
    field: FieldModel,
) -> GetterPlanModel {
    getter_for(
        opts,
        field.getter,
        field.vis,
        derived_name(key, field),
        match field.typ {
            Some(t) => t,
            None => field.src_ty,
        },
    )
}

/// The getter of an extra field.
pub open spec fn extra_getter(
    opts: StructOptsModel,
    key: Seq<char>,
    field: ExtraFieldModel,
) -> GetterPlanModel {
    getter_for(opts, field.getter, field.vis, extra_name(key, field), field.src_ty)
}

/// The getters of the fields among the first `n`: of those that are
/// neither left out nor without a getter.
pub open spec fn field_getters(opts: StructOptsModel, n: nat) -> Seq<GetterPlanModel>
    decreases n,
{
    if n == 0 || n > opts.fields.len() {
        Seq::empty()
    } else {
        let before = field_getters(opts, (n - 1) as nat);
        let field = opts.fields[n - 1].1;
        if field.skip is Some || field.getter.ignore {
            before
        } else {
            before.push(field_getter(opts, opts.fields[n - 1].0, field))
        }
    }
}

/// The getters of the extra fields among the first `n`: of those that are
/// not without a getter.
pub open spec fn extra_getters(opts: StructOptsModel, n: nat) -> Seq<GetterPlanModel>
    decreases n,
{
    if n == 0 || n > extras_of(opts).len() {
        Seq::empty()
    } else {
        let before = extra_getters(opts, (n - 1) as nat);
        let field = extras_of(opts)[n - 1].1;
        if field.getter.ignore {
            before
        } else {
            before.push(extra_getter(opts, extras_of(opts)[n - 1].0, field))
        }
    }
}

/// The getters of a derived type; none where it wants none at all.
pub open spec fn accessor_plan(opts: StructOptsModel, generics: FinalGenericsModel) -> Option<
    AccessorPlanModel,
> {
    if opts.getters.ignore {
        None
    } else {
        Some(
            AccessorPlanModel {
                name: opts.name,
                impl_generics: generics.impl_generics,
                ty_generics: generics.ty_generics,
                where_clause: generics.where_clause,
                getters: field_getters(opts, opts.fields.len()),
                extra_getters: extra_getters(opts, extras_of(opts).len()),
            },
        )
    }
}

/// The visibility of a generated method.
pub fn vis_of_method(
    own: &Option<String>,
    all: &Option<String>,
    field: &Option<String>,
    of_type: &String,
) -> (r: String)
    ensures
        r@ == method_vis(own.deep_view(), all.deep_view(), field.deep_view(), of_type@),
{
    match own {
        Some(v) => v.clone(),
        None => match all {
            Some(v) => v.clone(),
            None => match field {
                Some(v) => v.clone(),
                None => of_type.clone(),
            },
        },
    }
}

/// The name of a getter.
pub fn name_of_getter(
    rename: &Option<String>,
    prefix: &Option<String>,
    field: &String,
) -> (r: String)
    ensures
        r@ == getter_name(rename.deep_view(), prefix.deep_view(), field@),
{
    match rename {
        Some(name) => name.clone(),
        None => match prefix {
            Some(p) => join(join(p.as_str(), "_").as_str(), field.as_str()),
            None => field.clone(),
        },
    }
}

impl AccessorConverter {
    /// The getter of a field with this accessor.
    pub fn to_getter(
        &self,
        field_name: String,
        field_ty: String,
        style: Style,
        vis: String,
        fn_name: String,
    ) -> (r: GetterPlan)
        ensures
            r.deep_view() == accessor_getter(
                self.deep_view(),
                field_name@,
                field_ty@,
                style,
                vis@,
                fn_name@,
            ),
    {
        GetterPlan {
            vis,
            fn_name,
            bound: self.bound.bound.clone(),
            receiver: style,
            ty: match &self.ty {
                Some(t) => t.clone(),
                None => field_ty,
            },
            ty_style: Style::Move,
            field: field_name,
            value_style: match self.converter.style {
                Some(s) => s,
                None => style,
            },
            func: self.converter.func.clone(),
        }
    }
}

/// The getter of a field with the given getter options.
fn plan_getter(
    opts: &StructOpts,
    getter: &FieldLevelGetter,
    field_vis: &Option<String>,
    field: String,
    field_ty: String,
) -> (r: GetterPlan)
    ensures
        r.deep_view() == getter_for(
            opts.deep_view(),
            getter.deep_view(),
            field_vis.deep_view(),
            field@,
            field_ty@,
        ),
{
    let vis = vis_of_method(&getter.vis, &opts.getters.vis_all, field_vis, &opts.vis);
    let fn_name = name_of_getter(&getter.rename, &opts.getters.prefix, &field);
    let style = match getter.style {
        Some(s) => s,
        None => opts.getters.style,
    };
    match &getter.result {
        Some(accessor) => accessor.to_getter(field, field_ty, style, vis, fn_name),
        None => GetterPlan {
            vis,
            fn_name,
            bound: None,
            receiver: Style::Ref,
            ty: field_ty,
            ty_style: style,
            field,
            value_style: style,
            func: None,
        },
    }
}

/// Plans the getters of a derived type.
pub fn generate_getters(opts: &StructOpts, generics: &FinalGenerics) -> (r: Option<AccessorPlan>)
    ensures
        r.deep_view() == accessor_plan(opts.deep_view(), generics.deep_view()),
{
    if opts.getters.ignore {
        return None;
    }
    let mut extra_getters: Vec<GetterPlan> = Vec::new();
    assert(extra_getters.deep_view() =~= crate::accessors::extra_getters(opts.deep_view(), 0));
    match &opts.extra {
        Some(extra) => {
            let n = extra.fields.len();
            let mut i: usize = 0;
            while i < n
                invariant
                    i <= n,
                    n == extra.fields.len(),
                    opts.extra == Some(*extra),
                    extra_getters.deep_view() == crate::accessors::extra_getters(
                        opts.deep_view(),
                        i as nat,
                    ),
                decreases n - i,
            {
                let (key, field) = &extra.fields[i];
                if !field.getter.ignore {
                    let ghost before = extra_getters.deep_view();
                    let plan = plan_getter(
                        opts,
                        &field.getter,
                        &field.vis,
                        name_of_extra(key, field),
                        field.src_ty.clone(),
                    );
                    extra_getters.push(plan);
                    assert(extra_getters.deep_view() =~= before.push(plan.deep_view()));
                }
                i += 1;
            }
        },
        None => {},
    }
    let mut getters: Vec<GetterPlan> = Vec::new();
    assert(getters.deep_view() =~= field_getters(opts.deep_view(), 0));
    let n = opts.fields.len();
    let mut i: usize = 0;
    while i < n
        invariant
            i <= n,
            n == opts.fields.len(),
            getters.deep_view() == field_getters(opts.deep_view(), i as nat),
        decreases n - i,
    {
        let (key, field) = &opts.fields[i];
        if field.skip.is_none() && !field.getter.ignore {
            let ghost before = getters.deep_view();
            let plan = plan_getter(
                opts,
                &field.getter,
                &field.vis,
                name_in_derived(key, field),
                match &field.typ {
                    Some(t) => t.clone(),
                    None => field.src_ty.clone(),
                },
            );
            getters.push(plan);
            assert(getters.deep_view() =~= before.push(plan.deep_view()));
        }
        i += 1;
    }
    Some(
        AccessorPlan {
            name: opts.name.clone(),
            impl_generics: generics.impl_generics.clone(),
            ty_generics: generics.ty_generics.clone(),
            where_clause: generics.where_clause.clone(),
            getters,
            extra_getters,
        },
    )
}

/// A field about which nothing is said, in a derived type whose getter
/// policy is the default one, gets a getter under its own name that hands
/// it out by reference.
pub proof fn lemma_default_getter(
    opts: StructOptsModel,
    key: Seq<char>,
    ty: Seq<char>,
    vis: Seq<char>,
    named: bool,
)
    requires
        opts.getters == crate::getter::default_struct_getter(),
    ensures
        field_getter(opts, key, unannotated(ty, vis, opts.name, named)) == plain_getter(
            opts.vis,
            key,
            Style::Ref,
            key,
            ty,
        ),
{
}

/// Whether a field is kept and says nothing about its getter.
pub open spec fn plain_getter_field(field: FieldModel) -> bool {
    field.skip is None && field.getter == crate::getter::default_field_getter()
}

/// The getters of the first `n` fields where each is kept and says
/// nothing about its getter.
pub open spec fn plain_getters(opts: StructOptsModel, n: nat) -> Seq<GetterPlanModel> {
    Seq::new(n, |i: int| field_getter(opts, opts.fields[i].0, opts.fields[i].1))
}

/// Fields that are kept and say nothing about their getters get exactly
/// one getter each, in the order of the fields.
pub proof fn lemma_plain_getters(opts: StructOptsModel, n: nat)
    requires
        n <= opts.fields.len(),
        forall|i: int|
            0 <= i < opts.fields.len() ==> plain_getter_field(#[trigger] opts.fields[i].1),
    ensures
        field_getters(opts, n) == plain_getters(opts, n),
    decreases n,
{
    if n == 0 {
        assert(field_getters(opts, n) =~= plain_getters(opts, n));
    } else {
        lemma_plain_getters(opts, (n - 1) as nat);
        assert(plain_getter_field(opts.fields[n - 1].1));
        assert(field_getters(opts, n) =~= plain_getters(opts, n));
    }
}

} // verus!
