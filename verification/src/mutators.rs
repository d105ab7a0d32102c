//! The setters of a derived type.

use crate::accessors::{method_vis, vis_of_method};
use crate::error::{agrees, fail, only, Error, ErrorKind, ErrorKindModel, ErrorModel};
use crate::field::{ExtraFieldModel, FieldModel};
use crate::from::{derived_name, extra_name, extras_of, name_in_derived, name_of_extra};
use crate::generics::{splice, spliced, FinalGenerics, FinalGenericsModel};
use crate::resolve::{StructOpts, StructOptsModel};
use crate::setter::{FieldLevelSetter, FieldLevelSetterModel};
use crate::style::SetterStyle;
use crate::reader::{generics_of, parse_generics};
use crate::text::join;
use vstd::prelude::*;

verus! {

/// One generated setter.
#[derive(Clone, Debug, PartialEq, Eq)]
pub struct SetterPlan {
    pub vis: String,
    /// The setter's name.
    pub fn_name: String,
    /// Generic parameters of the setter itself.
    pub bound: Option<String>,
    /// The setter's shape.
    pub style: SetterStyle,
    /// The field written.
    pub field: String,
    /// The field's type.
    pub ty: String,
}

/// The setters of a derived type.
#[derive(Clone, Debug, PartialEq, Eq)]
pub struct MutatorPlan {
    /// The derived type's name.
    pub name: String,
    pub impl_generics: String,
    pub ty_generics: String,
    pub where_clause: Option<String>,
    /// The setters of the fields kept from the original type.
    pub setters: Vec<SetterPlan>,
    /// The setters of the extra fields.
    pub extra_setters: Vec<SetterPlan>,
}

/// Mathematical form of [`SetterPlan`].
pub ghost struct SetterPlanModel {
    pub vis: Seq<char>,
    pub fn_name: Seq<char>,
    pub bound: Option<Seq<char>>,
    pub style: SetterStyle,
    pub field: Seq<char>,
    pub ty: Seq<char>,
}

/// Mathematical form of [`MutatorPlan`].
pub ghost struct MutatorPlanModel {
    pub name: Seq<char>,
    pub impl_generics: Seq<char>,
    pub ty_generics: Seq<char>,
    pub where_clause: Option<Seq<char>>,
    pub setters: Seq<SetterPlanModel>,
    pub extra_setters: Seq<SetterPlanModel>,
}

impl DeepView for SetterPlan {
    type V = SetterPlanModel;

    open spec fn deep_view(&self) -> SetterPlanModel {
        SetterPlanModel {
            vis: self.vis@,
            fn_name: self.fn_name@,
            bound: self.bound.deep_view(),
            style: self.style,
            field: self.field@,
            ty: self.ty@,
        }
    }
}

impl DeepView for MutatorPlan {
    type V = MutatorPlanModel;

    open spec fn deep_view(&self) -> MutatorPlanModel {
        MutatorPlanModel {
            name: self.name@,
            impl_generics: self.impl_generics@,
            ty_generics: self.ty_generics@,
            where_clause: self.where_clause.deep_view(),
            setters: self.setters.deep_view(),
            extra_setters: self.extra_setters.deep_view(),
        }
    }
}

/// What stands before the field's name in a setter's name: the derived
/// type's prefix, or `set`.
pub open spec fn setter_prefix(prefix: Option<Seq<char>>) -> Seq<char> {
    match prefix {
        Some(p) => p,
        None => "set"@,
    }
}

/// The name of a setter: the one it is renamed to, else the field's name
/// behind the prefix and `_`.
pub open spec fn setter_name(
    rename: Option<Seq<char>>,
    prefix: Option<Seq<char>>,
    field: Seq<char>,
) -> Seq<char> {
    match rename {
        Some(name) => name,
        None => setter_prefix(prefix) + "_"@ + field,
    }
}

/// The generic parameters of a setter of the given shape: those given,
/// and for a fallible setter that has any, `Error` behind them.
pub open spec fn setter_bound(style: SetterStyle, bound: Option<Seq<char>>) -> Result<
    Option<Seq<char>>,
    Seq<ErrorModel>,
> {
    match (style, bound) {
        (SetterStyle::TryInto, Some(b)) => match generics_of(spliced(b, "<Error>"@)) {
            Ok(g) => Ok(Some(g.params)),
            Err(message) => Err(only(ErrorKindModel::Syntax(message))),
        },
        _ => Ok(bound),
    }
}

/// The setter of the given shape for a field.
pub open spec fn setter_of_style(
    style: SetterStyle,
    vis: Seq<char>,
    bound: Option<Seq<char>>,
    field: Seq<char>,
    ty: Seq<char>,
    fn_name: Seq<char>,
) -> Result<SetterPlanModel, Seq<ErrorModel>> {
    match setter_bound(style, bound) {
        Err(e) => Err(e),
        Ok(b) => Ok(SetterPlanModel { vis, fn_name, bound: b, style, field, ty }),
    }
}

/// The setter of a field with the given setter options.
pub open spec fn setter_for(
    opts: StructOptsModel,
    setter: FieldLevelSetterModel,
    field_vis: Option<Seq<char>>,
    field: Seq<char>,
    field_ty: Seq<char>,
) -> Result<SetterPlanModel, Seq<ErrorModel>> {
    setter_of_style(
        match setter.style {
            Some(s) => s,
            None => opts.setters.style,
        },
        method_vis(setter.vis, opts.setters.vis_all, field_vis, opts.vis),
        setter.bound.bound,
        field,
        field_ty,
        setter_name(setter.rename, opts.setters.prefix, field),
    )
}

/// The setter of a field kept from the original type.
pub open spec fn field_setter(opts: StructOptsModel, key: Seq<char>, field: FieldModel) -> Result<
    SetterPlanModel,
    Seq<ErrorModel>,
> {
    setter_for(
        opts,
        field.setter,
        field.vis,
        derived_name(key, field),
        match field.typ {
            Some(t) => t,
            None => field.src_ty,
        },
    )
}

/// The setter of an extra field.
pub open spec fn extra_setter(
    opts: StructOptsModel,
    key: Seq<char>,
    field: ExtraFieldModel,
) -> Result<
    SetterPlanModel,
    Seq<ErrorModel>,
> {
    setter_for(opts, field.setter, field.vis, extra_name(key, field), field.src_ty)
}

/// The setters of the fields among the first `n`: of those that are
/// neither left out nor without a setter.
pub open spec fn field_setters(opts: StructOptsModel, n: nat) -> Result<
    Seq<SetterPlanModel>,
    Seq<ErrorModel>,
>
    decreases n,
{
    if n == 0 || n > opts.fields.len() {
        Ok(Seq::empty())
    } else {
        match field_setters(opts, (n - 1) as nat) {
            Err(e) => Err(e),
            Ok(before) => {
                let field = opts.fields[n - 1].1;
                if field.skip is Some || field.setter.ignore {
                    Ok(before)
                } else {
                    match field_setter(opts, opts.fields[n - 1].0, field) {
                        Err(e) => Err(e),
                        Ok(plan) => Ok(before.push(plan)),
                    }
                }
            },
        }
    }
}

/// The setters of the extra fields among the first `n`: of those that
/// are not without a setter.
pub open spec fn extra_setters(opts: StructOptsModel, n: nat) -> Result<
    Seq<SetterPlanModel>,
    Seq<ErrorModel>,
>
    decreases n,
{
    if n == 0 || n > extras_of(opts).len() {
        Ok(Seq::empty())
    } else {
        match extra_setters(opts, (n - 1) as nat) {
            Err(e) => Err(e),
            Ok(before) => {
                let field = extras_of(opts)[n - 1].1;
                if field.setter.ignore {
                    Ok(before)
                } else {
                    match extra_setter(opts, extras_of(opts)[n - 1].0, field) {
                        Err(e) => Err(e),
                        Ok(plan) => Ok(before.push(plan)),
                    }
                }
            },
        }
    }
}

/// The setters of a derived type; none where it wants none at all. The
/// setters of the extra fields are worked out first.
pub open spec fn mutator_plan(opts: StructOptsModel, generics: FinalGenericsModel) -> Result<
    Option<MutatorPlanModel>,
    Seq<ErrorModel>,
> {
    if opts.setters.ignore {
        Ok(None)
    } else {
        match extra_setters(opts, extras_of(opts).len()) {
            Err(e) => Err(e),
            Ok(extra) => match field_setters(opts, opts.fields.len()) {
                Err(e) => Err(e),
                Ok(setters) => Ok(
                    Some(
                        MutatorPlanModel {
                            name: opts.name,
                            impl_generics: generics.impl_generics,
                            ty_generics: generics.ty_generics,
                            where_clause: generics.where_clause,
                            setters,
                            extra_setters: extra,
                        },
                    ),
                ),
            },
        }
    }
}

/// Once a setter has failed, the outcome is settled.
pub proof fn lemma_field_setters_err(opts: StructOptsModel, n: nat, m: nat)
    requires
        n <= m <= opts.fields.len(),
        field_setters(opts, n) is Err,
    ensures
        field_setters(opts, m) == field_setters(opts, n),
    decreases m,
{
    if n < m {
        lemma_field_setters_err(opts, n, (m - 1) as nat);
    }
}

/// Once a setter of an extra field has failed, the outcome is settled.
pub proof fn lemma_extra_setters_err(opts: StructOptsModel, n: nat, m: nat)
    requires
        n <= m <= extras_of(opts).len(),
        extra_setters(opts, n) is Err,
    ensures
        extra_setters(opts, m) == extra_setters(opts, n),
    decreases m,
{
    if n < m {
        lemma_extra_setters_err(opts, n, (m - 1) as nat);
    }
}

/// The name of a setter.
pub fn name_of_setter(
    rename: &Option<String>,
    prefix: &Option<String>,
    field: &String,
) -> (r: String)
    ensures
        r@ == setter_name(rename.deep_view(), prefix.deep_view(), field@),
{
    match rename {
        Some(name) => name.clone(),
        None => {
            let head = match prefix {
                Some(p) => p.clone(),
                None => crate::text::owned("set"),
            };
            join(join(head.as_str(), "_").as_str(), field.as_str())
        },
    }
}

impl SetterStyle {
    /// The setter of this shape for a field.
    pub fn to_setter(
        self,
        vis: String,
        bound: &Option<String>,
        field_name: String,
        field_ty: String,
        fn_name: String,
    ) -> (r: Result<SetterPlan, Vec<Error>>)
        ensures
            agrees(
                r,
                setter_of_style(self, vis@, bound.deep_view(), field_name@, field_ty@, fn_name@),
            ),
    {
        let bound = match (self, bound) {
            (SetterStyle::TryInto, Some(b)) => {
                let list = splice(b.as_str(), "<Error>");
                match parse_generics(list.as_str()) {
                    Ok(g) => Some(g.params),
                    Err(message) => {
                        return Err(fail(ErrorKind::Syntax(message)));
                    },
                }
            },
            _ => bound.clone(),
        };
        Ok(SetterPlan { vis, fn_name, bound, style: self, field: field_name, ty: field_ty })
    }
}

/// The setter of a field with the given setter options.
fn plan_setter(
    opts: &StructOpts,
    setter: &FieldLevelSetter,
    field_vis: &Option<String>,
    field: String,
    field_ty: String,
) -> (r: Result<SetterPlan, Vec<Error>>)
    ensures
        agrees(
            r,
            setter_for(
                opts.deep_view(),
                setter.deep_view(),
                field_vis.deep_view(),
                field@,
                field_ty@,
            ),
        ),
{
    let style = match setter.style {
        Some(s) => s,
        None => opts.setters.style,
    };
    let vis = vis_of_method(&setter.vis, &opts.setters.vis_all, field_vis, &opts.vis);
    let fn_name = name_of_setter(&setter.rename, &opts.setters.prefix, &field);
    style.to_setter(vis, &setter.bound.bound, field, field_ty, fn_name)
}

/// The setters of the extra fields.
fn plan_extra_setters(opts: &StructOpts) -> (r: Result<Vec<SetterPlan>, Vec<Error>>)
    ensures
        agrees(r, extra_setters(opts.deep_view(), extras_of(opts.deep_view()).len())),
{
    let mut setters: Vec<SetterPlan> = Vec::new();
    assert(setters.deep_view() =~= Seq::<SetterPlanModel>::empty());
    match &opts.extra {
        Some(extra) => {
            let n = extra.fields.len();
            let mut i: usize = 0;
            while i < n
                invariant
                    i <= n,
                    n == extra.fields.len(),
                    opts.extra == Some(*extra),
                    extra_setters(opts.deep_view(), i as nat) == Ok::<
                        Seq<SetterPlanModel>,
                        Seq<ErrorModel>,
                    >(setters.deep_view()),
                decreases n - i,
            {
                let (key, field) = &extra.fields[i];
                if !field.setter.ignore {
                    match plan_setter(
                        opts,
                        &field.setter,
                        &field.vis,
                        name_of_extra(key, field),
                        field.src_ty.clone(),
                    ) {
                        Ok(plan) => {
                            let ghost before = setters.deep_view();
                            setters.push(plan);
                            assert(setters.deep_view() =~= before.push(plan.deep_view()));
                        },
                        Err(e) => {
                            proof {
                                lemma_extra_setters_err(opts.deep_view(), i as nat + 1, n as nat);
                            }
                            return Err(e);
                        },
                    }
                }
                i += 1;
            }
        },
        None => {},
    }
    Ok(setters)
}

/// The setters of the fields kept from the original type.
fn plan_field_setters(opts: &StructOpts) -> (r: Result<Vec<SetterPlan>, Vec<Error>>)
    ensures
        agrees(r, field_setters(opts.deep_view(), opts.fields.len() as nat)),
{
    let mut setters: Vec<SetterPlan> = Vec::new();
    assert(setters.deep_view() =~= Seq::<SetterPlanModel>::empty());
    let n = opts.fields.len();
    let mut i: usize = 0;
    while i < n
        invariant
            i <= n,
            n == opts.fields.len(),
            field_setters(opts.deep_view(), i as nat) == Ok::<
                Seq<SetterPlanModel>,
                Seq<ErrorModel>,
            >(setters.deep_view()),
        decreases n - i,
    {
        let (key, field) = &opts.fields[i];
        if field.skip.is_none() && !field.setter.ignore {
            match plan_setter(
                opts,
                &field.setter,
                &field.vis,
                name_in_derived(key, field),
                match &field.typ {
                    Some(t) => t.clone(),
                    None => field.src_ty.clone(),
                },
            ) {
                Ok(plan) => {
                    let ghost before = setters.deep_view();
                    setters.push(plan);
                    assert(setters.deep_view() =~= before.push(plan.deep_view()));
                },
                Err(e) => {
                    proof {
                        lemma_field_setters_err(opts.deep_view(), i as nat + 1, n as nat);
                    }
                    return Err(e);
                },
            }
        }
        i += 1;
    }
    Ok(setters)
}

/// Plans the setters of a derived type.
pub fn generate_setters(opts: &StructOpts, generics: &FinalGenerics) -> (r: Result<
    Option<MutatorPlan>,
    Vec<Error>,
>)
    ensures
        agrees(r, mutator_plan(opts.deep_view(), generics.deep_view())),
{
    if opts.setters.ignore {
        return Ok(None);
    }
    let extra_setters = match plan_extra_setters(opts) {
        Ok(s) => s,
        Err(e) => {
            return Err(e);
        },
    };
    let setters = match plan_field_setters(opts) {
        Ok(s) => s,
        Err(e) => {
            return Err(e);
        },
    };
    Ok(
        Some(
            MutatorPlan {
                name: opts.name.clone(),
                impl_generics: generics.impl_generics.clone(),
                ty_generics: generics.ty_generics.clone(),
                where_clause: generics.where_clause.clone(),
                setters,
                extra_setters,
            },
        ),
    )
}

/// A field about which nothing is said, in a derived type whose setter
/// policy is the default one, gets a moving setter named `set_` and the
/// field's name.
pub proof fn lemma_default_setter(
    opts: StructOptsModel,
    key: Seq<char>,
    ty: Seq<char>,
    vis: Seq<char>,
    named: bool,
)
    requires
        opts.setters == crate::setter::default_struct_setter(),
    ensures
        field_setter(opts, key, crate::field::unannotated(ty, vis, opts.name, named)) == Ok::<
            SetterPlanModel,
            Seq<ErrorModel>,
        >(
            SetterPlanModel {
                vis: opts.vis,
                fn_name: "set"@ + "_"@ + key,
                bound: None,
                style: SetterStyle::Move,
                field: key,
                ty,
            },
        ),
{
}

/// Planning the setters of the fields fails with at least one error.
pub proof fn lemma_field_setters_failure(opts: StructOptsModel, n: nat)
    requires
        n <= opts.fields.len(),
    ensures
        field_setters(opts, n) matches Err(e) ==> e.len() > 0,
    decreases n,
{
    if n > 0 {
        lemma_field_setters_failure(opts, (n - 1) as nat);
    }
}

/// Planning the setters of the extra fields fails with at least one error.
pub proof fn lemma_extra_setters_failure(opts: StructOptsModel, n: nat)
    requires
        n <= extras_of(opts).len(),
    ensures
        extra_setters(opts, n) matches Err(e) ==> e.len() > 0,
    decreases n,
{
    if n > 0 {
        lemma_extra_setters_failure(opts, (n - 1) as nat);
    }
}

/// The moving setter of a field that says nothing about its setter, in a
/// derived type whose setter policy is the default one: named `set_` and
/// the field's name, of the field's type, without parameters of its own.
pub open spec fn moving_setter(
    opts: StructOptsModel,
    key: Seq<char>,
    field: FieldModel,
) -> SetterPlanModel {
    SetterPlanModel {
        vis: method_vis(None, None, field.vis, opts.vis),
        fn_name: "set"@ + "_"@ + derived_name(key, field),
        bound: None,
        style: SetterStyle::Move,
        field: derived_name(key, field),
        ty: match field.typ {
            Some(t) => t,
            None => field.src_ty,
        },
    }
}

/// Whether a field is kept and says nothing about its setter.
pub open spec fn plain_setter(field: FieldModel) -> bool {
    field.skip is None && field.setter == crate::setter::default_field_setter()
}

/// The moving setters of the first `n` fields.
pub open spec fn moving_setters(opts: StructOptsModel, n: nat) -> Seq<SetterPlanModel> {
    Seq::new(n, |i: int| moving_setter(opts, opts.fields[i].0, opts.fields[i].1))
}

/// In a derived type whose setter policy is the default one, planning the
/// setters of fields that are kept and say nothing about their setters
/// succeeds, and gives each field exactly one setter, a moving one, in the
/// order of the fields.
pub proof fn lemma_moving_setters(opts: StructOptsModel, n: nat)
    requires
        n <= opts.fields.len(),
        opts.setters == crate::setter::default_struct_setter(),
        forall|i: int| 0 <= i < opts.fields.len() ==> plain_setter(#[trigger] opts.fields[i].1),
    ensures
        field_setters(opts, n) == Ok::<Seq<SetterPlanModel>, Seq<ErrorModel>>(
            moving_setters(opts, n),
        ),
    decreases n,
{
    if n == 0 {
        assert(moving_setters(opts, 0) =~= Seq::<SetterPlanModel>::empty());
    } else {
        lemma_moving_setters(opts, (n - 1) as nat);
        assert(plain_setter(opts.fields[n - 1].1));
        assert(moving_setters(opts, (n - 1) as nat).push(
            moving_setter(opts, opts.fields[n - 1].0, opts.fields[n - 1].1),
        ) =~= moving_setters(opts, n));
    }
}

/// A derived type with the default setter policy and no extra fields,
/// whose fields are kept and say nothing about their setters, as the
/// fields are about which no annotation says anything, gets its setters
/// planned: one moving setter for each field.
pub proof fn lemma_default_mutators(opts: StructOptsModel, generics: FinalGenericsModel)
    requires
        opts.setters == crate::setter::default_struct_setter(),
        extras_of(opts).len() == 0,
        forall|i: int| 0 <= i < opts.fields.len() ==> plain_setter(#[trigger] opts.fields[i].1),
    ensures
        mutator_plan(opts, generics) == Ok::<Option<MutatorPlanModel>, Seq<ErrorModel>>(
            Some(
                MutatorPlanModel {
                    name: opts.name,
                    impl_generics: generics.impl_generics,
                    ty_generics: generics.ty_generics,
                    where_clause: generics.where_clause,
                    setters: moving_setters(opts, opts.fields.len()),
                    extra_setters: Seq::empty(),
                },
            ),
        ),
{
    lemma_moving_setters(opts, opts.fields.len());
}

} // verus!
