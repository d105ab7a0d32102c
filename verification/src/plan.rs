//! Everything that is generated for one annotated definition.

use crate::accessors::{accessor_plan, generate_getters, AccessorPlan, AccessorPlanModel};
use crate::convert::{ConversionPlan, ConversionPlanModel};
use crate::error::{
    agrees, settles, Error, ErrorModel, Failure, FailureModel, Origin, OriginModel,
};
use crate::from::{from_plan, generate_from};
use crate::generics::{final_generics, get_final_generics, FinalGenerics, FinalGenericsModel};
use crate::into::{generate_into, into_plan};
use crate::mutators::{
    generate_setters, lemma_extra_setters_failure, lemma_field_setters_failure, mutator_plan,
    MutatorPlan, MutatorPlanModel,
};
use crate::invariants::{lemma_annotated_telling, lemma_resolved_failure};
use crate::resolve::{resolved, FromIt, FromItModel, StructOpts, StructOptsModel};
use crate::shape::{generate_struct, struct_plan, StructPlan, StructPlanModel};
use crate::source::{annotated_of, DeriveInput};
use vstd::prelude::*;

verus! {

/// What is generated for one derived type.
#[derive(Clone, Debug, PartialEq, Eq)]
pub struct Derived {
    /// The generic parameters that everything is written with.
    pub generics: FinalGenerics,
    /// The type's definition.
    pub shape: StructPlan,
    /// The conversion from the original type, if there is one.
    pub from: Option<ConversionPlan>,
    /// The conversion into the original type, if there is one.
    pub into: Option<ConversionPlan>,
    /// The getters, if there are any.
    pub getters: Option<AccessorPlan>,
    /// The setters, if there are any.
    pub setters: Option<MutatorPlan>,
}

/// Mathematical form of [`Derived`].
pub ghost struct DerivedModel {
    pub generics: FinalGenericsModel,
    pub shape: StructPlanModel,
    pub from: Option<ConversionPlanModel>,
    pub into: Option<ConversionPlanModel>,
    pub getters: Option<AccessorPlanModel>,
    pub setters: Option<MutatorPlanModel>,
}

impl DeepView for Derived {
    type V = DerivedModel;

    open spec fn deep_view(&self) -> DerivedModel {
        DerivedModel {
            generics: self.generics.deep_view(),
            shape: self.shape.deep_view(),
            from: self.from.deep_view(),
            into: self.into.deep_view(),
            getters: self.getters.deep_view(),
            setters: self.setters.deep_view(),
        }
    }
}

/// What is generated for one derived type of the original type named
/// `name`: its generics, its definition, its two conversions, its getters
/// and its setters, worked out in this order, of which the first that
/// fails decides the failure.
pub open spec fn derived(
    name: Seq<char>,
    generics: Seq<char>,
    where_clause: Option<Seq<char>>,
    opts: StructOptsModel,
) -> Result<DerivedModel, Seq<ErrorModel>> {
    match final_generics(opts.bound, generics, where_clause) {
        Err(e) => Err(e),
        Ok(g) => match from_plan(name, opts, g) {
            Err(e) => Err(e),
            Ok(from) => match into_plan(name, opts, g) {
                Err(e) => Err(e),
                Ok(into) => match mutator_plan(opts, g) {
                    Err(e) => Err(e),
                    Ok(setters) => Ok(
                        DerivedModel {
                            generics: g,
                            shape: struct_plan(opts, g),
                            from,
                            into,
                            getters: accessor_plan(opts, g),
                            setters,
                        },
                    ),
                },
            },
        },
    }
}

/// What is generated for the first `n` derived types. A failure arose in
/// the derived type that failed.
pub open spec fn planned_within(resolved: FromItModel, n: nat) -> Result<
    Seq<DerivedModel>,
    FailureModel,
>
    decreases n,
{
    if n == 0 || n > resolved.struct_opts.len() {
        Ok(Seq::empty())
    } else {
        match planned_within(resolved, (n - 1) as nat) {
            Err(e) => Err(e),
            Ok(before) => match derived(
                resolved.name,
                resolved.generics,
                resolved.where_clause,
                resolved.struct_opts[n - 1].1,
            ) {
                Err(errors) => Err(
                    FailureModel {
                        origin: OriginModel::Derived(resolved.struct_opts[n - 1].1.name),
                        errors,
                    },
                ),
                Ok(one) => Ok(before.push(one)),
            },
        }
    }
}

/// What is generated for a resolved definition: one plan for each derived
/// type, in the order in which the types were declared.
pub open spec fn planned(resolved: FromItModel) -> Result<Seq<DerivedModel>, FailureModel> {
    planned_within(resolved, resolved.struct_opts.len())
}

/// Once a derived type has failed, the outcome is settled.
pub proof fn lemma_planned_within_err(resolved: FromItModel, n: nat, m: nat)
    requires
        n <= m <= resolved.struct_opts.len(),
        planned_within(resolved, n) is Err,
    ensures
        planned_within(resolved, m) == planned_within(resolved, n),
    decreases m,
{
    if n < m {
        lemma_planned_within_err(resolved, n, (m - 1) as nat);
    }
}

impl Derived {
    /// Plans what is generated for one derived type of the original type
    /// named `name`.
    pub fn plan(name: &str, generics: &str, where_clause: &Option<String>, opts: &StructOpts) -> (r:
        Result<Derived, Vec<Error>>)
        ensures
            agrees(r, derived(name@, generics@, where_clause.deep_view(), opts.deep_view())),
    {
        let g = match get_final_generics(opts.bound.as_ref(), generics, where_clause.clone()) {
            Ok(g) => g,
            Err(e) => {
                return Err(e);
            },
        };
        let shape = generate_struct(opts, &g);
        let from = match generate_from(name, opts, &g) {
            Ok(from) => from,
            Err(e) => {
                return Err(e);
            },
        };
        let into = match generate_into(name, opts, &g) {
            Ok(into) => into,
            Err(e) => {
                return Err(e);
            },
        };
        let getters = generate_getters(opts, &g);
        let setters = match generate_setters(opts, &g) {
            Ok(setters) => setters,
            Err(e) => {
                return Err(e);
            },
        };
        Ok(Derived { generics: g, shape, from, into, getters, setters })
    }
}

/// Plans what is generated for a resolved definition.
pub fn plan(resolved: &FromIt) -> (r: Result<Vec<Derived>, Failure>)
    ensures
        settles(r, planned(resolved.deep_view())),
{
    let mut plans: Vec<Derived> = Vec::new();
    assert(plans.deep_view() =~= Seq::<DerivedModel>::empty());
    let n = resolved.struct_opts.len();
    let mut i: usize = 0;
    while i < n
        invariant
            i <= n,
            n == resolved.struct_opts.len(),
            planned_within(resolved.deep_view(), i as nat) == Ok::<
                Seq<DerivedModel>,
                FailureModel,
            >(plans.deep_view()),
        decreases n - i,
    {
        match Derived::plan(
            resolved.name.as_str(),
            resolved.generics.as_str(),
            &resolved.where_clause,
            &resolved.struct_opts[i].1,
        ) {
            Ok(one) => {
                let ghost before = plans.deep_view();
                plans.push(one);
                assert(plans.deep_view() =~= before.push(one.deep_view()));
            },
            Err(errors) => {
                proof {
                    lemma_planned_within_err(resolved.deep_view(), i as nat + 1, n as nat);
                }
                return Err(
                    Failure {
                        origin: Origin::Derived(resolved.struct_opts[i].1.name.clone()),
                        errors,
                    },
                );
            },
        }
        i += 1;
    }
    Ok(plans)
}

/// What is generated for an annotated definition: resolved first, then
/// planned.
pub open spec fn generated(input: crate::source::DeriveInputModel) -> Result<
    Seq<DerivedModel>,
    FailureModel,
> {
    match resolved(annotated_of(input)) {
        Err(e) => Err(e),
        Ok(r) => planned(r),
    }
}

/// Resolves an annotated definition and plans everything that is
/// generated for it.
pub fn from_it(input: &DeriveInput) -> (r: Result<Vec<Derived>, Failure>)
    ensures
        settles(r, generated(input.deep_view())),
{
    match FromIt::from_derive_input(input) {
        Ok(resolved) => plan(&resolved),
        Err(e) => Err(e),
    }
}

/// Planning what is generated for a derived type fails with at least one
/// error.
pub proof fn lemma_derived_failure(
    name: Seq<char>,
    generics: Seq<char>,
    where_clause: Option<Seq<char>>,
    opts: StructOptsModel,
)
    ensures
        derived(name, generics, where_clause, opts) matches Err(e) ==> e.len() > 0,
{
    lemma_field_setters_failure(opts, opts.fields.len());
    lemma_extra_setters_failure(opts, crate::from::extras_of(opts).len());
}

/// Planning fails with at least one error.
pub proof fn lemma_planned_failure(resolved: FromItModel, n: nat)
    requires
        n <= resolved.struct_opts.len(),
    ensures
        planned_within(resolved, n) matches Err(f) ==> f.errors.len() > 0,
    decreases n,
{
    if n > 0 {
        lemma_planned_failure(resolved, (n - 1) as nat);
        lemma_derived_failure(
            resolved.name,
            resolved.generics,
            resolved.where_clause,
            resolved.struct_opts[n - 1].1,
        );
    }
}

/// Whatever is wrong with an annotated definition, the failure names at
/// least one error.
pub proof fn lemma_failure_not_empty(input: crate::source::DeriveInputModel)
    ensures
        generated(input) matches Err(f) ==> f.errors.len() > 0,
{
    lemma_annotated_telling(input);
    lemma_resolved_failure(annotated_of(input));
    match resolved(annotated_of(input)) {
        Err(_) => {},
        Ok(r) => {
            lemma_planned_failure(r, r.struct_opts.len());
        },
    }
}

/// A derived type that asks for both the plain and the fallible
/// conversion from the original type cannot be planned: whatever its
/// fields, planning fails with that one error once its generics are
/// worked out.
pub proof fn lemma_conflict_fails(
    name: Seq<char>,
    generics: Seq<char>,
    where_clause: Option<Seq<char>>,
    opts: StructOptsModel,
)
    requires
        opts.converter.try_from is Some,
        opts.converter.from is Some,
        final_generics(opts.bound, generics, where_clause) is Ok,
    ensures
        derived(name, generics, where_clause, opts) == Err::<DerivedModel, Seq<ErrorModel>>(
            crate::error::only(crate::error::ErrorKindModel::ConflictingConverters),
        ),
{
}

} // verus!
