//! What holds of every definition that is resolved.
//!
//! The resolver is stated step by step. Here is what follows for the
//! whole: that every derived type holds exactly one field for each field
//! of the original type, that no two derived types share a name, that a
//! field about which nothing is said is taken as it stands, that an
//! annotation goes to its parent and to no other, and that a failure
//! always says what is wrong.

use crate::blocks::{
    field_block_from_list, struct_block_from_list, FieldBlockModel, StructBlockModel,
};
use crate::entries::{distinct_keys, index_of, keys_of, lemma_index_within, lemma_put, put};
use crate::error::{only, ErrorKindModel, ErrorModel, FailureModel, OriginModel};
use crate::field::{unannotated, FieldModel};
use crate::resolve::{
    backfilled, backfilled_one, declared, declared_one, field_from_block, lemma_routed_err,
    lemma_walked_err, merge_or_put, resolved, routed, routed_block, routed_one,
    struct_opts_from_block, walked, with_field, FromItModel, StructOptsModel,
};
use crate::source::{
    annotated_fields_of, annotated_of, lemma_read_telling, telling, AnnotatedDataModel,
    AnnotatedFieldModel, AnnotatedModel, AnnotationModel, DataModel, DeriveInputModel,
};
use crate::accessors::{
    accessor_plan, extra_getters, lemma_plain_getters, plain_getter, plain_getter_field,
};
use crate::generics::FinalGenericsModel;
use crate::getter::default_struct_getter;
use crate::mutators::{
    lemma_default_mutators, mutator_plan, plain_setter, SetterPlanModel,
};
use crate::setter::default_struct_setter;
use crate::structure::field_key;
use crate::style::{SetterStyle, Style};
use vstd::prelude::*;

verus! {

/// Whether nothing is said about any of the fields: each of their
/// attributes is silent.
pub open spec fn unannotated_fields(fields: Seq<AnnotatedFieldModel>) -> bool {
    forall|i: int, j: int|
        0 <= i < fields.len() && 0 <= j < fields[i].annotations.len() ==> (
        #[trigger] fields[i].annotations[j]) is Silent
}

/// Whether the fields stand under keys that differ from one another, as
/// the fields of a record do.
pub open spec fn distinct_fields(fields: Seq<AnnotatedFieldModel>) -> bool {
    forall|i: int, j: int|
        0 <= i < j < fields.len() ==> field_key(fields[i].name, i as nat) != field_key(
            fields[j].name,
            j as nat,
        )
}

/// The fields of the original type as a derived type named `parent`
/// holds them when nothing is said about them.
pub open spec fn as_they_stand(fields: Seq<AnnotatedFieldModel>, parent: Seq<char>, n: nat) -> Seq<
    (Seq<char>, FieldModel),
> {
    Seq::new(
        n,
        |i: int|
            (
                field_key(fields[i].name, i as nat),
                unannotated(fields[i].ty, fields[i].vis, parent, fields[i].name is Some),
            ),
    )
}

/// With one derived type declared and nothing said about any field, the
/// walk gives the derived type every field of the original type as it
/// stands: under its name or position, with its type and visibility, not
/// left out, not renamed, and with no options of its own.
pub proof fn lemma_walk_unannotated(
    name: Seq<char>,
    opts: StructOptsModel,
    fields: Seq<AnnotatedFieldModel>,
    n: nat,
)
    requires
        n <= fields.len(),
        opts.fields.len() == 0,
        unannotated_fields(fields),
        distinct_fields(fields),
    ensures
        walked(seq![(name, opts)], fields, n) == Ok::<
            Seq<(Seq<char>, StructOptsModel)>,
            FailureModel,
        >(seq![(name, StructOptsModel { fields: as_they_stand(fields, name, n), ..opts })]),
    decreases n,
{
    let types = seq![(name, opts)];
    if n == 0 {
        assert(as_they_stand(fields, name, 0) =~= opts.fields);
    } else {
        lemma_walk_unannotated(name, opts, fields, (n - 1) as nat);
        let held = as_they_stand(fields, name, (n - 1) as nat);
        let before = seq![(name, StructOptsModel { fields: held, ..opts })];
        let field = fields[n - 1];
        let key = field_key(field.name, (n - 1) as nat);
        assert forall|j: int| 0 <= j < field.annotations.len() implies field.annotations[j]
            is Silent by {
            assert(fields[n - 1].annotations[j] is Silent);
        }
        lemma_routed_while_silent(before, field, key, (n - 1) as nat, field.annotations.len());
        lemma_index_within(held, key, held.len());
        assert(index_of(held, key) is None);
        let after = backfilled(before, field, key);
        assert(held.push((key, unannotated(field.ty, field.vis, name, field.name is Some)))
            =~= as_they_stand(fields, name, n));
        assert(after =~= seq![
            (name, StructOptsModel { fields: as_they_stand(fields, name, n), ..opts }),
        ]);
    }
}

/// With exactly one annotation on the original type that declares a
/// derived type, and nothing said about any field, the definition
/// resolves, and to that one derived type, which holds every field of the
/// original type as it stands.
pub proof fn lemma_single_derived_type(
    input: AnnotatedModel,
    fields: Seq<AnnotatedFieldModel>,
    k: int,
    block: StructBlockModel,
    name: Seq<char>,
)
    requires
        input.data == AnnotatedDataModel::Struct(fields),
        0 <= k < input.annotations.len(),
        input.annotations[k] matches AnnotationModel::Block(items) && struct_block_from_list(items)
            == Ok::<StructBlockModel, Seq<ErrorModel>>(block),
        block.name == Some(name),
        forall|j: int|
            0 <= j < input.annotations.len() && j != k ==> input.annotations[j] is Silent,
        unannotated_fields(fields),
        distinct_fields(fields),
    ensures
        resolved(input) == Ok::<FromItModel, FailureModel>(
            FromItModel {
                name: input.name,
                struct_opts: seq![
                    (
                        name,
                        StructOptsModel {
                            fields: as_they_stand(fields, name, fields.len()),
                            ..struct_opts_from_block(block, name, input.vis)
                        },
                    ),
                ],
                generics: input.generics,
                where_clause: input.where_clause,
            },
        ),
{
    let opts = struct_opts_from_block(block, name, input.vis);
    lemma_declared_single(input.annotations, input.vis, k, block, name, input.annotations.len());
    lemma_walk_unannotated(name, opts, fields, fields.len());
}

/// What the first `n` annotations on the original type declare when only
/// the one at place `k` is a block: nothing before it, its derived type
/// from then on.
pub proof fn lemma_declared_single(
    annotations: Seq<AnnotationModel>,
    vis: Seq<char>,
    k: int,
    block: StructBlockModel,
    name: Seq<char>,
    n: nat,
)
    requires
        n <= annotations.len(),
        0 <= k < annotations.len(),
        annotations[k] matches AnnotationModel::Block(items) && struct_block_from_list(items)
            == Ok::<StructBlockModel, Seq<ErrorModel>>(block),
        block.name == Some(name),
        forall|j: int| 0 <= j < annotations.len() && j != k ==> annotations[j] is Silent,
    ensures
        declared(annotations, vis, n) == Ok::<Seq<(Seq<char>, StructOptsModel)>, FailureModel>(
            if n <= k {
                Seq::empty()
            } else {
                seq![(name, struct_opts_from_block(block, name, vis))]
            },
        ),
    decreases n,
{
    if n > 0 {
        lemma_declared_single(annotations, vis, k, block, name, (n - 1) as nat);
        if n - 1 == k {
            let types = Seq::<(Seq<char>, StructOptsModel)>::empty();
            assert(put(types, name, struct_opts_from_block(block, name, vis)) =~= seq![
                (name, struct_opts_from_block(block, name, vis)),
            ]);
        }
    }
}

/// With two or more derived types declared, an annotation block of a
/// field that names no parent fails, and so whatever else it holds.
pub proof fn lemma_parent_required(
    types: Seq<(Seq<char>, StructOptsModel)>,
    field: AnnotatedFieldModel,
    key: Seq<char>,
    block: FieldBlockModel,
)
    requires
        types.len() >= 2,
        block.parent is None,
    ensures
        routed_block(types, field, key, block) == Err::<
            Seq<(Seq<char>, StructOptsModel)>,
            Seq<ErrorModel>,
        >(only(ErrorKindModel::ParentRequired)),
{
}

/// An annotation block of a field that names as its parent what is no
/// declared derived type fails, however many derived types are declared,
/// one included.
pub proof fn lemma_unknown_parent(
    types: Seq<(Seq<char>, StructOptsModel)>,
    field: AnnotatedFieldModel,
    key: Seq<char>,
    block: FieldBlockModel,
    parent: Seq<char>,
)
    requires
        types.len() >= 1,
        block.parent == Some(parent),
        index_of(types, parent) is None,
    ensures
        routed_block(types, field, key, block) == Err::<
            Seq<(Seq<char>, StructOptsModel)>,
            Seq<ErrorModel>,
        >(only(ErrorKindModel::UnknownParent(parent))),
{
}

/// An annotation block of a field that names a declared derived type as
/// its parent goes to that one alone, however many are declared:
/// after the back-fill the parent holds the field as the block describes
/// it, merged into what it held under the key, and every other derived
/// type holds what it held, or, where it held nothing under the key, the
/// field as it stands.
pub proof fn lemma_parent_routes(
    types: Seq<(Seq<char>, StructOptsModel)>,
    field: AnnotatedFieldModel,
    key: Seq<char>,
    block: FieldBlockModel,
    parent: Seq<char>,
    t: int,
)
    requires
        block.parent == Some(parent),
        index_of(types, parent) == Some(t),
    ensures
        routed_block(types, field, key, block) matches Ok(after) && ({
            let done = backfilled(after, field, key);
            &&& done.len() == types.len()
            &&& 0 <= t < types.len()
            &&& done[t].1.fields == merge_or_put(
                types[t].1.fields,
                key,
                field_from_block(field, block),
            )
            &&& forall|u: int|
                0 <= u < types.len() && u != t ==> (#[trigger] done[u]) == (
                    types[u].0,
                    backfilled_one(types[u].0, types[u].1, field, key),
                )
        }),
{
    lemma_index_within(types, parent, types.len());
    let made = field_from_block(field, block);
    let after = with_field(types, t, key, made);
    let held = types[t].1.fields;
    lemma_index_within(held, key, held.len());
    let now = merge_or_put(held, key, made);
    lemma_index_within(now, key, now.len());
    match index_of(held, key) {
        Some(i) => {
            assert(now[i].0 == key);
        },
        None => {
            assert(now[held.len() as int].0 == key);
        },
    }
    assert(index_of(now, key) is Some);
}

/// The keys of the first `n` fields of the original type, in order.
pub open spec fn field_keys(fields: Seq<AnnotatedFieldModel>, n: nat) -> Seq<Seq<char>> {
    Seq::new(n, |i: int| field_key(fields[i].name, i as nat))
}

/// Whether every derived type holds fields under exactly the given keys,
/// in their order.
pub open spec fn holds_keys(
    types: Seq<(Seq<char>, StructOptsModel)>,
    keys: Seq<Seq<char>>,
) -> bool {
    forall|t: int| 0 <= t < types.len() ==> keys_of((#[trigger] types[t]).1.fields) == keys
}

/// Whether every derived type holds fields under the given keys and, at
/// most, one more field under `key` behind them.
pub open spec fn holds_keys_or_more(
    types: Seq<(Seq<char>, StructOptsModel)>,
    keys: Seq<Seq<char>>,
    key: Seq<char>,
) -> bool {
    forall|t: int|
        0 <= t < types.len() ==> {
            ||| keys_of((#[trigger] types[t]).1.fields) == keys
            ||| keys_of(types[t].1.fields) == keys.push(key)
        }
}

/// Taking a field in under a key adds the key behind the others where it
/// is new, and changes no key where it is not.
pub proof fn lemma_merge_or_put_keys(
    fields: Seq<(Seq<char>, FieldModel)>,
    key: Seq<char>,
    field: FieldModel,
)
    ensures
        keys_of(merge_or_put(fields, key, field)) == if index_of(fields, key) is Some {
            keys_of(fields)
        } else {
            keys_of(fields).push(key)
        },
{
    lemma_index_within(fields, key, fields.len());
    let after = merge_or_put(fields, key, field);
    match index_of(fields, key) {
        Some(i) => {
            assert(keys_of(after) =~= keys_of(fields));
        },
        None => {
            assert(keys_of(after) =~= keys_of(fields).push(key));
        },
    }
}

/// A key is found among the keys `keys.push(key)`, and not among `keys`
/// when it differs from each of them.
pub proof fn lemma_key_found(
    fields: Seq<(Seq<char>, FieldModel)>,
    keys: Seq<Seq<char>>,
    key: Seq<char>,
)
    requires
        forall|i: int| 0 <= i < keys.len() ==> keys[i] != key,
    ensures
        keys_of(fields) == keys ==> index_of(fields, key) is None,
        keys_of(fields) == keys.push(key) ==> index_of(fields, key) is Some,
{
    lemma_index_within(fields, key, fields.len());
    if keys_of(fields) == keys {
        assert(keys_of(fields).len() == fields.len());
        assert forall|i: int| 0 <= i < fields.len() implies fields[i].0 != key by {
            assert(keys_of(fields)[i] == fields[i].0);
        }
    }
    if keys_of(fields) == keys.push(key) {
        assert(keys_of(fields).len() == fields.len());
        assert(keys.push(key).len() == keys.len() + 1);
        assert(keys.push(key)[keys.len() as int] == key);
        assert(keys_of(fields)[keys.len() as int] == fields[keys.len() as int].0);
        assert(fields[keys.len() as int].0 == key);
    }
}

/// Routing the annotations of one field leaves every derived type with
/// the keys it had, and at most the field's key behind them.
pub proof fn lemma_routed_keys(
    types: Seq<(Seq<char>, StructOptsModel)>,
    field: AnnotatedFieldModel,
    keys: Seq<Seq<char>>,
    key: Seq<char>,
    place: nat,
    n: nat,
)
    requires
        n <= field.annotations.len(),
        holds_keys(types, keys),
        forall|i: int| 0 <= i < keys.len() ==> keys[i] != key,
    ensures
        routed(types, field, key, place, n) matches Ok(after) ==> after.len() == types.len()
            && holds_keys_or_more(after, keys, key),
    decreases n,
{
    if n > 0 {
        lemma_routed_keys(types, field, keys, key, place, (n - 1) as nat);
        match routed(types, field, key, place, (n - 1) as nat) {
            Err(_) => {},
            Ok(before) => {
                match routed_one(before, field, key, field.annotations[n - 1]) {
                    Err(_) => {},
                    Ok(after) => {
                        match field.annotations[n - 1] {
                            AnnotationModel::Block(items) => {
                                let block = field_block_from_list(items)->Ok_0;
                                let made = field_from_block(field, block);
                                let t = if block.parent is Some {
                                    index_of(before, block.parent->0)->0
                                } else {
                                    0
                                };
                                if block.parent is Some {
                                    lemma_index_within(before, block.parent->0, before.len());
                                }
                                assert(after == with_field(before, t, key, made));
                                lemma_merge_or_put_keys(before[t].1.fields, key, made);
                                lemma_key_found(before[t].1.fields, keys, key);
                                assert forall|u: int| 0 <= u < after.len() implies {
                                    ||| keys_of((#[trigger] after[u]).1.fields) == keys
                                    ||| keys_of(after[u].1.fields) == keys.push(key)
                                } by {
                                    assert(holds_keys_or_more(before, keys, key));
                                    if u != t {
                                        assert(after[u] == before[u]);
                                    }
                                }
                            },
                            _ => {},
                        }
                    },
                }
            },
        }
    } else {
        assert forall|t: int| 0 <= t < types.len() implies {
            ||| keys_of((#[trigger] types[t]).1.fields) == keys
            ||| keys_of(types[t].1.fields) == keys.push(key)
        } by {}
    }
}

/// Every derived type holds exactly one field for each field of the
/// original type that has been walked, under the field's key and in the
/// order of the fields, whatever the annotations said.
pub proof fn lemma_walked_complete(
    types: Seq<(Seq<char>, StructOptsModel)>,
    fields: Seq<AnnotatedFieldModel>,
    n: nat,
)
    requires
        n <= fields.len(),
        distinct_fields(fields),
        holds_keys(types, Seq::empty()),
    ensures
        walked(types, fields, n) matches Ok(done) ==> done.len() == types.len() && holds_keys(
            done,
            field_keys(fields, n),
        ),
    decreases n,
{
    if n == 0 {
        assert(field_keys(fields, 0) =~= Seq::<Seq<char>>::empty());
    } else {
        lemma_walked_complete(types, fields, (n - 1) as nat);
        match walked(types, fields, (n - 1) as nat) {
            Err(_) => {},
            Ok(before) => {
                let field = fields[n - 1];
                let key = field_key(field.name, (n - 1) as nat);
                let keys = field_keys(fields, (n - 1) as nat);
                assert forall|i: int| 0 <= i < keys.len() implies keys[i] != key by {
                    assert(field_key(fields[i].name, i as nat) != field_key(
                        fields[n - 1].name,
                        (n - 1) as nat,
                    ));
                }
                lemma_routed_keys(
                    before,
                    field,
                    keys,
                    key,
                    (n - 1) as nat,
                    field.annotations.len(),
                );
                match routed(before, field, key, (n - 1) as nat, field.annotations.len()) {
                    Err(_) => {},
                    Ok(after) => {
                        let done = backfilled(after, field, key);
                        assert(keys.push(key) =~= field_keys(fields, n));
                        assert forall|t: int| 0 <= t < done.len() implies keys_of(
                            (#[trigger] done[t]).1.fields,
                        ) == field_keys(fields, n) by {
                            assert(holds_keys_or_more(after, keys, key));
                            let held = after[t].1.fields;
                            lemma_key_found(held, keys, key);
                            if keys_of(held) == keys {
                                assert(keys_of(
                                    held.push(
                                        (
                                            key,
                                            unannotated(
                                                field.ty,
                                                field.vis,
                                                after[t].0,
                                                field.name is Some,
                                            ),
                                        ),
                                    ),
                                ) =~= keys.push(key));
                            }
                        }
                    },
                }
            },
        }
    }
}

/// Every derived type that is declared starts without fields.
pub proof fn lemma_declared_without_fields(
    annotations: Seq<AnnotationModel>,
    vis: Seq<char>,
    n: nat,
)
    requires
        n <= annotations.len(),
    ensures
        declared(annotations, vis, n) matches Ok(types) ==> holds_keys(types, Seq::empty()),
    decreases n,
{
    if n > 0 {
        lemma_declared_without_fields(annotations, vis, (n - 1) as nat);
        match declared(annotations, vis, (n - 1) as nat) {
            Err(_) => {},
            Ok(before) => match declared_one(before, annotations[n - 1], vis) {
                Err(_) => {},
                Ok(after) => {
                    assert forall|t: int| 0 <= t < after.len() implies keys_of(
                        (#[trigger] after[t]).1.fields,
                    ) == Seq::<Seq<char>>::empty() by {
                        assert(holds_keys(before, Seq::empty()));
                        match annotations[n - 1] {
                            AnnotationModel::Block(items) => {
                                let block = struct_block_from_list(items)->Ok_0;
                                let name = block.name->0;
                                lemma_index_within(before, name, before.len());
                                let made = struct_opts_from_block(block, name, vis);
                                assert(keys_of(made.fields) =~= Seq::<Seq<char>>::empty());
                                match index_of(before, name) {
                                    Some(i) => {
                                        if t != i {
                                            assert(after[t] == before[t]);
                                        }
                                    },
                                    None => {
                                        if t < before.len() {
                                            assert(after[t] == before[t]);
                                        }
                                    },
                                }
                            },
                            _ => {},
                        }
                    }
                },
            },
        }
    } else {
        assert forall|t: int|
            0 <= t < Seq::<(Seq<char>, StructOptsModel)>::empty().len() implies keys_of(
            (#[trigger] Seq::<(Seq<char>, StructOptsModel)>::empty()[t]).1.fields,
        ) == Seq::<Seq<char>>::empty() by {}
    }
}

/// In whatever a record resolves to, every derived type holds exactly one
/// field for each field of the original type, under the field's name or
/// position and in the order of the fields: none is missing and none is
/// there twice.
pub proof fn lemma_field_maps_complete(input: AnnotatedModel, fields: Seq<AnnotatedFieldModel>)
    requires
        input.data == AnnotatedDataModel::Struct(fields),
        distinct_fields(fields),
    ensures
        resolved(input) matches Ok(out) ==> holds_keys(
            out.struct_opts,
            field_keys(fields, fields.len()),
        ),
{
    lemma_declared_without_fields(input.annotations, input.vis, input.annotations.len());
    match declared(input.annotations, input.vis, input.annotations.len()) {
        Err(_) => {},
        Ok(types) => {
            lemma_walked_complete(types, fields, fields.len());
        },
    }
}

/// No two of the derived types that are declared have the same name.
pub proof fn lemma_declared_distinct(annotations: Seq<AnnotationModel>, vis: Seq<char>, n: nat)
    requires
        n <= annotations.len(),
    ensures
        declared(annotations, vis, n) matches Ok(types) ==> distinct_keys(types),
    decreases n,
{
    if n > 0 {
        lemma_declared_distinct(annotations, vis, (n - 1) as nat);
        match declared(annotations, vis, (n - 1) as nat) {
            Err(_) => {},
            Ok(before) => match annotations[n - 1] {
                AnnotationModel::Block(items) => match struct_block_from_list(items) {
                    Ok(block) => match block.name {
                        Some(name) => {
                            lemma_put(before, name, struct_opts_from_block(block, name, vis));
                        },
                        None => {},
                    },
                    Err(_) => {},
                },
                _ => {},
            },
        }
    }
}

/// Routing the annotations of a field changes the name of no derived type.
pub proof fn lemma_routed_names(
    types: Seq<(Seq<char>, StructOptsModel)>,
    field: AnnotatedFieldModel,
    key: Seq<char>,
    place: nat,
    n: nat,
)
    requires
        n <= field.annotations.len(),
    ensures
        routed(types, field, key, place, n) matches Ok(after) ==> keys_of(after) == keys_of(types),
    decreases n,
{
    if n > 0 {
        lemma_routed_names(types, field, key, place, (n - 1) as nat);
        match routed(types, field, key, place, (n - 1) as nat) {
            Err(_) => {},
            Ok(before) => match routed_one(before, field, key, field.annotations[n - 1]) {
                Err(_) => {},
                Ok(after) => {
                    match field.annotations[n - 1] {
                        AnnotationModel::Block(items) => {
                            let block = field_block_from_list(items)->Ok_0;
                            if block.parent is Some {
                                lemma_index_within(before, block.parent->0, before.len());
                            }
                        },
                        _ => {},
                    }
                    assert(keys_of(after) =~= keys_of(before));
                },
            },
        }
    }
}

/// Walking the fields changes the name of no derived type.
pub proof fn lemma_walked_names(
    types: Seq<(Seq<char>, StructOptsModel)>,
    fields: Seq<AnnotatedFieldModel>,
    n: nat,
)
    requires
        n <= fields.len(),
    ensures
        walked(types, fields, n) matches Ok(done) ==> keys_of(done) == keys_of(types),
    decreases n,
{
    if n > 0 {
        lemma_walked_names(types, fields, (n - 1) as nat);
        match walked(types, fields, (n - 1) as nat) {
            Err(_) => {},
            Ok(before) => {
                let field = fields[n - 1];
                let key = field_key(field.name, (n - 1) as nat);
                lemma_routed_names(before, field, key, (n - 1) as nat, field.annotations.len());
                match routed(before, field, key, (n - 1) as nat, field.annotations.len()) {
                    Err(_) => {},
                    Ok(after) => {
                        assert(keys_of(backfilled(after, field, key)) =~= keys_of(after));
                    },
                }
            },
        }
    }
}

/// In whatever a record resolves to, no two derived types have the same
/// name, and the derived types stand in the order in which their names
/// were first declared.
pub proof fn lemma_derived_types_distinct(input: AnnotatedModel, fields: Seq<AnnotatedFieldModel>)
    requires
        input.data == AnnotatedDataModel::Struct(fields),
    ensures
        resolved(input) matches Ok(out) ==> distinct_keys(out.struct_opts),
        resolved(input) matches Ok(out) ==> (declared(
            input.annotations,
            input.vis,
            input.annotations.len(),
        ) matches Ok(types) && keys_of(out.struct_opts) == keys_of(types)),
{
    lemma_declared_distinct(input.annotations, input.vis, input.annotations.len());
    match declared(input.annotations, input.vis, input.annotations.len()) {
        Err(_) => {},
        Ok(types) => {
            lemma_walked_names(types, fields, fields.len());
            match walked(types, fields, fields.len()) {
                Err(_) => {},
                Ok(done) => {
                    assert forall|i: int, j: int| 0 <= i < j < done.len() implies (
                    #[trigger] done[i]).0 != (#[trigger] done[j]).0 by {
                        assert(keys_of(done).len() == done.len());
                        assert(keys_of(done)[i] == done[i].0);
                        assert(keys_of(done)[j] == done[j].0);
                        assert(keys_of(types)[i] == types[i].0);
                        assert(keys_of(types)[j] == types[j].0);
                    }
                },
            }
        },
    }
}

/// Declaring the derived types fails with at least one error.
pub proof fn lemma_declared_failure(annotations: Seq<AnnotationModel>, vis: Seq<char>, n: nat)
    requires
        n <= annotations.len(),
        telling(annotations),
    ensures
        declared(annotations, vis, n) matches Err(f) ==> f.errors.len() > 0,
    decreases n,
{
    if n > 0 {
        lemma_declared_failure(annotations, vis, (n - 1) as nat);
        assert(annotations[n - 1] matches AnnotationModel::Broken(e) ==> e.len() > 0);
    }
}

/// Routing the annotations of a field fails with at least one error.
pub proof fn lemma_routed_failure(
    types: Seq<(Seq<char>, StructOptsModel)>,
    field: AnnotatedFieldModel,
    key: Seq<char>,
    place: nat,
    n: nat,
)
    requires
        n <= field.annotations.len(),
        telling(field.annotations),
    ensures
        routed(types, field, key, place, n) matches Err(f) ==> f.errors.len() > 0,
    decreases n,
{
    if n > 0 {
        lemma_routed_failure(types, field, key, place, (n - 1) as nat);
        assert(field.annotations[n - 1] matches AnnotationModel::Broken(e) ==> e.len() > 0);
    }
}

/// Walking the fields fails with at least one error.
pub proof fn lemma_walked_failure(
    types: Seq<(Seq<char>, StructOptsModel)>,
    fields: Seq<AnnotatedFieldModel>,
    n: nat,
)
    requires
        n <= fields.len(),
        forall|k: int| 0 <= k < fields.len() ==> telling(#[trigger] fields[k].annotations),
    ensures
        walked(types, fields, n) matches Err(f) ==> f.errors.len() > 0,
    decreases n,
{
    if n > 0 {
        lemma_walked_failure(types, fields, (n - 1) as nat);
        match walked(types, fields, (n - 1) as nat) {
            Err(_) => {},
            Ok(before) => {
                let field = fields[n - 1];
                assert(telling(fields[n - 1].annotations));
                lemma_routed_failure(
                    before,
                    field,
                    field_key(field.name, (n - 1) as nat),
                    (n - 1) as nat,
                    field.annotations.len(),
                );
            },
        }
    }
}

/// Whether every annotation of a definition that could not be read says
/// why.
pub open spec fn all_telling(input: AnnotatedModel) -> bool {
    &&& telling(input.annotations)
    &&& input.data matches AnnotatedDataModel::Struct(fields) ==> forall|k: int|
        0 <= k < fields.len() ==> telling(#[trigger] fields[k].annotations)
}

/// A definition that does not resolve fails with at least one error.
pub proof fn lemma_resolved_failure(input: AnnotatedModel)
    requires
        all_telling(input),
    ensures
        resolved(input) matches Err(f) ==> f.errors.len() > 0,
{
    match input.data {
        AnnotatedDataModel::Struct(fields) => {
            lemma_declared_failure(input.annotations, input.vis, input.annotations.len());
            match declared(input.annotations, input.vis, input.annotations.len()) {
                Err(_) => {},
                Ok(types) => {
                    lemma_walked_failure(types, fields, fields.len());
                },
            }
        },
        _ => {},
    }
}

/// A definition whose attributes are read says why wherever one of them
/// could not be read.
pub proof fn lemma_annotated_telling(input: DeriveInputModel)
    ensures
        all_telling(annotated_of(input)),
{
    lemma_read_telling(input.attrs);
    match input.data {
        DataModel::Struct(fields) => {
            let read = annotated_fields_of(fields);
            assert forall|k: int| 0 <= k < read.len() implies telling(
                #[trigger] read[k].annotations,
            ) by {
                lemma_read_telling(fields[k].attrs);
            }
        },
        _ => {},
    }
}

/// While the annotations of a field are silent, routing them changes
/// nothing.
pub proof fn lemma_routed_while_silent(
    types: Seq<(Seq<char>, StructOptsModel)>,
    field: AnnotatedFieldModel,
    key: Seq<char>,
    place: nat,
    n: nat,
)
    requires
        n <= field.annotations.len(),
        forall|j: int| 0 <= j < n ==> field.annotations[j] is Silent,
    ensures
        routed(types, field, key, place, n) == Ok::<
            Seq<(Seq<char>, StructOptsModel)>,
            FailureModel,
        >(types),
    decreases n,
{
    if n > 0 {
        lemma_routed_while_silent(types, field, key, place, (n - 1) as nat);
    }
}

/// With two or more derived types declared, the first annotation block
/// on any field that names no parent makes the whole definition fail, at
/// that annotation, with the error that the parent is required.
pub proof fn lemma_parent_required_first(
    input: AnnotatedModel,
    fields: Seq<AnnotatedFieldModel>,
    types: Seq<(Seq<char>, StructOptsModel)>,
    k: int,
    j: int,
    block: FieldBlockModel,
)
    requires
        input.data == AnnotatedDataModel::Struct(fields),
        declared(input.annotations, input.vis, input.annotations.len()) == Ok::<
            Seq<(Seq<char>, StructOptsModel)>,
            FailureModel,
        >(types),
        types.len() >= 2,
        0 <= k < fields.len(),
        0 <= j < fields[k].annotations.len(),
        fields[k].annotations[j] matches AnnotationModel::Block(items) && field_block_from_list(
            items,
        ) == Ok::<FieldBlockModel, Seq<ErrorModel>>(block),
        block.parent is None,
        forall|i: int| 0 <= i < j ==> fields[k].annotations[i] is Silent,
        forall|f: int, i: int|
            0 <= f < k && 0 <= i < fields[f].annotations.len() ==> (
            #[trigger] fields[f].annotations[i]) is Silent,
    ensures
        resolved(input) == Err::<FromItModel, FailureModel>(
            FailureModel {
                origin: OriginModel::FieldAttribute { field: k as nat, attribute: j as nat },
                errors: only(ErrorKindModel::ParentRequired),
            },
        ),
{
    lemma_walked_silent(types, fields, k as nat);
    let before = walked(types, fields, k as nat)->Ok_0;
    let field = fields[k];
    let key = field_key(field.name, k as nat);
    lemma_routed_while_silent(before, field, key, k as nat, j as nat);
    lemma_parent_required(before, field, key, block);
    assert(routed(before, field, key, k as nat, (j + 1) as nat) is Err);
    lemma_routed_err(before, field, key, k as nat, (j + 1) as nat, field.annotations.len());
    assert(walked(types, fields, (k + 1) as nat) is Err);
    lemma_walked_err(types, fields, (k + 1) as nat, fields.len());
}

/// Walking fields that carry no annotation does not fail, and keeps the
/// number of derived types.
pub proof fn lemma_walked_silent(
    types: Seq<(Seq<char>, StructOptsModel)>,
    fields: Seq<AnnotatedFieldModel>,
    n: nat,
)
    requires
        n <= fields.len(),
        forall|f: int, i: int|
            0 <= f < n && 0 <= i < fields[f].annotations.len() ==> (
            #[trigger] fields[f].annotations[i]) is Silent,
    ensures
        walked(types, fields, n) matches Ok(done) && done.len() == types.len(),
    decreases n,
{
    if n > 0 {
        lemma_walked_silent(types, fields, (n - 1) as nat);
        let before = walked(types, fields, (n - 1) as nat)->Ok_0;
        let field = fields[n - 1];
        assert forall|i: int| 0 <= i < field.annotations.len() implies field.annotations[i]
            is Silent by {
            assert(fields[n - 1].annotations[i] is Silent);
        }
        lemma_routed_while_silent(
            before,
            field,
            field_key(field.name, (n - 1) as nat),
            (n - 1) as nat,
            field.annotations.len(),
        );
    }
}

/// A derived type with the default getter and setter policies and no
/// extra fields, which holds the fields of the original type as they
/// stand, gets for each field exactly one getter, under the field's name
/// and by reference, and exactly one setter, named `set_` and the field's
/// name, that takes the value of the field's type and moves; and planning
/// them does not fail.
pub proof fn lemma_unannotated_methods(
    opts: StructOptsModel,
    generics: FinalGenericsModel,
    fields: Seq<AnnotatedFieldModel>,
)
    requires
        opts.getters == default_struct_getter(),
        opts.setters == default_struct_setter(),
        opts.extra is None,
        opts.fields == as_they_stand(fields, opts.name, fields.len()),
    ensures
        mutator_plan(opts, generics) matches Ok(Some(plan)) && plan.extra_setters.len() == 0
            && plan.setters.len() == fields.len() && forall|i: int|
            0 <= i < fields.len() ==> (#[trigger] plan.setters[i]) == (SetterPlanModel {
                vis: opts.vis,
                fn_name: "set"@ + "_"@ + field_key(fields[i].name, i as nat),
                bound: None,
                style: SetterStyle::Move,
                field: field_key(fields[i].name, i as nat),
                ty: fields[i].ty,
            }),
        accessor_plan(opts, generics) matches Some(plan) && plan.extra_getters.len() == 0
            && plan.getters.len() == fields.len() && forall|i: int|
            0 <= i < fields.len() ==> (#[trigger] plan.getters[i]) == plain_getter(
                opts.vis,
                field_key(fields[i].name, i as nat),
                Style::Ref,
                field_key(fields[i].name, i as nat),
                fields[i].ty,
            ),
{
    assert forall|i: int| 0 <= i < opts.fields.len() implies plain_setter(
        #[trigger] opts.fields[i].1,
    ) && plain_getter_field(opts.fields[i].1) by {}
    lemma_default_mutators(opts, generics);
    lemma_plain_getters(opts, opts.fields.len());
    assert(extra_getters(opts, 0) =~= Seq::<crate::accessors::GetterPlanModel>::empty());
}

/// Whether an annotation is a block that declares a derived type under
/// the given name.
pub open spec fn declares(annotation: AnnotationModel, name: Seq<char>) -> bool {
    annotation matches AnnotationModel::Block(items) && (struct_block_from_list(items) matches Ok(
        block,
    ) && block.name == Some(name))
}

/// Annotations on the original type that each declare a derived type,
/// under names that differ from one another, declare as many derived
/// types as there are annotations, under those names and in their order.
pub proof fn lemma_declared_names(
    annotations: Seq<AnnotationModel>,
    vis: Seq<char>,
    names: Seq<Seq<char>>,
    n: nat,
)
    requires
        n <= annotations.len(),
        names.len() == annotations.len(),
        forall|i: int|
            0 <= i < annotations.len() ==> declares(#[trigger] annotations[i], names[i]),
        forall|i: int, j: int| 0 <= i < j < names.len() ==> names[i] != names[j],
    ensures
        declared(annotations, vis, n) matches Ok(types) && types.len() == n && keys_of(types)
            == names.take(n as int),
    decreases n,
{
    if n == 0 {
        assert(keys_of(Seq::<(Seq<char>, StructOptsModel)>::empty()) =~= names.take(0));
    } else {
        lemma_declared_names(annotations, vis, names, (n - 1) as nat);
        let before = declared(annotations, vis, (n - 1) as nat)->Ok_0;
        let name = names[n - 1];
        assert(declares(annotations[n - 1], name));
        lemma_index_within(before, name, before.len());
        assert forall|j: int| 0 <= j < before.len() implies (#[trigger] before[j]).0 != name by {
            assert(keys_of(before)[j] == before[j].0);
            assert(names.take((n - 1) as int)[j] == names[j]);
        }
        let after = declared(annotations, vis, n)->Ok_0;
        assert(keys_of(after) =~= names.take(n as int));
    }
}

/// With exactly one annotation on the original type, which declares a
/// derived type and says nothing of getters, setters or extra fields, and
/// nothing said about any field, the one derived type gets for every
/// field of the original type one getter by reference under the field's
/// name and one moving setter named `set_` and the field's name, and
/// planning them does not fail.
pub proof fn lemma_single_derived_type_methods(
    input: AnnotatedModel,
    fields: Seq<AnnotatedFieldModel>,
    k: int,
    block: StructBlockModel,
    name: Seq<char>,
    generics: FinalGenericsModel,
)
    requires
        input.data == AnnotatedDataModel::Struct(fields),
        0 <= k < input.annotations.len(),
        input.annotations[k] matches AnnotationModel::Block(items) && struct_block_from_list(items)
            == Ok::<StructBlockModel, Seq<ErrorModel>>(block),
        block.name == Some(name),
        block.getters is None,
        block.setters is None,
        block.extra is None,
        forall|j: int|
            0 <= j < input.annotations.len() && j != k ==> input.annotations[j] is Silent,
        unannotated_fields(fields),
        distinct_fields(fields),
    ensures
        resolved(input) matches Ok(out) && out.struct_opts.len() == 1 && ({
            let opts = out.struct_opts[0].1;
            &&& mutator_plan(opts, generics) matches Ok(Some(plan)) && plan.setters.len()
                == fields.len() && forall|i: int|
                0 <= i < fields.len() ==> (#[trigger] plan.setters[i]) == (SetterPlanModel {
                    vis: opts.vis,
                    fn_name: "set"@ + "_"@ + field_key(fields[i].name, i as nat),
                    bound: None,
                    style: SetterStyle::Move,
                    field: field_key(fields[i].name, i as nat),
                    ty: fields[i].ty,
                })
            &&& accessor_plan(opts, generics) matches Some(plan) && plan.getters.len()
                == fields.len() && forall|i: int|
                0 <= i < fields.len() ==> (#[trigger] plan.getters[i]) == plain_getter(
                    opts.vis,
                    field_key(fields[i].name, i as nat),
                    Style::Ref,
                    field_key(fields[i].name, i as nat),
                    fields[i].ty,
                )
        }),
{
    lemma_single_derived_type(input, fields, k, block, name);
    let opts = StructOptsModel {
        fields: as_they_stand(fields, name, fields.len()),
        ..struct_opts_from_block(block, name, input.vis)
    };
    lemma_unannotated_methods(opts, generics, fields);
}

} // verus!
