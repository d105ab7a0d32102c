use fromit::accessors::{generate_getters, name_of_getter, vis_of_method, GetterPlan};
use fromit::convert::{FieldInit, Init};
use fromit::error::ErrorKind;
use fromit::field::{Field, FieldLevelSkip};
use fromit::from::generate_from;
use fromit::generics::get_final_generics;
use fromit::getter::{AccessorConverter, FieldLevelBound};
use fromit::into::generate_into;
use fromit::mutators::{generate_setters, name_of_setter};
use fromit::plan::{from_it, Derived};
use fromit::resolve::{FromIt, StructOpts};
use fromit::shape::generate_struct;
use fromit::source::{Data, DeriveInput};
use fromit::structure::Try;
use fromit::style::{FieldConverter, SetterStyle, Style};
use fromit::syntax::FieldSyntax;

fn squash(text: &str) -> String {
    text.chars().filter(|c| !c.is_whitespace()).collect()
}

fn field(name: &str, ty: &str, attrs: &[&str]) -> FieldSyntax {
    FieldSyntax {
        name: Some(name.to_string()),
        ty: ty.to_string(),
        vis: String::new(),
        attrs: attrs.iter().map(|a| a.to_string()).collect(),
    }
}

fn input(attrs: &[&str], fields: Vec<FieldSyntax>) -> DeriveInput {
    DeriveInput {
        name: "Foo".to_string(),
        vis: "pub".to_string(),
        generics: String::new(),
        where_clause: None,
        attrs: attrs.iter().map(|a| a.to_string()).collect(),
        data: Data::Struct(fields),
    }
}

fn only(attrs: &[&str], fields: Vec<FieldSyntax>) -> StructOpts {
    let mut resolved = FromIt::from_derive_input(&input(attrs, fields)).unwrap();
    assert_eq!(resolved.struct_opts.len(), 1);
    resolved.struct_opts.remove(0).1
}

fn moved(name: &str) -> FieldInit {
    FieldInit {
        name: name.to_string(),
        init: Init::Convert { source: name.to_string(), style: Style::Move, func: None },
    }
}

#[test]
fn plain_conversions_mirror_each_other() {
    let opts = only(
        &["#[fromit(name = \"Bar\")]"],
        vec![field("a", "u8", &[]), field("b", "String", &[]), field("c", "Vec<u8>", &[])],
    );
    let g = get_final_generics(None, "", None).unwrap();
    let from = generate_from("Foo", &opts, &g).unwrap().unwrap();
    let into = generate_into("Foo", &opts, &g).unwrap().unwrap();
    assert!(!from.fallible);
    assert!(!into.fallible);
    assert_eq!(from.style, Style::Move);
    assert_eq!(into.style, Style::Move);
    assert_eq!(from.fields, vec![moved("a"), moved("b"), moved("c")]);
    assert_eq!(into.fields, from.fields);
    assert_eq!(from.source.name, "Foo");
    assert_eq!(from.target.name, "Bar");
    assert_eq!(into.source.name, "Bar");
    assert_eq!(into.target.name, "Foo");
}

#[test]
fn both_from_and_try_from_conflict_whatever_the_fields() {
    let g = get_final_generics(None, "", None).unwrap();
    for fields in [
        vec![],
        vec![field("a", "u8", &[])],
        vec![field("a", "u8", &[]), field("b", "u8", &[]), field("c", "u8", &[])],
    ] {
        let opts = only(
            &["#[fromit(name = \"Bar\", converter(from = \"move\", try_from(style = \"ref\")))]"],
            fields,
        );
        let err = generate_from("Foo", &opts, &g).unwrap_err();
        assert_eq!(err.len(), 1);
        assert_eq!(err[0].kind, ErrorKind::ConflictingConverters);
        assert_eq!(generate_into("Foo", &opts, &g), Ok(None));
    }
}

#[test]
fn both_into_and_try_into_conflict() {
    let g = get_final_generics(None, "", None).unwrap();
    let opts = only(
        &["#[fromit(name = \"Bar\", converter(into = \"move\", try_into()))]"],
        vec![field("a", "u8", &[])],
    );
    assert_eq!(generate_into("Foo", &opts, &g).unwrap_err()[0].kind, ErrorKind::ConflictingConverters);
    assert_eq!(generate_from("Foo", &opts, &g), Ok(None));
    let failure = from_it(&input(
        &["#[fromit(name = \"Bar\", converter(into = \"move\", try_into()))]"],
        vec![field("a", "u8", &[])],
    ))
    .unwrap_err();
    assert_eq!(failure.origin, fromit::error::Origin::Derived("Bar".to_string()));
    assert_eq!(failure.errors[0].kind, ErrorKind::ConflictingConverters);
}

#[test]
fn a_skipped_field_is_left_out_and_filled_in_on_the_way_back() {
    let opts = only(
        &["#[fromit(name = \"Bar\")]"],
        vec![
            field("a", "u8", &["#[fromit(skip(default = \"my_default_fn\"))]"]),
            field("b", "u8", &["#[fromit(skip)]"]),
            field("c", "u8", &[]),
        ],
    );
    assert_eq!(
        opts.fields[0].1.skip,
        Some(FieldLevelSkip { default: Some("my_default_fn".to_string()) })
    );
    let g = get_final_generics(None, "", None).unwrap();
    let shape = generate_struct(&opts, &g);
    assert_eq!(shape.fields.len(), 1);
    assert_eq!(shape.fields[0].name, "c");
    let from = generate_from("Foo", &opts, &g).unwrap().unwrap();
    assert_eq!(from.fields, vec![moved("c")]);
    let into = generate_into("Foo", &opts, &g).unwrap().unwrap();
    assert_eq!(
        into.fields,
        vec![
            FieldInit {
                name: "a".to_string(),
                init: Init::Default { func: Some("my_default_fn".to_string()) }
            },
            FieldInit { name: "b".to_string(), init: Init::Default { func: None } },
            moved("c"),
        ]
    );
    let getters = generate_getters(&opts, &g).unwrap();
    assert_eq!(getters.getters.len(), 1);
    assert_eq!(getters.getters[0].field, "c");
    let setters = generate_setters(&opts, &g).unwrap().unwrap();
    assert_eq!(setters.setters.len(), 1);
    assert_eq!(setters.setters[0].field, "c");
}

#[test]
fn a_fallible_conversion_carries_its_error_type() {
    let opts = only(
        &["#[fromit(name = \"Bar\", converter(try_from(style = \"ref\", error = \"MyError\"), try_into()))]"],
        vec![field("a", "u8", &["#[fromit(from(fn = \"conv\"), into(style = \"ref\"))]"])],
    );
    let g = get_final_generics(None, "", None).unwrap();
    let from = generate_from("Foo", &opts, &g).unwrap().unwrap();
    assert!(from.fallible);
    assert_eq!(from.style, Style::Ref);
    assert_eq!(from.error.as_deref(), Some("MyError"));
    assert_eq!(
        from.fields,
        vec![FieldInit {
            name: "a".to_string(),
            init: Init::Convert {
                source: "a".to_string(),
                style: Style::Ref,
                func: Some("conv".to_string())
            }
        }]
    );
    let into = generate_into("Foo", &opts, &g).unwrap().unwrap();
    assert!(into.fallible);
    assert_eq!(into.style, Style::Move);
    assert_eq!(into.error, None);
    assert_eq!(
        into.fields,
        vec![FieldInit {
            name: "a".to_string(),
            init: Init::Convert { source: "a".to_string(), style: Style::Ref, func: None }
        }]
    );
    assert_eq!(
        opts.converter.try_from,
        Some(Try { style: Style::Ref, error: Some("MyError".to_string()) })
    );
}

#[test]
fn a_renamed_field_is_read_back_under_its_new_name() {
    let opts = only(
        &["#[fromit(name = \"Bar\")]"],
        vec![field("a", "u8", &["#[fromit(rename = \"b\", type = \"u16\")]"])],
    );
    let g = get_final_generics(None, "", None).unwrap();
    let shape = generate_struct(&opts, &g);
    assert_eq!(shape.fields[0].name, "b");
    assert_eq!(shape.fields[0].ty, "u16");
    let from = generate_from("Foo", &opts, &g).unwrap().unwrap();
    assert_eq!(
        from.fields,
        vec![FieldInit {
            name: "b".to_string(),
            init: Init::Convert { source: "a".to_string(), style: Style::Move, func: None }
        }]
    );
    let into = generate_into("Foo", &opts, &g).unwrap().unwrap();
    assert_eq!(
        into.fields,
        vec![FieldInit {
            name: "a".to_string(),
            init: Init::Convert { source: "b".to_string(), style: Style::Move, func: None }
        }]
    );
}

#[test]
fn extra_fields_are_defaulted_in_the_conversion_from_the_original() {
    let opts = only(
        &["#[fromit(name = \"Bar\", extra(field_attributes(serde(default)), fields = \"{ #[fromit(default = \\\"make\\\", attributes(doc = \\\"x\\\"))] p: T, q: C }\"))]"],
        vec![field("a", "u8", &["#[fromit(attributes(allow(unused)))]"])],
    );
    let g = get_final_generics(None, "", None).unwrap();
    let from = generate_from("Foo", &opts, &g).unwrap().unwrap();
    assert_eq!(
        from.fields,
        vec![
            FieldInit { name: "p".to_string(), init: Init::Default { func: Some("make".to_string()) } },
            FieldInit { name: "q".to_string(), init: Init::Default { func: None } },
            moved("a"),
        ]
    );
    let into = generate_into("Foo", &opts, &g).unwrap().unwrap();
    assert_eq!(into.fields, vec![moved("a")]);
    let shape = generate_struct(&opts, &g);
    assert_eq!(shape.extra_fields.len(), 2);
    assert_eq!(shape.extra_fields[0].name, "p");
    assert_eq!(shape.extra_fields[0].ty, "T");
    assert_eq!(shape.extra_fields[0].attributes.len(), 2);
    assert_eq!(squash(&shape.extra_fields[0].attributes[0]), "#[doc=\"x\"]");
    assert_eq!(squash(&shape.extra_fields[0].attributes[1]), "#[serde(default)]");
    assert_eq!(shape.extra_fields[1].attributes.len(), 1);
    assert_eq!(shape.fields[0].attributes.len(), 2);
    assert_eq!(squash(&shape.fields[0].attributes[0]), "#[allow(unused)]");
    assert_eq!(squash(&shape.fields[0].attributes[1]), "#[serde(default)]");
}

#[test]
fn the_definition_takes_the_struct_level_options() {
    let opts = only(
        &["#[fromit(name = \"Bar\", vis = \"pub(crate)\", attributes(derive(Clone)), bound(inherit, extra = \"T\"))]"],
        vec![FieldSyntax {
            name: Some("a".to_string()),
            ty: "u8".to_string(),
            vis: "pub".to_string(),
            attrs: vec!["#[fromit(vis = \"pub(super)\")]".to_string()],
        }, FieldSyntax {
            name: Some("b".to_string()),
            ty: "u8".to_string(),
            vis: "pub".to_string(),
            attrs: vec![],
        }],
    );
    let g = get_final_generics(opts.bound.as_ref(), "<H>", Some("where H: Eq".to_string())).unwrap();
    let shape = generate_struct(&opts, &g);
    assert_eq!(shape.name, "Bar");
    assert_eq!(squash(&shape.vis), "pub(crate)");
    assert_eq!(squash(&shape.generics), "<H,T>");
    assert_eq!(shape.where_clause.as_deref(), Some("where H: Eq"));
    assert_eq!(shape.attributes.len(), 1);
    assert_eq!(squash(&shape.fields[0].vis), "pub(super)");
    assert_eq!(shape.fields[1].vis, "pub");
}

#[test]
fn getters_default_to_references_under_the_field_name() {
    let opts = only(&["#[fromit(name = \"Bar\")]"], vec![field("a", "u8", &[])]);
    let g = get_final_generics(None, "", None).unwrap();
    let plan = generate_getters(&opts, &g).unwrap();
    assert_eq!(plan.name, "Bar");
    assert_eq!(
        plan.getters,
        vec![GetterPlan {
            vis: "pub".to_string(),
            fn_name: "a".to_string(),
            bound: None,
            receiver: Style::Ref,
            ty: "u8".to_string(),
            ty_style: Style::Ref,
            field: "a".to_string(),
            value_style: Style::Ref,
            func: None,
        }]
    );
    assert!(plan.extra_getters.is_empty());
}

#[test]
fn setters_default_to_moving_under_set_and_the_field_name() {
    let opts = only(&["#[fromit(name = \"Bar\")]"], vec![field("a", "u8", &[])]);
    let g = get_final_generics(None, "", None).unwrap();
    let plan = generate_setters(&opts, &g).unwrap().unwrap();
    assert_eq!(plan.setters.len(), 1);
    assert_eq!(plan.setters[0].fn_name, "set_a");
    assert_eq!(plan.setters[0].style, SetterStyle::Move);
    assert_eq!(plan.setters[0].vis, "pub");
    assert_eq!(plan.setters[0].bound, None);
    assert_eq!(plan.setters[0].field, "a");
    assert_eq!(plan.setters[0].ty, "u8");
}

#[test]
fn method_names_go_by_rename_then_prefix_then_field() {
    let field_name = "foo".to_string();
    assert_eq!(name_of_getter(&Some("get".to_string()), &Some("x".to_string()), &field_name), "get");
    assert_eq!(name_of_getter(&None, &Some("x".to_string()), &field_name), "x_foo");
    assert_eq!(name_of_getter(&None, &None, &field_name), "foo");
    assert_eq!(name_of_setter(&Some("put".to_string()), &Some("x".to_string()), &field_name), "put");
    assert_eq!(name_of_setter(&None, &Some("with".to_string()), &field_name), "with_foo");
    assert_eq!(name_of_setter(&None, &None, &field_name), "set_foo");
}

#[test]
fn method_visibility_goes_by_the_most_specific_setting() {
    let own = Some("pub(self)".to_string());
    let all = Some("pub(super)".to_string());
    let of_field = Some("pub(crate)".to_string());
    let of_type = "pub".to_string();
    assert_eq!(vis_of_method(&own, &all, &of_field, &of_type), "pub(self)");
    assert_eq!(vis_of_method(&None, &all, &of_field, &of_type), "pub(super)");
    assert_eq!(vis_of_method(&None, &None, &of_field, &of_type), "pub(crate)");
    assert_eq!(vis_of_method(&None, &None, &None, &of_type), "pub");
}

#[test]
fn getter_and_setter_policies_apply() {
    let opts = only(
        &["#[fromit(name = \"Bar\", getters(prefix = \"x\", style = \"move\", vis_all = \"pub(crate)\"), setters(prefix = \"with\", style = \"into\"))]"],
        vec![
            field("a", "u8", &["#[fromit(getter(style = \"ref\", rename = \"first\", vis = \"pub\"), setter(skip))]"]),
            field("b", "u8", &["#[fromit(getter(skip), setter(style = \"ref\", rename = \"put_b\"))]"]),
            field("c", "u8", &[]),
        ],
    );
    let g = get_final_generics(None, "", None).unwrap();
    let getters = generate_getters(&opts, &g).unwrap();
    assert_eq!(getters.getters.len(), 2);
    assert_eq!(getters.getters[0].fn_name, "first");
    assert_eq!(getters.getters[0].ty_style, Style::Ref);
    assert_eq!(getters.getters[0].vis, "pub");
    assert_eq!(getters.getters[1].fn_name, "x_c");
    assert_eq!(getters.getters[1].ty_style, Style::Move);
    assert_eq!(squash(&getters.getters[1].vis), "pub(crate)");
    let setters = generate_setters(&opts, &g).unwrap().unwrap();
    assert_eq!(setters.setters.len(), 2);
    assert_eq!(setters.setters[0].fn_name, "put_b");
    assert_eq!(setters.setters[0].style, SetterStyle::Ref);
    assert_eq!(setters.setters[1].fn_name, "with_c");
    assert_eq!(setters.setters[1].style, SetterStyle::Into);
}

#[test]
fn ignored_policies_give_no_methods_at_all() {
    let opts = only(
        &["#[fromit(name = \"Bar\", getters(skip), setters(skip))]"],
        vec![field("a", "u8", &[])],
    );
    let g = get_final_generics(None, "", None).unwrap();
    assert_eq!(generate_getters(&opts, &g), None);
    assert_eq!(generate_setters(&opts, &g), Ok(None));
}

#[test]
fn an_accessor_overrides_the_plain_getter() {
    let accessor = AccessorConverter {
        ty: Some("& str".to_string()),
        converter: FieldConverter { style: Some(Style::Ref), func: Some("as_str".to_string()) },
        bound: FieldLevelBound { bound: Some("< T >".to_string()) },
    };
    let plan = accessor.to_getter(
        "a".to_string(),
        "String".to_string(),
        Style::Move,
        "pub".to_string(),
        "get_a".to_string(),
    );
    assert_eq!(
        plan,
        GetterPlan {
            vis: "pub".to_string(),
            fn_name: "get_a".to_string(),
            bound: Some("< T >".to_string()),
            receiver: Style::Move,
            ty: "& str".to_string(),
            ty_style: Style::Move,
            field: "a".to_string(),
            value_style: Style::Ref,
            func: Some("as_str".to_string()),
        }
    );
    let bare = AccessorConverter {
        ty: None,
        converter: FieldConverter { style: None, func: None },
        bound: FieldLevelBound { bound: None },
    };
    let plan = bare.to_getter(
        "a".to_string(),
        "String".to_string(),
        Style::Ref,
        "pub".to_string(),
        "a".to_string(),
    );
    assert_eq!(plan.ty, "String");
    assert_eq!(plan.value_style, Style::Ref);
    assert_eq!(plan.receiver, Style::Ref);
    assert_eq!(plan.func, None);
}

#[test]
fn a_fallible_setter_adds_its_error_parameter() {
    let plan = SetterStyle::TryInto
        .to_setter(
            "pub".to_string(),
            &Some("< C >".to_string()),
            "a".to_string(),
            "u8".to_string(),
            "set_a".to_string(),
        )
        .unwrap();
    assert_eq!(squash(plan.bound.as_deref().unwrap()), "<C,Error>");
    assert_eq!(plan.style, SetterStyle::TryInto);
    let plan = SetterStyle::TryInto
        .to_setter("pub".to_string(), &None, "a".to_string(), "u8".to_string(), "set_a".to_string())
        .unwrap();
    assert_eq!(plan.bound, None);
    let plan = SetterStyle::Into
        .to_setter(
            "pub".to_string(),
            &Some("< C >".to_string()),
            "a".to_string(),
            "u8".to_string(),
            "set_a".to_string(),
        )
        .unwrap();
    assert_eq!(plan.bound.as_deref(), Some("< C >"));
    let err = SetterStyle::TryInto
        .to_setter(
            "pub".to_string(),
            &Some("< C: >>".to_string()),
            "a".to_string(),
            "u8".to_string(),
            "set_a".to_string(),
        )
        .unwrap_err();
    assert!(matches!(err[0].kind, ErrorKind::Syntax(_)));
}

#[test]
fn merging_is_right_biased_and_piles_attributes_up() {
    let base = Field::unannotated("u8".to_string(), "pub".to_string(), "A".to_string(), true);
    let mut a = base.clone();
    a.rename = Some("x".to_string());
    a.attributes = vec!["#[a]".to_string()];
    let mut b = base.clone();
    b.rename = Some("y".to_string());
    b.typ = Some("u16".to_string());
    b.parent = None;
    b.attributes = vec!["#[b]".to_string()];
    let mut c = base.clone();
    c.skip = Some(FieldLevelSkip { default: None });
    c.attributes = vec![];
    b.getter.rename = Some("g".to_string());
    b.getter_set = true;
    b.setter.style = Some(SetterStyle::Ref);
    b.setter_set = true;
    let mut ab = a.clone();
    ab.merge(b.clone());
    assert_eq!(ab.getter.rename.as_deref(), Some("g"));
    assert_eq!(ab.setter.style, Some(SetterStyle::Ref));
    assert!(ab.getter_set && ab.setter_set);
    assert_eq!(ab.rename.as_deref(), Some("y"));
    assert_eq!(ab.typ.as_deref(), Some("u16"));
    assert_eq!(ab.parent.as_deref(), Some("A"));
    assert_eq!(ab.attributes, vec!["#[a]".to_string(), "#[b]".to_string()]);
    let mut ab_c = ab.clone();
    ab_c.merge(c.clone());
    let mut bc = b.clone();
    bc.merge(c.clone());
    let mut a_bc = a.clone();
    a_bc.merge(bc);
    assert_eq!(ab_c, a_bc);
    let mut ac = a.clone();
    ac.merge(c.clone());
    let mut ca = base.clone();
    ca.merge(c.clone());
    let mut first = base.clone();
    first.merge(a.clone());
    first.merge(c.clone());
    ca.merge(a.clone());
    assert_eq!(first, ca);
    assert_eq!(ac.skip, Some(FieldLevelSkip { default: None }));
}

#[test]
fn the_whole_plan_of_an_annotated_definition() {
    let definition = DeriveInput {
        name: "Foo".to_string(),
        vis: String::new(),
        generics: "<H: core::hash::Hash, O>".to_string(),
        where_clause: Some("where O: Eq".to_string()),
        attrs: vec![
            "#[fromit(name = \"FooDb\", converter(try_from(style = \"ref\")), attributes(derive(Clone, Debug, serde::Serialize, serde::Deserialize), serde(rename_all = \"camelCase\")))]".to_string(),
            "#[fromit(name = \"FooGraphql\", getters(prefix = \"x\", style = \"ref\"), bound(inherit, extra = \"T: Clone + core::fmt::Debug + Default, C: Copy + Default\"), extra(fields(r#\"{ panda: T, tiger: C, }\"#)))]".to_string(),
        ],
        data: Data::Struct(vec![
            field("foo", "String", &[
                "#[fromit(parent = \"FooDb\", rename = \"foo1\", type = \"Vec<u8>\", from(fn = \"conv\"), getter(style = \"ref\", rename = \"foo\"), setter(style = \"ref\", bound = \"C\"), attributes(serde(rename = \"foo2\")))]",
                "#[fromit(parent = \"FooGraphql\", rename = \"foo1\", skip, type = \"Vec<u8>\",)]",
            ]),
            field("bar", "i32", &["#[fromit(parent = \"FooDb\", from(style = \"move\"))]"]),
            field("baz", "u64", &["#[fromit(parent = \"FooDb\", from(style = \"move\"))]"]),
            field("h", "H", &["#[fromit(parent = \"FooDb\", skip)]"]),
            field("o", "O", &["#[fromit(parent = \"FooDb\", skip)]"]),
        ]),
    };
    let plans: Vec<Derived> = from_it(&definition).unwrap();
    assert_eq!(plans.len(), 2);
    let db = &plans[0];
    assert_eq!(db.shape.name, "FooDb");
    assert_eq!(db.shape.attributes.len(), 2);
    let names: Vec<&str> = db.shape.fields.iter().map(|f| f.name.as_str()).collect();
    assert_eq!(names, vec!["foo1", "bar", "baz"]);
    assert_eq!(squash(&db.shape.fields[0].ty), "Vec<u8>");
    assert_eq!(squash(&db.shape.fields[0].attributes[0]), "#[serde(rename=\"foo2\")]");
    let from = db.from.as_ref().unwrap();
    assert!(from.fallible);
    assert_eq!(from.style, Style::Ref);
    assert_eq!(
        from.fields[0],
        FieldInit {
            name: "foo1".to_string(),
            init: Init::Convert {
                source: "foo".to_string(),
                style: Style::Ref,
                func: Some("conv".to_string())
            }
        }
    );
    assert_eq!(
        from.fields[1],
        FieldInit {
            name: "bar".to_string(),
            init: Init::Convert { source: "bar".to_string(), style: Style::Move, func: None }
        }
    );
    assert_eq!(db.into, None);
    let getters = db.getters.as_ref().unwrap();
    assert_eq!(getters.getters[0].fn_name, "foo");
    assert_eq!(getters.getters[1].fn_name, "bar");
    let setters = db.setters.as_ref().unwrap();
    assert_eq!(setters.setters[0].fn_name, "set_foo1");
    assert_eq!(setters.setters[0].style, SetterStyle::Ref);
    assert_eq!(squash(setters.setters[0].bound.as_deref().unwrap()), "<C>");
    let gql = &plans[1];
    assert_eq!(gql.shape.name, "FooGraphql");
    assert_eq!(
        squash(&gql.shape.generics),
        "<H:core::hash::Hash,O,T:Clone+core::fmt::Debug+Default,C:Copy+Default>"
    );
    assert_eq!(squash(&gql.generics.ty_generics), "<H,O,T,C>");
    let names: Vec<&str> = gql.shape.fields.iter().map(|f| f.name.as_str()).collect();
    assert_eq!(names, vec!["bar", "baz", "h", "o"]);
    let extra: Vec<&str> = gql.shape.extra_fields.iter().map(|f| f.name.as_str()).collect();
    assert_eq!(extra, vec!["panda", "tiger"]);
    let getters = gql.getters.as_ref().unwrap();
    assert_eq!(getters.getters[0].fn_name, "x_bar");
    assert_eq!(getters.extra_getters[0].fn_name, "x_panda");
    let into = gql.into.as_ref().unwrap();
    assert_eq!(into.fields[0], FieldInit { name: "foo".to_string(), init: Init::Default { func: None } });
    assert_eq!(into.fields.len(), 5);
    let from = gql.from.as_ref().unwrap();
    assert_eq!(from.fields.len(), 6);
    assert_eq!(from.fields[0].name, "panda");
    assert_eq!(gql.generics.final_where_clause.as_deref(), Some("where O: Eq"));
}
