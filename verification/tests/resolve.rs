use fromit::error::{ErrorKind, Origin};
use fromit::resolve::FromIt;
use fromit::source::{Data, DeriveInput};
use fromit::style::Style;
use fromit::syntax::FieldSyntax;

fn field(name: &str, ty: &str, attrs: &[&str]) -> FieldSyntax {
    FieldSyntax {
        name: Some(name.to_string()),
        ty: ty.to_string(),
        vis: String::new(),
        attrs: attrs.iter().map(|a| a.to_string()).collect(),
    }
}

fn input(attrs: &[&str], fields: Vec<FieldSyntax>) -> DeriveInput {
    DeriveInput {
        name: "Foo".to_string(),
        vis: "pub".to_string(),
        generics: String::new(),
        where_clause: None,
        attrs: attrs.iter().map(|a| a.to_string()).collect(),
        data: Data::Struct(fields),
    }
}

#[test]
fn one_derived_type_takes_every_field_as_it_stands() {
    let resolved = FromIt::from_derive_input(&input(
        &["#[fromit(name = \"FooDb\")]"],
        vec![field("foo", "String", &[]), field("bar", "i32", &["#[doc = \"a bar\"]"])],
    ))
    .unwrap();
    assert_eq!(resolved.struct_opts.len(), 1);
    let (key, opts) = &resolved.struct_opts[0];
    assert_eq!(key, "FooDb");
    assert_eq!(opts.name, "FooDb");
    assert_eq!(opts.vis, "pub");
    assert_eq!(opts.getters.style, Style::Ref);
    assert_eq!(opts.fields.len(), 2);
    assert_eq!(opts.fields[0].0, "foo");
    assert_eq!(opts.fields[0].1.src_ty, "String");
    assert_eq!(opts.fields[0].1.parent.as_deref(), Some("FooDb"));
    assert!(opts.fields[0].1.skip.is_none());
    assert_eq!(opts.fields[1].0, "bar");
    assert_eq!(opts.fields[1].1.src_ty, "i32");
}

#[test]
fn parent_is_required_with_two_derived_types() {
    let err = FromIt::from_derive_input(&input(
        &["#[fromit(name = \"A\")]", "#[fromit(name = \"B\")]"],
        vec![field("foo", "String", &["#[fromit(rename = \"x\")]"])],
    ))
    .unwrap_err()
    .errors;
    assert_eq!(err.len(), 1);
    assert_eq!(err[0].kind, ErrorKind::ParentRequired);
}

#[test]
fn parent_routes_to_the_named_derived_type() {
    let resolved = FromIt::from_derive_input(&input(
        &["#[fromit(name = \"A\")]", "#[fromit(name = \"B\")]"],
        vec![field("foo", "String", &["#[fromit(parent = \"B\", rename = \"x\", type = \"Vec<u8>\")]"])],
    ))
    .unwrap();
    let a = &resolved.struct_opts[0].1;
    let b = &resolved.struct_opts[1].1;
    assert_eq!(a.fields[0].1.rename, None);
    assert_eq!(a.fields[0].1.parent.as_deref(), Some("A"));
    assert_eq!(b.fields[0].1.rename.as_deref(), Some("x"));
    assert_eq!(b.fields[0].1.typ.as_deref(), Some("Vec < u8 >"));
}

#[test]
fn extra_fields_are_read_from_their_text() {
    let resolved = FromIt::from_derive_input(&input(
        &["#[fromit(name = \"A\", extra(fields(r#\"{ panda: T, #[fromit(getter(skip))] tiger: C }\"#)))]"],
        vec![],
    ))
    .unwrap();
    let extra = resolved.struct_opts[0].1.extra.as_ref().unwrap();
    assert_eq!(extra.fields.len(), 2);
    assert_eq!(extra.fields[0].0, "panda");
    assert_eq!(extra.fields[0].1.src_ty, "T");
    assert!(!extra.fields[0].1.getter.ignore);
    assert_eq!(extra.fields[1].0, "tiger");
    assert!(extra.fields[1].1.getter.ignore);
}

#[test]
fn enums_and_unions_are_refused() {
    let mut definition = input(&["#[fromit(name = \"A\")]"], vec![]);
    definition.data = Data::Enum;
    let err = FromIt::from_derive_input(&definition).unwrap_err().errors;
    assert_eq!(err.len(), 1);
    assert_eq!(err[0].kind, ErrorKind::UnsupportedShape(fromit::error::Shape::Enum));
    definition.data = Data::Union;
    let err = FromIt::from_derive_input(&definition).unwrap_err().errors;
    assert_eq!(err[0].kind, ErrorKind::UnsupportedShape(fromit::error::Shape::Union));
}

#[test]
fn a_block_on_the_type_needs_a_name() {
    let err = FromIt::from_derive_input(&input(&["#[fromit(vis = \"pub\")]"], vec![])).unwrap_err().errors;
    assert_eq!(err.len(), 1);
    assert_eq!(err[0].kind, ErrorKind::MissingField("name".to_string()));
}

#[test]
fn a_parent_that_is_not_declared_is_refused() {
    let err = FromIt::from_derive_input(&input(
        &["#[fromit(name = \"A\")]", "#[fromit(name = \"B\")]"],
        vec![field("foo", "String", &["#[fromit(parent = \"C\")]"])],
    ))
    .unwrap_err()
    .errors;
    assert_eq!(err[0].kind, ErrorKind::UnknownParent("C".to_string()));
}

#[test]
fn a_field_annotation_without_any_derived_type_is_refused() {
    let err = FromIt::from_derive_input(&input(
        &[],
        vec![field("foo", "String", &["#[fromit(rename = \"x\")]"])],
    ))
    .unwrap_err()
    .errors;
    assert_eq!(err[0].kind, ErrorKind::NoDerivedType);
    let none = FromIt::from_derive_input(&input(&[], vec![field("foo", "String", &[])])).unwrap();
    assert!(none.struct_opts.is_empty());
}

#[test]
fn default_is_for_extra_fields_only() {
    let err = FromIt::from_derive_input(&input(
        &["#[fromit(name = \"A\")]"],
        vec![field("foo", "String", &["#[fromit(default = \"make\")]"])],
    ))
    .unwrap_err()
    .errors;
    assert_eq!(err[0].kind, ErrorKind::DefaultOnSourceField);
}

#[test]
fn later_annotations_of_a_field_win_and_attributes_pile_up() {
    let resolved = FromIt::from_derive_input(&input(
        &["#[fromit(name = \"A\")]"],
        vec![field(
            "foo",
            "String",
            &[
                "#[fromit(rename = \"x\", type = \"u8\", attributes(a))]",
                "#[doc = \"between\"]",
                "#[fromit(rename = \"y\", skip, attributes(b))]",
            ],
        )],
    ))
    .unwrap();
    let f = &resolved.struct_opts[0].1.fields[0].1;
    assert_eq!(f.rename.as_deref(), Some("y"));
    assert_eq!(f.typ.as_deref(), Some("u8"));
    assert!(f.skip.is_some());
    assert_eq!(f.attributes.len(), 2);
    assert_eq!(resolved.struct_opts[0].1.fields.len(), 1);
}

#[test]
fn positional_fields_stand_under_their_position() {
    let positional = |ty: &str| FieldSyntax {
        name: None,
        ty: ty.to_string(),
        vis: String::new(),
        attrs: vec![],
    };
    let resolved = FromIt::from_derive_input(&input(
        &["#[fromit(name = \"A\")]"],
        vec![positional("u8"), positional("u16")],
    ))
    .unwrap();
    let fields = &resolved.struct_opts[0].1.fields;
    assert_eq!(fields[0].0, "0");
    assert_eq!(fields[1].0, "1");
    assert!(!fields[0].1.named);
    assert_eq!(fields[1].1.src_ty, "u16");
}

#[test]
fn a_later_declaration_of_a_name_takes_the_place_of_the_earlier() {
    let resolved = FromIt::from_derive_input(&input(
        &[
            "#[fromit(name = \"A\", vis = \"pub(crate)\")]",
            "#[fromit(name = \"B\")]",
            "#[fromit(name = \"A\", getters(skip))]",
        ],
        vec![],
    ))
    .unwrap();
    assert_eq!(resolved.struct_opts.len(), 2);
    assert_eq!(resolved.struct_opts[0].0, "A");
    assert_eq!(resolved.struct_opts[0].1.vis, "pub");
    assert!(resolved.struct_opts[0].1.getters.ignore);
    assert_eq!(resolved.struct_opts[1].0, "B");
}

#[test]
fn with_one_derived_type_the_parent_may_be_left_out_but_not_be_wrong() {
    let failure = FromIt::from_derive_input(&input(
        &["#[fromit(name = \"A\")]"],
        vec![field("x", "u8", &["#[fromit(parent = \"B\")]"])],
    ))
    .unwrap_err();
    assert_eq!(failure.errors.len(), 1);
    assert_eq!(failure.errors[0].kind, ErrorKind::UnknownParent("B".to_string()));
    assert_eq!(failure.errors[0].message(), "Does not have parent B");
    for annotation in ["#[fromit(parent = \"A\", rename = \"x\")]", "#[fromit(rename = \"x\")]"] {
        let resolved = FromIt::from_derive_input(&input(
            &["#[fromit(name = \"A\")]"],
            vec![field("foo", "String", &[annotation])],
        ))
        .unwrap();
        assert_eq!(resolved.struct_opts[0].1.fields[0].1.rename.as_deref(), Some("x"));
    }
}

#[test]
fn a_later_annotation_sets_the_getter_and_the_setter_too() {
    let resolved = FromIt::from_derive_input(&input(
        &["#[fromit(name = \"A\")]"],
        vec![
            field(
                "foo",
                "String",
                &[
                    "#[fromit(rename = \"x\")]",
                    "#[fromit(getter(rename = \"g\"), setter(style = \"ref\"))]",
                ],
            ),
            field(
                "bar",
                "String",
                &[
                    "#[fromit(getter(rename = \"first\"), setter(skip))]",
                    "#[fromit(getter(style = \"move\"))]",
                    "#[fromit(rename = \"y\")]",
                ],
            ),
        ],
    ))
    .unwrap();
    let foo = &resolved.struct_opts[0].1.fields[0].1;
    assert_eq!(foo.rename.as_deref(), Some("x"));
    assert_eq!(foo.getter.rename.as_deref(), Some("g"));
    assert_eq!(foo.setter.style, Some(fromit::style::SetterStyle::Ref));
    assert!(foo.getter_set && foo.setter_set);
    let bar = &resolved.struct_opts[0].1.fields[1].1;
    assert_eq!(bar.getter.rename, None);
    assert_eq!(bar.getter.style, Some(Style::Move));
    assert!(bar.setter.ignore);
    assert_eq!(bar.rename.as_deref(), Some("y"));
    let plain = &FromIt::from_derive_input(&input(
        &["#[fromit(name = \"A\")]"],
        vec![field("foo", "String", &[])],
    ))
    .unwrap()
    .struct_opts[0]
        .1
        .fields[0]
        .1;
    assert!(!plain.getter_set && !plain.setter_set);
}

#[test]
fn what_is_no_record_is_refused_before_any_attribute_is_read() {
    let mut definition = input(&["not an attribute at all"], vec![]);
    definition.data = Data::Enum;
    let failure = FromIt::from_derive_input(&definition).unwrap_err();
    assert_eq!(failure.origin, Origin::Definition);
    assert_eq!(failure.errors[0].kind, ErrorKind::UnsupportedShape(fromit::error::Shape::Enum));
}

#[test]
fn a_text_that_is_no_attribute_is_an_error() {
    let failure =
        FromIt::from_derive_input(&input(&["not an attribute at all"], vec![])).unwrap_err();
    assert_eq!(failure.origin, Origin::TypeAttribute(0));
    assert!(matches!(failure.errors[0].kind, ErrorKind::Syntax(_)));
    let failure = FromIt::from_derive_input(&input(&[""], vec![])).unwrap_err();
    assert_eq!(failure.errors[0].kind, ErrorKind::Syntax("expected an attribute".to_string()));
}

#[test]
fn a_literal_that_cannot_be_read_is_an_error() {
    let failure = FromIt::from_derive_input(&input(&["#[fromit(name = c\"x\")]"], vec![]))
        .unwrap_err();
    assert_eq!(failure.origin, Origin::TypeAttribute(0));
    assert_eq!(
        failure.errors[0].kind,
        ErrorKind::Syntax("literal of a kind that cannot be read".to_string())
    );
    let failure = FromIt::from_derive_input(&input(
        &["#[fromit(name = \"A\")]"],
        vec![field("x", "u8", &["#[fromit(type = \"A<c\\\"x\\\">\")]"])],
    ))
    .unwrap_err();
    assert_eq!(failure.origin, Origin::FieldAttribute { field: 0, attribute: 0 });
    assert_eq!(failure.errors[0].kind, ErrorKind::UnknownValue("A<c\"x\">".to_string()));
}

#[test]
fn the_first_error_in_order_is_reported() {
    let err = FromIt::from_derive_input(&input(
        &["#[fromit(name = \"A\", bogus)]", "#[fromit = 3]"],
        vec![],
    ))
    .unwrap_err()
    .errors;
    assert_eq!(err.len(), 1);
    assert!(matches!(err[0].kind, ErrorKind::UnknownField { .. }));
    let err = FromIt::from_derive_input(&input(
        &["#[fromit = 3]", "#[fromit(name = \"A\", bogus)]"],
        vec![],
    ))
    .unwrap_err()
    .errors;
    assert!(matches!(err[0].kind, ErrorKind::Syntax(_)));
}

#[test]
fn annotations_nested_too_deep_are_unreadable() {
    let mut nested = String::from("x");
    for _ in 0..40 {
        nested = format!("a({})", nested);
    }
    let err = FromIt::from_derive_input(&input(&[&format!("#[fromit({})]", nested)], vec![]))
        .unwrap_err()
        .errors;
    assert_eq!(err[0].kind, ErrorKind::Unreadable);
}

#[test]
fn every_derived_type_holds_every_field_once() {
    let resolved = FromIt::from_derive_input(&input(
        &["#[fromit(name = \"A\")]", "#[fromit(name = \"B\")]", "#[fromit(name = \"C\")]"],
        vec![
            field("x", "u8", &["#[fromit(parent = \"B\", skip)]", "#[fromit(parent = \"B\", rename = \"y\")]"]),
            field("y", "u8", &[]),
            field("z", "u8", &["#[fromit(parent = \"C\", skip)]", "#[fromit(parent = \"A\", skip)]"]),
        ],
    ))
    .unwrap();
    assert_eq!(resolved.name, "Foo");
    for (_, opts) in &resolved.struct_opts {
        let keys: Vec<&str> = opts.fields.iter().map(|(key, _)| key.as_str()).collect();
        assert_eq!(keys, vec!["x", "y", "z"]);
    }
    let b = &resolved.struct_opts[1].1;
    assert!(b.fields[0].1.skip.is_some());
    assert_eq!(b.fields[0].1.rename.as_deref(), Some("y"));
    assert!(resolved.struct_opts[0].1.fields[0].1.skip.is_none());
    assert!(resolved.struct_opts[0].1.fields[2].1.skip.is_some());
    assert!(resolved.struct_opts[2].1.fields[2].1.skip.is_some());
    assert!(resolved.struct_opts[1].1.fields[2].1.skip.is_none());
}

#[test]
fn resolving_read_attributes_is_resolving_the_definition() {
    let definition = input(
        &["#[fromit(name = \"A\", getters(prefix = \"x\"))]"],
        vec![field("foo", "String", &["#[fromit(rename = \"bar\")]"])],
    );
    let read = fromit::source::Annotated::read(&definition);
    assert_eq!(FromIt::resolve(&read), FromIt::from_derive_input(&definition));
}

#[test]
fn a_failure_tells_where_it_arose() {
    let mut definition = input(&[], vec![]);
    definition.data = Data::Enum;
    assert_eq!(FromIt::from_derive_input(&definition).unwrap_err().origin, Origin::Definition);
    let failure = FromIt::from_derive_input(&input(
        &["#[doc = \"x\"]", "#[fromit(name = \"A\")]", "#[fromit(bogus)]"],
        vec![],
    ))
    .unwrap_err();
    assert_eq!(failure.origin, Origin::TypeAttribute(2));
    let failure = FromIt::from_derive_input(&input(
        &["#[fromit(name = \"A\")]"],
        vec![
            field("a", "u8", &["#[fromit(skip)]"]),
            field("b", "u8", &["#[doc = \"x\"]", "#[fromit(skip)]", "#[fromit(default = \"f\")]"]),
        ],
    ))
    .unwrap_err();
    assert_eq!(failure.origin, Origin::FieldAttribute { field: 1, attribute: 2 });
    assert_eq!(failure.errors[0].kind, ErrorKind::DefaultOnSourceField);
}
