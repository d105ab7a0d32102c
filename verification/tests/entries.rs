use fromit::blocks::{FieldBlock, StructBlock};
use fromit::entries::{insert, position};
use fromit::field::Field;
use fromit::from::{convert, name_in_derived, name_of_extra};
use fromit::convert::Init;
use fromit::field::ExtraField;
use fromit::generics::{is_blank, strip_where, FinalGenerics};
use fromit::getter::FieldLevelGetter;
use fromit::resolve::{merge_or_insert, StructOpts};
use fromit::setter::FieldLevelSetter;
use fromit::shape::chain;
use fromit::source::AnnotatedField;
use fromit::structure::{key_of, Converter};
use fromit::style::{FieldConverter, SetterStyle, Style};
use fromit::syntax::GenericsSyntax;

#[test]
fn entries_keep_the_order_in_which_keys_first_came() {
    let mut entries: Vec<(String, u8)> = Vec::new();
    assert_eq!(position(&entries, "a"), None);
    insert(&mut entries, "a".to_string(), 1);
    insert(&mut entries, "b".to_string(), 2);
    insert(&mut entries, "a".to_string(), 3);
    insert(&mut entries, "c".to_string(), 4);
    assert_eq!(
        entries,
        vec![("a".to_string(), 3), ("b".to_string(), 2), ("c".to_string(), 4)]
    );
    assert_eq!(position(&entries, "a"), Some(0));
    assert_eq!(position(&entries, "c"), Some(2));
    assert_eq!(position(&entries, "d"), None);
}

#[test]
fn fields_are_merged_under_their_key_or_put_at_the_end() {
    let plain = |ty: &str| Field::unannotated(ty.to_string(), String::new(), "A".to_string(), true);
    let mut fields: Vec<(String, Field)> = Vec::new();
    merge_or_insert(&mut fields, "x".to_string(), plain("u8"));
    merge_or_insert(&mut fields, "y".to_string(), plain("u16"));
    let mut renamed = plain("u32");
    renamed.rename = Some("z".to_string());
    merge_or_insert(&mut fields, "x".to_string(), renamed);
    assert_eq!(fields.len(), 2);
    assert_eq!(fields[0].0, "x");
    assert_eq!(fields[0].1.src_ty, "u8");
    assert_eq!(fields[0].1.rename.as_deref(), Some("z"));
    assert_eq!(fields[1].0, "y");
}

#[test]
fn keys_are_names_or_positions() {
    assert_eq!(key_of(&Some("foo".to_string()), 3), "foo");
    assert_eq!(key_of(&None, 3), "3");
    assert_eq!(key_of(&None, 12), "12");
}

#[test]
fn names_in_the_derived_type() {
    let mut field = Field::unannotated("u8".to_string(), String::new(), "A".to_string(), true);
    assert_eq!(name_in_derived(&"x".to_string(), &field), "x");
    field.rename = Some("y".to_string());
    assert_eq!(name_in_derived(&"x".to_string(), &field), "y");
    let mut extra = ExtraField {
        name: None,
        src_ty: "u8".to_string(),
        src_vis: String::new(),
        vis: None,
        getter: FieldLevelGetter::default(),
        setter: FieldLevelSetter::default(),
        default: None,
        attributes: vec![],
        named: false,
    };
    assert_eq!(name_of_extra(&"0".to_string(), &extra), "0");
    extra.name = Some("panda".to_string());
    assert_eq!(name_of_extra(&"panda".to_string(), &extra), "panda");
}

#[test]
fn a_field_is_converted_by_its_own_converter_or_the_built_in_one() {
    assert_eq!(
        convert("a".to_string(), &None, Style::Ref),
        Init::Convert { source: "a".to_string(), style: Style::Ref, func: None }
    );
    assert_eq!(
        convert(
            "a".to_string(),
            &Some(FieldConverter { style: None, func: Some("f".to_string()) }),
            Style::Ref
        ),
        Init::Convert { source: "a".to_string(), style: Style::Ref, func: Some("f".to_string()) }
    );
    assert_eq!(
        convert(
            "a".to_string(),
            &Some(FieldConverter { style: Some(Style::Move), func: None }),
            Style::Ref
        ),
        Init::Convert { source: "a".to_string(), style: Style::Move, func: None }
    );
}

#[test]
fn blocks_become_fields_and_derived_types() {
    let source = AnnotatedField {
        name: Some("foo".to_string()),
        ty: "String".to_string(),
        vis: "pub".to_string(),
        annotations: vec![],
    };
    let block = FieldBlock {
        skip: None,
        typ: Some("u8".to_string()),
        rename: None,
        parent: Some("A".to_string()),
        from: None,
        into: None,
        getter: None,
        setter: None,
        vis: None,
        attributes: None,
    };
    let field = Field::from_block(&source, block);
    assert_eq!(field.src_ty, "String");
    assert_eq!(field.src_vis, "pub");
    assert_eq!(field.typ.as_deref(), Some("u8"));
    assert_eq!(field.parent.as_deref(), Some("A"));
    assert_eq!(field.getter, FieldLevelGetter::default());
    assert_eq!(field.setter, FieldLevelSetter::default());
    assert!(field.attributes.is_empty());
    assert!(field.named);
    let block = StructBlock {
        name: None,
        extra: None,
        attributes: None,
        getters: None,
        setters: None,
        converter: None,
        vis: None,
        bound: None,
    };
    let opts = StructOpts::from_block(block, "A".to_string(), "pub(crate)");
    assert_eq!(opts.name, "A");
    assert_eq!(opts.vis, "pub(crate)");
    assert_eq!(opts.converter, Converter::default());
    assert_eq!(opts.getters.style, Style::Ref);
    assert_eq!(opts.setters.style, SetterStyle::Move);
    assert!(opts.fields.is_empty());
    assert_eq!(opts.bound, None);
    assert_eq!(opts.extra, None);
}

#[test]
fn where_clauses_and_parameter_lists_as_text() {
    assert!(is_blank("  "));
    assert!(is_blank(""));
    assert!(!is_blank(" < T > "));
    assert_eq!(strip_where(" where T: Eq "), " T: Eq");
    assert_eq!(strip_where("T: Eq"), "T: Eq");
    assert_eq!(chain(&vec!["a".to_string()], &vec!["b".to_string(), "c".to_string()]).len(), 3);
    assert_eq!(chain(&vec![], &vec![]), Vec::<String>::new());
}

#[test]
fn the_three_ways_of_composing_generics() {
    let src = GenericsSyntax {
        params: "< H : Hash >".to_string(),
        impl_generics: "< H : Hash >".to_string(),
        ty_generics: "< H >".to_string(),
    };
    let own = GenericsSyntax {
        params: "< T >".to_string(),
        impl_generics: "< T >".to_string(),
        ty_generics: "< T >".to_string(),
    };
    let clause = Some("where H: Eq".to_string());
    let reused = FinalGenerics::reused(src.clone(), clause.clone());
    assert_eq!(reused.final_struct_generics, "< H : Hash >");
    assert_eq!(reused.ty_generics, "< H >");
    assert_eq!(reused.final_where_clause, clause);
    let inherited = FinalGenerics::inherited(
        &src,
        clause.clone(),
        own.clone(),
        Some("where T: Ord".to_string()),
    );
    assert_eq!(inherited.impl_generics, "< T >");
    assert_eq!(inherited.src_ty_generics, "< H >");
    assert_eq!(inherited.where_clause.as_deref(), Some("where H: Eq +  T: Ord"));
    assert_eq!(inherited.final_where_clause, inherited.where_clause);
    let replaced = FinalGenerics::replaced(
        &src,
        clause.clone(),
        own,
        None,
        "< H : Hash , T >".to_string(),
    );
    assert_eq!(replaced.final_impl_generics, "< H : Hash , T >");
    assert_eq!(replaced.final_struct_generics, "< T >");
    assert_eq!(replaced.where_clause, None);
    assert_eq!(replaced.final_where_clause, clause);
}

#[test]
fn default_options_are_told_from_given_ones() {
    assert!(FieldLevelGetter::default().is_default());
    assert!(FieldLevelSetter::default().is_default());
    let mut getter = FieldLevelGetter::default();
    getter.ignore = true;
    assert!(!getter.is_default());
    let mut setter = FieldLevelSetter::default();
    setter.rename = Some("put".to_string());
    assert!(!setter.is_default());
    let mut earlier = Field::unannotated("u8".to_string(), String::new(), "A".to_string(), true);
    earlier.getter.rename = Some("first".to_string());
    let mut later = Field::unannotated("u8".to_string(), String::new(), "A".to_string(), true);
    later.setter.style = Some(SetterStyle::Ref);
    earlier.merge(later);
    assert_eq!(earlier.getter.rename.as_deref(), Some("first"));
    assert_eq!(earlier.setter.style, Some(SetterStyle::Ref));
    let mut empty = Field::unannotated("u8".to_string(), String::new(), "A".to_string(), true);
    empty.getter_set = true;
    earlier.merge(empty);
    assert_eq!(earlier.getter, FieldLevelGetter::default());
    assert!(earlier.getter_set);
}
