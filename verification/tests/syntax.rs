use fromit::generics::get_final_generics;
use fromit::meta::{Entry, Lit, Meta, NestedMeta, Value};
use fromit::lift::{lift_item, lift_items, DEPTH};
use fromit::reader::{
    attribute_items, is_readable, parse_attribute, parse_generics, parse_item, parse_literal,
    parse_named_fields, parse_unnamed_fields,
};
use fromit::syntax::ItemSyntax;
use fromit::source::{Annotated, AnnotatedData, AnnotatedField, Annotation, Data, DeriveInput};
use fromit::structure::{attributes_of_list, parse_fields};
use fromit::syntax::FieldSyntax;
use fromit::values::{parse_leaf, Leaf};

#[test]
fn syntax_is_rendered_token_by_token() {
    assert_eq!(parse_leaf(Leaf::Type, "Vec<u8>").as_deref(), Some("Vec < u8 >"));
    assert_eq!(parse_leaf(Leaf::Visibility, "pub(crate)").as_deref(), Some("pub (crate)"));
    assert_eq!(parse_leaf(Leaf::Path, "a::b").as_deref(), Some("a :: b"));
    assert_eq!(parse_leaf(Leaf::Ident, " foo ").as_deref(), Some("foo"));
    assert_eq!(parse_leaf(Leaf::Ident, "foo bar"), None);
    assert_eq!(parse_leaf(Leaf::Type, "Vec<"), None);
    assert_eq!(parse_leaf(Leaf::Path, "a::"), None);
    assert_eq!(parse_leaf(Leaf::Visibility, "private"), None);
    assert_eq!(parse_leaf(Leaf::Visibility, "").as_deref(), Some(""));
}

#[test]
fn generic_parameters_are_rendered_three_ways() {
    let g = get_final_generics(None, "<'a, H: Hash = u8, const N: usize>", None).unwrap();
    assert_eq!(g.final_struct_generics, "< 'a , H : Hash , const N : usize >");
    assert_eq!(g.src_impl_generics, "< 'a , H : Hash , const N : usize >");
    assert_eq!(g.src_ty_generics, "< 'a , H , N >");
}

#[test]
fn items_are_read_level_by_level() {
    let word = lift_item("skip".to_string(), 0).unwrap();
    assert_eq!(
        word,
        NestedMeta {
            tokens: "skip".to_string(),
            entry: Entry::Meta(Meta { name: "skip".to_string(), value: Value::Word })
        }
    );
    assert_eq!(lift_item("a(b)".to_string(), 0), None);
    let list = lift_item("a(b)".to_string(), 1).unwrap();
    match list.entry {
        Entry::Meta(Meta { name, value: Value::List(inner) }) => {
            assert_eq!(name, "a");
            assert_eq!(inner.len(), 1);
            assert_eq!(inner[0].tokens, "b");
        }
        other => panic!("no list: {:?}", other),
    }
    assert_eq!(lift_item("a(b(c))".to_string(), 1), None);
    assert_eq!(lift_item("a b".to_string(), DEPTH), None);
    let lit = lift_item("\"x\\n\"".to_string(), 0).unwrap();
    assert_eq!(lit.entry, Entry::Lit(Lit::Str("x\n".to_string())));
    let path = lift_item("a::b = 1".to_string(), 0).unwrap();
    match path.entry {
        Entry::Meta(Meta { name, .. }) => assert_eq!(name, "a::b"),
        other => panic!("no entry: {:?}", other),
    }
    let all = lift_items(&vec!["a".to_string(), "b = 2".to_string()], DEPTH).unwrap();
    assert_eq!(all.len(), 2);
    assert_eq!(lift_items(&vec!["a".to_string(), "b c".to_string()], DEPTH), None);
    assert_eq!(lift_items(&vec![], 0), Some(vec![]));
}

#[test]
fn raw_attributes_are_rendered_as_attributes() {
    let items = match Annotation::read("#[fromit(derive(Clone))]") {
        Annotation::Block(items) => items,
        other => panic!("no block: {:?}", other),
    };
    assert_eq!(attributes_of_list(&items), Ok(vec!["# [derive (Clone)]".to_string()]));
}

#[test]
fn field_lists_keep_their_attributes_as_text() {
    let (named, fields) = parse_fields("{ #[fromit(getter(skip))] #[doc = \"x\"] a: Vec<u8> }").unwrap();
    assert!(named);
    assert_eq!(
        fields,
        vec![FieldSyntax {
            name: Some("a".to_string()),
            ty: "Vec < u8 >".to_string(),
            vis: String::new(),
            attrs: vec!["# [fromit (getter (skip))]".to_string(), "# [doc = \"x\"]".to_string()],
        }]
    );
    let read = AnnotatedField::read(&fields[0]);
    assert_eq!(read.name.as_deref(), Some("a"));
    assert_eq!(read.annotations.len(), 2);
    assert!(matches!(read.annotations[0], Annotation::Block(_)));
    assert_eq!(read.annotations[1], Annotation::Silent);
    assert_eq!(AnnotatedField::read_all(&fields).len(), 1);
    assert_eq!(Annotation::read_all(&fields[0].attrs).len(), 2);
}

#[test]
fn a_definition_is_read_attribute_by_attribute() {
    let definition = DeriveInput {
        name: "Foo".to_string(),
        vis: "pub".to_string(),
        generics: "<T>".to_string(),
        where_clause: Some("where T: Eq".to_string()),
        attrs: vec!["#[fromit(name = \"A\")]".to_string(), "#[repr(C)]".to_string()],
        data: Data::Struct(vec![FieldSyntax {
            name: None,
            ty: "T".to_string(),
            vis: String::new(),
            attrs: vec!["#[fromit(skip)]".to_string()],
        }]),
    };
    let read = Annotated::read(&definition);
    assert_eq!(read.name, "Foo");
    assert_eq!(read.vis, "pub");
    assert_eq!(read.generics, "<T>");
    assert_eq!(read.where_clause.as_deref(), Some("where T: Eq"));
    assert!(matches!(read.annotations[0], Annotation::Block(_)));
    assert_eq!(read.annotations[1], Annotation::Silent);
    match &read.data {
        AnnotatedData::Struct(fields) => {
            assert_eq!(fields.len(), 1);
            assert_eq!(fields[0].name, None);
            assert!(matches!(fields[0].annotations[0], Annotation::Block(_)));
        }
        other => panic!("no record: {:?}", other),
    }
    let mut other = definition.clone();
    other.data = Data::Enum;
    assert_eq!(Annotated::read(&other).data, AnnotatedData::Enum);
    other.data = Data::Union;
    assert_eq!(Annotated::read(&other).data, AnnotatedData::Union);
}

#[test]
fn nesting_is_followed_to_its_limit() {
    let nested = |levels: usize| {
        let mut text = String::from("x");
        for _ in 0..levels {
            text = format!("a({})", text);
        }
        format!("#[fromit({})]", text)
    };
    assert_eq!(DEPTH, 32);
    assert!(matches!(Annotation::read(&nested(DEPTH)), Annotation::Block(_)));
    assert!(matches!(Annotation::read(&nested(DEPTH + 1)), Annotation::Broken(_)));
}

#[test]
fn texts_with_literals_that_cannot_be_read_are_not_readable() {
    assert!(!is_readable("c\"x\""));
    assert!(!is_readable("a = c\"x\""));
    assert!(!is_readable("#[fromit(name = c\"x\")]"));
    assert!(!is_readable("A<c\"x\">"));
    assert!(!is_readable("A<cr\"x\">"));
    assert!(!is_readable("A<cr#\"x\"#>"));
    assert!(!is_readable("(/*ERROR*/)"));
    assert!(!is_readable("a: &'a A<c\"x\">"));
    assert!(!is_readable("r\"x\" c\"y\""));
    assert!(is_readable(""));
    assert!(is_readable("rename = \"c\""));
    assert!(is_readable("fn = \"m::c\""));
    assert!(is_readable("# [doc = \" written in c\"]"));
    assert!(is_readable("# [doc = \" it's \\\"c\\\" \"]"));
    assert!(is_readable("abc\"x\""));
    assert!(is_readable("Vec<u8>"));
    assert!(is_readable("&'a str"));
    assert!(is_readable("r#\"{ panda: T }\"#"));
    assert!(is_readable("a /* note */ b"));
}

#[test]
fn what_is_not_readable_is_read_as_what_the_parser_refuses() {
    assert_eq!(parse_literal("c\"x\""), None);
    assert_eq!(parse_item("a = c\"x\""), ItemSyntax::Unreadable);
    assert_eq!(lift_item("a = c\"x\"".to_string(), DEPTH), None);
    let unreadable = "literal of a kind that cannot be read".to_string();
    assert_eq!(attribute_items("#[fromit(name = c\"x\")]"), Err(unreadable.clone()));
    assert_eq!(
        parse_attribute("#[fromit(name = c\"x\")]").map(|a| a.path),
        Err(unreadable.clone())
    );
    assert_eq!(parse_generics("<T: A<c\"x\">>").map(|g| g.params), Err(unreadable));
    assert_eq!(parse_leaf(Leaf::Type, "A<c\"x\">"), None);
    assert_eq!(parse_leaf(Leaf::Path, "A<c\"x\">"), None);
    assert_eq!(parse_named_fields("{ a: A<c\"x\"> }"), None);
    assert_eq!(parse_unnamed_fields("(A<c\"x\">)"), None);
    assert_eq!(
        parse_fields("{ a: A<c\"x\"> }").unwrap_err()[0].kind,
        fromit::error::ErrorKind::ExtraFieldsSyntax
    );
    assert_eq!(parse_literal("(/*ERROR*/)"), None);
    assert_eq!(parse_literal("\"c\""), Some(Lit::Str("c".to_string())));
    assert_eq!(parse_literal("not a literal"), None);
}

#[test]
fn the_first_attribute_of_a_text_is_read() {
    assert_eq!(parse_attribute("#[a(b)] #[c]").unwrap().path, "a");
    assert_eq!(parse_attribute("#[a(b)] #[c]").unwrap().tokens, "# [a (b)]");
    assert_eq!(attribute_items("#[a(b, c = 1)] #[d(e)]"), Ok(vec!["b".to_string(), "c = 1".to_string()]));
    assert_eq!(attribute_items("#[a]"), Ok(vec![]));
    assert!(attribute_items("#[a = 1]").is_err());
    assert_eq!(parse_attribute(""), Err("expected an attribute".to_string()));
    assert_eq!(attribute_items(""), Err("expected an attribute".to_string()));
    assert!(parse_attribute("a b").is_err());
    assert!(matches!(Annotation::read("a b"), Annotation::Broken(_)));
}

#[test]
fn odd_literals_are_read_or_refused() {
    for text in [
        "1e", "0x", "1_", "0b2", "1.0e+", "0o8", "1f32", "0xE+1", "1e_", "1.e3", "0b_", "0x_",
        "1E", "0e", "9e9999", "1.", "1..2", "0b1e3", "0x1p3", "1e+_3", "1__", "0o7u8", "1.0f",
        "1u128suffix", "0_", "00", "1e1e1", "'ab'", "b'ab'", "\"\\q\"", "'\\u{110000}'",
        "b\"\\u{1}\"", "r#\"x\"", "br##\"x\"#", "-1", "- 1", "1.0.0", "0.", "1e-", "0xfg",
        "0b", "1_f32", "1_000_u8", "0e0", "1e0f64", "true", "false", "truex", "b'\\x80'",
        "'\\x80'", "\"\\x80\"", "\"\\u{d800}\"", "1.0e309",
    ] {
        let _ = parse_literal(text);
        let _ = parse_item(&format!("a = {}", text));
        let _ = parse_item(text);
        let _ = parse_generics(&format!("<const N: usize = {}>", text));
        let _ = parse_leaf(Leaf::Type, &format!("A<{}>", text));
        let _ = parse_leaf(Leaf::Path, &format!("A::<{}>", text));
        let _ = attribute_items(&format!("#[a(b = {})]", text));
        let _ = parse_named_fields(&format!("{{ a: [u8; {}] }}", text));
    }
}
