use fromit::blocks::{ExtraFieldBlock, FieldBlock, StructBlock};
use fromit::error::{ErrorKind, Format, Keys};
use fromit::field::FieldLevelSkip;
use fromit::getter::{AccessorConverter, FieldLevelBound, FieldLevelGetter, StructLevelGetter};
use fromit::meta::{Entry, Lit, LitType, Meta, NestedMeta, Value};
use fromit::setter::{FieldLevelSetter, StructLevelSetter};
use fromit::source::Annotation;
use fromit::structure::{attributes_of_list, parse_fields, Bound, Converter, Extra, Try};
use fromit::style::{FieldConverter, SetterStyle, Style};
use fromit::values::{flag, leaf, text, Leaf};

fn items(list: &str) -> Vec<NestedMeta> {
    match Annotation::read(&format!("#[fromit({})]", list)) {
        Annotation::Block(items) => items,
        other => panic!("no block: {:?}", other),
    }
}

fn entry(list: &str) -> Meta {
    let mut all = items(list);
    assert_eq!(all.len(), 1);
    match all.remove(0).entry {
        Entry::Meta(m) => m,
        Entry::Lit(l) => panic!("a literal: {:?}", l),
    }
}

fn squash(text: &str) -> String {
    text.chars().filter(|c| !c.is_whitespace()).collect()
}

#[test]
fn reading_builds_the_tree_of_an_annotation() {
    let all = items("name = \"Foo\", skip, getter(style = \"ref\", rename = \"x\"), 3");
    assert_eq!(all.len(), 4);
    assert_eq!(
        all[0].entry,
        Entry::Meta(Meta {
            name: "name".to_string(),
            value: Value::NameValue(Lit::Str("Foo".to_string()))
        })
    );
    assert_eq!(all[1].entry, Entry::Meta(Meta { name: "skip".to_string(), value: Value::Word }));
    match &all[2].entry {
        Entry::Meta(Meta { name, value: Value::List(inner) }) => {
            assert_eq!(name, "getter");
            assert_eq!(inner.len(), 2);
            assert_eq!(
                inner[1].entry,
                Entry::Meta(Meta {
                    name: "rename".to_string(),
                    value: Value::NameValue(Lit::Str("x".to_string()))
                })
            );
        }
        other => panic!("no list: {:?}", other),
    }
    assert_eq!(all[3].entry, Entry::Lit(Lit::Other(LitType::Int)));
    assert_eq!(squash(&all[2].tokens), "getter(style=\"ref\",rename=\"x\")");
}

#[test]
fn reading_tells_literal_types_apart() {
    let all = items("a = true, b = 'c', c = 1.5, d = b\"x\", e = b'x', f = \"s\"");
    let lit = |i: usize| match &all[i].entry {
        Entry::Meta(Meta { value: Value::NameValue(l), .. }) => l.clone(),
        other => panic!("{:?}", other),
    };
    assert_eq!(lit(0), Lit::Bool(true));
    assert_eq!(lit(1), Lit::Char('c'));
    assert_eq!(lit(2), Lit::Other(LitType::Decimal));
    assert_eq!(lit(3), Lit::Other(LitType::ByteStr));
    assert_eq!(lit(4), Lit::Other(LitType::Byte));
    assert_eq!(lit(5), Lit::Str("s".to_string()));
    assert_eq!(lit(5).lit_type(), LitType::Str);
    assert_eq!(lit(0).lit_type(), LitType::Bool);
}

#[test]
fn attributes_of_others_and_empty_lists_are_silent() {
    assert_eq!(Annotation::read("#[doc = \"x\"]"), Annotation::Silent);
    assert_eq!(Annotation::read("#[derive(Clone)]"), Annotation::Silent);
    assert_eq!(Annotation::read("#[fromit()]"), Annotation::Silent);
    assert_eq!(Annotation::read("#[fromit]"), Annotation::Silent);
}

#[test]
fn an_annotation_that_is_no_list_is_broken() {
    match Annotation::read("#[fromit = \"x\"]") {
        Annotation::Broken(errors) => {
            assert_eq!(errors.len(), 1);
            assert!(matches!(errors[0].kind, ErrorKind::Syntax(_)));
        }
        other => panic!("not broken: {:?}", other),
    }
}

#[test]
fn flags_take_words_booleans_and_texts() {
    assert_eq!(flag(&entry("skip")), Ok(true));
    assert_eq!(flag(&entry("skip = false")), Ok(false));
    assert_eq!(flag(&entry("skip = \"true\"")), Ok(true));
    assert_eq!(flag(&entry("skip = \"false\"")), Ok(false));
    let err = flag(&entry("skip = \"yes\"")).unwrap_err();
    assert_eq!(err[0].kind, ErrorKind::UnknownValue("yes".to_string()));
    let err = flag(&entry("skip(x)")).unwrap_err();
    assert_eq!(err[0].kind, ErrorKind::UnexpectedFormat(Format::List));
    let err = flag(&entry("skip = 3")).unwrap_err();
    assert_eq!(err[0].kind, ErrorKind::UnexpectedType(LitType::Int));
}

#[test]
fn texts_take_string_literals_only() {
    assert_eq!(text(&entry("extra = \"T: Clone\"")), Ok("T: Clone".to_string()));
    assert_eq!(text(&entry("extra")).unwrap_err()[0].kind, ErrorKind::UnexpectedFormat(Format::Word));
    assert_eq!(
        text(&entry("extra(a)")).unwrap_err()[0].kind,
        ErrorKind::UnexpectedFormat(Format::List)
    );
    assert_eq!(
        text(&entry("extra = true")).unwrap_err()[0].kind,
        ErrorKind::UnexpectedType(LitType::Bool)
    );
}

#[test]
fn syntax_is_read_from_string_literals() {
    assert_eq!(leaf(Leaf::Ident, &entry("rename = \"foo1\"")), Ok("foo1".to_string()));
    assert_eq!(
        leaf(Leaf::Ident, &entry("rename = \"1foo\"")).unwrap_err()[0].kind,
        ErrorKind::UnknownValue("1foo".to_string())
    );
    assert_eq!(squash(&leaf(Leaf::Type, &entry("type = \"Vec<u8>\"")).unwrap()), "Vec<u8>");
    assert_eq!(
        leaf(Leaf::Type, &entry("type = \"Vec<\"")).unwrap_err()[0].kind,
        ErrorKind::UnknownValue("Vec<".to_string())
    );
    assert_eq!(squash(&leaf(Leaf::Visibility, &entry("vis = \"pub(crate)\"")).unwrap()), "pub(crate)");
    assert_eq!(squash(&leaf(Leaf::Path, &entry("fn = \"a::b\"")).unwrap()), "a::b");
    assert_eq!(
        leaf(Leaf::Path, &entry("fn = 1")).unwrap_err()[0].kind,
        ErrorKind::UnexpectedType(LitType::Int)
    );
    assert_eq!(
        leaf(Leaf::Path, &entry("fn")).unwrap_err()[0].kind,
        ErrorKind::UnexpectedFormat(Format::Word)
    );
}

#[test]
fn styles_are_one_of_two_words() {
    assert_eq!(Style::from_meta(&entry("style = \"ref\"")), Ok(Style::Ref));
    assert_eq!(Style::from_meta(&entry("style = \"move\"")), Ok(Style::Move));
    assert_eq!(
        Style::from_meta(&entry("style = \"copy\"")).unwrap_err()[0].kind,
        ErrorKind::UnknownValue("copy".to_string())
    );
    assert_eq!(
        Style::from_meta(&entry("style")).unwrap_err()[0].kind,
        ErrorKind::UnexpectedFormat(Format::Word)
    );
    assert_eq!(Style::from_meta(&entry("style()")).unwrap_err()[0].kind, ErrorKind::TooFewItems);
    assert_eq!(Style::from_meta(&entry("style(a, b)")).unwrap_err()[0].kind, ErrorKind::TooManyItems);
    assert_eq!(
        Style::from_meta(&entry("style(ref_)")).unwrap_err()[0].kind,
        ErrorKind::UnknownField { name: "ref_".to_string(), among: Keys::Style }
    );
    assert_eq!(
        Style::from_meta(&entry("style(\"ref\")")).unwrap_err()[0].kind,
        ErrorKind::UnexpectedFormat(Format::Literal)
    );
    assert_eq!(
        Style::from_meta(&entry("style = true")).unwrap_err()[0].kind,
        ErrorKind::UnexpectedType(LitType::Bool)
    );
    assert_eq!(Style::default(), Style::Move);
    assert_eq!(Style::Ref.prefix(), "&");
    assert_eq!(Style::Move.prefix(), "");
}

#[test]
fn setter_styles_are_one_of_four_words() {
    assert_eq!(SetterStyle::from_meta(&entry("style = \"ref\"")), Ok(SetterStyle::Ref));
    assert_eq!(SetterStyle::from_meta(&entry("style = \"move\"")), Ok(SetterStyle::Move));
    assert_eq!(SetterStyle::from_meta(&entry("style = \"into\"")), Ok(SetterStyle::Into));
    assert_eq!(SetterStyle::from_meta(&entry("style = \"try_into\"")), Ok(SetterStyle::TryInto));
    assert_eq!(
        SetterStyle::from_meta(&entry("style = \"TryInto\"")).unwrap_err()[0].kind,
        ErrorKind::UnknownValue("TryInto".to_string())
    );
    assert_eq!(SetterStyle::default(), SetterStyle::Move);
}

#[test]
fn a_field_converter_has_a_style_and_a_function() {
    let c = FieldConverter::from_meta(&entry("from(style = \"ref\", fn = \"conv\")")).unwrap();
    assert_eq!(c.style, Some(Style::Ref));
    assert_eq!(c.func.as_deref(), Some("conv"));
    let c = FieldConverter::from_meta(&entry("from()")).unwrap();
    assert_eq!(c, FieldConverter { style: None, func: None });
}

#[test]
fn a_group_reports_all_its_errors_in_order() {
    let err = FieldConverter::from_meta(&entry(
        "from(bad, style = \"copy\", 3, style = \"ref\", fn = \"a::\")",
    ))
    .unwrap_err();
    assert_eq!(err.len(), 5);
    assert_eq!(
        err[0].kind,
        ErrorKind::UnknownField { name: "bad".to_string(), among: Keys::FieldConverter }
    );
    assert_eq!(err[1].kind, ErrorKind::UnknownValue("copy".to_string()));
    assert_eq!(err[1].location, vec!["style".to_string()]);
    assert_eq!(err[2].kind, ErrorKind::UnexpectedFormat(Format::Literal));
    assert_eq!(err[3].kind, ErrorKind::DuplicateField("style".to_string()));
    assert_eq!(err[4].kind, ErrorKind::UnknownValue("a::".to_string()));
    assert_eq!(err[4].location, vec!["fn".to_string()]);
}

#[test]
fn a_group_is_a_list() {
    assert_eq!(
        FieldConverter::from_meta(&entry("from")).unwrap_err()[0].kind,
        ErrorKind::UnexpectedFormat(Format::Word)
    );
    assert_eq!(
        FieldConverter::from_meta(&entry("from = \"x\"")).unwrap_err()[0].kind,
        ErrorKind::UnexpectedType(LitType::Str)
    );
}

#[test]
fn errors_carry_the_keys_that_lead_to_them() {
    let err = FieldLevelGetter::from_meta(&entry(
        "getter(result(converter(style = \"copy\")))",
    ))
    .unwrap_err();
    assert_eq!(err.len(), 1);
    assert_eq!(err[0].kind, ErrorKind::UnknownValue("copy".to_string()));
    assert_eq!(
        err[0].location,
        vec!["result".to_string(), "converter".to_string(), "style".to_string()]
    );
}

#[test]
fn a_skip_marker_is_a_word_or_names_a_default() {
    assert_eq!(FieldLevelSkip::from_meta(&entry("skip")), Ok(FieldLevelSkip { default: None }));
    let skip = FieldLevelSkip::from_meta(&entry("skip(default = \"my_default_fn\")")).unwrap();
    assert_eq!(skip.default.as_deref(), Some("my_default_fn"));
    assert_eq!(
        FieldLevelSkip::from_meta(&entry("skip(other = 1)")).unwrap_err()[0].kind,
        ErrorKind::UnknownField { name: "other".to_string(), among: Keys::Skip }
    );
    let err = FieldLevelSkip::from_meta(&entry("skip(defualt = \"f\")")).unwrap_err();
    assert_eq!(err.len(), 1);
    assert_eq!(
        err[0].kind,
        ErrorKind::UnknownField { name: "defualt".to_string(), among: Keys::Skip }
    );
    assert_eq!(FieldLevelSkip::from_meta(&entry("skip()")), Ok(FieldLevelSkip { default: None }));
    assert_eq!(
        FieldLevelSkip::from_meta(&entry("skip = true")).unwrap_err()[0].kind,
        ErrorKind::UnexpectedFormat(Format::NameValue)
    );
    assert_eq!(
        FieldLevelSkip::from_meta(&entry("skip(3)")).unwrap_err()[0].kind,
        ErrorKind::UnexpectedFormat(Format::Literal)
    );
    assert_eq!(
        FieldLevelSkip::from_meta(&entry("skip(default = \"a\", default = \"b\")")).unwrap_err()[0]
            .kind,
        ErrorKind::DuplicateField("default".to_string())
    );
}

#[test]
fn method_bounds_are_parameter_lists() {
    let b = FieldLevelBound::from_meta(&entry("bound = \"C\"")).unwrap();
    assert_eq!(squash(b.bound.as_deref().unwrap()), "<C>");
    assert_eq!(
        FieldLevelBound::from_meta(&entry("bound = \"\"")),
        Ok(FieldLevelBound { bound: None })
    );
    assert_eq!(
        FieldLevelBound::from_meta(&entry("bound = 3")).unwrap_err()[0].kind,
        ErrorKind::ExpectedStringLiteral
    );
    assert!(matches!(
        FieldLevelBound::from_meta(&entry("bound = \"C: \"")).map(|_| ()),
        Ok(())
    ));
    assert!(matches!(
        FieldLevelBound::from_meta(&entry("bound = \"<\"")).unwrap_err()[0].kind,
        ErrorKind::Syntax(_)
    ));
    assert_eq!(
        FieldLevelBound::from_meta(&entry("bound")).unwrap_err()[0].kind,
        ErrorKind::UnexpectedFormat(Format::Word)
    );
}

#[test]
fn an_accessor_needs_its_converter() {
    let a = AccessorConverter::from_meta(&entry(
        "result(type = \"&str\", converter(fn = \"String::as_str\"), bound = \"T\")",
    ))
    .unwrap();
    assert_eq!(squash(a.ty.as_deref().unwrap()), "&str");
    assert_eq!(squash(a.converter.func.as_deref().unwrap()), "String::as_str");
    assert_eq!(squash(a.bound.bound.as_deref().unwrap()), "<T>");
    let err = AccessorConverter::from_meta(&entry("result(type = \"u8\")")).unwrap_err();
    assert_eq!(err.len(), 1);
    assert_eq!(err[0].kind, ErrorKind::MissingField("converter".to_string()));
    let err = AccessorConverter::from_meta(&entry("result(converter(x))")).unwrap_err();
    assert_eq!(err.len(), 1);
    assert_eq!(
        err[0].kind,
        ErrorKind::UnknownField { name: "x".to_string(), among: Keys::FieldConverter }
    );
    assert_eq!(err[0].location, vec!["converter".to_string()]);
}

#[test]
fn getter_options_decode() {
    let g = FieldLevelGetter::from_meta(&entry(
        "getter(style = \"ref\", rename = \"foo\", skip, vis = \"pub\")",
    ))
    .unwrap();
    assert_eq!(g.style, Some(Style::Ref));
    assert_eq!(g.rename.as_deref(), Some("foo"));
    assert!(g.ignore);
    assert_eq!(g.vis.as_deref(), Some("pub"));
    assert_eq!(g.result, None);
    let d = FieldLevelGetter::default();
    assert_eq!(
        d,
        FieldLevelGetter { rename: None, style: None, ignore: false, vis: None, result: None }
    );
}

#[test]
fn struct_getters_default_to_references() {
    let g = StructLevelGetter::from_meta(&entry("getters(prefix = \"x\")")).unwrap();
    assert_eq!(g.prefix.as_deref(), Some("x"));
    assert_eq!(g.style, Style::Ref);
    assert!(!g.ignore);
    let g = StructLevelGetter::from_meta(&entry("getters(style = \"move\", skip)")).unwrap();
    assert_eq!(g.style, Style::Move);
    assert!(g.ignore);
    assert_eq!(StructLevelGetter::default().style, Style::Ref);
}

#[test]
fn setter_options_decode() {
    let s = FieldLevelSetter::from_meta(&entry("setter(style = \"ref\", bound = \"C\")")).unwrap();
    assert_eq!(s.style, Some(SetterStyle::Ref));
    assert_eq!(squash(s.bound.bound.as_deref().unwrap()), "<C>");
    let s = StructLevelSetter::from_meta(&entry("setters(prefix = \"with\", vis_all = \"pub\")"))
        .unwrap();
    assert_eq!(s.prefix.as_deref(), Some("with"));
    assert_eq!(s.style, SetterStyle::Move);
    assert_eq!(s.vis_all.as_deref(), Some("pub"));
    assert_eq!(StructLevelSetter::default().style, SetterStyle::Move);
    assert_eq!(FieldLevelSetter::default().bound, FieldLevelBound { bound: None });
}

#[test]
fn conversions_decode() {
    let c = Converter::from_meta(&entry("converter(try_from(style = \"ref\"))")).unwrap();
    assert_eq!(c.try_from, Some(Try { style: Style::Ref, error: None }));
    assert_eq!(c.from, None);
    assert_eq!(c.into, None);
    assert_eq!(c.try_into, None);
    let c = Converter::from_meta(&entry(
        "converter(from = \"ref\", try_into(error = \"MyError\"))",
    ))
    .unwrap();
    assert_eq!(c.from, Some(Style::Ref));
    assert_eq!(c.try_into, Some(Try { style: Style::Move, error: Some("MyError".to_string()) }));
    let d = Converter::default();
    assert_eq!(d.from, Some(Style::Move));
    assert_eq!(d.into, Some(Style::Move));
    assert_eq!(d.try_from, None);
    assert_eq!(d.try_into, None);
}

#[test]
fn a_bound_batches_its_errors() {
    let b = Bound::from_meta(&entry("bound(inherit, extra = \"T: Clone\")")).unwrap();
    assert_eq!(b, Bound { inherit: true, extra: Some("T: Clone".to_string()) });
    let b = Bound::from_meta(&entry("bound(extra = \"T\")")).unwrap();
    assert!(!b.inherit);
    let b = Bound::from_meta(&entry("bound(inherit = false)")).unwrap();
    assert_eq!(b, Bound { inherit: false, extra: None });
    let err = Bound::from_meta(&entry("bound(a, inherit, b, inherit, extra = 1)")).unwrap_err();
    assert_eq!(err.len(), 4);
    assert_eq!(err[0].kind, ErrorKind::UnknownField { name: "a".to_string(), among: Keys::Bound });
    assert_eq!(err[1].kind, ErrorKind::UnknownField { name: "b".to_string(), among: Keys::Bound });
    assert_eq!(err[2].kind, ErrorKind::DuplicateField("inherit".to_string()));
    assert_eq!(err[3].kind, ErrorKind::UnexpectedType(LitType::Int));
    assert_eq!(err[3].location, vec!["extra".to_string()]);
}

#[test]
fn raw_attributes_are_passed_on() {
    let a = attributes_of_list(&items("derive(Clone, Debug), serde(rename_all = \"camelCase\")"))
        .unwrap();
    assert_eq!(a.len(), 2);
    assert_eq!(squash(&a[0]), "#[derive(Clone,Debug)]");
    assert_eq!(squash(&a[1]), "#[serde(rename_all=\"camelCase\")]");
    let err = attributes_of_list(&items("\"x\"")).unwrap_err();
    assert!(matches!(err[0].kind, ErrorKind::Syntax(_)));
}

#[test]
fn field_lists_stand_between_braces() {
    let (named, fields) = parse_fields("x { panda: T, pub tiger: C } y").unwrap();
    assert!(named);
    assert_eq!(fields.len(), 2);
    assert_eq!(fields[0].name.as_deref(), Some("panda"));
    assert_eq!(fields[0].ty, "T");
    assert_eq!(fields[0].vis, "");
    assert_eq!(fields[1].vis, "pub");
    assert_eq!(parse_fields("panda: T }").unwrap_err()[0].kind, ErrorKind::ExpectedLeftBrace);
    assert_eq!(parse_fields("{ panda: T").unwrap_err()[0].kind, ErrorKind::ExpectedRightBrace);
    assert_eq!(parse_fields("} panda: T {").unwrap_err()[0].kind, ErrorKind::ExtraFieldsSyntax);
    assert_eq!(parse_fields("{ panda T }").unwrap_err()[0].kind, ErrorKind::ExtraFieldsSyntax);
    let (named, fields) = parse_fields("{ u8, u16 }").unwrap();
    assert!(!named);
    assert_eq!(fields.len(), 2);
    assert_eq!(fields[0].name, None);
    assert_eq!(fields[0].ty, "u8");
    assert_eq!(fields[1].ty, "u16");
    let (named, fields) = parse_fields("x { pub Vec<u8> } y").unwrap();
    assert!(!named);
    assert_eq!(fields[0].ty, "Vec < u8 >");
    assert_eq!(fields[0].vis, "pub");
    assert_eq!(parse_fields("{ a: }").unwrap_err()[0].kind, ErrorKind::ExtraFieldsSyntax);
}

#[test]
fn extras_decode() {
    let e = Extra::from_meta(&entry(
        "extra(field_attributes(serde(default)), fields = \"{ #[fromit(default = \\\"make\\\", vis = \\\"pub\\\")] a: u8, b: u16 }\")",
    ))
    .unwrap();
    assert_eq!(e.attributes.len(), 1);
    assert_eq!(e.fields.len(), 2);
    assert_eq!(e.fields[0].0, "a");
    assert_eq!(e.fields[0].1.default.as_deref(), Some("make"));
    assert_eq!(e.fields[0].1.vis.as_deref(), Some("pub"));
    assert!(e.fields[0].1.named);
    assert_eq!(e.fields[1].0, "b");
    assert_eq!(e.fields[1].1.default, None);
    assert_eq!(e.fields[1].1.src_ty, "u16");
    assert_eq!(
        Extra::from_meta(&entry("extra(fields)")).unwrap_err()[0].kind,
        ErrorKind::UnexpectedFormat(Format::Path)
    );
    assert_eq!(
        Extra::from_meta(&entry("extra(fields = 1)")).unwrap_err()[0].kind,
        ErrorKind::ExpectedStringLiteral
    );
    assert_eq!(
        Extra::from_meta(&entry("extra(fields = \"{a: u8}\", fields = \"{b: u8}\")")).unwrap_err()
            [0]
        .kind,
        ErrorKind::DuplicateField("fields".to_string())
    );
    assert_eq!(
        Extra::from_meta(&entry("extra(other)")).unwrap_err()[0].kind,
        ErrorKind::UnknownField { name: "other".to_string(), among: Keys::Extra }
    );
    let none = Extra::from_meta(&entry("extra()")).unwrap();
    assert!(none.fields.is_empty());
    assert!(none.attributes.is_empty());
}

#[test]
fn extra_fields_refuse_the_keys_of_source_fields() {
    for key in ["skip", "type", "rename", "parent", "from", "into"] {
        let err = ExtraFieldBlock::from_list(&items(&format!("{} = \"x\"", key))).unwrap_err();
        assert_eq!(err.len(), 1);
        assert_eq!(err[0].kind, ErrorKind::ExtraFieldKey(key.to_string()));
    }
    let err = ExtraFieldBlock::from_list(&items("other")).unwrap_err();
    assert_eq!(
        err[0].kind,
        ErrorKind::UnknownField { name: "other".to_string(), among: Keys::ExtraFieldBlock }
    );
    let b = ExtraFieldBlock::from_list(&items("default = \"make\", getter(skip)")).unwrap();
    assert_eq!(b.default.as_deref(), Some("make"));
    assert!(b.getter.unwrap().ignore);
}

#[test]
fn field_blocks_stop_at_the_first_error() {
    let err = FieldBlock::from_list(&items("rename = \"1x\", bad, default = \"f\"")).unwrap_err();
    assert_eq!(err.len(), 1);
    assert_eq!(err[0].kind, ErrorKind::UnknownValue("1x".to_string()));
    assert_eq!(err[0].location, vec!["rename".to_string()]);
    let err = FieldBlock::from_list(&items("rename = \"x\", default = \"f\", bad")).unwrap_err();
    assert_eq!(err.len(), 1);
    assert_eq!(err[0].kind, ErrorKind::DefaultOnSourceField);
    let err = FieldBlock::from_list(&items("rename = \"x\", rename = \"y\"")).unwrap_err();
    assert_eq!(err[0].kind, ErrorKind::DuplicateField("rename".to_string()));
    let err = FieldBlock::from_list(&items("\"x\"")).unwrap_err();
    assert_eq!(err[0].kind, ErrorKind::UnexpectedFormat(Format::Literal));
    let b = FieldBlock::from_list(&items(
        "parent = \"FooDb\", rename = \"foo1\", type = \"Vec<u8>\", from(fn = \"conv\"), getter(style = \"ref\", rename = \"foo\"), setter(style = \"ref\", bound = \"C\"), attributes(serde(rename = \"foo2\"))",
    ))
    .unwrap();
    assert_eq!(b.parent.as_deref(), Some("FooDb"));
    assert_eq!(b.rename.as_deref(), Some("foo1"));
    assert_eq!(b.from.unwrap().func.as_deref(), Some("conv"));
    assert_eq!(b.attributes.unwrap().len(), 1);
    assert_eq!(b.skip, None);
}

#[test]
fn struct_blocks_decode() {
    let b = StructBlock::from_list(&items(
        "name = \"FooGraphql\", getters(prefix = \"x\", style = \"ref\"), bound(inherit, extra = \"T: Clone\"), vis = \"pub(crate)\"",
    ))
    .unwrap();
    assert_eq!(b.name.as_deref(), Some("FooGraphql"));
    assert_eq!(b.getters.unwrap().prefix.as_deref(), Some("x"));
    assert!(b.bound.unwrap().inherit);
    assert_eq!(squash(b.vis.as_deref().unwrap()), "pub(crate)");
    assert_eq!(b.converter, None);
    let err = StructBlock::from_list(&items("nam = \"x\"")).unwrap_err();
    assert_eq!(
        err[0].kind,
        ErrorKind::UnknownField { name: "nam".to_string(), among: Keys::StructBlock }
    );
    let err = StructBlock::from_list(&items("name = \"A\", name = \"B\"")).unwrap_err();
    assert_eq!(err[0].kind, ErrorKind::DuplicateField("name".to_string()));
}

#[test]
fn key_groups_list_their_keys() {
    assert_eq!(Keys::Bound.names(), vec!["inherit".to_string(), "extra".to_string()]);
    assert_eq!(Keys::Style.names(), vec!["ref".to_string(), "move".to_string()]);
    assert_eq!(Keys::Skip.names(), vec!["default".to_string()]);
    assert_eq!(Keys::StructBlock.names().len(), 8);
    assert_eq!(Keys::FieldBlock.names().len(), 10);
    assert_eq!(Keys::ExtraFieldBlock.names().len(), 5);
    assert_eq!(Keys::FieldGetter.names()[4], "result");
    assert_eq!(Keys::FieldSetter.names()[4], "bound");
    assert_eq!(Keys::StructGetter.names(), Keys::StructSetter.names());
    assert_eq!(Keys::Accessor.names()[1], "converter");
    assert_eq!(Keys::Converter.names()[0], "try_from");
    assert_eq!(Keys::Try.names()[1], "error");
    assert_eq!(Keys::FieldConverter.names()[1], "fn");
    assert_eq!(Keys::Extra.names()[0], "field_attributes");
    assert_eq!(Keys::SetterStyle.names()[3], "try_into");
}

#[test]
fn annotations_inside_a_field_list_come_after_the_items() {
    let err = Extra::from_meta(&entry(
        "extra(fields = \"{ #[fromit(skip)] a: u8 }\", other)",
    ))
    .unwrap_err();
    assert_eq!(err.len(), 1);
    assert_eq!(
        err[0].kind,
        ErrorKind::UnknownField { name: "other".to_string(), among: Keys::Extra }
    );
    let err = Extra::from_meta(&entry("extra(fields = \"{ #[fromit(skip)] a: u8 }\")")).unwrap_err();
    assert_eq!(err.len(), 1);
    assert_eq!(err[0].kind, ErrorKind::ExtraFieldKey("skip".to_string()));
    let err = Extra::from_meta(&entry("extra(fields = \"{ #[fromit = 1] a: u8 }\")")).unwrap_err();
    assert!(matches!(err[0].kind, ErrorKind::Syntax(_)));
}

#[test]
fn a_later_extra_field_of_the_same_name_takes_the_place_of_the_earlier() {
    let e = Extra::from_meta(&entry(
        "extra(fields = \"{ a: u8, b: u8, #[fromit(getter(skip))] a: u16 }\")",
    ))
    .unwrap();
    assert_eq!(e.fields.len(), 2);
    assert_eq!(e.fields[0].0, "a");
    assert_eq!(e.fields[0].1.src_ty, "u16");
    assert!(e.fields[0].1.getter.ignore);
    assert_eq!(e.fields[1].0, "b");
    let e = Extra::from_meta(&entry("extra(fields = \"{ #[fromit(getter(skip))] a: u8, a: u16 }\")"))
        .unwrap();
    assert_eq!(e.fields.len(), 1);
    assert_eq!(e.fields[0].1.src_ty, "u8");
    assert!(e.fields[0].1.getter.ignore);
}

#[test]
fn positional_extra_fields_stand_under_their_position() {
    let e = Extra::from_meta(&entry("extra(fields = \"{ u8, #[fromit(default = \\\"make\\\")] u16 }\")"))
        .unwrap();
    assert_eq!(e.fields.len(), 2);
    assert_eq!(e.fields[0].0, "0");
    assert_eq!(e.fields[0].1.name, None);
    assert!(!e.fields[0].1.named);
    assert_eq!(e.fields[0].1.src_ty, "u8");
    assert_eq!(e.fields[1].0, "1");
    assert_eq!(e.fields[1].1.default.as_deref(), Some("make"));
}
