use fromit::error::{copy_errors, fail, locate, word_of_lit_type, Error, ErrorKind, Format, Keys, Shape};
use fromit::meta::LitType;

fn says(kind: ErrorKind) -> String {
    kind.message()
}

#[test]
fn every_kind_of_error_has_its_message() {
    assert_eq!(says(ErrorKind::Syntax("expected `,`".to_string())), "expected `,`");
    assert_eq!(says(ErrorKind::DuplicateField("name".to_string())), "Duplicate field `name`");
    assert_eq!(says(ErrorKind::MissingField("name".to_string())), "Missing field `name`");
    assert_eq!(
        says(ErrorKind::UnknownField { name: "nam".to_string(), among: Keys::StructBlock }),
        "Unknown field: `nam`. Did you mean one of `name`, `attributes`, `getters`, `setters`, `converter`, `vis`, `bound`, `extra`?"
    );
    assert_eq!(
        says(ErrorKind::UnsupportedShape(Shape::Enum)),
        "Unsupported shape `enum`. Expected struct with named, tuple, newtype, or unit."
    );
    assert_eq!(
        says(ErrorKind::UnsupportedShape(Shape::Union)),
        "Unsupported shape `union`. Expected struct with named, tuple, newtype, or unit."
    );
    assert_eq!(
        says(ErrorKind::UnexpectedFormat(Format::Literal)),
        "Unexpected meta-item format `literal`"
    );
    assert_eq!(says(ErrorKind::UnexpectedType(LitType::Int)), "Unexpected literal type `int`");
    assert_eq!(says(ErrorKind::UnknownValue("copy".to_string())), "Unknown literal value `copy`");
    assert_eq!(says(ErrorKind::TooFewItems), "Too few items: Expected at least 1");
    assert_eq!(says(ErrorKind::TooManyItems), "Too many items: Expected no more than 1");
    assert_eq!(
        says(ErrorKind::DefaultOnSourceField),
        "default is only supported for extra fields"
    );
    assert_eq!(
        says(ErrorKind::ParentRequired),
        "parent must be specified when there are more than one struct needed to be generated"
    );
    assert_eq!(says(ErrorKind::UnknownParent("C".to_string())), "Does not have parent C");
    assert_eq!(
        says(ErrorKind::NoDerivedType),
        "field annotation without a derived type to generate"
    );
    assert_eq!(
        says(ErrorKind::ExtraFieldKey("skip".to_string())),
        "skip is not supported for extra field"
    );
    assert_eq!(says(ErrorKind::ExpectedStringLiteral), "expected string literal");
    assert_eq!(says(ErrorKind::ExpectedLeftBrace), "expected left curly brace");
    assert_eq!(says(ErrorKind::ExpectedRightBrace), "expected right curly brace");
    assert_eq!(says(ErrorKind::ExtraFieldsSyntax), "fail to parse extra fields");
    assert_eq!(says(ErrorKind::ConflictingConverters), "Cannot have both `try_from` and `from`");
    assert_eq!(says(ErrorKind::Unreadable), "annotation cannot be read");
}

#[test]
fn words_for_shapes_forms_and_literal_types() {
    assert_eq!(Shape::Struct.word(), "struct");
    assert_eq!(Shape::Enum.word(), "enum");
    assert_eq!(Shape::Union.word(), "union");
    assert_eq!(Format::Word.word(), "word");
    assert_eq!(Format::Path.word(), "path");
    assert_eq!(Format::List.word(), "list");
    assert_eq!(Format::Literal.word(), "literal");
    assert_eq!(Format::NameValue.word(), "namedValue");
    assert_eq!(word_of_lit_type(LitType::Str), "string");
    assert_eq!(word_of_lit_type(LitType::Bool), "bool");
    assert_eq!(word_of_lit_type(LitType::Char), "char");
    assert_eq!(word_of_lit_type(LitType::ByteStr), "byte string");
    assert_eq!(word_of_lit_type(LitType::Byte), "byte");
    assert_eq!(word_of_lit_type(LitType::Int), "int");
    assert_eq!(word_of_lit_type(LitType::Decimal), "float");
    assert_eq!(word_of_lit_type(LitType::Verbatim), "verbatim");
}

#[test]
fn a_located_error_names_the_keys_that_lead_to_it() {
    let plain = Error::new(ErrorKind::TooFewItems);
    assert_eq!(plain.message(), "Too few items: Expected at least 1");
    let errors = locate(locate(fail(ErrorKind::UnknownValue("x".to_string())), "style"), "getter");
    assert_eq!(errors.len(), 1);
    assert_eq!(errors[0].location, vec!["getter".to_string(), "style".to_string()]);
    assert_eq!(errors[0].message(), "Unknown literal value `x` at getter/style");
    let one = locate(fail(ErrorKind::TooManyItems), "style");
    assert_eq!(one[0].message(), "Too many items: Expected no more than 1 at style");
}

#[test]
fn copies_of_errors_are_equal_to_them() {
    let errors = locate(fail(ErrorKind::UnknownParent("C".to_string())), "parent");
    assert_eq!(copy_errors(&errors), errors);
    assert_eq!(errors[0].copy(), errors[0]);
    assert_eq!(errors[0].kind.copy(), errors[0].kind);
    assert_eq!(fail(ErrorKind::ParentRequired).len(), 1);
}

#[test]
fn an_unknown_key_is_reported_with_the_keys_of_its_group() {
    assert_eq!(
        ErrorKind::UnknownField { name: "x".to_string(), among: Keys::Skip }.message(),
        "Unknown field: `x`. Did you mean one of `default`?"
    );
    assert_eq!(
        ErrorKind::UnknownField { name: "x".to_string(), among: Keys::Bound }.message(),
        "Unknown field: `x`. Did you mean one of `inherit`, `extra`?"
    );
}
