//! What can be wrong with an annotated definition.

use crate::keys::key_names;
use crate::meta::LitType;
use crate::text::{join, owned};
use vstd::prelude::*;

verus! {

/// The shapes an annotated definition can have.
#[derive(Clone, Copy, Debug, PartialEq, Eq, Structural)]
pub enum Shape {
    Struct,
    Enum,
    Union,
}

/// The forms in which an annotation entry can be written.
#[derive(Clone, Copy, Debug, PartialEq, Eq, Structural)]
pub enum Format {
    Word,
    Path,
    List,
    Literal,
    NameValue,
}

/// The groups of keys that the annotation language knows; an unknown key
/// is reported with the group it was looked up in.
#[derive(Clone, Copy, Debug, PartialEq, Eq, Structural)]
pub enum Keys {
    StructBlock,
    FieldBlock,
    ExtraFieldBlock,
    Skip,
    Bound,
    Extra,
    Converter,
    Try,
    FieldConverter,
    StructGetter,
    FieldGetter,
    Accessor,
    StructSetter,
    FieldSetter,
    Style,
    SetterStyle,
}

/// One thing that is wrong.
#[derive(Clone, Debug, PartialEq, Eq)]
pub enum ErrorKind {
    /// The syntax parser refused a piece of text; this is its message.
    Syntax(String),
    /// A key was given twice.
    DuplicateField(String),
    /// A required key was not given.
    MissingField(String),
    /// A key that the group does not know.
    UnknownField { name: String, among: Keys },
    /// The definition is no plain record.
    UnsupportedShape(Shape),
    /// An entry written in a form that its key does not take.
    UnexpectedFormat(Format),
    /// A literal of a type that its key does not take.
    UnexpectedType(LitType),
    /// A text that is not among the values its key takes.
    UnknownValue(String),
    /// A list with no item where one is needed.
    TooFewItems,
    /// A list with more than the one item it may hold.
    TooManyItems,
    /// `default` on a field of the original type.
    DefaultOnSourceField,
    /// A field annotation without `parent` where several derived types are declared.
    ParentRequired,
    /// A field annotation whose `parent` is no declared derived type.
    UnknownParent(String),
    /// A field annotation, and no derived type is declared.
    NoDerivedType,
    /// A key on an extra field that only fields of the original type take.
    ExtraFieldKey(String),
    /// Something else than text where text is needed.
    ExpectedStringLiteral,
    /// An extra-field list without an opening brace.
    ExpectedLeftBrace,
    /// An extra-field list without a closing brace.
    ExpectedRightBrace,
    /// An extra-field list that is neither named nor positional fields.
    ExtraFieldsSyntax,
    /// Both the plain and the fallible conversion were asked for, in one direction.
    ConflictingConverters,
    /// An annotation that cannot be read as a tree of items.
    Unreadable,
}

/// One thing that is wrong, with the keys that lead to it, outermost first.
#[derive(Clone, Debug, PartialEq, Eq)]
pub struct Error {
    pub kind: ErrorKind,
    pub location: Vec<String>,
}

/// Mathematical form of [`ErrorKind`].
pub ghost enum ErrorKindModel {
    Syntax(Seq<char>),
    DuplicateField(Seq<char>),
    MissingField(Seq<char>),
    UnknownField { name: Seq<char>, among: Keys },
    UnsupportedShape(Shape),
    UnexpectedFormat(Format),
    UnexpectedType(LitType),
    UnknownValue(Seq<char>),
    TooFewItems,
    TooManyItems,
    DefaultOnSourceField,
    ParentRequired,
    UnknownParent(Seq<char>),
    NoDerivedType,
    ExtraFieldKey(Seq<char>),
    ExpectedStringLiteral,
    ExpectedLeftBrace,
    ExpectedRightBrace,
    ExtraFieldsSyntax,
    ConflictingConverters,
    Unreadable,
}

/// Mathematical form of [`Error`].
pub ghost struct ErrorModel {
    pub kind: ErrorKindModel,
    pub location: Seq<Seq<char>>,
}

impl DeepView for ErrorKind {
    type V = ErrorKindModel;

    open spec fn deep_view(&self) -> ErrorKindModel {
        match self {
            ErrorKind::Syntax(s) => ErrorKindModel::Syntax(s@),
            ErrorKind::DuplicateField(s) => ErrorKindModel::DuplicateField(s@),
            ErrorKind::MissingField(s) => ErrorKindModel::MissingField(s@),
            ErrorKind::UnknownField { name, among } => ErrorKindModel::UnknownField {
                name: name@,
                among: *among,
            },
            ErrorKind::UnsupportedShape(s) => ErrorKindModel::UnsupportedShape(*s),
            ErrorKind::UnexpectedFormat(f) => ErrorKindModel::UnexpectedFormat(*f),
            ErrorKind::UnexpectedType(t) => ErrorKindModel::UnexpectedType(*t),
            ErrorKind::UnknownValue(s) => ErrorKindModel::UnknownValue(s@),
            ErrorKind::TooFewItems => ErrorKindModel::TooFewItems,
            ErrorKind::TooManyItems => ErrorKindModel::TooManyItems,
            ErrorKind::DefaultOnSourceField => ErrorKindModel::DefaultOnSourceField,
            ErrorKind::ParentRequired => ErrorKindModel::ParentRequired,
            ErrorKind::UnknownParent(s) => ErrorKindModel::UnknownParent(s@),
            ErrorKind::NoDerivedType => ErrorKindModel::NoDerivedType,
            ErrorKind::ExtraFieldKey(s) => ErrorKindModel::ExtraFieldKey(s@),
            ErrorKind::ExpectedStringLiteral => ErrorKindModel::ExpectedStringLiteral,
            ErrorKind::ExpectedLeftBrace => ErrorKindModel::ExpectedLeftBrace,
            ErrorKind::ExpectedRightBrace => ErrorKindModel::ExpectedRightBrace,
            ErrorKind::ExtraFieldsSyntax => ErrorKindModel::ExtraFieldsSyntax,
            ErrorKind::ConflictingConverters => ErrorKindModel::ConflictingConverters,
            ErrorKind::Unreadable => ErrorKindModel::Unreadable,
        }
    }
}

impl DeepView for Error {
    type V = ErrorModel;

    open spec fn deep_view(&self) -> ErrorModel {
        ErrorModel { kind: self.kind.deep_view(), location: self.location.deep_view() }
    }
}

/// Where in the annotated definition a failure arose.
#[derive(Clone, Debug, PartialEq, Eq)]
pub enum Origin {
    /// In the definition as a whole.
    Definition,
    /// In the attribute at the given place among those of the original
    /// type.
    TypeAttribute(usize),
    /// In the attribute at place `attribute` among those of the field at
    /// place `field`.
    FieldAttribute { field: usize, attribute: usize },
    /// In what is generated for the derived type of the given name.
    Derived(String),
}

/// What is wrong with an annotated definition: one or more errors, and
/// the place that they all arose in.
#[derive(Clone, Debug, PartialEq, Eq)]
pub struct Failure {
    pub origin: Origin,
    pub errors: Vec<Error>,
}

/// Mathematical form of [`Origin`].
pub ghost enum OriginModel {
    Definition,
    TypeAttribute(nat),
    FieldAttribute { field: nat, attribute: nat },
    Derived(Seq<char>),
}

/// Mathematical form of [`Failure`].
pub ghost struct FailureModel {
    pub origin: OriginModel,
    pub errors: Seq<ErrorModel>,
}

impl DeepView for Origin {
    type V = OriginModel;

    open spec fn deep_view(&self) -> OriginModel {
        match self {
            Origin::Definition => OriginModel::Definition,
            Origin::TypeAttribute(i) => OriginModel::TypeAttribute(*i as nat),
            Origin::FieldAttribute { field, attribute } => OriginModel::FieldAttribute {
                field: *field as nat,
                attribute: *attribute as nat,
            },
            Origin::Derived(name) => OriginModel::Derived(name@),
        }
    }
}

impl DeepView for Failure {
    type V = FailureModel;

    open spec fn deep_view(&self) -> FailureModel {
        FailureModel { origin: self.origin.deep_view(), errors: self.errors.deep_view() }
    }
}

/// Whether an outcome of resolving is the one that the model gives.
pub open spec fn settles<T: DeepView>(
    r: Result<T, Failure>,
    model: Result<T::V, FailureModel>,
) -> bool {
    match r {
        Ok(v) => model == Ok::<T::V, FailureModel>(v.deep_view()),
        Err(e) => model == Err::<T::V, FailureModel>(e.deep_view()),
    }
}

/// An error of the given kind, with no location yet.
pub open spec fn plain(kind: ErrorKindModel) -> ErrorModel {
    ErrorModel { kind, location: Seq::empty() }
}

/// The failure that consists of one error of the given kind.
pub open spec fn only(kind: ErrorKindModel) -> Seq<ErrorModel> {
    seq![plain(kind)]
}

/// The errors `errors`, each now also located under `key`.
pub open spec fn under(errors: Seq<ErrorModel>, key: Seq<char>) -> Seq<ErrorModel> {
    Seq::new(
        errors.len(),
        |i: int| ErrorModel { kind: errors[i].kind, location: seq![key] + errors[i].location },
    )
}

/// Whether an outcome is the one that the model gives.
pub open spec fn agrees<T: DeepView>(
    r: Result<T, Vec<Error>>,
    model: Result<T::V, Seq<ErrorModel>>,
) -> bool {
    match r {
        Ok(v) => model == Ok::<T::V, Seq<ErrorModel>>(v.deep_view()),
        Err(e) => model == Err::<T::V, Seq<ErrorModel>>(e.deep_view()),
    }
}

impl ErrorKind {
    /// A copy of the kind.
    pub fn copy(&self) -> (r: ErrorKind)
        ensures
            r.deep_view() == self.deep_view(),
    {
        match self {
            ErrorKind::Syntax(s) => ErrorKind::Syntax(s.clone()),
            ErrorKind::DuplicateField(s) => ErrorKind::DuplicateField(s.clone()),
            ErrorKind::MissingField(s) => ErrorKind::MissingField(s.clone()),
            ErrorKind::UnknownField { name, among } => ErrorKind::UnknownField {
                name: name.clone(),
                among: *among,
            },
            ErrorKind::UnsupportedShape(s) => ErrorKind::UnsupportedShape(*s),
            ErrorKind::UnexpectedFormat(f) => ErrorKind::UnexpectedFormat(*f),
            ErrorKind::UnexpectedType(t) => ErrorKind::UnexpectedType(*t),
            ErrorKind::UnknownValue(s) => ErrorKind::UnknownValue(s.clone()),
            ErrorKind::TooFewItems => ErrorKind::TooFewItems,
            ErrorKind::TooManyItems => ErrorKind::TooManyItems,
            ErrorKind::DefaultOnSourceField => ErrorKind::DefaultOnSourceField,
            ErrorKind::ParentRequired => ErrorKind::ParentRequired,
            ErrorKind::UnknownParent(s) => ErrorKind::UnknownParent(s.clone()),
            ErrorKind::NoDerivedType => ErrorKind::NoDerivedType,
            ErrorKind::ExtraFieldKey(s) => ErrorKind::ExtraFieldKey(s.clone()),
            ErrorKind::ExpectedStringLiteral => ErrorKind::ExpectedStringLiteral,
            ErrorKind::ExpectedLeftBrace => ErrorKind::ExpectedLeftBrace,
            ErrorKind::ExpectedRightBrace => ErrorKind::ExpectedRightBrace,
            ErrorKind::ExtraFieldsSyntax => ErrorKind::ExtraFieldsSyntax,
            ErrorKind::ConflictingConverters => ErrorKind::ConflictingConverters,
            ErrorKind::Unreadable => ErrorKind::Unreadable,
        }
    }
}

/// A copy of a list of errors.
pub fn copy_errors(errors: &Vec<Error>) -> (r: Vec<Error>)
    ensures
        r.deep_view() == errors.deep_view(),
{
    let mut r: Vec<Error> = Vec::new();
    let n = errors.len();
    let mut i: usize = 0;
    while i < n
        invariant
            i <= n,
            n == errors.len(),
            r.len() == i,
            forall|j: int| 0 <= j < i ==> r[j].deep_view() == errors[j].deep_view(),
        decreases n - i,
    {
        r.push(errors[i].copy());
        i += 1;
    }
    assert(r.deep_view() =~= errors.deep_view());
    r
}

impl Error {
    /// A copy of the error.
    pub fn copy(&self) -> (r: Error)
        ensures
            r.deep_view() == self.deep_view(),
    {
        Error { kind: self.kind.copy(), location: self.location.clone() }
    }

    /// An error of the given kind, with no location yet.
    pub fn new(kind: ErrorKind) -> (r: Error)
        ensures
            r.deep_view() == plain(kind.deep_view()),
    {
        let r = Error { kind, location: Vec::new() };
        assert(r.location.deep_view() =~= Seq::<Seq<char>>::empty());
        r
    }
}

/// The failure that consists of one error of the given kind.
pub fn fail(kind: ErrorKind) -> (r: Vec<Error>)
    ensures
        r.deep_view() == only(kind.deep_view()),
{
    let mut r: Vec<Error> = Vec::new();
    r.push(Error::new(kind));
    assert(r.deep_view() =~= only(kind.deep_view()));
    r
}

/// Puts every error of `errors` under `key` as well.
pub fn locate(errors: Vec<Error>, key: &str) -> (r: Vec<Error>)
    ensures
        r.deep_view() == under(errors.deep_view(), key@),
{
    let mut r: Vec<Error> = Vec::new();
    let mut errors = errors;
    let ghost all = errors.deep_view();
    let n = errors.len();
    let mut i: usize = 0;
    while i < n
        invariant
            i <= n,
            n == errors.len(),
            r.len() == i,
            forall|j: int| 0 <= j < i ==> r[j].deep_view() == under(all, key@)[j],
            forall|j: int| i <= j < n ==> errors[j].deep_view() == all[j],
            all.len() == n,
        decreases n - i,
    {
        let mut e = Error { kind: ErrorKind::Unreadable, location: Vec::new() };
        std::mem::swap(&mut e, &mut errors[i]);
        let ghost before = e.location.deep_view();
        e.location.insert(0, crate::text::owned(key));
        assert(e.location.deep_view() =~= seq![key@] + before);
        r.push(e);
        i += 1;
    }
    assert(r.deep_view() =~= under(all, key@));
    r
}

/// The word for a shape.
pub open spec fn shape_word(shape: Shape) -> Seq<char> {
    match shape {
        Shape::Struct => "struct"@,
        Shape::Enum => "enum"@,
        Shape::Union => "union"@,
    }
}

/// The word for a form of entry.
pub open spec fn format_word(format: Format) -> Seq<char> {
    match format {
        Format::Word => "word"@,
        Format::Path => "path"@,
        Format::List => "list"@,
        Format::Literal => "literal"@,
        Format::NameValue => "namedValue"@,
    }
}

/// The word for a type of literal.
pub open spec fn lit_type_word(ty: LitType) -> Seq<char> {
    match ty {
        LitType::Str => "string"@,
        LitType::Bool => "bool"@,
        LitType::Char => "char"@,
        LitType::ByteStr => "byte string"@,
        LitType::Byte => "byte"@,
        LitType::Int => "int"@,
        LitType::Decimal => "float"@,
        LitType::Verbatim => "verbatim"@,
    }
}

/// A text that ends with a name between backticks.
pub open spec fn naming(head: Seq<char>, name: Seq<char>) -> Seq<char> {
    head + "`"@ + name + "`"@
}

/// The first `n` of the keys, each between backticks, set in a row with
/// commas.
pub open spec fn listed(keys: Seq<Seq<char>>, n: nat) -> Seq<char>
    decreases n,
{
    if n == 0 || n > keys.len() {
        Seq::empty()
    } else if n == 1 {
        naming(Seq::empty(), keys[0])
    } else {
        listed(keys, (n - 1) as nat) + ", "@ + naming(Seq::empty(), keys[n - 1])
    }
}

/// What the error says that a field annotation lacks its parent.
pub open spec fn parent_required() -> Seq<char> {
    "parent must be specified when there are more than one struct needed to be generated"@
}

/// What an error of the given kind says.
pub open spec fn message_of(kind: ErrorKindModel) -> Seq<char> {
    match kind {
        ErrorKindModel::Syntax(message) => message,
        ErrorKindModel::DuplicateField(name) => naming("Duplicate field "@, name),
        ErrorKindModel::MissingField(name) => naming("Missing field "@, name),
        ErrorKindModel::UnknownField { name, among } => naming("Unknown field: "@, name)
            + ". Did you mean one of "@ + listed(key_names(among), key_names(among).len()) + "?"@,
        ErrorKindModel::UnsupportedShape(shape) => naming("Unsupported shape "@, shape_word(shape))
            + ". Expected struct with named, tuple, newtype, or unit."@,
        ErrorKindModel::UnexpectedFormat(format) => naming(
            "Unexpected meta-item format "@,
            format_word(format),
        ),
        ErrorKindModel::UnexpectedType(ty) => naming(
            "Unexpected literal type "@,
            lit_type_word(ty),
        ),
        ErrorKindModel::UnknownValue(value) => naming("Unknown literal value "@, value),
        ErrorKindModel::TooFewItems => "Too few items: Expected at least 1"@,
        ErrorKindModel::TooManyItems => "Too many items: Expected no more than 1"@,
        ErrorKindModel::DefaultOnSourceField => "default is only supported for extra fields"@,
        ErrorKindModel::ParentRequired => parent_required(),
        ErrorKindModel::UnknownParent(parent) => "Does not have parent "@ + parent,
        ErrorKindModel::NoDerivedType => "field annotation without a derived type to generate"@,
        ErrorKindModel::ExtraFieldKey(key) => key + " is not supported for extra field"@,
        ErrorKindModel::ExpectedStringLiteral => "expected string literal"@,
        ErrorKindModel::ExpectedLeftBrace => "expected left curly brace"@,
        ErrorKindModel::ExpectedRightBrace => "expected right curly brace"@,
        ErrorKindModel::ExtraFieldsSyntax => "fail to parse extra fields"@,
        ErrorKindModel::ConflictingConverters => "Cannot have both `try_from` and `from`"@,
        ErrorKindModel::Unreadable => "annotation cannot be read"@,
    }
}

/// The first `n` keys of a location, set in a row with `/`.
pub open spec fn trail(location: Seq<Seq<char>>, n: nat) -> Seq<char>
    decreases n,
{
    if n == 0 || n > location.len() {
        Seq::empty()
    } else if n == 1 {
        location[0]
    } else {
        trail(location, (n - 1) as nat) + "/"@ + location[n - 1]
    }
}

/// What an error says: what its kind says and, where it has a location,
/// ` at ` and the keys that lead to it.
pub open spec fn full_message(error: ErrorModel) -> Seq<char> {
    if error.location.len() == 0 {
        message_of(error.kind)
    } else {
        message_of(error.kind) + " at "@ + trail(error.location, error.location.len())
    }
}

impl Shape {
    /// The word for the shape.
    pub fn word(self) -> (r: &'static str)
        ensures
            r@ == shape_word(self),
    {
        match self {
            Shape::Struct => "struct",
            Shape::Enum => "enum",
            Shape::Union => "union",
        }
    }
}

impl Format {
    /// The word for the form.
    pub fn word(self) -> (r: &'static str)
        ensures
            r@ == format_word(self),
    {
        match self {
            Format::Word => "word",
            Format::Path => "path",
            Format::List => "list",
            Format::Literal => "literal",
            Format::NameValue => "namedValue",
        }
    }
}

/// The word for a type of literal.
pub fn word_of_lit_type(ty: LitType) -> (r: &'static str)
    ensures
        r@ == lit_type_word(ty),
{
    match ty {
        LitType::Str => "string",
        LitType::Bool => "bool",
        LitType::Char => "char",
        LitType::ByteStr => "byte string",
        LitType::Byte => "byte",
        LitType::Int => "int",
        LitType::Decimal => "float",
        LitType::Verbatim => "verbatim",
    }
}

/// A text that ends with a name between backticks.
fn name(head: &str, named: &str) -> (r: String)
    ensures
        r@ == naming(head@, named@),
{
    join(join(join(head, "`").as_str(), named).as_str(), "`")
}

/// The keys, each between backticks, set in a row with commas.
fn list(keys: &Vec<String>) -> (r: String)
    ensures
        r@ == listed(keys.deep_view(), keys.len() as nat),
{
    let mut r = String::new();
    let n = keys.len();
    let mut i: usize = 0;
    while i < n
        invariant
            i <= n,
            n == keys.len(),
            r@ == listed(keys.deep_view(), i as nat),
        decreases n - i,
    {
        let ghost before = r@;
        if i > 0 {
            r.append(", ");
        }
        r.append("`");
        r.append(keys[i].as_str());
        r.append("`");
        proof {
            let all = keys.deep_view();
            assert(naming(Seq::empty(), all[i as int]) =~= "`"@ + all[i as int] + "`"@);
            if i == 0 {
                assert(r@ =~= naming(Seq::empty(), all[0]));
            } else {
                assert(r@ =~= before + ", "@ + naming(Seq::empty(), all[i as int]));
            }
        }
        i += 1;
    }
    r
}

impl ErrorKind {
    /// What an error of this kind says.
    pub fn message(&self) -> (r: String)
        ensures
            r@ == message_of(self.deep_view()),
    {
        match self {
            ErrorKind::Syntax(message) => message.clone(),
            ErrorKind::DuplicateField(n) => name("Duplicate field ", n.as_str()),
            ErrorKind::MissingField(n) => name("Missing field ", n.as_str()),
            ErrorKind::UnknownField { name: n, among } => {
                let mut r = name("Unknown field: ", n.as_str());
                r.append(". Did you mean one of ");
                r.append(list(&among.names()).as_str());
                r.append("?");
                r
            },
            ErrorKind::UnsupportedShape(shape) => join(
                name("Unsupported shape ", shape.word()).as_str(),
                ". Expected struct with named, tuple, newtype, or unit.",
            ),
            ErrorKind::UnexpectedFormat(format) => name(
                "Unexpected meta-item format ",
                format.word(),
            ),
            ErrorKind::UnexpectedType(ty) => name(
                "Unexpected literal type ",
                word_of_lit_type(*ty),
            ),
            ErrorKind::UnknownValue(value) => name("Unknown literal value ", value.as_str()),
            ErrorKind::TooFewItems => owned("Too few items: Expected at least 1"),
            ErrorKind::TooManyItems => owned("Too many items: Expected no more than 1"),
            ErrorKind::DefaultOnSourceField => owned("default is only supported for extra fields"),
            ErrorKind::ParentRequired => owned(
                "parent must be specified when there are more than one struct needed to be generated",
            ),
            ErrorKind::UnknownParent(parent) => join("Does not have parent ", parent.as_str()),
            ErrorKind::NoDerivedType => owned(
                "field annotation without a derived type to generate",
            ),
            ErrorKind::ExtraFieldKey(key) => join(
                key.as_str(),
                " is not supported for extra field",
            ),
            ErrorKind::ExpectedStringLiteral => owned("expected string literal"),
            ErrorKind::ExpectedLeftBrace => owned("expected left curly brace"),
            ErrorKind::ExpectedRightBrace => owned("expected right curly brace"),
            ErrorKind::ExtraFieldsSyntax => owned("fail to parse extra fields"),
            ErrorKind::ConflictingConverters => owned("Cannot have both `try_from` and `from`"),
            ErrorKind::Unreadable => owned("annotation cannot be read"),
        }
    }
}

impl Error {
    /// What the error says.
    pub fn message(&self) -> (r: String)
        ensures
            r@ == full_message(self.deep_view()),
    {
        let mut r = self.kind.message();
        let n = self.location.len();
        if n == 0 {
            return r;
        }
        r.append(" at ");
        let ghost head = r@;
        let mut i: usize = 0;
        while i < n
            invariant
                i <= n,
                n == self.location.len(),
                r@ == head + trail(self.deep_view().location, i as nat),
            decreases n - i,
        {
            let ghost before = trail(self.deep_view().location, i as nat);
            if i > 0 {
                r.append("/");
            }
            r.append(self.location[i].as_str());
            proof {
                let location = self.deep_view().location;
                if i == 0 {
                    assert(trail(location, 1) == location[0]);
                    assert(r@ =~= head + trail(location, 1));
                } else {
                    assert(r@ =~= head + (before + "/"@ + location[i as int]));
                }
            }
            i += 1;
        }
        r
    }
}

} // verus!
