//! Reading token text, with the test that the parser asks for.
//!
//! The parser gives up on two things that the lexer lets through: a C
//! string literal, and the marker that the lexer leaves where it found an
//! error. [`readable`] says of a text, character by character, that it
//! holds neither; every function here makes that test before it hands the
//! text on, and answers for a text that fails it as for one that the
//! parser refuses.
//!
//! The test may refuse a text that holds neither. It follows string
//! literals as long as the text outside of them holds nothing that could
//! hide a quote: no apostrophe, no slash, no backslash and no raw string.
//! Once it meets one of these it refuses the text if a C string literal
//! could begin anywhere in it, inside a string literal or not.

use crate::meta::{Lit, LitModel};
use crate::syntax::{
    parsed_attributes, parsed_generics, parsed_ident, parsed_item, parsed_lists,
    parsed_literal, parsed_named_fields, parsed_path, parsed_type, parsed_unnamed_fields,
    parsed_visibility,
    AttributeSyntax, AttributeSyntaxModel, FieldSyntax, FieldSyntaxModel, GenericsSyntax,
    GenericsSyntaxModel, ItemSyntax, ItemSyntaxModel, ListSyntax, ListSyntaxModel,
};
use crate::text::owned;
use vstd::prelude::*;
use vstd::string::*;

verus! {

/// Whether a character is a letter, a digit or the underscore, of ASCII.
pub open spec fn is_word(c: char) -> bool {
    ('a' <= c && c <= 'z') || ('A' <= c && c <= 'Z') || ('0' <= c && c <= '9') || c == '_'
}

/// Whether a C string literal could begin at place `i`: a `c` with `"`,
/// `r"` or `r#` behind it, and before it neither a word character, which
/// would make it the end of a longer word, nor a quote, which would make
/// it the content of a string literal or its suffix.
pub open spec fn c_string_at(s: Seq<char>, i: int) -> bool {
    &&& 0 <= i && i + 1 < s.len()
    &&& s[i] == 'c'
    &&& s[i + 1] == '"' || (s[i + 1] == 'r' && i + 2 < s.len() && (s[i + 2] == '"' || s[i + 2]
        == '#'))
    &&& i == 0 || !(is_word(s[i - 1]) || s[i - 1] == '"')
}

/// The marker that the lexer leaves where it found an error.
pub open spec fn marker() -> Seq<char> {
    "(/*ERROR*/)"@
}

/// Whether `part` stands in `s` at place `i`.
pub open spec fn stands_at(s: Seq<char>, i: int, part: Seq<char>) -> bool {
    0 <= i && i + part.len() <= s.len() && s.subrange(i, i + part.len()) == part
}

/// Whether a C string literal could begin at place `i`, or the lexer's
/// marker stands there.
pub open spec fn suspect_at(s: Seq<char>, i: int) -> bool {
    c_string_at(s, i) || stands_at(s, i, marker())
}

/// Whether a C string literal could begin somewhere in the text, or the
/// lexer's marker stands somewhere in it.
pub open spec fn suspect(s: Seq<char>) -> bool {
    exists|i: int| 0 <= i < s.len() && #[trigger] suspect_at(s, i)
}

/// What following the string literals of a text finds.
#[derive(Clone, Copy, Debug, PartialEq, Eq, Structural)]
pub enum Scan {
    /// No C string literal outside of the string literals.
    Clean,
    /// Something outside of the string literals that could hide a quote.
    Doubtful,
    /// A C string literal outside of the string literals.
    Refused,
}

/// Whether a raw string literal could begin at place `i`.
pub open spec fn raw_at(s: Seq<char>, i: int) -> bool {
    0 <= i && i + 1 < s.len() && s[i] == 'r' && (s[i + 1] == '"' || s[i + 1] == '#')
}

/// What following the string literals finds from place `i` on, `inside`
/// saying whether that place is inside of one. Inside, a backslash takes
/// the next character with it and a quote ends the literal.
pub open spec fn scanned(s: Seq<char>, i: int, inside: bool) -> Scan
    decreases s.len() - i,
{
    if i < 0 || i >= s.len() {
        Scan::Clean
    } else if inside {
        if s[i] == '\\' {
            if i + 1 >= s.len() {
                Scan::Clean
            } else {
                scanned(s, i + 2, true)
            }
        } else if s[i] == '"' {
            scanned(s, i + 1, false)
        } else {
            scanned(s, i + 1, true)
        }
    } else if s[i] == '\'' || s[i] == '/' || s[i] == '\\' || raw_at(s, i) {
        Scan::Doubtful
    } else if c_string_at(s, i) {
        Scan::Refused
    } else if s[i] == '"' {
        scanned(s, i + 1, true)
    } else {
        scanned(s, i + 1, false)
    }
}

/// Whether a text holds nothing that the parser gives up on.
pub open spec fn readable(s: Seq<char>) -> bool {
    match scanned(s, 0, false) {
        Scan::Clean => true,
        Scan::Refused => false,
        Scan::Doubtful => !suspect(s),
    }
}

/// What is said of a text that is not readable.
pub open spec fn unreadable() -> Seq<char> {
    "literal of a kind that cannot be read"@
}

/// What is said of a text that holds no attribute at all.
pub open spec fn no_attribute() -> Seq<char> {
    "expected an attribute"@
}

/// The test on one character.
fn word(c: char) -> (r: bool)
    ensures
        r == is_word(c),
{
    ('a' <= c && c <= 'z') || ('A' <= c && c <= 'Z') || ('0' <= c && c <= '9') || c == '_'
}

/// Whether a C string literal could begin at place `i`.
fn c_string_from(s: &str, i: usize, n: usize) -> (r: bool)
    requires
        n == s@.len(),
        i < n,
    ensures
        r == c_string_at(s@, i as int),
{
    if s.get_char(i) != 'c' || n - i < 2 {
        return false;
    }
    let next = s.get_char(i + 1);
    let opens = next == '"' || (next == 'r' && n - i > 2 && (s.get_char(i + 2) == '"'
        || s.get_char(i + 2) == '#'));
    if !opens {
        return false;
    }
    if i == 0 {
        return true;
    }
    let before = s.get_char(i - 1);
    !(word(before) || before == '"')
}

/// Whether `part` stands in `s` at place `i`.
fn stands(s: &str, i: usize, n: usize, part: &str) -> (r: bool)
    requires
        n == s@.len(),
        i <= n,
    ensures
        r == stands_at(s@, i as int, part@),
{
    let m = part.unicode_len();
    if m > n - i {
        return false;
    }
    let mut k: usize = 0;
    while k < m
        invariant
            k <= m,
            m == part@.len(),
            n == s@.len(),
            i + m <= n,
            forall|j: int| 0 <= j < k ==> s@[i + j] == part@[j],
        decreases m - k,
    {
        if s.get_char(i + k) != part.get_char(k) {
            assert(s@.subrange(i as int, i + m)[k as int] == s@[i + k]);
            return false;
        }
        k += 1;
    }
    assert(s@.subrange(i as int, i + m) =~= part@);
    true
}

/// Whether a C string literal could begin somewhere in the text, or the
/// lexer's marker stands somewhere in it.
fn is_suspect(s: &str) -> (r: bool)
    ensures
        r == suspect(s@),
{
    let n = s.unicode_len();
    let mut i: usize = 0;
    while i < n
        invariant
            i <= n,
            n == s@.len(),
            forall|j: int| 0 <= j < i ==> !#[trigger] suspect_at(s@, j),
        decreases n - i,
    {
        if c_string_from(s, i, n) || stands(s, i, n, "(/*ERROR*/)") {
            assert(suspect_at(s@, i as int));
            return true;
        }
        i += 1;
    }
    false
}

/// Whether a text holds nothing that the parser gives up on.
pub fn is_readable(s: &str) -> (r: bool)
    ensures
        r == readable(s@),
{
    let n = s.unicode_len();
    let mut i: usize = 0;
    let mut inside = false;
    while i < n
        invariant
            n == s@.len(),
            scanned(s@, 0, false) == scanned(s@, i as int, inside),
        decreases n - i,
    {
        let c = s.get_char(i);
        if inside {
            if c == '\\' {
                if n - i < 2 {
                    return true;
                }
                i += 2;
            } else {
                if c == '"' {
                    inside = false;
                }
                i += 1;
            }
        } else {
            let raw = c == 'r' && n - i > 1 && (s.get_char(i + 1) == '"' || s.get_char(i + 1)
                == '#');
            if c == '\'' || c == '/' || c == '\\' || raw {
                return !is_suspect(s);
            }
            if c_string_from(s, i, n) {
                return false;
            }
            if c == '"' {
                inside = true;
            }
            i += 1;
        }
    }
    true
}

/// The first outer attribute written in `text`, or what is wrong with the
/// text: that it is not readable, what the parser says, or that it holds
/// no attribute.
pub open spec fn attribute_of(text: Seq<char>) -> Result<AttributeSyntaxModel, Seq<char>> {
    if !readable(text) {
        Err(unreadable())
    } else {
        match parsed_attributes(text) {
            Err(message) => Err(message),
            Ok(all) => if all.len() == 0 {
                Err(no_attribute())
            } else {
                Ok(all[0])
            },
        }
    }
}

/// The items between the parentheses of the first outer attribute written
/// in `text`, none for a bare path; or what is wrong with the text or
/// with the attribute.
pub open spec fn attribute_items_of(text: Seq<char>) -> Result<Seq<Seq<char>>, Seq<char>> {
    if !readable(text) {
        Err(unreadable())
    } else {
        match parsed_lists(text) {
            Err(message) => Err(message),
            Ok(all) => if all.len() == 0 {
                Err(no_attribute())
            } else {
                match all[0] {
                    ListSyntaxModel::Items(items) => Ok(items),
                    ListSyntaxModel::Refused(message) => Err(message),
                }
            },
        }
    }
}

/// The annotation item written in `item`, read one level deep; no item
/// where the text is not readable.
pub open spec fn item_of(item: Seq<char>) -> ItemSyntaxModel {
    if readable(item) {
        parsed_item(item)
    } else {
        ItemSyntaxModel::Unreadable
    }
}

/// The literal written in `text`, if `text` is readable and is one.
pub open spec fn literal_of(text: Seq<char>) -> Option<LitModel> {
    if readable(text) {
        parsed_literal(text)
    } else {
        None
    }
}

/// The identifier written in `text`, if `text` is readable and is one.
pub open spec fn ident_of(text: Seq<char>) -> Option<Seq<char>> {
    if readable(text) {
        parsed_ident(text)
    } else {
        None
    }
}

/// The tokens of the type written in `text`, if `text` is readable and is
/// one.
pub open spec fn type_of(text: Seq<char>) -> Option<Seq<char>> {
    if readable(text) {
        parsed_type(text)
    } else {
        None
    }
}

/// The tokens of the visibility written in `text`, if `text` is readable
/// and is one.
pub open spec fn visibility_of(text: Seq<char>) -> Option<Seq<char>> {
    if readable(text) {
        parsed_visibility(text)
    } else {
        None
    }
}

/// The tokens of the path written in `text`, if `text` is readable and is
/// one.
pub open spec fn path_of(text: Seq<char>) -> Option<Seq<char>> {
    if readable(text) {
        parsed_path(text)
    } else {
        None
    }
}

/// The generic parameter list that `text` consists of, or what is wrong
/// with the text: that it is not readable, or what the parser says.
pub open spec fn generics_of(text: Seq<char>) -> Result<GenericsSyntaxModel, Seq<char>> {
    if readable(text) {
        parsed_generics(text)
    } else {
        Err(unreadable())
    }
}

/// The fields of the brace-delimited, named field list written in `text`,
/// if `text` is readable and is one.
pub open spec fn named_fields_of(text: Seq<char>) -> Option<Seq<FieldSyntaxModel>> {
    if readable(text) {
        parsed_named_fields(text)
    } else {
        None
    }
}

/// The fields of the parenthesised, positional field list written in
/// `text`, if `text` is readable and is one.
pub open spec fn unnamed_fields_of(text: Seq<char>) -> Option<Seq<FieldSyntaxModel>> {
    if readable(text) {
        parsed_unnamed_fields(text)
    } else {
        None
    }
}

/// Reads the first outer attribute written in a text.
pub fn parse_attribute(text: &str) -> (r: Result<AttributeSyntax, String>)
    ensures
        match r {
            Ok(a) => attribute_of(text@) == Ok::<AttributeSyntaxModel, Seq<char>>(a.deep_view()),
            Err(e) => attribute_of(text@) == Err::<AttributeSyntaxModel, Seq<char>>(e@),
        },
{
    if !is_readable(text) {
        return Err(owned("literal of a kind that cannot be read"));
    }
    match crate::syntax::attributes(text) {
        Err(message) => Err(message),
        Ok(all) => {
            let mut all = all;
            if all.len() == 0 {
                Err(owned("expected an attribute"))
            } else {
                Ok(all.remove(0))
            }
        },
    }
}

/// Reads the items between the parentheses of the first outer attribute
/// written in a text.
pub fn attribute_items(text: &str) -> (r: Result<Vec<String>, String>)
    ensures
        match r {
            Ok(items) => attribute_items_of(text@) == Ok::<Seq<Seq<char>>, Seq<char>>(
                items.deep_view(),
            ),
            Err(e) => attribute_items_of(text@) == Err::<Seq<Seq<char>>, Seq<char>>(e@),
        },
{
    if !is_readable(text) {
        return Err(owned("literal of a kind that cannot be read"));
    }
    match crate::syntax::lists(text) {
        Err(message) => Err(message),
        Ok(all) => {
            let mut all = all;
            if all.len() == 0 {
                Err(owned("expected an attribute"))
            } else {
                match all.remove(0) {
                    ListSyntax::Items(items) => Ok(items),
                    ListSyntax::Refused(message) => Err(message),
                }
            }
        },
    }
}

/// Reads one annotation item, one level deep.
pub fn parse_item(item: &str) -> (r: ItemSyntax)
    ensures
        r.deep_view() == item_of(item@),
{
    if is_readable(item) {
        crate::syntax::item(item)
    } else {
        ItemSyntax::Unreadable
    }
}

/// Reads a literal.
pub fn parse_literal(text: &str) -> (r: Option<Lit>)
    ensures
        r.deep_view() == literal_of(text@),
{
    if is_readable(text) {
        crate::syntax::literal(text)
    } else {
        None
    }
}

/// Reads an identifier.
pub fn parse_ident(text: &str) -> (r: Option<String>)
    ensures
        r.deep_view() == ident_of(text@),
{
    if is_readable(text) {
        crate::syntax::ident(text)
    } else {
        None
    }
}

/// Reads a type.
pub fn parse_type(text: &str) -> (r: Option<String>)
    ensures
        r.deep_view() == type_of(text@),
{
    if is_readable(text) {
        crate::syntax::ty(text)
    } else {
        None
    }
}

/// Reads a visibility.
pub fn parse_visibility(text: &str) -> (r: Option<String>)
    ensures
        r.deep_view() == visibility_of(text@),
{
    if is_readable(text) {
        crate::syntax::visibility(text)
    } else {
        None
    }
}

/// Reads a path.
pub fn parse_path(text: &str) -> (r: Option<String>)
    ensures
        r.deep_view() == path_of(text@),
{
    if is_readable(text) {
        crate::syntax::path(text)
    } else {
        None
    }
}

/// Reads a generic parameter list.
pub fn parse_generics(text: &str) -> (r: Result<GenericsSyntax, String>)
    ensures
        match r {
            Ok(g) => generics_of(text@) == Ok::<GenericsSyntaxModel, Seq<char>>(g.deep_view()),
            Err(e) => generics_of(text@) == Err::<GenericsSyntaxModel, Seq<char>>(e@),
        },
{
    if is_readable(text) {
        crate::syntax::generics(text)
    } else {
        Err(owned("literal of a kind that cannot be read"))
    }
}

/// Reads a brace-delimited list of named fields.
pub fn parse_named_fields(text: &str) -> (r: Option<Vec<FieldSyntax>>)
    ensures
        r.deep_view() == named_fields_of(text@),
{
    if is_readable(text) {
        crate::syntax::named_fields(text)
    } else {
        None
    }
}

/// Reads a parenthesised list of positional fields.
pub fn parse_unnamed_fields(text: &str) -> (r: Option<Vec<FieldSyntax>>)
    ensures
        r.deep_view() == unnamed_fields_of(text@),
{
    if is_readable(text) {
        crate::syntax::unnamed_fields(text)
    } else {
        None
    }
}

} // verus!
