//! The generic parameters of a derived type and of its conversions.
//!
//! A derived type that says nothing goes by the parameters of the
//! original type. One that inherits has them and its own behind them.
//! One that replaces has only its own, and its conversions, which name
//! both types, take the parameters of both.

use crate::error::{agrees, fail, only, Error, ErrorKind, ErrorKindModel, ErrorModel};
use crate::structure::{Bound, BoundModel};
use crate::reader::{generics_of, parse_generics};
use crate::syntax::{GenericsSyntax, GenericsSyntaxModel};
use crate::text::{
    ends_with, join, starts_with, strip_first, strip_last, trim, trimmed, without_first,
    without_last,
};
use vstd::prelude::*;

verus! {

/// The generic parameters and where clauses that the generated code is
/// written with, as token text. A parameter list is empty where there are
/// no parameters.
#[derive(Clone, Debug, PartialEq, Eq)]
pub struct FinalGenerics {
    /// The original type's parameters as they stand behind `impl`.
    pub src_impl_generics: String,
    /// The original type's parameters as they stand behind its name.
    pub src_ty_generics: String,
    /// The original type's where clause.
    pub src_where_clause: Option<String>,
    /// The derived type's parameters as they stand behind `impl`.
    pub impl_generics: String,
    /// The derived type's parameters as they stand behind its name.
    pub ty_generics: String,
    /// The derived type's where clause.
    pub where_clause: Option<String>,
    /// The parameters of a conversion between the two types.
    pub final_impl_generics: String,
    /// The derived type's parameters as a conversion names them.
    pub final_ty_generics: String,
    /// The parameters that the derived type is declared with.
    pub final_struct_generics: String,
    /// The where clause of a conversion between the two types.
    pub final_where_clause: Option<String>,
}

/// Mathematical form of [`FinalGenerics`].
pub ghost struct FinalGenericsModel {
    pub src_impl_generics: Seq<char>,
    pub src_ty_generics: Seq<char>,
    pub src_where_clause: Option<Seq<char>>,
    pub impl_generics: Seq<char>,
    pub ty_generics: Seq<char>,
    pub where_clause: Option<Seq<char>>,
    pub final_impl_generics: Seq<char>,
    pub final_ty_generics: Seq<char>,
    pub final_struct_generics: Seq<char>,
    pub final_where_clause: Option<Seq<char>>,
}

impl DeepView for FinalGenerics {
    type V = FinalGenericsModel;

    open spec fn deep_view(&self) -> FinalGenericsModel {
        FinalGenericsModel {
            src_impl_generics: self.src_impl_generics@,
            src_ty_generics: self.src_ty_generics@,
            src_where_clause: self.src_where_clause.deep_view(),
            impl_generics: self.impl_generics@,
            ty_generics: self.ty_generics@,
            where_clause: self.where_clause.deep_view(),
            final_impl_generics: self.final_impl_generics@,
            final_ty_generics: self.final_ty_generics@,
            final_struct_generics: self.final_struct_generics@,
            final_where_clause: self.final_where_clause.deep_view(),
        }
    }
}

/// Two parameter lists written as one: the first without its closing
/// bracket, a comma unless it ends in one, and the second without its
/// opening bracket. White space around either list does not count.
pub open spec fn spliced(first: Seq<char>, second: Seq<char>) -> Seq<char> {
    let head = trimmed(without_last(trimmed(first), '>'));
    let tail = without_first(trimmed(second), '<');
    if head.len() > 0 && head.last() == ',' {
        head + tail
    } else {
        head + ","@ + tail
    }
}

/// Two where clauses as one: whichever is there, or, of two, the first
/// and, behind ` + `, the second without its `where`.
pub open spec fn conjoined(first: Option<Seq<char>>, second: Option<Seq<char>>) -> Option<
    Seq<char>,
> {
    match (first, second) {
        (None, None) => None,
        (Some(a), None) => Some(a),
        (None, Some(b)) => Some(b),
        (Some(a), Some(b)) => Some(a + " + "@ + without_where(b)),
    }
}

/// A where clause without the word `where` that it begins with.
pub open spec fn without_where(clause: Seq<char>) -> Seq<char> {
    let c = trimmed(clause);
    if "where"@.is_prefix_of(c) {
        c.subrange("where"@.len() as int, c.len() as int)
    } else {
        c
    }
}

/// Whether a parameter list holds nothing.
pub open spec fn blank(list: Seq<char>) -> bool {
    trimmed(list).len() == 0
}

/// The generics of a derived type that goes by the parameters of the
/// original type.
pub open spec fn reused(
    src: GenericsSyntaxModel,
    src_where: Option<Seq<char>>,
) -> FinalGenericsModel {
    FinalGenericsModel {
        src_impl_generics: src.impl_generics,
        src_ty_generics: src.ty_generics,
        src_where_clause: src_where,
        impl_generics: src.impl_generics,
        ty_generics: src.ty_generics,
        where_clause: src_where,
        final_impl_generics: src.impl_generics,
        final_ty_generics: src.ty_generics,
        final_struct_generics: src.impl_generics,
        final_where_clause: src_where,
    }
}

/// The generics of a derived type whose parameters are `own`, the
/// original type's among them where it inherits.
pub open spec fn inherited(
    src: GenericsSyntaxModel,
    src_where: Option<Seq<char>>,
    own: GenericsSyntaxModel,
    own_where: Option<Seq<char>>,
) -> FinalGenericsModel {
    let clause = conjoined(src_where, own_where);
    FinalGenericsModel {
        src_impl_generics: src.impl_generics,
        src_ty_generics: src.ty_generics,
        src_where_clause: src_where,
        impl_generics: own.impl_generics,
        ty_generics: own.ty_generics,
        where_clause: clause,
        final_impl_generics: own.impl_generics,
        final_ty_generics: own.ty_generics,
        final_struct_generics: own.impl_generics,
        final_where_clause: clause,
    }
}

/// The generics of a derived type whose parameters `own` stand in place
/// of the original type's; `both` are the parameters of a conversion.
pub open spec fn replaced(
    src: GenericsSyntaxModel,
    src_where: Option<Seq<char>>,
    own: GenericsSyntaxModel,
    own_where: Option<Seq<char>>,
    both: Seq<char>,
) -> FinalGenericsModel {
    FinalGenericsModel {
        src_impl_generics: src.impl_generics,
        src_ty_generics: src.ty_generics,
        src_where_clause: src_where,
        impl_generics: own.impl_generics,
        ty_generics: own.ty_generics,
        where_clause: own_where,
        final_impl_generics: both,
        final_ty_generics: own.ty_generics,
        final_struct_generics: own.impl_generics,
        final_where_clause: conjoined(src_where, own_where),
    }
}

/// The parameter list that a bound's `extra` stands for: the text between
/// `<` and `>`; the empty list where there is none.
pub open spec fn own_generics(extra: Option<Seq<char>>) -> Result<GenericsSyntaxModel, Seq<char>> {
    match extra {
        Some(text) => generics_of("<"@ + text + ">"@),
        None => generics_of(Seq::empty()),
    }
}

/// The parameters of a conversion between a type with the parameters
/// `src` and one with the parameters `own`: those of the one where the
/// other has none, else both lists spliced.
pub open spec fn both_generics(src: GenericsSyntaxModel, own: GenericsSyntaxModel) -> Result<
    Seq<char>,
    Seq<char>,
> {
    if blank(own.impl_generics) && blank(src.impl_generics) {
        Ok(Seq::empty())
    } else if blank(own.impl_generics) {
        Ok(src.impl_generics)
    } else if blank(src.impl_generics) {
        Ok(own.impl_generics)
    } else {
        match generics_of(spliced(src.impl_generics, own.impl_generics)) {
            Ok(g) => Ok(g.impl_generics),
            Err(message) => Err(message),
        }
    }
}

/// The generics of a derived type with the given bound policy, for an
/// original type with the parameter list `generics` and the where clause
/// `src_where`.
pub open spec fn final_generics(
    bound: Option<BoundModel>,
    generics: Seq<char>,
    src_where: Option<Seq<char>>,
) -> Result<FinalGenericsModel, Seq<ErrorModel>> {
    match generics_of(generics) {
        Err(message) => Err(only(ErrorKindModel::Syntax(message))),
        Ok(src) => match bound {
            None => Ok(reused(src, src_where)),
            Some(b) => match own_generics(b.extra) {
                Err(message) => Err(only(ErrorKindModel::Syntax(message))),
                Ok(own) => if !b.inherit {
                    match both_generics(src, own) {
                        Err(message) => Err(only(ErrorKindModel::Syntax(message))),
                        Ok(both) => Ok(replaced(src, src_where, own, None, both)),
                    }
                } else if blank(src.params) {
                    Ok(inherited(src, src_where, own, None))
                } else if blank(own.params) {
                    Ok(inherited(src, src_where, src, None))
                } else {
                    match generics_of(spliced(src.params, own.params)) {
                        Err(message) => Err(only(ErrorKindModel::Syntax(message))),
                        Ok(all) => Ok(inherited(src, src_where, all, None)),
                    }
                },
            },
        },
    }
}

/// Writes two parameter lists as one.
pub fn splice(first: &str, second: &str) -> (r: String)
    ensures
        r@ == spliced(first@, second@),
{
    let head = trim(strip_last(trim(first).as_str(), '>').as_str());
    let tail = strip_first(trim(second).as_str(), '<');
    if ends_with(head.as_str(), ',') {
        join(head.as_str(), tail.as_str())
    } else {
        join(join(head.as_str(), ",").as_str(), tail.as_str())
    }
}

/// Whether a parameter list holds nothing.
pub fn is_blank(list: &str) -> (r: bool)
    ensures
        r == blank(list@),
{
    trim(list).as_str().is_empty()
}

/// Removes the word `where` that a where clause begins with.
pub fn strip_where(clause: &str) -> (r: String)
    ensures
        r@ == without_where(clause@),
{
    let c = trim(clause);
    if starts_with(c.as_str(), "where") {
        let n = c.as_str().unicode_len();
        let w = "where".unicode_len();
        crate::text::slice(c.as_str(), w, n)
    } else {
        c
    }
}

/// Makes one where clause of two.
pub fn conjoin(first: Option<String>, second: Option<String>) -> (r: Option<String>)
    ensures
        r.deep_view() == conjoined(first.deep_view(), second.deep_view()),
{
    match (first, second) {
        (None, None) => None,
        (Some(a), None) => Some(a),
        (None, Some(b)) => Some(b),
        (Some(a), Some(b)) => Some(
            join(join(a.as_str(), " + ").as_str(), strip_where(b.as_str()).as_str()),
        ),
    }
}

impl FinalGenerics {
    /// The generics of a derived type that goes by the parameters of the
    /// original type.
    pub fn reused(src: GenericsSyntax, src_where: Option<String>) -> (r: FinalGenerics)
        ensures
            r.deep_view() == reused(src.deep_view(), src_where.deep_view()),
    {
        FinalGenerics {
            src_impl_generics: src.impl_generics.clone(),
            src_ty_generics: src.ty_generics.clone(),
            src_where_clause: src_where.clone(),
            impl_generics: src.impl_generics.clone(),
            ty_generics: src.ty_generics.clone(),
            where_clause: src_where.clone(),
            final_impl_generics: src.impl_generics.clone(),
            final_ty_generics: src.ty_generics,
            final_struct_generics: src.impl_generics,
            final_where_clause: src_where,
        }
    }

    /// The generics of a derived type whose parameters are `own`, the
    /// original type's among them where it inherits.
    pub fn inherited(
        src: &GenericsSyntax,
        src_where: Option<String>,
        own: GenericsSyntax,
        own_where: Option<String>,
    ) -> (r: FinalGenerics)
        ensures
            r.deep_view() == inherited(
                src.deep_view(),
                src_where.deep_view(),
                own.deep_view(),
                own_where.deep_view(),
            ),
    {
        let clause = conjoin(src_where.clone(), own_where);
        FinalGenerics {
            src_impl_generics: src.impl_generics.clone(),
            src_ty_generics: src.ty_generics.clone(),
            src_where_clause: src_where,
            impl_generics: own.impl_generics.clone(),
            ty_generics: own.ty_generics.clone(),
            where_clause: clause.clone(),
            final_impl_generics: own.impl_generics.clone(),
            final_ty_generics: own.ty_generics,
            final_struct_generics: own.impl_generics,
            final_where_clause: clause,
        }
    }

    /// The generics of a derived type whose parameters `own` stand in
    /// place of the original type's; `both` are the parameters of a
    /// conversion.
    pub fn replaced(
        src: &GenericsSyntax,
        src_where: Option<String>,
        own: GenericsSyntax,
        own_where: Option<String>,
        both: String,
    ) -> (r: FinalGenerics)
        ensures
            r.deep_view() == replaced(
                src.deep_view(),
                src_where.deep_view(),
                own.deep_view(),
                own_where.deep_view(),
                both@,
            ),
    {
        FinalGenerics {
            src_impl_generics: src.impl_generics.clone(),
            src_ty_generics: src.ty_generics.clone(),
            src_where_clause: src_where.clone(),
            impl_generics: own.impl_generics.clone(),
            ty_generics: own.ty_generics.clone(),
            where_clause: own_where.clone(),
            final_impl_generics: both,
            final_ty_generics: own.ty_generics,
            final_struct_generics: own.impl_generics,
            final_where_clause: conjoin(src_where, own_where),
        }
    }
}

/// Reads the parameter list that a bound's `extra` stands for.
fn parse_own(extra: &Option<String>) -> (r: Result<GenericsSyntax, String>)
    ensures
        match r {
            Ok(g) => own_generics(extra.deep_view()) == Ok::<GenericsSyntaxModel, Seq<char>>(
                g.deep_view(),
            ),
            Err(e) => own_generics(extra.deep_view()) == Err::<GenericsSyntaxModel, Seq<char>>(e@),
        },
{
    match extra {
        Some(text) => parse_generics(join(join("<", text.as_str()).as_str(), ">").as_str()),
        None => {
            let nothing = String::new();
            parse_generics(nothing.as_str())
        },
    }
}

/// The parameters of a conversion between the two types.
fn parse_both(src: &GenericsSyntax, own: &GenericsSyntax) -> (r: Result<String, String>)
    ensures
        match r {
            Ok(g) => both_generics(src.deep_view(), own.deep_view()) == Ok::<Seq<char>, Seq<char>>(
                g@,
            ),
            Err(e) => both_generics(src.deep_view(), own.deep_view()) == Err::<
                Seq<char>,
                Seq<char>,
            >(e@),
        },
{
    let no_own = is_blank(own.impl_generics.as_str());
    let no_src = is_blank(src.impl_generics.as_str());
    if no_own && no_src {
        Ok(String::new())
    } else if no_own {
        Ok(src.impl_generics.clone())
    } else if no_src {
        Ok(own.impl_generics.clone())
    } else {
        let list = splice(src.impl_generics.as_str(), own.impl_generics.as_str());
        match parse_generics(list.as_str()) {
            Ok(g) => Ok(g.impl_generics),
            Err(message) => Err(message),
        }
    }
}

/// Works out the generics of a derived type with the given bound policy,
/// for an original type with the parameter list `generics` and the where
/// clause `src_where`.
pub fn get_final_generics(bound: Option<&Bound>, generics: &str, src_where: Option<String>) -> (r:
    Result<FinalGenerics, Vec<Error>>)
    ensures
        agrees(r, final_generics(bound.deep_view(), generics@, src_where.deep_view())),
{
    let src = match parse_generics(generics) {
        Ok(src) => src,
        Err(message) => {
            return Err(fail(ErrorKind::Syntax(message)));
        },
    };
    let b = match bound {
        None => {
            return Ok(FinalGenerics::reused(src, src_where));
        },
        Some(b) => b,
    };
    let own = match parse_own(&b.extra) {
        Ok(own) => own,
        Err(message) => {
            return Err(fail(ErrorKind::Syntax(message)));
        },
    };
    if !b.inherit {
        match parse_both(&src, &own) {
            Err(message) => Err(fail(ErrorKind::Syntax(message))),
            Ok(both) => Ok(FinalGenerics::replaced(&src, src_where, own, None, both)),
        }
    } else if is_blank(src.params.as_str()) {
        Ok(FinalGenerics::inherited(&src, src_where, own, None))
    } else if is_blank(own.params.as_str()) {
        let same = GenericsSyntax {
            params: src.params.clone(),
            impl_generics: src.impl_generics.clone(),
            ty_generics: src.ty_generics.clone(),
        };
        Ok(FinalGenerics::inherited(&src, src_where, same, None))
    } else {
        let list = splice(src.params.as_str(), own.params.as_str());
        match parse_generics(list.as_str()) {
            Err(message) => Err(fail(ErrorKind::Syntax(message))),
            Ok(all) => Ok(FinalGenerics::inherited(&src, src_where, all, None)),
        }
    }
}

} // verus!
