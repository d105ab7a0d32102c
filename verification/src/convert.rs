//! What a generated conversion consists of.

use crate::style::Style;
use vstd::prelude::*;

verus! {

/// Where the value of one field comes from in a conversion.
#[derive(Clone, Debug, PartialEq, Eq)]
pub enum Init {
    /// From nowhere: the named function is called without arguments, or,
    /// where none is named, the type's default is taken.
    Default { func: Option<String> },
    /// From the field `source` of the value that is converted, handed over
    /// in `style` to the named function, or, where none is named, to the
    /// built-in conversion.
    Convert { source: String, style: Style, func: Option<String> },
}

/// One field of the value that a conversion builds.
#[derive(Clone, Debug, PartialEq, Eq)]
pub struct FieldInit {
    /// The field's name in the type that is built.
    pub name: String,
    pub init: Init,
}

/// One side of a conversion: a type's name and its generic arguments.
#[derive(Clone, Debug, PartialEq, Eq)]
pub struct TypeRef {
    pub name: String,
    pub generics: String,
}

/// A conversion between the original type and a derived type.
#[derive(Clone, Debug, PartialEq, Eq)]
pub struct ConversionPlan {
    /// Whether the conversion can fail.
    pub fallible: bool,
    /// How the value to convert is taken.
    pub style: Style,
    /// The error type of a fallible conversion; a boxed error where none
    /// is given.
    pub error: Option<String>,
    /// The generic parameters of the conversion.
    pub impl_generics: String,
    /// The type converted from.
    pub source: TypeRef,
    /// The type converted to.
    pub target: TypeRef,
    pub where_clause: Option<String>,
    /// The fields of the value built, in the order in which they are
    /// assigned.
    pub fields: Vec<FieldInit>,
}

/// Mathematical form of [`Init`].
pub ghost enum InitModel {
    Default { func: Option<Seq<char>> },
    Convert { source: Seq<char>, style: Style, func: Option<Seq<char>> },
}

/// Mathematical form of [`FieldInit`].
pub ghost struct FieldInitModel {
    pub name: Seq<char>,
    pub init: InitModel,
}

/// Mathematical form of [`TypeRef`].
pub ghost struct TypeRefModel {
    pub name: Seq<char>,
    pub generics: Seq<char>,
}

/// Mathematical form of [`ConversionPlan`].
pub ghost struct ConversionPlanModel {
    pub fallible: bool,
    pub style: Style,
    pub error: Option<Seq<char>>,
    pub impl_generics: Seq<char>,
    pub source: TypeRefModel,
    pub target: TypeRefModel,
    pub where_clause: Option<Seq<char>>,
    pub fields: Seq<FieldInitModel>,
}

impl DeepView for Init {
    type V = InitModel;

    open spec fn deep_view(&self) -> InitModel {
        match self {
            Init::Default { func } => InitModel::Default { func: func.deep_view() },
            Init::Convert { source, style, func } => InitModel::Convert {
                source: source@,
                style: *style,
                func: func.deep_view(),
            },
        }
    }
}

impl DeepView for FieldInit {
    type V = FieldInitModel;

    open spec fn deep_view(&self) -> FieldInitModel {
        FieldInitModel { name: self.name@, init: self.init.deep_view() }
    }
}

impl DeepView for TypeRef {
    type V = TypeRefModel;

    open spec fn deep_view(&self) -> TypeRefModel {
        TypeRefModel { name: self.name@, generics: self.generics@ }
    }
}

impl DeepView for ConversionPlan {
    type V = ConversionPlanModel;

    open spec fn deep_view(&self) -> ConversionPlanModel {
        ConversionPlanModel {
            fallible: self.fallible,
            style: self.style,
            error: self.error.deep_view(),
            impl_generics: self.impl_generics@,
            source: self.source.deep_view(),
            target: self.target.deep_view(),
            where_clause: self.where_clause.deep_view(),
            fields: self.fields.deep_view(),
        }
    }
}

/// Which kind of conversion a derived type asks for in one direction.
pub ghost enum Direction {
    /// None at all.
    Absent,
    /// A plain one, taking its value in the given style.
    Plain(Style),
    /// A fallible one, taking its value in the given style, with the given
    /// error type.
    Fallible(Style, Option<Seq<char>>),
    /// Both a plain and a fallible one, which cannot be.
    Both,
}

} // verus!
