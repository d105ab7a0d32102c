//! The annotated definition that everything is resolved from.
//!
//! It comes in two forms. [`DeriveInput`] holds the definition as token
//! text, attribute by attribute. [`Annotated`] holds, in place of each
//! attribute's text, what reading it gave: an annotation block, nothing of
//! interest, or the errors of a block that could not be read.

use crate::error::{fail, only, Error, ErrorKind, ErrorKindModel, ErrorModel};
use crate::lift::{lift_items, lifted_items, DEPTH};
use crate::meta::{NestedMeta, NestedMetaModel};
use crate::reader::{attribute_items, attribute_items_of, attribute_of, parse_attribute};
use crate::syntax::{FieldSyntax, FieldSyntaxModel};
use crate::text::same;
use vstd::prelude::*;

verus! {

/// What reading one attribute gave.
#[derive(Debug, PartialEq, Eq)]
pub enum Annotation {
    /// Nothing for the resolver: an attribute of somebody else, or an
    /// annotation with an empty list.
    Silent,
    /// An annotation block: the items of its list.
    Block(Vec<NestedMeta>),
    /// An annotation that could not be read.
    Broken(Vec<Error>),
}

/// Mathematical form of [`Annotation`].
pub ghost enum AnnotationModel {
    Silent,
    Block(Seq<NestedMetaModel>),
    Broken(Seq<ErrorModel>),
}

impl DeepView for Annotation {
    type V = AnnotationModel;

    open spec fn deep_view(&self) -> AnnotationModel {
        match self {
            Annotation::Silent => AnnotationModel::Silent,
            Annotation::Block(items) => AnnotationModel::Block(items.deep_view()),
            Annotation::Broken(errors) => AnnotationModel::Broken(errors.deep_view()),
        }
    }
}

/// What reading the attribute written in `attr` gives. A text that is no
/// attribute is broken; an attribute is an annotation where its path is
/// `fromit`, and says nothing to the resolver where it is another.
pub open spec fn annotation_of(attr: Seq<char>) -> AnnotationModel {
    match attribute_of(attr) {
        Err(message) => AnnotationModel::Broken(only(ErrorKindModel::Syntax(message))),
        Ok(a) => if a.path != "fromit"@ {
            AnnotationModel::Silent
        } else {
            match attribute_items_of(attr) {
                Err(message) => AnnotationModel::Broken(only(ErrorKindModel::Syntax(message))),
                Ok(texts) => if texts.len() == 0 {
                    AnnotationModel::Silent
                } else {
                    match lifted_items(texts, DEPTH as nat) {
                        Some(items) => AnnotationModel::Block(items),
                        None => AnnotationModel::Broken(only(ErrorKindModel::Unreadable)),
                    }
                },
            }
        },
    }
}

/// What reading each of the attributes written in `attrs` gives.
pub open spec fn annotations_of(attrs: Seq<Seq<char>>) -> Seq<AnnotationModel> {
    Seq::new(attrs.len(), |i: int| annotation_of(attrs[i]))
}

impl Annotation {
    /// Reads one attribute.
    pub fn read(attr: &str) -> (r: Annotation)
        ensures
            r.deep_view() == annotation_of(attr@),
    {
        match parse_attribute(attr) {
            Ok(a) => {
                if !same(a.path.as_str(), "fromit") {
                    return Annotation::Silent;
                }
            },
            Err(message) => {
                return Annotation::Broken(fail(ErrorKind::Syntax(message)));
            },
        }
        match attribute_items(attr) {
            Err(message) => Annotation::Broken(fail(ErrorKind::Syntax(message))),
            Ok(texts) => {
                if texts.len() == 0 {
                    Annotation::Silent
                } else {
                    match lift_items(&texts, DEPTH) {
                        Some(items) => Annotation::Block(items),
                        None => Annotation::Broken(fail(ErrorKind::Unreadable)),
                    }
                }
            },
        }
    }

    /// Reads a list of attributes.
    pub fn read_all(attrs: &Vec<String>) -> (r: Vec<Annotation>)
        ensures
            r.deep_view() == annotations_of(attrs.deep_view()),
    {
        let mut r: Vec<Annotation> = Vec::new();
        let n = attrs.len();
        let mut i: usize = 0;
        while i < n
            invariant
                i <= n,
                n == attrs.len(),
                r.len() == i,
                forall|j: int| 0 <= j < i ==> r[j].deep_view() == annotation_of(attrs[j]@),
            decreases n - i,
        {
            r.push(Annotation::read(attrs[i].as_str()));
            i += 1;
        }
        assert(r.deep_view() =~= annotations_of(attrs.deep_view()));
        r
    }
}

/// One field with what reading its attributes gave.
#[derive(Debug, PartialEq, Eq)]
pub struct AnnotatedField {
    /// The field's name; `None` for a positional field.
    pub name: Option<String>,
    /// The field's type.
    pub ty: String,
    /// The field's visibility; empty when it has none.
    pub vis: String,
    /// One outcome for each of the field's attributes, in their order.
    pub annotations: Vec<Annotation>,
}

/// Mathematical form of [`AnnotatedField`].
pub ghost struct AnnotatedFieldModel {
    pub name: Option<Seq<char>>,
    pub ty: Seq<char>,
    pub vis: Seq<char>,
    pub annotations: Seq<AnnotationModel>,
}

impl DeepView for AnnotatedField {
    type V = AnnotatedFieldModel;

    open spec fn deep_view(&self) -> AnnotatedFieldModel {
        AnnotatedFieldModel {
            name: self.name.deep_view(),
            ty: self.ty@,
            vis: self.vis@,
            annotations: self.annotations.deep_view(),
        }
    }
}

/// A field with its attributes read.
pub open spec fn annotated_field_of(field: FieldSyntaxModel) -> AnnotatedFieldModel {
    AnnotatedFieldModel {
        name: field.name,
        ty: field.ty,
        vis: field.vis,
        annotations: annotations_of(field.attrs),
    }
}

/// Fields with their attributes read.
pub open spec fn annotated_fields_of(fields: Seq<FieldSyntaxModel>) -> Seq<AnnotatedFieldModel> {
    Seq::new(fields.len(), |i: int| annotated_field_of(fields[i]))
}

impl AnnotatedField {
    /// Reads the attributes of one field.
    pub fn read(field: &FieldSyntax) -> (r: AnnotatedField)
        ensures
            r.deep_view() == annotated_field_of(field.deep_view()),
    {
        AnnotatedField {
            name: field.name.clone(),
            ty: field.ty.clone(),
            vis: field.vis.clone(),
            annotations: Annotation::read_all(&field.attrs),
        }
    }

    /// Reads the attributes of each field of a list.
    pub fn read_all(fields: &Vec<FieldSyntax>) -> (r: Vec<AnnotatedField>)
        ensures
            r.deep_view() == annotated_fields_of(fields.deep_view()),
    {
        let mut r: Vec<AnnotatedField> = Vec::new();
        let n = fields.len();
        let mut i: usize = 0;
        while i < n
            invariant
                i <= n,
                n == fields.len(),
                r.len() == i,
                forall|j: int|
                    0 <= j < i ==> r[j].deep_view() == annotated_field_of(fields[j].deep_view()),
            decreases n - i,
        {
            r.push(AnnotatedField::read(&fields[i]));
            i += 1;
        }
        assert(r.deep_view() =~= annotated_fields_of(fields.deep_view()));
        r
    }
}

/// What kind of definition carries the annotations.
#[derive(Clone, Debug, PartialEq, Eq)]
pub enum Data {
    /// A record, with its fields.
    Struct(Vec<FieldSyntax>),
    Enum,
    Union,
}

/// The annotated definition, as token text.
#[derive(Clone, Debug, PartialEq, Eq)]
pub struct DeriveInput {
    /// The type's name.
    pub name: String,
    /// The type's visibility; empty when it has none.
    pub vis: String,
    /// The type's generic parameter list, `<` and `>` included; empty when
    /// it has none.
    pub generics: String,
    /// The type's where clause, `where` included.
    pub where_clause: Option<String>,
    /// The type's attributes, one text each.
    pub attrs: Vec<String>,
    pub data: Data,
}

/// The kind of definition, with the attributes of its fields read.
#[derive(Debug, PartialEq, Eq)]
pub enum AnnotatedData {
    Struct(Vec<AnnotatedField>),
    Enum,
    Union,
}

/// The annotated definition, with its attributes read.
#[derive(Debug, PartialEq, Eq)]
pub struct Annotated {
    pub name: String,
    pub vis: String,
    pub generics: String,
    pub where_clause: Option<String>,
    /// One outcome for each of the type's attributes, in their order.
    pub annotations: Vec<Annotation>,
    pub data: AnnotatedData,
}

/// Mathematical form of [`Data`].
pub ghost enum DataModel {
    Struct(Seq<FieldSyntaxModel>),
    Enum,
    Union,
}

/// Mathematical form of [`DeriveInput`].
pub ghost struct DeriveInputModel {
    pub name: Seq<char>,
    pub vis: Seq<char>,
    pub generics: Seq<char>,
    pub where_clause: Option<Seq<char>>,
    pub attrs: Seq<Seq<char>>,
    pub data: DataModel,
}

/// Mathematical form of [`AnnotatedData`].
pub ghost enum AnnotatedDataModel {
    Struct(Seq<AnnotatedFieldModel>),
    Enum,
    Union,
}

/// Mathematical form of [`Annotated`].
pub ghost struct AnnotatedModel {
    pub name: Seq<char>,
    pub vis: Seq<char>,
    pub generics: Seq<char>,
    pub where_clause: Option<Seq<char>>,
    pub annotations: Seq<AnnotationModel>,
    pub data: AnnotatedDataModel,
}

impl DeepView for Data {
    type V = DataModel;

    open spec fn deep_view(&self) -> DataModel {
        match self {
            Data::Struct(fields) => DataModel::Struct(fields.deep_view()),
            Data::Enum => DataModel::Enum,
            Data::Union => DataModel::Union,
        }
    }
}

impl DeepView for DeriveInput {
    type V = DeriveInputModel;

    open spec fn deep_view(&self) -> DeriveInputModel {
        DeriveInputModel {
            name: self.name@,
            vis: self.vis@,
            generics: self.generics@,
            where_clause: self.where_clause.deep_view(),
            attrs: self.attrs.deep_view(),
            data: self.data.deep_view(),
        }
    }
}

impl DeepView for AnnotatedData {
    type V = AnnotatedDataModel;

    open spec fn deep_view(&self) -> AnnotatedDataModel {
        match self {
            AnnotatedData::Struct(fields) => AnnotatedDataModel::Struct(fields.deep_view()),
            AnnotatedData::Enum => AnnotatedDataModel::Enum,
            AnnotatedData::Union => AnnotatedDataModel::Union,
        }
    }
}

impl DeepView for Annotated {
    type V = AnnotatedModel;

    open spec fn deep_view(&self) -> AnnotatedModel {
        AnnotatedModel {
            name: self.name@,
            vis: self.vis@,
            generics: self.generics@,
            where_clause: self.where_clause.deep_view(),
            annotations: self.annotations.deep_view(),
            data: self.data.deep_view(),
        }
    }
}

/// The definition with its attributes read.
pub open spec fn annotated_of(input: DeriveInputModel) -> AnnotatedModel {
    AnnotatedModel {
        name: input.name,
        vis: input.vis,
        generics: input.generics,
        where_clause: input.where_clause,
        annotations: annotations_of(input.attrs),
        data: match input.data {
            DataModel::Struct(fields) => AnnotatedDataModel::Struct(annotated_fields_of(fields)),
            DataModel::Enum => AnnotatedDataModel::Enum,
            DataModel::Union => AnnotatedDataModel::Union,
        },
    }
}

impl Annotated {
    /// Reads the attributes of a definition.
    pub fn read(input: &DeriveInput) -> (r: Annotated)
        ensures
            r.deep_view() == annotated_of(input.deep_view()),
    {
        Annotated {
            name: input.name.clone(),
            vis: input.vis.clone(),
            generics: input.generics.clone(),
            where_clause: input.where_clause.clone(),
            annotations: Annotation::read_all(&input.attrs),
            data: match &input.data {
                Data::Struct(fields) => AnnotatedData::Struct(AnnotatedField::read_all(fields)),
                Data::Enum => AnnotatedData::Enum,
                Data::Union => AnnotatedData::Union,
            },
        }
    }
}

/// Whether each annotation that could not be read says why: holds at least
/// one error.
pub open spec fn telling(annotations: Seq<AnnotationModel>) -> bool {
    forall|i: int|
        0 <= i < annotations.len() ==> ((#[trigger] annotations[i]) matches AnnotationModel::Broken(
            e,
        ) ==> e.len() > 0)
}

/// Attributes that are read and found broken say why.
pub proof fn lemma_read_telling(attrs: Seq<Seq<char>>)
    ensures
        telling(annotations_of(attrs)),
{
    assert forall|i: int| 0 <= i < annotations_of(attrs).len() implies ((
    #[trigger] annotations_of(attrs)[i]) matches AnnotationModel::Broken(e) ==> e.len() > 0) by {
        assert(annotations_of(attrs)[i] == annotation_of(attrs[i]));
    }
}

} // verus!
