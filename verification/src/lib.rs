//! Options model and resolution engine of a derive-style code generator.
//!
//! One annotated record definition declares one or more derived types.
//! This library reads the annotations, resolves for every derived type
//! the complete configuration of each of its fields, works out its
//! generic parameters, and plans what is generated for it: its
//! definition, the conversions from and into the original type, its
//! getters and its setters. Writing the planned code out is left to the
//! caller.
//!
//! Everything is stated over mathematical forms of the data, and proved,
//! except for the calls into the syntax parser, which [`syntax`] holds.

/// The getters of a derived type.
pub mod accessors;
/// Annotation blocks, decoded as written.
pub mod blocks;
/// What a generated conversion consists of.
pub mod convert;
/// The common part of every option decoder.
pub mod decode;
/// Keyed entries that keep the order in which their keys first came.
pub mod entries;
/// What can be wrong with an annotated definition.
pub mod error;
/// One field of a derived type.
pub mod field;
/// The conversion from the original type to a derived type.
pub mod from;
/// The generic parameters of a derived type and of its conversions.
pub mod generics;
/// Getters: what the annotations say about them.
pub mod getter;
/// The conversion from a derived type back into the original type.
pub mod into;
/// What holds of every definition that is resolved.
pub mod invariants;
/// The keys of each option group.
pub mod keys;
/// From annotation text to annotation trees.
pub mod lift;
/// The annotation language as a tree of plain values.
pub mod meta;
/// The setters of a derived type.
pub mod mutators;
/// Everything that is generated for one annotated definition.
pub mod plan;
/// Reading token text, with the test that the parser asks for.
pub mod reader;
/// From the annotated definition to the configuration of each derived type.
pub mod resolve;
/// Setters: what the annotations say about them.
pub mod setter;
/// The definition of a derived type.
pub mod shape;
/// The annotated definition that everything is resolved from.
pub mod source;
/// What the annotations say about a derived type as a whole.
pub mod structure;
/// How a value is handed over, and how one field is converted.
pub mod style;
/// The boundary to the Rust syntax parser.
pub mod syntax;
/// Small verified helpers on text.
pub mod text;
/// Decoders of the values that stand behind a key.
pub mod values;

pub use crate::plan::from_it;
