//! Derivation of field enums from the description of a record type.
//!
//! Given the schema of a record (its name, its generic parameters, its
//! fields and the annotations on both), two companion declarations can be
//! generated:
//!
//! * [`field_name`]: an enum with one unit variant for each field, and a
//!   routine that gives the array of these variants for a borrowed record;
//! * [`field_type`]: an enum with one variant for each field, wrapping the
//!   field's type, and a routine that turns a record into the array of its
//!   fields' values.
//!
//! A field is left out of an enum by an annotation `#[field_types(skip)]` or
//! `#[field_types = "skip"]`, or one under the enum's own name
//! (`field_name`, `field_type`). Under these names nothing else is accepted:
//! any other payload is an error, wherever it stands. The derive list of an
//! enum is set by a record annotation `#[field_types_derive(..)]`, or one
//! under the enum's own name (`field_name_derive`, `field_type_derive`).
//!
//! Generation is all or nothing: it returns the whole declaration set or the
//! first error.

pub mod assemble;
pub mod behavior;
pub mod converter;
pub mod directive;
pub mod filter;
pub mod generated;
pub mod guarantees;
pub mod schema;
pub mod text;

use crate::assemble::{
    default_name_derives, default_type_derives, name_enum, name_enum_derives, name_enum_of,
    type_enum, type_enum_derives, type_enum_of,
};
use crate::converter::{
    reference_converter, reference_converter_of, value_converter, value_converter_of,
};
use crate::directive::{
    directive_message, get_enum_derive, resolve_derive, DirectiveError, DirectiveErrorView,
};
use crate::filter::{filter_fields, retain_fields, skip_names};
use crate::generated::{ConverterSpec, ConverterSpecView, GeneratedEnum, GeneratedEnumView};
use crate::guarantees::{is_coherent, lemma_field_name_is_coherent, lemma_field_type_is_coherent};
use crate::schema::{RecordSchema, RecordSchemaView, RecordShape};
use vstd::prelude::*;
use vstd::string::StringExecFns;

verus! {

/// Why nothing was generated for a record.
#[derive(Debug, Clone, PartialEq, Eq)]
pub enum DeriveError {
    /// The record is not a structure.
    NotAStructure,
    /// An annotation on a field has a recognized name and a wrong value.
    Directive(DirectiveError),
    /// No field of the record is retained.
    NoFields,
}

/// The view of a [`DeriveError`].
pub enum DeriveErrorView {
    NotAStructure,
    Directive(DirectiveErrorView),
    NoFields,
}

impl View for DeriveError {
    type V = DeriveErrorView;

    open spec fn view(&self) -> DeriveErrorView {
        match self {
            DeriveError::NotAStructure => DeriveErrorView::NotAStructure,
            DeriveError::Directive(e) => DeriveErrorView::Directive(e@),
            DeriveError::NoFields => DeriveErrorView::NoFields,
        }
    }
}

/// What is reported when nothing was generated by the derive called
/// `derive_name`.
pub open spec fn message_of(error: DeriveErrorView, derive_name: Seq<char>) -> Seq<char> {
    match error {
        DeriveErrorView::NotAStructure => derive_name + " can only be derived for structures"@,
        DeriveErrorView::Directive(e) => directive_message(e),
        DeriveErrorView::NoFields => derive_name
            + " can only be derived for non-empty structures"@,
    }
}

impl DeriveError {
    /// The message to report for this error; `derive_name` is the name of
    /// the derive that failed, `FieldType` or `FieldName`.
    pub fn message(&self, derive_name: &str) -> (r: String)
        ensures
            r@ == message_of(self@, derive_name@),
    {
        match self {
            DeriveError::NotAStructure => {
                let mut r = String::from_str(derive_name);
                r.append(" can only be derived for structures");
                r
            },
            DeriveError::Directive(e) => e.message(),
            DeriveError::NoFields => {
                let mut r = String::from_str(derive_name);
                r.append(" can only be derived for non-empty structures");
                r
            },
        }
    }
}

/// What is generated for a record: one enum and one conversion routine.
#[derive(Debug, Clone, PartialEq, Eq)]
pub struct DeclarationSet {
    /// The visibility of everything generated: that of the record.
    pub visibility: String,
    pub generated_enum: GeneratedEnum,
    pub converter: ConverterSpec,
}

/// The view of a [`DeclarationSet`].
pub struct DeclarationSetView {
    pub visibility: Seq<char>,
    pub generated_enum: GeneratedEnumView,
    pub converter: ConverterSpecView,
}

impl View for DeclarationSet {
    type V = DeclarationSetView;

    open spec fn view(&self) -> DeclarationSetView {
        DeclarationSetView {
            visibility: self.visibility@,
            generated_enum: self.generated_enum@,
            converter: self.converter@,
        }
    }
}

/// The outcome of a generation, over views.
pub type Outcome = Result<DeclarationSetView, DeriveErrorView>;

/// The view of the outcome that a generation returns.
pub open spec fn outcome(r: Result<DeclarationSet, DeriveError>) -> Outcome {
    match r {
        Ok(decls) => Ok(decls@),
        Err(e) => Err(e@),
    }
}

/// The record annotations that set the derive list of a type enum.
pub open spec fn type_derive_names() -> Seq<Seq<char>> {
    seq!["field_types_derive"@, "field_type_derive"@]
}

/// The record annotations that set the derive list of a name enum.
pub open spec fn name_derive_names() -> Seq<Seq<char>> {
    seq!["field_types_derive"@, "field_name_derive"@]
}

/// What `field_type` generates for a schema.
///
/// A record that is not a structure is refused before its fields are looked
/// at; then the first wrong annotation on a field is reported; then a record
/// of which no field is retained is refused.
pub open spec fn field_type_of(schema: RecordSchemaView) -> Outcome {
    if schema.shape != RecordShape::Struct {
        Err(DeriveErrorView::NotAStructure)
    } else {
        match retain_fields(schema.fields, skip_names("field_type"@)) {
            Err(e) => Err(DeriveErrorView::Directive(e)),
            Ok(kept) => if kept.len() == 0 {
                Err(DeriveErrorView::NoFields)
            } else {
                Ok(
                    DeclarationSetView {
                        visibility: schema.visibility,
                        generated_enum: type_enum_of(
                            schema.name,
                            schema.generics,
                            resolve_derive(
                                schema.record_attributes,
                                type_derive_names(),
                                default_type_derives(),
                            ),
                            kept,
                        ),
                        converter: value_converter_of(
                            schema.name,
                            schema.generics,
                            schema.name + "FieldType"@,
                            kept,
                        ),
                    },
                )
            },
        }
    }
}

/// What `field_name` generates for a schema. Records are refused as by
/// `field_type_of`.
pub open spec fn field_name_of(schema: RecordSchemaView) -> Outcome {
    if schema.shape != RecordShape::Struct {
        Err(DeriveErrorView::NotAStructure)
    } else {
        match retain_fields(schema.fields, skip_names("field_name"@)) {
            Err(e) => Err(DeriveErrorView::Directive(e)),
            Ok(kept) => if kept.len() == 0 {
                Err(DeriveErrorView::NoFields)
            } else {
                Ok(
                    DeclarationSetView {
                        visibility: schema.visibility,
                        generated_enum: name_enum_of(
                            schema.name,
                            resolve_derive(
                                schema.record_attributes,
                                name_derive_names(),
                                default_name_derives(),
                            ),
                            kept,
                        ),
                        converter: reference_converter_of(
                            schema.name,
                            schema.generics,
                            schema.name + "FieldName"@,
                            kept,
                        ),
                    },
                )
            },
        }
    }
}

/// Generates the type enum of a record and the routine that converts the
/// record, by value, into the array of its fields' values.
pub fn field_type(schema: &RecordSchema) -> (r: Result<DeclarationSet, DeriveError>)
    ensures
        outcome(r) == field_type_of(schema@),
        r matches Ok(decls) ==> is_coherent(decls@, schema@.fields.len()),
{
    proof {
        lemma_field_type_is_coherent(schema@);
    }
    let derive_names: [&str; 2] = ["field_types_derive", "field_type_derive"];
    assert(derive_names.deep_view() == type_derive_names());
    let derives = get_enum_derive(&schema.record_attributes, &derive_names, type_enum_derives());
    match schema.shape {
        RecordShape::Struct => {},
        _ => {
            return Err(DeriveError::NotAStructure);
        },
    }
    let kept = match filter_fields(&schema.fields, "field_type") {
        Ok(kept) => kept,
        Err(e) => {
            return Err(DeriveError::Directive(e));
        },
    };
    if kept.len() == 0 {
        return Err(DeriveError::NoFields);
    }
    let generated_enum = type_enum(schema.name.as_str(), &schema.generics, derives, &kept);
    let converter = value_converter(
        schema.name.as_str(),
        &schema.generics,
        generated_enum.name.as_str(),
        &kept,
    );
    Ok(DeclarationSet { visibility: schema.visibility.clone(), generated_enum, converter })
}

/// Generates the name enum of a record and the routine that converts a
/// borrowed record into the array of the enum's variants.
pub fn field_name(schema: &RecordSchema) -> (r: Result<DeclarationSet, DeriveError>)
    ensures
        outcome(r) == field_name_of(schema@),
        r matches Ok(decls) ==> is_coherent(decls@, schema@.fields.len()),
{
    proof {
        lemma_field_name_is_coherent(schema@);
    }
    let derive_names: [&str; 2] = ["field_types_derive", "field_name_derive"];
    assert(derive_names.deep_view() == name_derive_names());
    let derives = get_enum_derive(&schema.record_attributes, &derive_names, name_enum_derives());
    match schema.shape {
        RecordShape::Struct => {},
        _ => {
            return Err(DeriveError::NotAStructure);
        },
    }
    let kept = match filter_fields(&schema.fields, "field_name") {
        Ok(kept) => kept,
        Err(e) => {
            return Err(DeriveError::Directive(e));
        },
    };
    if kept.len() == 0 {
        return Err(DeriveError::NoFields);
    }
    let generated_enum = name_enum(schema.name.as_str(), derives, &kept);
    let converter = reference_converter(
        schema.name.as_str(),
        &schema.generics,
        generated_enum.name.as_str(),
        &kept,
    );
    Ok(DeclarationSet { visibility: schema.visibility.clone(), generated_enum, converter })
}

} // verus!
