//! The record schema: what a record declaration looks like to the generator.
//!
//! A schema is plain data. Names, type expressions and tokens are kept as the
//! text they were written with; the generator never looks inside a type
//! expression or a visibility marker, it only carries them through.
//!
//! Each type has a view, a mirror of it over `Seq<char>` and `Seq`, which is
//! what the contracts of the generator speak about.

use crate::text::texts_of;
use vstd::prelude::*;
use vstd::string::StringExecFns;

verus! {

/// What an annotation carries after its name.
#[derive(Debug, Clone, PartialEq, Eq)]
pub enum AttributePayload {
    /// Nothing: `#[name]`.
    Bare,
    /// A parenthesized list, `#[name(a, b)]`: the items in order, each as written.
    List(Vec<String>),
    /// A literal, `#[name = "text"]`: the literal as written, quotes included.
    NameValue(String),
    /// Anything else, as in `#[name(a b)]` or `#[name = a + b]`: what
    /// follows the name, as written.
    Other(String),
}

/// The view of an [`AttributePayload`].
pub enum AttributePayloadView {
    Bare,
    List(Seq<Seq<char>>),
    NameValue(Seq<char>),
    Other(Seq<char>),
}

impl View for AttributePayload {
    type V = AttributePayloadView;

    open spec fn view(&self) -> AttributePayloadView {
        match self {
            AttributePayload::Bare => AttributePayloadView::Bare,
            AttributePayload::List(items) => AttributePayloadView::List(items.deep_view()),
            AttributePayload::NameValue(literal) => AttributePayloadView::NameValue(literal@),
            AttributePayload::Other(text) => AttributePayloadView::Other(text@),
        }
    }
}

/// One annotation attached to a field or to the record.
#[derive(Debug, Clone, PartialEq, Eq)]
pub struct AttributeSpec {
    pub name: String,
    pub payload: AttributePayload,
}

/// The view of an [`AttributeSpec`].
pub struct AttributeSpecView {
    pub name: Seq<char>,
    pub payload: AttributePayloadView,
}

impl View for AttributeSpec {
    type V = AttributeSpecView;

    open spec fn view(&self) -> AttributeSpecView {
        AttributeSpecView { name: self.name@, payload: self.payload@ }
    }
}

impl DeepView for AttributeSpec {
    type V = AttributeSpecView;

    open spec fn deep_view(&self) -> AttributeSpecView {
        self@
    }
}

/// One declared field of a record.
#[derive(Debug, Clone, PartialEq, Eq)]
pub struct FieldSpec {
    /// The field's name; `None` for a positional field.
    pub identifier: Option<String>,
    /// The declared type, as written.
    pub type_expr: String,
    /// The field's annotations, in the order they were written.
    pub attributes: Vec<AttributeSpec>,
}

/// The view of a [`FieldSpec`].
pub struct FieldSpecView {
    pub identifier: Option<Seq<char>>,
    pub type_expr: Seq<char>,
    pub attributes: Seq<AttributeSpecView>,
}

impl View for FieldSpec {
    type V = FieldSpecView;

    open spec fn view(&self) -> FieldSpecView {
        FieldSpecView {
            identifier: self.identifier.deep_view(),
            type_expr: self.type_expr@,
            attributes: self.attributes.deep_view(),
        }
    }
}

impl DeepView for FieldSpec {
    type V = FieldSpecView;

    open spec fn deep_view(&self) -> FieldSpecView {
        self@
    }
}

/// One generic parameter of a record: a lifetime, a type or a constant.
#[derive(Debug, PartialEq, Eq)]
pub struct GenericParam {
    /// The parameter's name as written; a lifetime's name starts with `'`.
    pub name: String,
    /// The declaration as written, bounds included, without a default.
    pub declaration: String,
    /// The parameter's default as written, if it has one.
    pub default: Option<String>,
}

/// The view of a [`GenericParam`].
pub struct GenericParamView {
    pub name: Seq<char>,
    pub declaration: Seq<char>,
    pub default: Option<Seq<char>>,
}

impl View for GenericParam {
    type V = GenericParamView;

    open spec fn view(&self) -> GenericParamView {
        GenericParamView {
            name: self.name@,
            declaration: self.declaration@,
            default: self.default.deep_view(),
        }
    }
}

impl DeepView for GenericParam {
    type V = GenericParamView;

    open spec fn deep_view(&self) -> GenericParamView {
        self@
    }
}

impl Clone for GenericParam {
    fn clone(&self) -> (r: Self)
        ensures
            r@ == self@,
    {
        GenericParam {
            name: self.name.clone(),
            declaration: self.declaration.clone(),
            default: clone_optional_text(&self.default),
        }
    }
}

/// The generic parameters of a record, with its where-clause if it has one.
#[derive(Debug, PartialEq, Eq)]
pub struct GenericParams {
    pub params: Vec<GenericParam>,
    /// The where-clause as written, without the word `where`.
    pub where_clause: Option<String>,
}

/// The view of [`GenericParams`].
pub struct GenericParamsView {
    pub params: Seq<GenericParamView>,
    pub where_clause: Option<Seq<char>>,
}

impl View for GenericParams {
    type V = GenericParamsView;

    open spec fn view(&self) -> GenericParamsView {
        GenericParamsView {
            params: self.params.deep_view(),
            where_clause: self.where_clause.deep_view(),
        }
    }
}

/// A copy of a parameter list.
pub fn clone_params(params: &Vec<GenericParam>) -> (r: Vec<GenericParam>)
    ensures
        r.deep_view() == params.deep_view(),
{
    let mut r: Vec<GenericParam> = Vec::new();
    let mut i: usize = 0;
    while i < params.len()
        invariant
            i <= params.len(),
            r.len() == i,
            forall|k: int| 0 <= k < i ==> r@[k]@ == params@[k]@,
        decreases params.len() - i,
    {
        r.push(params[i].clone());
        i += 1;
    }
    assert(r.deep_view() =~= params.deep_view());
    r
}

/// A copy of a text that may be absent.
pub fn clone_optional_text(text: &Option<String>) -> (r: Option<String>)
    ensures
        r.deep_view() == text.deep_view(),
{
    match text {
        Some(t) => Some(t.clone()),
        None => None,
    }
}

impl Clone for GenericParams {
    fn clone(&self) -> (r: Self)
        ensures
            r@ == self@,
    {
        GenericParams {
            params: clone_params(&self.params),
            where_clause: clone_optional_text(&self.where_clause),
        }
    }
}

/// What kind of type declaration a schema was read from.
#[derive(Debug, Clone, Copy, PartialEq, Eq)]
pub enum RecordShape {
    /// A product type: a `struct`, whatever its fields look like.
    Struct,
    /// A type with named variants.
    Enum,
    /// An untagged union.
    Union,
}

/// The description of one record type.
#[derive(Debug, Clone, PartialEq, Eq)]
pub struct RecordSchema {
    pub name: String,
    /// The visibility marker as written; empty for a private record.
    pub visibility: String,
    pub generics: GenericParams,
    pub shape: RecordShape,
    /// The declared fields, in declaration order.
    pub fields: Vec<FieldSpec>,
    /// The annotations on the record itself, in the order they were written.
    pub record_attributes: Vec<AttributeSpec>,
}

/// The view of a [`RecordSchema`].
pub struct RecordSchemaView {
    pub name: Seq<char>,
    pub visibility: Seq<char>,
    pub generics: GenericParamsView,
    pub shape: RecordShape,
    pub fields: Seq<FieldSpecView>,
    pub record_attributes: Seq<AttributeSpecView>,
}

impl View for RecordSchema {
    type V = RecordSchemaView;

    open spec fn view(&self) -> RecordSchemaView {
        RecordSchemaView {
            name: self.name@,
            visibility: self.visibility@,
            generics: self.generics@,
            shape: self.shape,
            fields: self.fields.deep_view(),
            record_attributes: self.record_attributes.deep_view(),
        }
    }
}

impl AttributeSpec {
    /// The annotation `#[name]`.
    pub fn bare(name: &str) -> (r: Self)
        ensures
            r@ == (AttributeSpecView { name: name@, payload: AttributePayloadView::Bare }),
    {
        AttributeSpec { name: String::from_str(name), payload: AttributePayload::Bare }
    }

    /// The annotation `#[name(items)]`.
    pub fn list(name: &str, items: &[&str]) -> (r: Self)
        ensures
            r@ == (AttributeSpecView {
                name: name@,
                payload: AttributePayloadView::List(items.deep_view()),
            }),
    {
        AttributeSpec {
            name: String::from_str(name),
            payload: AttributePayload::List(texts_of(items)),
        }
    }

    /// An annotation that has none of the other forms; `text` is what
    /// follows the name, as written.
    pub fn other(name: &str, text: &str) -> (r: Self)
        ensures
            r@ == (AttributeSpecView { name: name@, payload: AttributePayloadView::Other(text@) }),
    {
        AttributeSpec {
            name: String::from_str(name),
            payload: AttributePayload::Other(String::from_str(text)),
        }
    }

    /// The annotation `#[name = literal]`; `literal` is the literal as
    /// written, with its quotes.
    pub fn name_value(name: &str, literal: &str) -> (r: Self)
        ensures
            r@ == (AttributeSpecView {
                name: name@,
                payload: AttributePayloadView::NameValue(literal@),
            }),
    {
        AttributeSpec {
            name: String::from_str(name),
            payload: AttributePayload::NameValue(String::from_str(literal)),
        }
    }
}

impl FieldSpec {
    /// A named field without annotations.
    pub fn named(identifier: &str, type_expr: &str) -> (r: Self)
        ensures
            r@ == (FieldSpecView {
                identifier: Some(identifier@),
                type_expr: type_expr@,
                attributes: Seq::empty(),
            }),
    {
        let r = FieldSpec {
            identifier: Some(String::from_str(identifier)),
            type_expr: String::from_str(type_expr),
            attributes: Vec::new(),
        };
        assert(r@.attributes == Seq::<AttributeSpecView>::empty());
        r
    }

    /// A positional field without annotations.
    pub fn positional(type_expr: &str) -> (r: Self)
        ensures
            r@ == (FieldSpecView {
                identifier: None,
                type_expr: type_expr@,
                attributes: Seq::empty(),
            }),
    {
        let r = FieldSpec {
            identifier: None,
            type_expr: String::from_str(type_expr),
            attributes: Vec::new(),
        };
        assert(r@.attributes == Seq::<AttributeSpecView>::empty());
        r
    }

    /// The same field with one more annotation, written after the others.
    pub fn with_attribute(self, attribute: AttributeSpec) -> (r: Self)
        ensures
            r@ == (FieldSpecView {
                attributes: self@.attributes.push(attribute@),
                ..self@
            }),
    {
        let mut r = self;
        r.attributes.push(attribute);
        assert(r@.attributes == self@.attributes.push(attribute@));
        r
    }
}

impl GenericParam {
    /// The parameter called `name` that is declared as `declaration`,
    /// without a default.
    pub fn new(name: &str, declaration: &str) -> (r: Self)
        ensures
            r@ == (GenericParamView { name: name@, declaration: declaration@, default: None }),
    {
        GenericParam {
            name: String::from_str(name),
            declaration: String::from_str(declaration),
            default: None,
        }
    }

    /// The same parameter with `default` as its default.
    pub fn with_default(self, default: &str) -> (r: Self)
        ensures
            r@ == (GenericParamView { default: Some(default@), ..self@ }),
    {
        let mut r = self;
        r.default = Some(String::from_str(default));
        r
    }
}

impl GenericParams {
    /// No parameters and no where-clause.
    pub fn none() -> (r: Self)
        ensures
            r@ == (GenericParamsView { params: Seq::empty(), where_clause: None }),
    {
        let r = GenericParams { params: Vec::new(), where_clause: None };
        assert(r@.params == Seq::<GenericParamView>::empty());
        r
    }

    /// Whether there are no parameters.
    pub fn is_empty(&self) -> (r: bool)
        ensures
            r == (self@.params.len() == 0),
    {
        self.params.len() == 0
    }
}

impl RecordSchema {
    /// A private structure without generic parameters and without
    /// annotations.
    pub fn structure(name: &str, fields: Vec<FieldSpec>) -> (r: Self)
        ensures
            r@ == (RecordSchemaView {
                name: name@,
                visibility: Seq::empty(),
                generics: GenericParamsView { params: Seq::empty(), where_clause: None },
                shape: RecordShape::Struct,
                fields: fields.deep_view(),
                record_attributes: Seq::empty(),
            }),
    {
        let r = RecordSchema {
            name: String::from_str(name),
            visibility: String::new(),
            generics: GenericParams::none(),
            shape: RecordShape::Struct,
            fields,
            record_attributes: Vec::new(),
        };
        assert(r@.record_attributes == Seq::<AttributeSpecView>::empty());
        r
    }

    /// The same record with `generics` as its generic parameters.
    pub fn with_generics(self, generics: GenericParams) -> (r: Self)
        ensures
            r@ == (RecordSchemaView { generics: generics@, ..self@ }),
    {
        let mut r = self;
        r.generics = generics;
        r
    }

    /// The same record with one more annotation, written after the others.
    pub fn with_attribute(self, attribute: AttributeSpec) -> (r: Self)
        ensures
            r@ == (RecordSchemaView {
                record_attributes: self@.record_attributes.push(attribute@),
                ..self@
            }),
    {
        let mut r = self;
        r.record_attributes.push(attribute);
        assert(r@.record_attributes == self@.record_attributes.push(attribute@));
        r
    }
}

} // verus!
