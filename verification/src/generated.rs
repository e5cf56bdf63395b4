//! The generated declarations: what the generator hands to whoever prints them.

use crate::schema::{GenericParams, GenericParamsView};
use vstd::prelude::*;

verus! {

/// Where a derive list came from.
#[derive(Debug, Clone, Copy, PartialEq, Eq)]
pub enum DeriveSource {
    /// The record names the list itself, in a derive annotation.
    Override,
    /// The record names none: the list is the built-in one.
    Default,
}

/// The derive targets attached to a generated enum. The list comes from one
/// source only; an override and the default are never merged.
#[derive(Debug, Clone, PartialEq, Eq)]
pub struct DeriveList {
    pub source: DeriveSource,
    /// The derive targets in order, each as written.
    pub targets: Vec<String>,
}

/// The view of a [`DeriveList`].
pub struct DeriveListView {
    pub source: DeriveSource,
    pub targets: Seq<Seq<char>>,
}

impl View for DeriveList {
    type V = DeriveListView;

    open spec fn view(&self) -> DeriveListView {
        DeriveListView { source: self.source, targets: self.targets.deep_view() }
    }
}

impl DeriveListView {
    /// Whether the list is written out as a derive attribute. A list that
    /// the record names is always written, an empty one too. The built-in
    /// list is written if it names a target; the empty built-in list stands
    /// for no attribute at all.
    pub open spec fn is_written(self) -> bool {
        self.source == DeriveSource::Override || self.targets.len() > 0
    }
}

impl DeriveList {
    /// Whether the list is written out as a derive attribute.
    pub fn is_written(&self) -> (r: bool)
        ensures
            r == self@.is_written(),
    {
        match self.source {
            DeriveSource::Override => true,
            DeriveSource::Default => self.targets.len() > 0,
        }
    }
}

/// One variant of a generated enum. It stands for one retained field.
#[derive(Debug, Clone, PartialEq, Eq)]
pub struct VariantSpec {
    /// The variant's name.
    pub tag: String,
    /// The name of the field that the variant stands for, as declared.
    pub field: String,
    /// The type that the variant wraps, as written; `None` for a unit variant.
    pub payload: Option<String>,
}

/// The view of a [`VariantSpec`].
pub struct VariantSpecView {
    pub tag: Seq<char>,
    pub field: Seq<char>,
    pub payload: Option<Seq<char>>,
}

impl View for VariantSpec {
    type V = VariantSpecView;

    open spec fn view(&self) -> VariantSpecView {
        VariantSpecView { tag: self.tag@, field: self.field@, payload: self.payload.deep_view() }
    }
}

impl DeepView for VariantSpec {
    type V = VariantSpecView;

    open spec fn deep_view(&self) -> VariantSpecView {
        self@
    }
}

/// A generated enum declaration.
#[derive(Debug, Clone, PartialEq, Eq)]
pub struct GeneratedEnum {
    pub name: String,
    pub generics: GenericParams,
    pub derives: DeriveList,
    /// The variants, one for each retained field, in declaration order.
    pub variants: Vec<VariantSpec>,
}

/// The view of a [`GeneratedEnum`].
pub struct GeneratedEnumView {
    pub name: Seq<char>,
    pub generics: GenericParamsView,
    pub derives: DeriveListView,
    pub variants: Seq<VariantSpecView>,
}

impl View for GeneratedEnum {
    type V = GeneratedEnumView;

    open spec fn view(&self) -> GeneratedEnumView {
        GeneratedEnumView {
            name: self.name@,
            generics: self.generics@,
            derives: self.derives@,
            variants: self.variants.deep_view(),
        }
    }
}

/// How a conversion routine takes the record.
#[derive(Debug, Clone, PartialEq, Eq)]
pub enum SourceShape {
    /// The record is consumed.
    ByValue,
    /// The record is borrowed for the lifetime named here, which the
    /// generator made up for this routine.
    ByReference { lifetime: String },
}

/// The view of a [`SourceShape`].
pub enum SourceShapeView {
    ByValue,
    ByReference { lifetime: Seq<char> },
}

impl View for SourceShape {
    type V = SourceShapeView;

    open spec fn view(&self) -> SourceShapeView {
        match self {
            SourceShape::ByValue => SourceShapeView::ByValue,
            SourceShape::ByReference { lifetime } => SourceShapeView::ByReference {
                lifetime: lifetime@,
            },
        }
    }
}

/// On which type a conversion routine is declared.
#[derive(Debug, Clone, Copy, PartialEq, Eq)]
pub enum ConverterForm {
    /// A conversion-from declaration on the array type:
    /// `impl From<Record> for [Enum; N]`.
    FromOnArray,
    /// A conversion-into declaration on the record type:
    /// `impl Into<[Enum; N]> for Record`.
    IntoOnRecord,
}

/// The array type that a conversion routine returns.
#[derive(Debug, Clone, PartialEq, Eq)]
pub struct ArrayType {
    /// The name of the enum whose variants the array holds.
    pub element: String,
    /// The number of elements, fixed when the routine is generated.
    pub len: usize,
}

/// The view of an [`ArrayType`].
pub struct ArrayTypeView {
    pub element: Seq<char>,
    pub len: nat,
}

impl View for ArrayType {
    type V = ArrayTypeView;

    open spec fn view(&self) -> ArrayTypeView {
        ArrayTypeView { element: self.element@, len: self.len as nat }
    }
}

/// One step of a conversion routine: the field that is taken out of the
/// record and the variant that is built for it.
#[derive(Debug, Clone, PartialEq, Eq)]
pub struct FieldBinding {
    /// The field's name, as declared.
    pub field: String,
    /// The field's index among the declared fields of the record.
    pub position: usize,
    /// The name of the variant that is built.
    pub tag: String,
}

/// The view of a [`FieldBinding`].
pub struct FieldBindingView {
    pub field: Seq<char>,
    pub position: nat,
    pub tag: Seq<char>,
}

impl View for FieldBinding {
    type V = FieldBindingView;

    open spec fn view(&self) -> FieldBindingView {
        FieldBindingView { field: self.field@, position: self.position as nat, tag: self.tag@ }
    }
}

impl DeepView for FieldBinding {
    type V = FieldBindingView;

    open spec fn deep_view(&self) -> FieldBindingView {
        self@
    }
}

/// A conversion routine from a record to an array of variants.
#[derive(Debug, Clone, PartialEq, Eq)]
pub struct ConverterSpec {
    /// The name of the record type.
    pub record: String,
    pub source: SourceShape,
    pub form: ConverterForm,
    /// The generic parameters of the declaration. For a conversion by
    /// reference the made-up lifetime stands first, before the record's own.
    pub generics: GenericParams,
    pub target: ArrayType,
    /// One binding for each element of the array, in order.
    pub bindings: Vec<FieldBinding>,
}

/// The view of a [`ConverterSpec`].
pub struct ConverterSpecView {
    pub record: Seq<char>,
    pub source: SourceShapeView,
    pub form: ConverterForm,
    pub generics: GenericParamsView,
    pub target: ArrayTypeView,
    pub bindings: Seq<FieldBindingView>,
}

impl View for ConverterSpec {
    type V = ConverterSpecView;

    open spec fn view(&self) -> ConverterSpecView {
        ConverterSpecView {
            record: self.record@,
            source: self.source@,
            form: self.form,
            generics: self.generics@,
            target: self.target@,
            bindings: self.bindings.deep_view(),
        }
    }
}

} // verus!
