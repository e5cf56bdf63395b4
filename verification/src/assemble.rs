//! Schema assembly: the two enum declarations that are generated for a record.
//!
//! The name enum has one unit variant for each retained field. The type enum
//! has one variant for each retained field, wrapping the field's type. Both
//! keep the fields' declaration order.

use crate::filter::{RetainedField, RetainedFieldView};
use crate::generated::{
    DeriveList, DeriveListView, GeneratedEnum, GeneratedEnumView, VariantSpec, VariantSpecView,
};
use crate::schema::{GenericParamView, GenericParams, GenericParamsView};
use vstd::prelude::*;
use vstd::string::StringExecFns;

verus! {

/// The unit variant that stands for a retained field.
pub open spec fn unit_variant_of(field: RetainedFieldView) -> VariantSpecView {
    VariantSpecView { tag: field.tag_identifier, field: field.identifier, payload: None }
}

/// The variant that wraps the type of a retained field.
pub open spec fn typed_variant_of(field: RetainedFieldView) -> VariantSpecView {
    VariantSpecView {
        tag: field.tag_identifier,
        field: field.identifier,
        payload: Some(field.type_expr),
    }
}

/// An empty parameter list, with no where-clause.
pub open spec fn no_generics() -> GenericParamsView {
    GenericParamsView { params: Seq::empty(), where_clause: None }
}

/// The derive list of a name enum whose record names none.
pub open spec fn default_name_derives() -> Seq<Seq<char>> {
    seq!["Debug"@, "PartialEq"@, "Eq"@, "Clone"@, "Copy"@]
}

/// The derive list of a type enum whose record names none: empty.
pub open spec fn default_type_derives() -> Seq<Seq<char>> {
    Seq::empty()
}

/// The name enum of a record. It never has generic parameters: its variants
/// are bare names and mention no type.
pub open spec fn name_enum_of(
    record_name: Seq<char>,
    derives: DeriveListView,
    kept: Seq<RetainedFieldView>,
) -> GeneratedEnumView {
    GeneratedEnumView {
        name: record_name + "FieldName"@,
        generics: no_generics(),
        derives,
        variants: kept.map_values(|f: RetainedFieldView| unit_variant_of(f)),
    }
}

/// The type enum of a record. It has the record's own generic parameters and
/// where-clause, which the wrapped types may mention.
pub open spec fn type_enum_of(
    record_name: Seq<char>,
    generics: GenericParamsView,
    derives: DeriveListView,
    kept: Seq<RetainedFieldView>,
) -> GeneratedEnumView {
    GeneratedEnumView {
        name: record_name + "FieldType"@,
        generics,
        derives,
        variants: kept.map_values(|f: RetainedFieldView| typed_variant_of(f)),
    }
}

/// The name of a generated type: the record's name followed by `suffix`.
pub fn generated_name(record_name: &str, suffix: &str) -> (r: String)
    ensures
        r@ == record_name@ + suffix@,
{
    let mut r = String::from_str(record_name);
    r.append(suffix);
    r
}

/// The built-in derive list of a name enum.
pub fn name_enum_derives() -> (r: Vec<String>)
    ensures
        r.deep_view() == default_name_derives(),
{
    let mut r: Vec<String> = Vec::new();
    r.push(String::from_str("Debug"));
    r.push(String::from_str("PartialEq"));
    r.push(String::from_str("Eq"));
    r.push(String::from_str("Clone"));
    r.push(String::from_str("Copy"));
    assert(r.deep_view() == default_name_derives());
    r
}

/// The built-in derive list of a type enum.
pub fn type_enum_derives() -> (r: Vec<String>)
    ensures
        r.deep_view() == default_type_derives(),
{
    let r: Vec<String> = Vec::new();
    assert(r.deep_view() == default_type_derives());
    r
}

/// The unit variants of the retained fields, in order.
pub fn unit_variants(kept: &Vec<RetainedField>) -> (r: Vec<VariantSpec>)
    ensures
        r.deep_view() == kept.deep_view().map_values(|f: RetainedFieldView| unit_variant_of(f)),
{
    let mut r: Vec<VariantSpec> = Vec::new();
    let mut i: usize = 0;
    while i < kept.len()
        invariant
            i <= kept.len(),
            r.len() == i,
            forall|k: int| 0 <= k < i ==> r@[k]@ == unit_variant_of(kept@[k]@),
        decreases kept.len() - i,
    {
        let field = &kept[i];
        r.push(
            VariantSpec {
                tag: field.tag_identifier.clone(),
                field: field.identifier.clone(),
                payload: None,
            },
        );
        i += 1;
    }
    assert(r.deep_view() == kept.deep_view().map_values(
        |f: RetainedFieldView| unit_variant_of(f),
    ));
    r
}

/// The typed variants of the retained fields, in order.
pub fn typed_variants(kept: &Vec<RetainedField>) -> (r: Vec<VariantSpec>)
    ensures
        r.deep_view() == kept.deep_view().map_values(|f: RetainedFieldView| typed_variant_of(f)),
{
    let mut r: Vec<VariantSpec> = Vec::new();
    let mut i: usize = 0;
    while i < kept.len()
        invariant
            i <= kept.len(),
            r.len() == i,
            forall|k: int| 0 <= k < i ==> r@[k]@ == typed_variant_of(kept@[k]@),
        decreases kept.len() - i,
    {
        let field = &kept[i];
        r.push(
            VariantSpec {
                tag: field.tag_identifier.clone(),
                field: field.identifier.clone(),
                payload: Some(field.type_expr.clone()),
            },
        );
        i += 1;
    }
    assert(r.deep_view() == kept.deep_view().map_values(
        |f: RetainedFieldView| typed_variant_of(f),
    ));
    r
}

/// Assembles the name enum of the record called `record_name`.
pub fn name_enum(record_name: &str, derives: DeriveList, kept: &Vec<RetainedField>) -> (r:
    GeneratedEnum)
    ensures
        r@ == name_enum_of(record_name@, derives@, kept.deep_view()),
{
    let r = GeneratedEnum {
        name: generated_name(record_name, "FieldName"),
        generics: GenericParams { params: Vec::new(), where_clause: None },
        derives,
        variants: unit_variants(kept),
    };
    assert(r@.generics.params == Seq::<GenericParamView>::empty());
    r
}

/// Assembles the type enum of the record called `record_name`, whose generic
/// parameters are `generics`.
pub fn type_enum(
    record_name: &str,
    generics: &GenericParams,
    derives: DeriveList,
    kept: &Vec<RetainedField>,
) -> (r: GeneratedEnum)
    ensures
        r@ == type_enum_of(record_name@, generics@, derives@, kept.deep_view()),
{
    GeneratedEnum {
        name: generated_name(record_name, "FieldType"),
        generics: generics.clone(),
        derives,
        variants: typed_variants(kept),
    }
}

} // verus!
