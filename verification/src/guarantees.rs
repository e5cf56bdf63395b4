//! What holds of everything that is generated, proved from the definitions.

use crate::assemble::{name_enum_of, type_enum_of, unit_variant_of};
use crate::behavior::{lemma_first_match_is_found, FieldValue};
use crate::converter::{
    binding_of, declares, fresh_lifetime_of, lemma_fresh_lifetime_is_free, lifetime_base,
    lifetime_param, reference_converter_of, value_converter_of,
};
use crate::directive::{skip_directive, DirectiveErrorView};
use crate::filter::{
    camel_case, is_kept, kept_count, lemma_retained_count, lemma_retained_depends_on_skips,
    lemma_retained_is_selection, lemma_skip_depends_on_directives, retain_fields, skip_names,
    RetainedFieldView,
};
use crate::generated::{ConverterForm, DeriveListView, GeneratedEnumView, SourceShapeView};
use crate::schema::{
    AttributePayloadView, AttributeSpecView, FieldSpecView, GenericParamsView, RecordSchemaView,
};
use crate::{field_name_of, field_type_of, DeclarationSetView};
use vstd::prelude::*;

verus! {

/// Whether an enum and a conversion routine belong together, for a record
/// with `field_count` declared fields: the enum has at least one variant;
/// the array has one element for each variant; the routine builds the
/// variants in the enum's order, each from the field that the variant stands
/// for; and it takes the fields of the record in declaration order.
pub open spec fn is_coherent(decls: DeclarationSetView, field_count: nat) -> bool {
    let variants = decls.generated_enum.variants;
    let bindings = decls.converter.bindings;
    &&& variants.len() > 0
    &&& decls.converter.target.len == variants.len()
    &&& decls.converter.target.element == decls.generated_enum.name
    &&& bindings.len() == variants.len()
    &&& forall|k: int|
        0 <= k < bindings.len() ==> (#[trigger] bindings[k]).tag == variants[k].tag
            && bindings[k].field == variants[k].field
    &&& decls.converter.well_formed()
    &&& decls.converter.fits(field_count)
}

/// What `field_type` generates is coherent, and has one variant and one
/// array element for each field that is kept for the type enum.
pub proof fn lemma_field_type_is_coherent(schema: RecordSchemaView)
    ensures
        field_type_of(schema) matches Ok(decls) ==> {
            let count = kept_count(schema.fields, skip_names("field_type"@));
            &&& is_coherent(decls, schema.fields.len())
            &&& decls.generated_enum.variants.len() == count
            &&& decls.converter.target.len == count
        },
{
    lemma_retained_is_selection(schema.fields, skip_names("field_type"@));
    lemma_retained_count(schema.fields, skip_names("field_type"@));
}

/// What `field_name` generates is coherent, and has one variant and one
/// array element for each field that is kept for the name enum.
pub proof fn lemma_field_name_is_coherent(schema: RecordSchemaView)
    ensures
        field_name_of(schema) matches Ok(decls) ==> {
            let count = kept_count(schema.fields, skip_names("field_name"@));
            &&& is_coherent(decls, schema.fields.len())
            &&& decls.generated_enum.variants.len() == count
            &&& decls.converter.target.len == count
        },
{
    lemma_retained_is_selection(schema.fields, skip_names("field_name"@));
    lemma_retained_count(schema.fields, skip_names("field_name"@));
}

/// The routine that consumes the record is declared on the array type only
/// for a record without generic parameters. For any other record it is
/// declared on the record type, with the record's own parameters and
/// where-clause, and the type enum has these parameters too.
pub proof fn lemma_conversion_by_value_is_allowed(schema: RecordSchemaView)
    requires
        field_type_of(schema) is Ok,
    ensures
        ({
            let decls = field_type_of(schema)->Ok_0;
            &&& decls.converter.source == SourceShapeView::ByValue
            &&& decls.converter.form == ConverterForm::FromOnArray <==> schema.generics.params.len()
                == 0
            &&& decls.converter.form == ConverterForm::IntoOnRecord ==> decls.converter.generics
                == schema.generics
            &&& decls.converter.form == ConverterForm::FromOnArray
                ==> decls.converter.generics.params.len() == 0
            &&& decls.generated_enum.generics == schema.generics
        }),
{
}

/// The routine that borrows the record has a lifetime of its own in front
/// of the record's parameters, which follow unchanged and in order. The
/// lifetime is not the name of any of them. The name enum has no parameters.
pub proof fn lemma_conversion_by_reference_has_its_lifetime(schema: RecordSchemaView)
    requires
        field_name_of(schema) is Ok,
    ensures
        ({
            let decls = field_name_of(schema)->Ok_0;
            let lifetime = fresh_lifetime_of(schema.generics.params);
            &&& decls.converter.source == (SourceShapeView::ByReference { lifetime })
            &&& decls.converter.form == ConverterForm::FromOnArray
            &&& decls.converter.generics.params.len() == schema.generics.params.len() + 1
            &&& decls.converter.generics.params[0] == lifetime_param(lifetime)
            &&& decls.converter.generics.params.skip(1) == schema.generics.params
            &&& !declares(schema.generics.params, lifetime)
            &&& !declares(schema.generics.params, lifetime_base()) ==> lifetime == lifetime_base()
            &&& decls.generated_enum.generics.params.len() == 0
        }),
{
    lemma_fresh_lifetime_is_free(schema.generics.params);
    let decls = field_name_of(schema)->Ok_0;
    assert(decls.converter.generics.params.skip(1) =~= schema.generics.params);
}

/// Whether no two named fields have the same name.
pub open spec fn has_distinct_names(fields: Seq<FieldSpecView>) -> bool {
    forall|i: int, j: int|
        0 <= i < j < fields.len() && (#[trigger] fields[i]).identifier is Some && (
        #[trigger] fields[j]).identifier is Some ==> fields[i].identifier != fields[j].identifier
}

/// The forward lookup of a variant gives the name of the field that the
/// variant was generated for, spelled as the field was declared. If no two
/// fields of the record have the same name, the reverse lookup of that name
/// gives the variant back.
pub proof fn lemma_name_lookup(schema: RecordSchemaView, variant: int)
    requires
        field_name_of(schema) is Ok,
        0 <= variant < field_name_of(schema)->Ok_0.generated_enum.variants.len(),
    ensures
        ({
            let decls = field_name_of(schema)->Ok_0;
            let names = decls.generated_enum;
            let position = decls.converter.bindings[variant].position as int;
            &&& position < schema.fields.len()
            &&& schema.fields[position].identifier == Some(names.name_of(variant))
            &&& has_distinct_names(schema.fields) ==> names.variant_named(names.name_of(variant))
                == Some(variant)
        }),
{
    let decls = field_name_of(schema)->Ok_0;
    let names = decls.generated_enum;
    let skip = skip_names("field_name"@);
    let kept = retain_fields(schema.fields, skip)->Ok_0;
    lemma_retained_is_selection(schema.fields, skip);
    assert(names.variants[variant] == unit_variant_of(kept[variant]));
    if has_distinct_names(schema.fields) {
        assert forall|j: int| 0 <= j < variant implies (#[trigger] names.variants[j]).field
            != names.name_of(variant) by {
            assert(names.variants[j] == unit_variant_of(kept[j]));
            assert(kept[j].position < kept[variant].position);
        }
        lemma_first_match_is_found(names, names.name_of(variant), variant);
    }
}

/// The reverse lookup of a text that is not the name of any variant's field
/// finds nothing.
pub proof fn lemma_unknown_name_is_absent(names: GeneratedEnumView, name: Seq<char>)
    requires
        forall|k: int|
            0 <= k < names.variants.len() ==> (#[trigger] names.variants[k]).field != name,
    ensures
        names.variant_named(name) is None,
{
}

/// The reverse lookup of the name of a field that was not retained finds
/// nothing, if no two fields of the record have the same name.
pub proof fn lemma_dropped_field_is_absent(schema: RecordSchemaView, index: int)
    requires
        field_name_of(schema) is Ok,
        has_distinct_names(schema.fields),
        0 <= index < schema.fields.len(),
        schema.fields[index].identifier is Some,
        !is_kept(schema.fields[index], skip_names("field_name"@)),
    ensures
        field_name_of(schema)->Ok_0.generated_enum.variant_named(
            schema.fields[index].identifier->0,
        ) is None,
{
    let names = field_name_of(schema)->Ok_0.generated_enum;
    let skip = skip_names("field_name"@);
    let kept = retain_fields(schema.fields, skip)->Ok_0;
    let name = schema.fields[index].identifier->0;
    lemma_retained_is_selection(schema.fields, skip);
    assert forall|k: int| 0 <= k < names.variants.len() implies (#[trigger] names.variants[k]).field
        != name by {
        assert(names.variants[k] == unit_variant_of(kept[k]));
        let position = kept[k].position as int;
        assert(is_kept(schema.fields[position], skip));
        assert(position != index);
        if position < index {
            assert(schema.fields[position].identifier != schema.fields[index].identifier);
        } else {
            assert(schema.fields[index].identifier != schema.fields[position].identifier);
        }
    }
}

/// The values that an array of a type enum wraps, in order.
pub open spec fn payloads<V>(values: Seq<FieldValue<V>>) -> Seq<V> {
    values.map_values(|value: FieldValue<V>| value.payload)
}

/// The values of the kept fields of a record, in declaration order.
pub open spec fn kept_values<V>(
    fields: Seq<FieldSpecView>,
    names: Seq<Seq<char>>,
    record: Seq<V>,
) -> Seq<V>
    recommends
        fields.len() <= record.len(),
    decreases fields.len(),
{
    if fields.len() == 0 {
        Seq::empty()
    } else {
        let before = kept_values(fields.drop_last(), names, record);
        if is_kept(fields.last(), names) {
            before.push(record[fields.len() - 1])
        } else {
            before
        }
    }
}

/// The values of the kept fields are the values at the positions of the
/// retained fields.
proof fn lemma_kept_values_by_position<V>(
    fields: Seq<FieldSpecView>,
    names: Seq<Seq<char>>,
    record: Seq<V>,
)
    requires
        retain_fields(fields, names) is Ok,
    ensures
        ({
            let kept = retain_fields(fields, names)->Ok_0;
            kept_values(fields, names, record) == Seq::new(
                kept.len(),
                |k: int| record[kept[k].position as int],
            )
        }),
    decreases fields.len(),
{
    if fields.len() > 0 {
        lemma_kept_values_by_position(fields.drop_last(), names, record);
    }
    let kept = retain_fields(fields, names)->Ok_0;
    assert(kept_values(fields, names, record) =~= Seq::new(
        kept.len(),
        |k: int| record[kept[k].position as int],
    ));
}

/// If every field is kept, the values of the kept fields are the record.
proof fn lemma_all_kept_values<V>(
    fields: Seq<FieldSpecView>,
    names: Seq<Seq<char>>,
    record: Seq<V>,
)
    requires
        fields.len() <= record.len(),
        forall|i: int| 0 <= i < fields.len() ==> is_kept(#[trigger] fields[i], names),
    ensures
        kept_values(fields, names, record) == record.take(fields.len() as int),
    decreases fields.len(),
{
    if fields.len() > 0 {
        let before = fields.drop_last();
        assert forall|i: int| 0 <= i < before.len() implies is_kept(
            #[trigger] before[i],
            names,
        ) by {
            assert(before[i] == fields[i]);
        }
        lemma_all_kept_values(before, names, record);
        assert(is_kept(fields[fields.len() - 1], names));
    }
    assert(kept_values(fields, names, record) =~= record.take(fields.len() as int));
}

/// Round trip: a record that is converted by value, and whose array is then
/// taken apart again, gives back the values of its retained fields, in
/// declaration order; the `k`-th element of the array is of the `k`-th
/// variant. If no field is dropped, the values are the whole record.
pub proof fn lemma_round_trip<V>(schema: RecordSchemaView, record: Seq<V>)
    requires
        field_type_of(schema) is Ok,
        record.len() == schema.fields.len(),
        schema.fields.len() <= usize::MAX,
    ensures
        ({
            let array = field_type_of(schema)->Ok_0.converter.converted(record);
            let names = skip_names("field_type"@);
            &&& forall|k: int| 0 <= k < array.len() ==> (#[trigger] array[k]).variant == k
            &&& payloads(array) == kept_values(schema.fields, names, record)
            &&& (forall|i: int| 0 <= i < schema.fields.len() ==> is_kept(schema.fields[i], names))
                ==> payloads(array) == record
        }),
{
    let names = skip_names("field_type"@);
    let converter = field_type_of(schema)->Ok_0.converter;
    let array = converter.converted(record);
    let kept = retain_fields(schema.fields, names)->Ok_0;
    lemma_retained_is_selection(schema.fields, names);
    lemma_retained_count(schema.fields, names);
    lemma_kept_values_by_position(schema.fields, names, record);
    assert(payloads(array) =~= kept_values(schema.fields, names, record)) by {
        assert forall|k: int| 0 <= k < array.len() implies payloads(array)[k]
            == record[kept[k].position as int] by {
            assert(converter.bindings[k] == binding_of(kept[k]));
        }
    }
    if forall|i: int| 0 <= i < schema.fields.len() ==> is_kept(schema.fields[i], names) {
        lemma_all_kept_values(schema.fields, names, record);
        assert(record.take(schema.fields.len() as int) == record);
    }
}

/// Whether no two of the retained fields have the same tag.
pub open spec fn has_distinct_tags(kept: Seq<RetainedFieldView>) -> bool {
    forall|j: int, k: int|
        0 <= j < k < kept.len() ==> (#[trigger] kept[j]).tag_identifier != (
        #[trigger] kept[k]).tag_identifier
}

/// The tag of a retained field is the camel case form of the field's name
/// and depends on nothing else: fields of the same name get the same tag.
/// The tags are distinct from each other exactly when the camel case forms
/// of the retained names are.
pub proof fn lemma_tags_follow_names(fields: Seq<FieldSpecView>, names: Seq<Seq<char>>)
    requires
        retain_fields(fields, names) is Ok,
    ensures
        ({
            let kept = retain_fields(fields, names)->Ok_0;
            &&& forall|k: int|
                0 <= k < kept.len() ==> (#[trigger] kept[k]).tag_identifier == camel_case(
                    kept[k].identifier,
                )
            &&& forall|j: int, k: int|
                0 <= j < kept.len() && 0 <= k < kept.len() && (#[trigger] kept[j]).identifier == (
                #[trigger] kept[k]).identifier ==> kept[j].tag_identifier == kept[k].tag_identifier
            &&& has_distinct_tags(kept) <==> forall|j: int, k: int|
                0 <= j < k < kept.len() ==> camel_case((#[trigger] kept[j]).identifier)
                    != camel_case((#[trigger] kept[k]).identifier)
        }),
{
    lemma_retained_is_selection(fields, names);
}

/// The skip directive in its list form, `#[name(skip)]`.
pub open spec fn skip_as_list() -> AttributePayloadView {
    AttributePayloadView::List(seq!["skip"@])
}

/// The skip directive in its literal form, `#[name = "skip"]`.
pub open spec fn skip_as_literal() -> AttributePayloadView {
    AttributePayloadView::NameValue("\"skip\""@)
}

/// The fields `fields`, but with `payload` on annotation `attr` of field
/// `field`.
pub open spec fn with_payload(
    fields: Seq<FieldSpecView>,
    field: int,
    attr: int,
    payload: AttributePayloadView,
) -> Seq<FieldSpecView>
    recommends
        0 <= field < fields.len(),
        0 <= attr < fields[field].attributes.len(),
{
    let attrs = fields[field].attributes;
    fields.update(
        field,
        FieldSpecView {
            attributes: attrs.update(attr, AttributeSpecView { payload, ..attrs[attr] }),
            ..fields[field]
        },
    )
}

/// Under every name and every set of recognized names, the two forms of the
/// skip directive say the same.
pub proof fn lemma_skip_forms_say_the_same(name: Seq<char>, names: Seq<Seq<char>>)
    ensures
        skip_directive(AttributeSpecView { name, payload: skip_as_list() }, names)
            == skip_directive(AttributeSpecView { name, payload: skip_as_literal() }, names),
        names.contains(name) ==> skip_directive(
            AttributeSpecView { name, payload: skip_as_list() },
            names,
        ) == Ok::<bool, DirectiveErrorView>(true),
{
}

/// The two forms of the skip directive filter alike: whichever of them an
/// annotation of a field carries, the same fields are retained.
pub proof fn lemma_skip_forms_filter_alike(
    fields: Seq<FieldSpecView>,
    names: Seq<Seq<char>>,
    field: int,
    attr: int,
)
    requires
        0 <= field < fields.len(),
        0 <= attr < fields[field].attributes.len(),
    ensures
        retain_fields(with_payload(fields, field, attr, skip_as_list()), names) == retain_fields(
            with_payload(fields, field, attr, skip_as_literal()),
            names,
        ),
{
    let a = with_payload(fields, field, attr, skip_as_list());
    let b = with_payload(fields, field, attr, skip_as_literal());
    lemma_skip_forms_say_the_same(fields[field].attributes[attr].name, names);
    lemma_skip_depends_on_directives(a[field].attributes, b[field].attributes, names);
    lemma_retained_depends_on_skips(a, b, names);
}

/// Both enums and both conversion routines that are made from the same
/// retained fields have one variant, one binding and one array element for
/// each of them.
pub proof fn lemma_one_element_for_each_field<V>(
    record_name: Seq<char>,
    generics: GenericParamsView,
    name_derives: DeriveListView,
    type_derives: DeriveListView,
    kept: Seq<RetainedFieldView>,
    record: Seq<V>,
)
    ensures
        ({
            let names = name_enum_of(record_name, name_derives, kept);
            let types = type_enum_of(record_name, generics, type_derives, kept);
            let by_reference = reference_converter_of(record_name, generics, names.name, kept);
            let by_value = value_converter_of(record_name, generics, types.name, kept);
            &&& names.variants.len() == kept.len()
            &&& types.variants.len() == kept.len()
            &&& by_reference.target.len == kept.len()
            &&& by_value.target.len == kept.len()
            &&& by_reference.bindings.len() == kept.len()
            &&& by_value.bindings.len() == kept.len()
            &&& by_reference.all_variants().len() == kept.len()
            &&& by_value.converted(record).len() == kept.len()
        }),
{
}

/// The two arrays generated for a record have the same length, and the two
/// enums equally many variants, if as many fields of the record are kept for
/// the name enum as for the type enum.
pub proof fn lemma_array_lengths_agree(schema: RecordSchemaView)
    requires
        field_name_of(schema) is Ok,
        field_type_of(schema) is Ok,
        kept_count(schema.fields, skip_names("field_name"@)) == kept_count(
            schema.fields,
            skip_names("field_type"@),
        ),
    ensures
        ({
            let names = field_name_of(schema)->Ok_0;
            let types = field_type_of(schema)->Ok_0;
            &&& names.converter.target.len == types.converter.target.len
            &&& names.generated_enum.variants.len() == types.generated_enum.variants.len()
            &&& names.converter.target.len == names.generated_enum.variants.len()
        }),
{
    lemma_field_name_is_coherent(schema);
    lemma_field_type_is_coherent(schema);
}

/// As many fields are kept under one set of recognized names as under
/// another, if the two keep the same fields.
pub proof fn lemma_same_fields_kept(
    fields: Seq<FieldSpecView>,
    a: Seq<Seq<char>>,
    b: Seq<Seq<char>>,
)
    requires
        forall|i: int|
            0 <= i < fields.len() ==> is_kept(#[trigger] fields[i], a) == is_kept(fields[i], b),
    ensures
        kept_count(fields, a) == kept_count(fields, b),
    decreases fields.len(),
{
    if fields.len() > 0 {
        let before = fields.drop_last();
        assert forall|i: int| 0 <= i < before.len() implies is_kept(#[trigger] before[i], a)
            == is_kept(before[i], b) by {
            assert(before[i] == fields[i]);
        }
        lemma_same_fields_kept(before, a, b);
        assert(is_kept(fields[fields.len() - 1], a) == is_kept(fields[fields.len() - 1], b));
    }
}

} // verus!
