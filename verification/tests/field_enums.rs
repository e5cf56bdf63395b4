use field_types::assemble::{name_enum, name_enum_derives, type_enum, type_enum_derives};
use field_types::behavior::FieldValue;
use field_types::converter::{reference_converter, value_converter};
use field_types::directive::get_enum_derive;
use field_types::filter::filter_fields;
use field_types::generated::{DeriveSource, GeneratedEnum};
use field_types::schema::{AttributeSpec, FieldSpec, RecordSchema};
use field_types::DeclarationSet;

/// The value of a field of the record below.
#[derive(Debug, Clone, PartialEq)]
enum EnumsValue {
    Int(i32),
    Bool(bool),
    Text(Option<String>),
}

// #[field_enums_derive(Debug, Clone, PartialEq)]
// struct Test {
//     first: i32,
//     second_field: Option<String>,
//     #[field_enums(skip)]
//     third: bool,
//     #[field_enums = "skip"]
//     fourth: bool,
// }
fn enums_test_schema() -> RecordSchema {
    RecordSchema::structure(
        "Test",
        vec![
            FieldSpec::named("first", "i32"),
            FieldSpec::named("second_field", "Option<String>"),
            FieldSpec::named("third", "bool")
                .with_attribute(AttributeSpec::list("field_enums", &["skip"])),
            FieldSpec::named("fourth", "bool")
                .with_attribute(AttributeSpec::name_value("field_enums", "\"skip\"")),
        ],
    )
    .with_attribute(AttributeSpec::list("field_enums_derive", &["Debug", "Clone", "PartialEq"]))
}

/// The type enum and its routine, with `field_enums` as the annotation name.
fn enums_field_type(schema: &RecordSchema) -> DeclarationSet {
    let derives =
        get_enum_derive(&schema.record_attributes, &["field_enums_derive"], type_enum_derives());
    let kept = filter_fields(&schema.fields, "field_enums").unwrap();
    let generated_enum = type_enum(&schema.name, &schema.generics, derives, &kept);
    let converter = value_converter(&schema.name, &schema.generics, &generated_enum.name, &kept);
    DeclarationSet { visibility: schema.visibility.clone(), generated_enum, converter }
}

/// The name enum and its routine, with `field_enums` as the annotation name.
fn enums_field_name(schema: &RecordSchema) -> DeclarationSet {
    let derives =
        get_enum_derive(&schema.record_attributes, &["field_enums_derive"], name_enum_derives());
    let kept = filter_fields(&schema.fields, "field_enums").unwrap();
    let generated_enum = name_enum(&schema.name, derives, &kept);
    let converter =
        reference_converter(&schema.name, &schema.generics, &generated_enum.name, &kept);
    DeclarationSet { visibility: schema.visibility.clone(), generated_enum, converter }
}

/// The variants of an enum as they are declared: `Tag(Type)` or `Tag`.
fn enums_declared_variants(e: &GeneratedEnum) -> Vec<String> {
    e.variants
        .iter()
        .map(|v| match &v.payload {
            Some(payload) => format!("{}({})", v.tag, payload),
            None => v.tag.clone(),
        })
        .collect()
}

/// The value `Tag(payload)` of the enum `e`.
fn enums_value(e: &GeneratedEnum, tag: &str, payload: EnumsValue) -> FieldValue<EnumsValue> {
    FieldValue { variant: e.variant(tag).unwrap(), payload }
}

#[test]
fn full_field_enums_variants() {
    let types = enums_field_type(&enums_test_schema()).generated_enum;
    assert_eq!(types.name, "TestFieldType");
    assert_eq!(
        enums_declared_variants(&types),
        vec!["First(i32)", "SecondField(Option<String>)"]
    );
    let _field = enums_value(&types, "First", EnumsValue::Int(2));
    let _field = enums_value(&types, "SecondField", EnumsValue::Text(None));

    let names = enums_field_name(&enums_test_schema()).generated_enum;
    assert_eq!(names.name, "TestFieldName");
    assert_eq!(enums_declared_variants(&names), vec!["First", "SecondField"]);
}

#[test]
fn derive_field_enums() {
    let types = enums_field_type(&enums_test_schema()).generated_enum;
    assert_eq!(types.derives.source, DeriveSource::Override);
    assert_eq!(types.derives.targets, vec!["Debug", "Clone", "PartialEq"]);
    let field = enums_value(&types, "First", EnumsValue::Int(1)).clone();
    assert_eq!(enums_value(&types, "First", EnumsValue::Int(1)), field);
    assert_ne!(enums_value(&types, "First", EnumsValue::Int(2)), field);

    let field = enums_value(&types, "SecondField", EnumsValue::Text(Some("test".to_string())))
        .clone();
    assert_eq!(
        enums_value(&types, "SecondField", EnumsValue::Text(Some("test".to_string()))),
        field
    );
    assert_ne!(
        enums_value(&types, "SecondField", EnumsValue::Text(Some("".to_string()))),
        field
    );

    let names = enums_field_name(&enums_test_schema()).generated_enum;
    assert_eq!(names.derives.source, DeriveSource::Override);
    assert_eq!(names.derives.targets, vec!["Debug", "Clone", "PartialEq"]);
    let name = names.variant("First").unwrap();
    assert_eq!(names.variant("First").unwrap(), name);
    assert_ne!(names.variant("SecondField").unwrap(), name);

    let name = names.variant("SecondField").unwrap();
    assert_eq!(names.variant("SecondField").unwrap(), name);
    assert_ne!(names.variant("First").unwrap(), name);
}

#[test]
fn into_field_enums() {
    let decls = enums_field_type(&enums_test_schema());
    let test = vec![
        EnumsValue::Int(1),
        EnumsValue::Text(Some("test".to_string())),
        EnumsValue::Bool(true),
        EnumsValue::Bool(true),
    ];
    let fields = decls.converter.into_field_type_array(test);
    assert_eq!(decls.converter.target.len, 2);
    assert_eq!(
        fields,
        vec![
            enums_value(&decls.generated_enum, "First", EnumsValue::Int(1)),
            enums_value(
                &decls.generated_enum,
                "SecondField",
                EnumsValue::Text(Some("test".to_string()))
            ),
        ]
    );

    let test = vec![
        EnumsValue::Int(1),
        EnumsValue::Text(Some("test".to_string())),
        EnumsValue::Bool(true),
        EnumsValue::Bool(true),
    ];
    let decls = enums_field_name(&enums_test_schema());
    let names = decls.converter.from_reference(&test);
    assert_eq!(decls.converter.target.len, 2);
    assert_eq!(
        names,
        vec![
            decls.generated_enum.variant("First").unwrap(),
            decls.generated_enum.variant("SecondField").unwrap(),
        ]
    );
}

#[test]
fn field_enums_field_name_str() {
    let names = enums_field_name(&enums_test_schema()).generated_enum;
    let first = names.variant("First").unwrap();
    let second_field = names.variant("SecondField").unwrap();
    assert_eq!(names.name(first), "first");
    assert_eq!(names.name(second_field), "second_field");

    assert_eq!(Some(first), names.by_name("first"));
    assert_eq!(Some(second_field), names.by_name("second_field"));
    assert_eq!(None, names.by_name("third"));
}
