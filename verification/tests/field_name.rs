use field_types::field_name;
use field_types::generated::DeriveSource;
use field_types::schema::{AttributeSpec, FieldSpec, RecordSchema};
use field_types::DeclarationSet;

/// The value of a field of one of the records below.
#[derive(Debug, Clone, PartialEq)]
enum NameValue {
    Int(i32),
    Bool(bool),
    Text(Option<String>),
}

// struct Test {
//     first: i32,
//     second_field: Option<String>,
//     #[field_name(skip)]
//     third: bool,
//     #[field_name = "skip"]
//     fourth: bool,
// }
fn name_test_schema() -> RecordSchema {
    RecordSchema::structure(
        "Test",
        vec![
            FieldSpec::named("first", "i32"),
            FieldSpec::named("second_field", "Option<String>"),
            FieldSpec::named("third", "bool")
                .with_attribute(AttributeSpec::list("field_name", &["skip"])),
            FieldSpec::named("fourth", "bool")
                .with_attribute(AttributeSpec::name_value("field_name", "\"skip\"")),
        ],
    )
}

// #[field_types_derive(Debug, Clone, PartialEq)]
// struct TestTypesDerive {
//     first: i32,
//     second: bool,
// }
fn name_test_types_derive_schema() -> RecordSchema {
    RecordSchema::structure(
        "TestTypesDerive",
        vec![FieldSpec::named("first", "i32"), FieldSpec::named("second", "bool")],
    )
    .with_attribute(AttributeSpec::list("field_types_derive", &["Debug", "Clone", "PartialEq"]))
}

// #[field_name_derive(Debug, Clone, PartialEq)]
// struct TestNameDerive {
//     first: i32,
//     second: bool,
// }
fn name_test_name_derive_schema() -> RecordSchema {
    RecordSchema::structure(
        "TestNameDerive",
        vec![FieldSpec::named("first", "i32"), FieldSpec::named("second", "bool")],
    )
    .with_attribute(AttributeSpec::list("field_name_derive", &["Debug", "Clone", "PartialEq"]))
}

fn name_tags(decls: &DeclarationSet) -> Vec<String> {
    decls.generated_enum.variants.iter().map(|v| v.tag.clone()).collect()
}

#[test]
fn full_field_name_variants() {
    let test = field_name(&name_test_schema()).unwrap();
    assert_eq!(test.generated_enum.name, "TestFieldName");
    assert_eq!(name_tags(&test), vec!["First", "SecondField"]);
    assert!(test.generated_enum.variants.iter().all(|v| v.payload.is_none()));

    let types_derive = field_name(&name_test_types_derive_schema()).unwrap();
    assert_eq!(types_derive.generated_enum.name, "TestTypesDeriveFieldName");
    assert_eq!(name_tags(&types_derive), vec!["First", "Second"]);

    let name_derive = field_name(&name_test_name_derive_schema()).unwrap();
    assert_eq!(name_derive.generated_enum.name, "TestNameDeriveFieldName");
    assert_eq!(name_tags(&name_derive), vec!["First", "Second"]);
}

#[test]
fn derive_field_name() {
    let test = field_name(&name_test_schema()).unwrap().generated_enum;
    assert_eq!(test.derives.source, DeriveSource::Default);
    assert_eq!(test.derives.targets, vec!["Debug", "PartialEq", "Eq", "Clone", "Copy"]);
    let name = test.variant("First").unwrap();
    assert_eq!(test.variant("First").unwrap(), name);
    assert_ne!(test.variant("SecondField").unwrap(), name);

    let types_derive = field_name(&name_test_types_derive_schema()).unwrap().generated_enum;
    assert_eq!(types_derive.derives.source, DeriveSource::Override);
    assert_eq!(types_derive.derives.targets, vec!["Debug", "Clone", "PartialEq"]);
    let name = types_derive.variant("First").unwrap().clone();
    assert_eq!(types_derive.variant("First").unwrap(), name);
    assert_ne!(types_derive.variant("Second").unwrap(), name);

    let name = types_derive.variant("Second").unwrap().clone();
    assert_eq!(types_derive.variant("Second").unwrap(), name);
    assert_ne!(types_derive.variant("First").unwrap(), name);

    let name_derive = field_name(&name_test_name_derive_schema()).unwrap().generated_enum;
    assert_eq!(name_derive.derives.source, DeriveSource::Override);
    assert_eq!(name_derive.derives.targets, vec!["Debug", "Clone", "PartialEq"]);
}

#[test]
fn into_field_name() {
    let decls = field_name(&name_test_schema()).unwrap();
    let names = &decls.generated_enum;
    let test = vec![
        NameValue::Int(1),
        NameValue::Text(Some("test".to_string())),
        NameValue::Bool(true),
        NameValue::Bool(true),
    ];
    let fields = decls.converter.from_reference(&test);
    assert_eq!(test.len(), 4);
    assert_eq!(decls.converter.target.len, 2);
    assert_eq!(decls.converter.target.element, "TestFieldName");
    assert_eq!(
        fields,
        vec![names.variant("First").unwrap(), names.variant("SecondField").unwrap()]
    );

    let decls = field_name(&name_test_types_derive_schema()).unwrap();
    let names = &decls.generated_enum;
    let test = vec![NameValue::Int(1), NameValue::Bool(true)];
    let fields = decls.converter.from_reference(&test);
    assert_eq!(fields, decls.converter.as_field_name_array());
    assert_eq!(fields.len(), 2);
    assert_eq!(decls.converter.target.len, 2);
    assert_eq!(names.variant("First").unwrap(), fields[0]);
    assert_eq!(names.variant("Second").unwrap(), fields[1]);
}

#[test]
fn field_name_field_name_str() {
    let names = field_name(&name_test_schema()).unwrap().generated_enum;
    let first = names.variant("First").unwrap();
    let second_field = names.variant("SecondField").unwrap();
    assert_eq!(names.name(first), "first");
    assert_eq!(names.name(second_field), "second_field");

    assert_eq!(Some(first), names.by_name("first"));
    assert_eq!(Some(second_field), names.by_name("second_field"));
    assert_eq!(None, names.by_name("third"));
}
