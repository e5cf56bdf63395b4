use field_types::behavior::FieldValue;
use field_types::generated::{ConverterForm, DeriveSource, GeneratedEnum, SourceShape};
use field_types::schema::{AttributeSpec, FieldSpec, GenericParam, GenericParams, RecordSchema};
use field_types::{field_name, field_type};
use std::fmt;

/// The value of a field of one of the records below.
#[derive(Clone, PartialEq)]
enum TypesValue {
    Int(i32),
    Bool(bool),
    Text(Option<String>),
    TextRef(Option<&'static str>),
    IntRef(&'static i32),
    Owned(String),
}

impl fmt::Debug for TypesValue {
    fn fmt(&self, f: &mut fmt::Formatter) -> fmt::Result {
        match self {
            TypesValue::Int(v) => v.fmt(f),
            TypesValue::Bool(v) => v.fmt(f),
            TypesValue::Text(v) => v.fmt(f),
            TypesValue::TextRef(v) => v.fmt(f),
            TypesValue::IntRef(v) => v.fmt(f),
            TypesValue::Owned(v) => v.fmt(f),
        }
    }
}

// #[field_types_derive(VariantCount, Debug, Clone, PartialEq)]
// struct Test {
//     first: i32,
//     second_field: Option<String>,
//     #[field_types(skip)]
//     third: bool,
//     #[field_name = "skip"]
//     fourth: bool,
// }
fn types_test_schema() -> RecordSchema {
    RecordSchema::structure(
        "Test",
        vec![
            FieldSpec::named("first", "i32"),
            FieldSpec::named("second_field", "Option<String>"),
            FieldSpec::named("third", "bool")
                .with_attribute(AttributeSpec::list("field_types", &["skip"])),
            FieldSpec::named("fourth", "bool")
                .with_attribute(AttributeSpec::name_value("field_name", "\"skip\"")),
        ],
    )
    .with_attribute(AttributeSpec::list(
        "field_types_derive",
        &["VariantCount", "Debug", "Clone", "PartialEq"],
    ))
}

// #[field_types_derive(VariantCount, Debug, Clone, PartialEq)]
// struct TestGen<'a, T: 'a, U>
//     where U: 'a
// {
//     first: T,
//     second_field: Option<&'a U>,
//     #[field_types(skip)]
//     third: &'a T,
//     #[field_name = "skip"]
//     fourth: U,
// }
fn types_test_gen_schema() -> RecordSchema {
    RecordSchema::structure(
        "TestGen",
        vec![
            FieldSpec::named("first", "T"),
            FieldSpec::named("second_field", "Option<&'a U>"),
            FieldSpec::named("third", "&'a T")
                .with_attribute(AttributeSpec::list("field_types", &["skip"])),
            FieldSpec::named("fourth", "U")
                .with_attribute(AttributeSpec::name_value("field_name", "\"skip\"")),
        ],
    )
    .with_generics(GenericParams {
        params: vec![
            GenericParam::new("'a", "'a"),
            GenericParam::new("T", "T: 'a"),
            GenericParam::new("U", "U"),
        ],
        where_clause: Some("U: 'a".to_string()),
    })
    .with_attribute(AttributeSpec::list(
        "field_types_derive",
        &["VariantCount", "Debug", "Clone", "PartialEq"],
    ))
}

/// The variants of an enum as they are declared: `Tag(Type)` or `Tag`.
fn types_declared_variants(e: &GeneratedEnum) -> Vec<String> {
    e.variants
        .iter()
        .map(|v| match &v.payload {
            Some(payload) => format!("{}({})", v.tag, payload),
            None => v.tag.clone(),
        })
        .collect()
}

/// The value `Tag(payload)` of the enum `e`.
fn types_value(e: &GeneratedEnum, tag: &str, payload: TypesValue) -> FieldValue<TypesValue> {
    FieldValue { variant: e.variant(tag).unwrap(), payload }
}

/// What a derived `Debug` prints for a value of the enum `e`.
fn types_debug(e: &GeneratedEnum, value: &FieldValue<TypesValue>) -> String {
    format!("{}({:?})", e.variants[value.variant].tag, value.payload)
}

#[test]
fn full_field_types_variants() {
    let types = field_type(&types_test_schema()).unwrap().generated_enum;
    assert_eq!(types.name, "TestFieldType");
    assert_eq!(
        types_declared_variants(&types),
        vec!["First(i32)", "SecondField(Option<String>)", "Fourth(bool)"]
    );
    let _field = types_value(&types, "First", TypesValue::Int(2));
    let _field = types_value(&types, "Fourth", TypesValue::Bool(false));
    let _field = types_value(&types, "SecondField", TypesValue::Text(None));

    let names = field_name(&types_test_schema()).unwrap().generated_enum;
    assert_eq!(names.name, "TestFieldName");
    assert_eq!(types_declared_variants(&names), vec!["First", "SecondField"]);

    let types = field_type(&types_test_gen_schema()).unwrap().generated_enum;
    assert_eq!(types.name, "TestGenFieldType");
    assert_eq!(
        types_declared_variants(&types),
        vec!["First(T)", "SecondField(Option<&'a U>)", "Fourth(U)"]
    );
    assert_eq!(types.generics, types_test_gen_schema().generics);
    let _field = types_value(&types, "First", TypesValue::Int(2));
    let _field = types_value(&types, "Fourth", TypesValue::Bool(false));
    let _field = types_value(&types, "SecondField", TypesValue::TextRef(None));

    let names = field_name(&types_test_gen_schema()).unwrap().generated_enum;
    assert_eq!(names.name, "TestGenFieldName");
    assert_eq!(types_declared_variants(&names), vec!["First", "SecondField"]);
    assert!(names.generics.is_empty());
    assert_eq!(names.generics.where_clause, None);
}

#[test]
fn derive_field_types() {
    let derives = vec!["VariantCount", "Debug", "Clone", "PartialEq"];

    let types = field_type(&types_test_schema()).unwrap().generated_enum;
    assert_eq!(types.derives.source, DeriveSource::Override);
    assert_eq!(types.derives.targets, derives);
    let field = types_value(&types, "First", TypesValue::Int(1)).clone();
    assert_eq!(types_value(&types, "First", TypesValue::Int(1)), field);
    assert_ne!(types_value(&types, "First", TypesValue::Int(2)), field);

    let gen_types = field_type(&types_test_gen_schema()).unwrap().generated_enum;
    assert_eq!(gen_types.derives.source, DeriveSource::Override);
    assert_eq!(gen_types.derives.targets, derives);
    let first_field = types_value(&gen_types, "First", TypesValue::Int(2));
    let second_field = types_value(&gen_types, "SecondField", TypesValue::TextRef(None));
    assert_ne!(first_field, second_field);
    assert_eq!(first_field, first_field.clone());
    assert_eq!("First(2)", types_debug(&gen_types, &first_field));

    let field = types_value(&types, "SecondField", TypesValue::Text(Some("test".to_string())))
        .clone();
    assert_eq!(
        types_value(&types, "SecondField", TypesValue::Text(Some("test".to_string()))),
        field
    );
    assert_ne!(
        types_value(&types, "SecondField", TypesValue::Text(Some("".to_string()))),
        field
    );

    let names = field_name(&types_test_schema()).unwrap().generated_enum;
    assert_eq!(names.derives.source, DeriveSource::Override);
    assert_eq!(names.derives.targets, derives);
    let name = names.variant("First").unwrap();
    assert_eq!(names.variant("First").unwrap(), name);
    assert_ne!(names.variant("SecondField").unwrap(), name);

    let name = names.variant("SecondField").unwrap();
    assert_eq!(names.variant("SecondField").unwrap(), name);
    assert_ne!(names.variant("First").unwrap(), name);
}

#[test]
fn into_field_types() {
    let decls = field_type(&types_test_schema()).unwrap();
    let test = vec![
        TypesValue::Int(1),
        TypesValue::Text(Some("test".to_string())),
        TypesValue::Bool(true),
        TypesValue::Bool(true),
    ];
    let fields = decls.converter.into_field_type_array(test);
    assert_eq!(fields.len(), decls.generated_enum.variants.len());
    assert_eq!(decls.converter.target.len, decls.generated_enum.variants.len());
    assert_eq!(decls.converter.form, ConverterForm::FromOnArray);
    assert_eq!(
        fields,
        vec![
            types_value(&decls.generated_enum, "First", TypesValue::Int(1)),
            types_value(
                &decls.generated_enum,
                "SecondField",
                TypesValue::Text(Some("test".to_string()))
            ),
            types_value(&decls.generated_enum, "Fourth", TypesValue::Bool(true)),
        ]
    );

    let test = vec![
        TypesValue::Int(1),
        TypesValue::Text(Some("test".to_string())),
        TypesValue::Bool(true),
        TypesValue::Bool(true),
    ];
    let decls = field_name(&types_test_schema()).unwrap();
    let names = decls.converter.from_reference(&test);
    assert_eq!(names.len(), decls.generated_enum.variants.len());
    assert_eq!(decls.converter.target.len, decls.generated_enum.variants.len());
    assert_eq!(
        names,
        vec![
            decls.generated_enum.variant("First").unwrap(),
            decls.generated_enum.variant("SecondField").unwrap(),
        ]
    );

    let message = "test";

    let decls = field_type(&types_test_gen_schema()).unwrap();
    let test = vec![
        TypesValue::Int(1),
        TypesValue::TextRef(Some(message)),
        TypesValue::IntRef(&2),
        TypesValue::Owned(message.to_string()),
    ];
    let fields = decls.converter.into_field_type_array(test);
    assert_eq!(fields.len(), decls.generated_enum.variants.len());
    assert_eq!(decls.converter.form, ConverterForm::IntoOnRecord);
    assert_eq!(decls.converter.generics, types_test_gen_schema().generics);
    assert_eq!(fields.len(), 3);
    assert_eq!(fields[0], types_value(&decls.generated_enum, "First", TypesValue::Int(1)));
    assert_eq!(
        fields[1],
        types_value(&decls.generated_enum, "SecondField", TypesValue::TextRef(Some(message)))
    );
    assert_eq!(fields[2].variant, decls.generated_enum.variant("Fourth").unwrap());

    let test = vec![
        TypesValue::Int(1),
        TypesValue::TextRef(Some(message)),
        TypesValue::IntRef(&2),
        TypesValue::Owned(message.to_string()),
    ];
    let decls = field_name(&types_test_gen_schema()).unwrap();
    let fields = decls.converter.from_reference(&test);
    assert_eq!(fields.len(), decls.generated_enum.variants.len());
    assert_eq!(
        decls.converter.source,
        SourceShape::ByReference { lifetime: "'field_name_from_lifetime__".to_string() }
    );
    assert_eq!(
        fields,
        vec![
            decls.generated_enum.variant("First").unwrap(),
            decls.generated_enum.variant("SecondField").unwrap(),
        ]
    );
}

#[test]
fn field_types_field_name_str() {
    let names = field_name(&types_test_schema()).unwrap().generated_enum;
    let first = names.variant("First").unwrap();
    let second_field = names.variant("SecondField").unwrap();
    assert_eq!(names.name(first), "first");
    assert_eq!(names.name(second_field), "second_field");

    assert_eq!(Some(first), names.by_name("first"));
    assert_eq!(Some(second_field), names.by_name("second_field"));
    assert_eq!(None, names.by_name("third"));
}
