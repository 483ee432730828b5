use open_feature::DummyStruct;
use open_feature::EvaluationContext;
use open_feature::FeatureProvider;
use open_feature::FixedValueProvider;
use open_feature::ProviderStatus;
use open_feature::StringMap;
use open_feature::EvaluationErrorCode;
use open_feature::FlagMetadata;
use open_feature::FlagMetadataValue;
use open_feature::EvaluationReason;
use open_feature::FloatBits;
use open_feature::NoOpProvider;
use open_feature::StructValue;
use open_feature::Type;
use open_feature::Value;

fn float_value(value: f64) -> Value {
    Value::Float(FloatBits { bits: value.to_bits() })
}

#[test]
fn build_value() {
    let alex = StructValue::default()
        .with_field("is_male", Value::Bool(false))
        .with_field("id", Value::Int(100))
        .with_field("grade", float_value(97.5))
        .with_field("name", Value::String("Alex".to_string()))
        .with_field(
            "friends",
            Value::Array(vec![
                Value::String("Bob".to_string()),
                Value::String("Carl".to_string()),
            ]),
        )
        .with_field(
            "other",
            Value::Struct(
                StructValue::default()
                    .with_field("description", Value::String("A student".to_string())),
            ),
        );

    let is_male = alex.get("is_male").unwrap();
    assert!(is_male.is_bool());
    assert_eq!(false, is_male.as_bool().unwrap());

    let id = alex.get("id").unwrap();
    assert!(id.is_i64());
    assert_eq!(100, id.as_i64().unwrap());

    let grade = alex.get("grade").unwrap();
    assert!(grade.is_f64());
    assert_eq!(97.5, f64::from_bits(grade.as_f64().unwrap().bits));

    let name = alex.get("name").unwrap();
    assert!(name.is_str());
    assert_eq!("Alex", alex.get("name").unwrap().as_str().unwrap());

    let friends = alex.get("friends").unwrap();
    assert!(friends.is_array());
    assert_eq!(
        vec![
            Value::String("Bob".to_string()),
            Value::String("Carl".to_string())
        ],
        *friends.as_array().unwrap()
    );

    let other = alex.get("other").unwrap();
    assert!(other.is_struct());
    assert_eq!(
        "A student",
        other
            .as_struct()
            .unwrap()
            .get("description")
            .unwrap()
            .as_str()
            .unwrap()
    );
}

#[test]
fn fixed_value_provider_from_dummy_struct() {
    let value = DummyStruct::builder().id(100).name("Alex").build();

    let result: StructValue = value.into();

    let expected = StructValue::default()
        .with_field("id", Value::Int(100))
        .with_field("name", Value::String("Alex".to_string()));

    assert_eq!(expected, result);
}

#[test]
fn no_op_provider_from_dummy_struct() {
    let value = DummyStruct::builder().id(100).name("Alex").build();

    let result: StructValue = value.into();

    let expected = StructValue::default()
        .with_field("id", Value::Int(100))
        .with_field("name", Value::String("Alex".to_string()));

    assert_eq!(expected, result);
}

#[test]
fn metadata_name() {
    let provider = NoOpProvider::default();

    assert_eq!(provider.metadata.name, "No Operation - Default");
}

#[test]
fn type_names() {
    assert_eq!(Type::Bool.to_string(), "bool");
    assert_eq!(Type::Int.to_string(), "int");
    assert_eq!(Type::Float.to_string(), "float");
    assert_eq!(Type::String.to_string(), "string");
    assert_eq!(Type::Array.to_string(), "array");
    assert_eq!(Type::Struct.to_string(), "struct");
}

#[test]
fn error_code_names() {
    assert_eq!(EvaluationErrorCode::ProviderNotReady.to_string(), "PROVIDER_NOT_READY");
    assert_eq!(EvaluationErrorCode::FlagNotFound.to_string(), "FLAG_NOT_FOUND");
    assert_eq!(EvaluationErrorCode::ParseError.to_string(), "PARSE_ERROR");
    assert_eq!(EvaluationErrorCode::TypeMismatch.to_string(), "TYPE_MISMATCH");
    assert_eq!(
        EvaluationErrorCode::TargetingKeyMissing.to_string(),
        "TARGETING_KEY_MISSING"
    );
    assert_eq!(EvaluationErrorCode::InvalidContext.to_string(), "INVALID_CONTEXT");
    assert_eq!(
        EvaluationErrorCode::General("custom".to_string()).to_string(),
        "custom"
    );
}

#[test]
fn reason_names() {
    assert_eq!(EvaluationReason::Static.to_string(), "STATIC");
    assert_eq!(EvaluationReason::Default.to_string(), "DEFAULT");
    assert_eq!(EvaluationReason::TargetingMatch.to_string(), "TARGETING_MATCH");
    assert_eq!(EvaluationReason::Split.to_string(), "SPLIT");
    assert_eq!(EvaluationReason::Cached.to_string(), "CACHED");
    assert_eq!(EvaluationReason::Disabled.to_string(), "DISABLED");
    assert_eq!(EvaluationReason::Unknown.to_string(), "UNKNOWN");
    assert_eq!(EvaluationReason::Error.to_string(), "ERROR");
    assert_eq!(EvaluationReason::Other("BESPOKE".to_string()).to_string(), "BESPOKE");
}

#[test]
fn value_accessors_reject_other_types() {
    let value = Value::Int(3);
    assert!(value.as_bool().is_none());
    assert!(value.as_str().is_none());
    assert!(value.as_f64().is_none());
    assert!(value.as_array().is_none());
    assert!(value.as_struct().is_none());
    assert_eq!(value.get_type(), Type::Int);
}

#[test]
fn struct_value_replaces_present_key() {
    let sv = StructValue::new()
        .with_field("k", Value::Int(1))
        .with_field("k", Value::Int(2));

    assert_eq!(sv.get("k"), Some(&Value::Int(2)));
    assert_eq!(sv.len(), 1);
}

#[test]
fn fixed_value_provider_resolves_configured_values() {

    let provider = FixedValueProvider {
        bool_value: true,
        int_value: 42,
        string_value: "hello".to_string(),
        ..FixedValueProvider::default()
    };
    let context = EvaluationContext::default();

    assert_eq!(provider.resolve_bool_value("any", &context).unwrap().value, true);
    assert_eq!(provider.resolve_int_value("any", &context).unwrap().value, 42);
    assert_eq!(
        provider.resolve_string_value("any", &context).unwrap().value,
        "hello"
    );
    let resolution = provider.resolve_int_value("any", &context).unwrap();
    assert_eq!(resolution.reason, None);
    assert_eq!(resolution.variant, None);
    assert!(!resolution.is_error());
}

#[test]
fn provider_status_ready() {

    let provider = NoOpProvider::default();

    assert_eq!(provider.status(), ProviderStatus::Ready);
}

#[test]
fn string_map_insert_get_remove() {

    let mut map: StringMap<i64> = StringMap::new();
    assert!(map.is_empty());
    assert_eq!(map.get("a"), None);

    map.insert("a".to_string(), 1);
    map.insert("b".to_string(), 2);
    assert_eq!(map.len(), 2);
    assert!(map.contains_key("a"));
    assert!(!map.contains_key("c"));
    assert_eq!(map.get("a"), Some(&1));
    assert_eq!(map.get("b"), Some(&2));

    map.insert("a".to_string(), 3);
    assert_eq!(map.len(), 2);
    assert_eq!(map.get("a"), Some(&3));

    assert_eq!(map.remove("a"), Some(3));
    assert_eq!(map.remove("a"), None);
    assert_eq!(map.len(), 1);
}

#[test]
fn resolve_value() {
    let provider = NoOpProvider::builder()
        .bool_value(true)
        .int_value(100)
        .string_value("Hello")
        .struct_value(std::sync::Arc::new(
            StructValue::default().with_field("Key", Value::String("Value".to_string())),
        ))
        .build();

    // Check bool.
    let result = provider
        .resolve_bool_value("key", &EvaluationContext::default())
        .unwrap();

    assert_eq!(result.value, true);
    assert_eq!(result.reason, Some(EvaluationReason::Static));
    assert_eq!(result.variant, Some("Static".to_string()));
    assert_eq!(
        result.flag_metadata,
        Some(FlagMetadata::default().with_value("Type", FlagMetadataValue::String("Bool".to_string())))
    );

    // Check int.
    let result = provider
        .resolve_int_value("key", &EvaluationContext::default())
        .unwrap();

    assert_eq!(result.value, 100);
    assert_eq!(result.reason, Some(EvaluationReason::Static));
    assert_eq!(result.variant, Some("Static".to_string()));
    assert_eq!(
        result.flag_metadata,
        Some(FlagMetadata::default().with_value("Type", FlagMetadataValue::String("Int".to_string())))
    );

    // Check float.
    let result = provider
        .resolve_float_value("key", &EvaluationContext::default())
        .unwrap();

    assert_eq!(f64::from_bits(result.value.bits), 0.0);
    assert_eq!(result.reason, Some(EvaluationReason::Default));
    assert_eq!(result.variant, Some("Default".to_string()));
    assert_eq!(
        result.flag_metadata,
        Some(FlagMetadata::default().with_value("Type", FlagMetadataValue::String("Float".to_string())))
    );

    // Check string.
    let result = provider
        .resolve_string_value("key", &EvaluationContext::default())
        .unwrap();

    assert_eq!(result.value, "Hello");
    assert_eq!(result.reason, Some(EvaluationReason::Static));
    assert_eq!(result.variant, Some("Static".to_string()));
    assert_eq!(
        result.flag_metadata,
        Some(FlagMetadata::default().with_value("Type", FlagMetadataValue::String("String".to_string())))
    );

    // Check struct: no flag metadata is attached for struct resolution.
    let result = provider
        .resolve_struct_value("key", &EvaluationContext::default())
        .unwrap();

    assert_eq!(
        result.value,
        StructValue::default().with_field("Key", Value::String("Value".to_string()))
    );
    assert_eq!(result.reason, Some(EvaluationReason::Static));
    assert_eq!(result.variant, Some("Static".to_string()));
    assert_eq!(result.flag_metadata, None);
}
