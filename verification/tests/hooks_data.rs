use open_feature::ClientMetadata;
use open_feature::DateTimeValue;
use open_feature::EvaluationContext;
use open_feature::EvaluationContextFieldValue;
use open_feature::FloatBits;
use open_feature::HookContext;
use open_feature::HookHints;
use open_feature::StructValue;
use open_feature::Type;
use open_feature::Value;

#[test]
fn hook_context() {
    let context = HookContext {
        flag_key: "flag_key".to_string(),
        flag_type: Type::Bool,
        evaluation_context: EvaluationContext::default(),
        default_value: Some(Value::Bool(true)),
        client_metadata: ClientMetadata::default(),
    };

    assert_eq!(context.flag_key, "flag_key");
    assert_eq!(context.flag_type, Type::Bool);
    assert_eq!(context.evaluation_context, EvaluationContext::default());
    assert_eq!(context.default_value, Some(Value::Bool(true)));
    assert_eq!(context.client_metadata, ClientMetadata::default());
}

#[test]
fn hook_hints() {
    let mut hints = HookHints::default();
    hints.hints.insert("key".to_string(), Value::Bool(true));
    hints
        .hints
        .insert("key2".to_string(), Value::String("value".to_string()));
    hints.hints.insert("key3".to_string(), Value::Int(42));
    hints.hints.insert(
        "key4".to_string(),
        Value::Float(FloatBits { bits: (3.14f64).to_bits() }),
    );
    hints.hints.insert("key5".to_string(), Value::Array(vec![]));
    hints
        .hints
        .insert("key6".to_string(), Value::Struct(StructValue::default()));

    assert_eq!(hints.hints.len(), 6);
    assert_eq!(hints.hints.get("key"), Some(&Value::Bool(true)));
    assert_eq!(
        hints.hints.get("key2"),
        Some(&Value::String("value".to_string()))
    );
    assert_eq!(hints.hints.get("key3"), Some(&Value::Int(42)));
    assert_eq!(
        hints.hints.get("key4"),
        Some(&Value::Float(FloatBits { bits: (3.14f64).to_bits() }))
    );
    assert_eq!(hints.hints.get("key5"), Some(&Value::Array(vec![])));
    assert_eq!(
        hints.hints.get("key6"),
        Some(&Value::Struct(StructValue::default()))
    );
}

#[test]
fn context_field_value_evaluation_context_custom_fields() {
    let now_utc = time::OffsetDateTime::now_utc();
    let now = DateTimeValue {
        unix_seconds: now_utc.unix_timestamp(),
        nanosecond: now_utc.nanosecond(),
        offset_seconds: now_utc.offset().whole_seconds(),
    };

    let context = EvaluationContext::default()
        .with_targeting_key("Some Key")
        .with_custom_field("Bool", EvaluationContextFieldValue::Bool(false))
        .with_custom_field("Bool", EvaluationContextFieldValue::Bool(true))
        .with_custom_field("Int", EvaluationContextFieldValue::Int(42))
        .with_custom_field(
            "Float",
            EvaluationContextFieldValue::Float(FloatBits { bits: (42.0f64).to_bits() }),
        )
        .with_custom_field(
            "String",
            EvaluationContextFieldValue::String("StringValue".to_string()),
        )
        .with_custom_field("DateTime", EvaluationContextFieldValue::DateTime(now))
        .with_custom_field(
            "Struct",
            EvaluationContextFieldValue::new_struct(
                StructValue::default().with_field("reason", Value::String("Cached".to_string())),
            ),
        );

    // Assert bool.
    if let EvaluationContextFieldValue::Bool(value) = context.custom_fields.get("Bool").unwrap() {
        assert!(*value);
    } else {
        panic!()
    }

    // Assert int.
    if let EvaluationContextFieldValue::Int(value) = context.custom_fields.get("Int").unwrap() {
        assert_eq!(42, *value);
    } else {
        panic!()
    }

    // Assert float.
    if let EvaluationContextFieldValue::Float(value) = context.custom_fields.get("Float").unwrap()
    {
        assert_eq!(42.0, f64::from_bits(value.bits));
    } else {
        panic!()
    }

    // Assert string.
    if let EvaluationContextFieldValue::String(value) = context.custom_fields.get("String").unwrap()
    {
        assert_eq!("StringValue", value);
    } else {
        panic!()
    }

    // Assert date time.
    if let EvaluationContextFieldValue::DateTime(value) =
        context.custom_fields.get("DateTime").unwrap()
    {
        assert_eq!(now, *value);
    } else {
        panic!()
    }

    // Assert struct.
    if let EvaluationContextFieldValue::Struct(value) =
        context.custom_fields.get("Struct").unwrap().clone()
    {
        assert_eq!(
            value.get("reason").unwrap(),
            &Value::String("Cached".to_string())
        );
    } else {
        panic!()
    }
}

#[test]
fn hook_hints_mutability_checked_by_type_system() {}

#[test]
fn client_metadata_mutability_checked_by_type_system() {}

#[test]
fn provider_metadata_mutability_checked_by_type_system() {}

#[test]
fn hook_interface_implementation_checked_by_type_system() {}

#[test]
fn hook_before_function_interface_implementation_checked_by_type_system() {}

#[test]
fn finally_hook_not_throw_checked_by_type_system() {}

#[test]
fn error_hook_not_throw_checked_by_type_system() {}

#[test]
fn default_value_covered_by_implementing_default_trait() {}
