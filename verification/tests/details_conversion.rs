use open_feature::EvaluationReason;
use open_feature::FlagMetadata;
use open_feature::FlagMetadataValue;
use open_feature::LoggingHook;
use open_feature::ClientMetadata;
use open_feature::EvaluationContext;
use open_feature::HookContext;
use open_feature::ResolutionDetails;
use open_feature::Type;

#[test]
fn resolution_without_metadata_converts_to_empty_record() {
    let resolution: ResolutionDetails<i64> = ResolutionDetails::new(123);

    let details = resolution.into_evaluation_details("key");

    assert_eq!(details.flag_key, "key");
    assert_eq!(details.value, 123);
    assert_eq!(details.reason, None);
    assert_eq!(details.variant, None);
    // The metadata is defaulted to an empty record, never absent.
    assert_eq!(details.flag_metadata, FlagMetadata::default());
}

#[test]
fn resolution_with_metadata_keeps_it() {
    let mut resolution: ResolutionDetails<bool> = ResolutionDetails::new(true);
    resolution.variant = Some("Static".to_string());
    resolution.reason = Some(EvaluationReason::Static);
    resolution.flag_metadata = Some(
        FlagMetadata::default().with_value("Type", FlagMetadataValue::String("Bool".to_string())),
    );

    let details = resolution.into_evaluation_details("flag");

    assert_eq!(details.flag_key, "flag");
    assert_eq!(details.value, true);
    assert_eq!(details.reason, Some(EvaluationReason::Static));
    assert_eq!(details.variant, Some("Static".to_string()));
    assert_eq!(
        details.flag_metadata.values.get("Type"),
        Some(&FlagMetadataValue::String("Bool".to_string()))
    );
}

#[test]
fn logging_hook_message_contents() {
    let context = HookContext {
        flag_key: "flag".to_string(),
        flag_type: Type::Int,
        evaluation_context: EvaluationContext::default(),
        default_value: None,
        client_metadata: ClientMetadata::new("domain-name"),
    };

    let line = LoggingHook::before_message(&context);

    assert_eq!(
        line,
        "Before stage: domain=domain-name, flag_key=flag, flag_type=int"
    );
}
