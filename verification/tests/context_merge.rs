use open_feature::observed_context;
use open_feature::EvaluationContext;
use open_feature::EvaluationContextFieldValue;

fn s(text: &str) -> EvaluationContextFieldValue {
    EvaluationContextFieldValue::String(text.to_string())
}

#[test]
fn merge_missig_given_empty() {
    let mut context = EvaluationContext::builder()
        .targeting_key("Targeting Key")
        .build()
        .with_custom_field("Some", s("Value"));

    let expected = context.clone();

    context.merge_missing(&EvaluationContext::default());

    assert_eq!(context, expected);
}

#[test]
fn merge_missing_given_targeting_key() {
    let mut context = EvaluationContext::builder().targeting_key("Targeting Key").build();

    let expected = context.clone();

    context.merge_missing(&EvaluationContext::builder().targeting_key("Another Key").build());

    assert_eq!(context, expected);
}

#[test]
fn merge_missing_given_custom_fields() {
    let mut context = EvaluationContext::builder()
        .targeting_key("Targeting Key")
        .build()
        .with_custom_field("Key", s("Value"));

    context.merge_missing(
        &EvaluationContext::default()
            .with_custom_field("Key", s("Another Value"))
            .with_custom_field("Another Key", s("Value")),
    );

    assert_eq!(
        context,
        EvaluationContext::builder()
            .targeting_key("Targeting Key")
            .build()
            .with_custom_field("Key", s("Value"))
            .with_custom_field("Another Key", s("Value"))
    )
}

#[test]
fn merge_missing_given_full() {
    let mut context = EvaluationContext::default();

    let other = EvaluationContext::builder()
        .targeting_key("Targeting Key")
        .build()
        .with_custom_field("Key", s("Value"));

    context.merge_missing(&other);

    assert_eq!(context, other);
}

fn layer(value: Option<&str>) -> EvaluationContext {
    match value {
        Some(v) => EvaluationContext::default().with_custom_field("key", s(v)),
        None => EvaluationContext::default(),
    }
}

fn observed_key_value(
    hook: Option<&str>,
    invocation: Option<&str>,
    client: Option<&str>,
    global: Option<&str>,
) -> Option<String> {
    let invocation_layer = invocation.map(layer_some);
    let observed = observed_context(
        hook.map(layer_some),
        invocation_layer.as_ref(),
        &layer(client),
        &layer(global),
    );
    match observed.custom_fields.get("key") {
        Some(EvaluationContextFieldValue::String(v)) => Some(v.clone()),
        _ => None,
    }
}

fn layer_some(value: &str) -> EvaluationContext {
    layer(Some(value))
}

#[test]
fn context_precedence_end_to_end() {
    let all = observed_key_value(Some("H"), Some("I"), Some("C"), Some("G"));
    assert_eq!(all, Some("H".to_string()));

    let without_hook = observed_key_value(None, Some("I"), Some("C"), Some("G"));
    assert_eq!(without_hook, Some("I".to_string()));

    let without_invocation = observed_key_value(None, None, Some("C"), Some("G"));
    assert_eq!(without_invocation, Some("C".to_string()));

    let only_global = observed_key_value(None, None, None, Some("G"));
    assert_eq!(only_global, Some("G".to_string()));

    let nothing = observed_key_value(None, None, None, None);
    assert_eq!(nothing, None);
}

#[test]
fn merge_missing_adopts_targeting_key_when_absent() {
    let mut context = EvaluationContext::default();

    context.merge_missing(&EvaluationContext::builder().targeting_key("Adopted").build());

    assert_eq!(context.targeting_key, Some("Adopted".to_string()));
}
