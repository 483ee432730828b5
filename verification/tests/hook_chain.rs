use open_feature::EvaluationContext;
use open_feature::EvaluationContextFieldValue;
use open_feature::EvaluationDetails;
use open_feature::EvaluationError;
use open_feature::EvaluationErrorCode;
use open_feature::EvaluationOptions;
use open_feature::EvaluationResult;
use open_feature::FeatureProvider;
use open_feature::Hook;
use open_feature::HookContext;
use open_feature::HookHints;
use open_feature::HookWrapper;
use open_feature::NoOpProvider;
use open_feature::OpenFeature;
use open_feature::ProviderMetadata;
use open_feature::ProviderStatus;
use open_feature::ResolutionDetails;
use open_feature::StructValue;
use open_feature::Value;
use std::sync::Arc;
use std::sync::Mutex;

/// A hook that appends every stage call to a shared log, and can be told to
/// fail its before or after stage.
struct RecordingHook {
    name: &'static str,
    log: Arc<Mutex<Vec<String>>>,
    fail_before: bool,
    fail_after: bool,
    delta: Option<EvaluationContext>,
}

impl RecordingHook {
    fn new(name: &'static str, log: &Arc<Mutex<Vec<String>>>) -> Self {
        RecordingHook {
            name,
            log: Arc::clone(log),
            fail_before: false,
            fail_after: false,
            delta: None,
        }
    }

    fn record(&self, stage: &str) {
        self.log.lock().unwrap().push(format!("{}:{}", self.name, stage));
    }
}

fn general_error() -> EvaluationError {
    EvaluationError {
        code: EvaluationErrorCode::General("error".to_string()),
        message: None,
    }
}

impl Hook for RecordingHook {
    fn before(
        &self,
        _context: &HookContext,
        _hints: Option<&HookHints>,
    ) -> Result<Option<EvaluationContext>, EvaluationError> {
        self.record("before");
        if self.fail_before {
            Err(general_error())
        } else {
            Ok(self.delta.clone())
        }
    }

    fn after(
        &self,
        _context: &HookContext,
        _details: &EvaluationDetails<Value>,
        _hints: Option<&HookHints>,
    ) -> Result<(), EvaluationError> {
        self.record("after");
        if self.fail_after {
            Err(general_error())
        } else {
            Ok(())
        }
    }

    fn error(&self, _context: &HookContext, _error: &EvaluationError, _hints: Option<&HookHints>) {
        self.record("error");
    }

    fn finally(&self, _context: &HookContext, _hints: Option<&HookHints>) {
        self.record("finally");
    }
}

/// A provider that counts its resolve calls and records the context field
/// named `key` it observes.
struct CountingProvider {
    metadata: ProviderMetadata,
    hooks: Vec<HookWrapper>,
    resolve_calls: Arc<Mutex<u32>>,
    observed_key: Arc<Mutex<Option<String>>>,
}

impl CountingProvider {
    fn new(resolve_calls: &Arc<Mutex<u32>>, observed_key: &Arc<Mutex<Option<String>>>) -> Self {
        CountingProvider {
            metadata: ProviderMetadata::new("Counting"),
            hooks: Vec::new(),
            resolve_calls: Arc::clone(resolve_calls),
            observed_key: Arc::clone(observed_key),
        }
    }

    fn note(&self, context: &EvaluationContext) {
        *self.resolve_calls.lock().unwrap() += 1;
        let observed = match context.custom_fields.get("key") {
            Some(EvaluationContextFieldValue::String(v)) => Some(v.clone()),
            _ => None,
        };
        *self.observed_key.lock().unwrap() = observed;
    }
}

impl FeatureProvider for CountingProvider {
    fn initialize(&mut self, _context: &EvaluationContext) {}

    fn status(&self) -> ProviderStatus {
        ProviderStatus::Ready
    }

    fn metadata(&self) -> &ProviderMetadata {
        &self.metadata
    }

    fn hooks(&self) -> &[HookWrapper] {
        self.hooks.as_slice()
    }

    fn shutdown(&self) {}

    fn resolve_bool_value(
        &self,
        _flag_key: &str,
        context: &EvaluationContext,
    ) -> EvaluationResult<ResolutionDetails<bool>> {
        self.note(context);
        Ok(ResolutionDetails::new(true))
    }

    fn resolve_int_value(
        &self,
        _flag_key: &str,
        context: &EvaluationContext,
    ) -> EvaluationResult<ResolutionDetails<i64>> {
        self.note(context);
        Ok(ResolutionDetails::new(7))
    }

    fn resolve_float_value(
        &self,
        _flag_key: &str,
        context: &EvaluationContext,
    ) -> EvaluationResult<ResolutionDetails<open_feature::FloatBits>> {
        self.note(context);
        Ok(ResolutionDetails::new(open_feature::FloatBits { bits: 0 }))
    }

    fn resolve_string_value(
        &self,
        _flag_key: &str,
        context: &EvaluationContext,
    ) -> EvaluationResult<ResolutionDetails<String>> {
        self.note(context);
        Ok(ResolutionDetails::new(String::new()))
    }

    fn resolve_struct_value(
        &self,
        _flag_key: &str,
        context: &EvaluationContext,
    ) -> EvaluationResult<ResolutionDetails<StructValue>> {
        self.note(context);
        Ok(ResolutionDetails::new(StructValue::new()))
    }
}

#[test]
fn hook_stage_order_scenario() {
    let log = Arc::new(Mutex::new(Vec::new()));
    let resolve_calls = Arc::new(Mutex::new(0));
    let observed_key = Arc::new(Mutex::new(None));

    let mut provider = CountingProvider::new(&resolve_calls, &observed_key);
    provider.hooks.push(HookWrapper::new(RecordingHook::new("provider", &log)));

    let mut api = OpenFeature::new();
    api.set_provider(provider);
    api.add_hook(RecordingHook::new("api", &log));

    let client = api.create_client().with_hook(RecordingHook::new("client", &log));
    let options = EvaluationOptions::default().with_hook(RecordingHook::new("invocation", &log));

    let result = client.get_bool_value("flag", None, Some(&options));

    assert_eq!(result, Ok(true));
    assert_eq!(*resolve_calls.lock().unwrap(), 1);
    let expected = vec![
        "api:before",
        "client:before",
        "invocation:before",
        "provider:before",
        "provider:after",
        "invocation:after",
        "client:after",
        "api:after",
        "provider:finally",
        "invocation:finally",
        "client:finally",
        "api:finally",
    ];
    assert_eq!(*log.lock().unwrap(), expected);
}

#[test]
fn before_failure_runs_error_and_finally_only() {
    let log = Arc::new(Mutex::new(Vec::new()));
    let resolve_calls = Arc::new(Mutex::new(0));
    let observed_key = Arc::new(Mutex::new(None));

    let mut provider = CountingProvider::new(&resolve_calls, &observed_key);
    provider.hooks.push(HookWrapper::new(RecordingHook::new("provider", &log)));

    let mut api = OpenFeature::new();
    api.set_provider(provider);
    api.add_hook(RecordingHook::new("api", &log));

    let mut failing = RecordingHook::new("client", &log);
    failing.fail_before = true;
    let client = api.create_client().with_hook(failing);
    let options = EvaluationOptions::default().with_hook(RecordingHook::new("invocation", &log));

    let result = client.get_bool_value("flag", None, Some(&options));

    assert_eq!(result, Err(general_error()));
    // The provider's resolve function is never invoked.
    assert_eq!(*resolve_calls.lock().unwrap(), 0);
    // No before stage after the failing one; the error stage and the finally
    // stage each run once per registered hook, in reverse order.
    let expected = vec![
        "api:before",
        "client:before",
        "provider:error",
        "invocation:error",
        "client:error",
        "api:error",
        "provider:finally",
        "invocation:finally",
        "client:finally",
        "api:finally",
    ];
    assert_eq!(*log.lock().unwrap(), expected);
}

#[test]
fn after_failure_routes_remaining_hooks_to_error_stage() {
    let log = Arc::new(Mutex::new(Vec::new()));
    let resolve_calls = Arc::new(Mutex::new(0));
    let observed_key = Arc::new(Mutex::new(None));

    let provider = CountingProvider::new(&resolve_calls, &observed_key);

    let mut api = OpenFeature::new();
    api.set_provider(provider);
    api.add_hook(RecordingHook::new("api", &log));

    let mut failing = RecordingHook::new("client", &log);
    failing.fail_after = true;
    let client = api.create_client().with_hook(failing);

    let result = client.get_bool_value("flag", None, None);

    assert_eq!(result, Err(general_error()));
    assert_eq!(*resolve_calls.lock().unwrap(), 1);
    // The failing hook's after stage ran; the remaining (not yet run) hook
    // goes through the error stage instead; finally runs in full.
    let expected = vec![
        "api:before",
        "client:before",
        "client:after",
        "api:error",
        "client:finally",
        "api:finally",
    ];
    assert_eq!(*log.lock().unwrap(), expected);
}

#[test]
fn before_hook_delta_reaches_provider() {
    let log = Arc::new(Mutex::new(Vec::new()));
    let resolve_calls = Arc::new(Mutex::new(0));
    let observed_key = Arc::new(Mutex::new(None));

    let provider = CountingProvider::new(&resolve_calls, &observed_key);

    let mut api = OpenFeature::new();
    api.set_evaluation_context(EvaluationContext::default().with_custom_field(
        "key",
        EvaluationContextFieldValue::String("global value".to_string()),
    ));
    api.set_provider(provider);

    let mut hook = RecordingHook::new("client", &log);
    hook.delta = Some(EvaluationContext::default().with_custom_field(
        "key",
        EvaluationContextFieldValue::String("hook value".to_string()),
    ));
    let client = api.create_client().with_hook(hook);

    let result = client.get_int_value("flag", None, None);

    assert_eq!(result, Ok(7));
    assert_eq!(*observed_key.lock().unwrap(), Some("hook value".to_string()));
}

#[test]
fn resolve_error_propagates_to_caller() {
    struct FailingProvider {
        metadata: ProviderMetadata,
        hooks: Vec<HookWrapper>,
    }

    impl FeatureProvider for FailingProvider {
        fn initialize(&mut self, _context: &EvaluationContext) {}

        fn status(&self) -> ProviderStatus {
            ProviderStatus::Ready
        }

        fn metadata(&self) -> &ProviderMetadata {
            &self.metadata
        }

        fn hooks(&self) -> &[HookWrapper] {
            self.hooks.as_slice()
        }

        fn shutdown(&self) {}

        fn resolve_bool_value(
            &self,
            _flag_key: &str,
            _context: &EvaluationContext,
        ) -> EvaluationResult<ResolutionDetails<bool>> {
            Err(EvaluationError {
                code: EvaluationErrorCode::FlagNotFound,
                message: Some("no such flag".to_string()),
            })
        }

        fn resolve_int_value(
            &self,
            _flag_key: &str,
            _context: &EvaluationContext,
        ) -> EvaluationResult<ResolutionDetails<i64>> {
            Err(EvaluationError { code: EvaluationErrorCode::FlagNotFound, message: None })
        }

        fn resolve_float_value(
            &self,
            _flag_key: &str,
            _context: &EvaluationContext,
        ) -> EvaluationResult<ResolutionDetails<open_feature::FloatBits>> {
            Err(EvaluationError { code: EvaluationErrorCode::FlagNotFound, message: None })
        }

        fn resolve_string_value(
            &self,
            _flag_key: &str,
            _context: &EvaluationContext,
        ) -> EvaluationResult<ResolutionDetails<String>> {
            Err(EvaluationError { code: EvaluationErrorCode::FlagNotFound, message: None })
        }

        fn resolve_struct_value(
            &self,
            _flag_key: &str,
            _context: &EvaluationContext,
        ) -> EvaluationResult<ResolutionDetails<StructValue>> {
            Err(EvaluationError { code: EvaluationErrorCode::FlagNotFound, message: None })
        }
    }

    let mut api = OpenFeature::new();
    api.set_provider(FailingProvider {
        metadata: ProviderMetadata::new("Failing"),
        hooks: Vec::new(),
    });

    let client = api.create_client();
    let result = client.get_bool_value("missing", None, None);

    assert_eq!(
        result,
        Err(EvaluationError {
            code: EvaluationErrorCode::FlagNotFound,
            message: Some("no such flag".to_string()),
        })
    );
}

#[test]
fn default_provider_returns_fixed_int() {
    let mut api = OpenFeature::new();
    api.set_provider(NoOpProvider::builder().int_value(200).build());

    let client = api.create_client();

    assert_eq!(client.get_int_value("x", None, None), Ok(200));
}

#[test]
fn unknown_name_falls_back_to_default_provider() {
    let mut api = OpenFeature::new();
    api.set_provider(NoOpProvider::builder().int_value(100).build());

    let client = api.create_named_client("n");

    assert_eq!(client.get_int_value("flag", None, None), Ok(100));
}

#[test]
fn with_logging_hook_leaves_results_unchanged() {
    let mut api = OpenFeature::new();
    api.set_provider(NoOpProvider::builder().int_value(5).build());

    let client = api.create_client().with_logging_hook();

    assert_eq!(client.get_int_value("flag", None, None), Ok(5));
}
