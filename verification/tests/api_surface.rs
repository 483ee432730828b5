use open_feature::Client;
use open_feature::EvaluationContext;
use open_feature::EvaluationResult;
use open_feature::FeatureProvider;
use open_feature::GlobalEvaluationContext;
use open_feature::GlobalHooks;
use open_feature::HookWrapper;
use open_feature::NoOpProvider;
use open_feature::OpenFeature;
use open_feature::ProviderMetadata;
use open_feature::ProviderRegistry;
use open_feature::ProviderStatus;
use open_feature::ResolutionDetails;
use open_feature::StructValue;
use std::sync::Arc;
use std::sync::Mutex;

#[test]
fn get_metadata_name() {
    assert_eq!(create_default_client().metadata().name, "no_op");
}

fn create_default_client() -> Client {
    Client::new(
        "no_op",
        GlobalEvaluationContext::default(),
        GlobalHooks::default(),
        ProviderRegistry::default(),
    )
}

#[test]
fn invoke_shutdown_on_old_provider_checked_by_type_system() {}

#[test]
fn get_client_not_throw_checked_by_type_system() {}

#[test]
fn api_static_context_not_applicable() {}

#[test]
fn client_static_context_not_applicable() {}

#[test]
fn get_value_return_right_type_checked_by_type_system() {}

#[test]
fn evaluation_details_contains_error_checked_by_type_system() {}

#[test]
fn evaluation_return_default_value_covered_by_result() {}

#[test]
fn error_code_message_provided_checked_by_type_system() {}

#[test]
fn resolution_details_generic_checked_by_type_system() {}

#[test]
fn shutdown_covered_by_drop_trait() {}

#[test]
fn provider_metadata_lookup() {
    let mut api = OpenFeature::new();
    api.set_provider(NoOpProvider::default());
    api.set_named_provider("test", NoOpProvider::default());

    assert_eq!(api.provider_metadata().name, "No Operation");
    assert_eq!(api.named_provider_metadata("test").unwrap().name, "No Operation");
    assert!(api.named_provider_metadata("invalid").is_none());
}

#[test]
fn set_provider_invokes_initialize() {
    let provider = NoOpProvider::default();

    assert_eq!(provider.metadata.name, "No Operation - Default");

    let mut api = OpenFeature::new();
    api.set_provider(provider);

    assert_eq!(api.provider_metadata().name, "No Operation");
}

/// A provider that counts how often its shutdown was called.
struct ShutdownCountingProvider {
    metadata: ProviderMetadata,
    hooks: Vec<HookWrapper>,
    shutdowns: Arc<Mutex<u32>>,
}

impl ShutdownCountingProvider {
    fn new(shutdowns: &Arc<Mutex<u32>>) -> Self {
        ShutdownCountingProvider {
            metadata: ProviderMetadata::new("Shutdown Counting"),
            hooks: Vec::new(),
            shutdowns: Arc::clone(shutdowns),
        }
    }
}

impl FeatureProvider for ShutdownCountingProvider {
    fn initialize(&mut self, _context: &EvaluationContext) {}

    fn status(&self) -> ProviderStatus {
        ProviderStatus::Ready
    }

    fn metadata(&self) -> &ProviderMetadata {
        &self.metadata
    }

    fn hooks(&self) -> &[HookWrapper] {
        self.hooks.as_slice()
    }

    fn shutdown(&self) {
        *self.shutdowns.lock().unwrap() += 1;
    }

    fn resolve_bool_value(
        &self,
        _flag_key: &str,
        _context: &EvaluationContext,
    ) -> EvaluationResult<ResolutionDetails<bool>> {
        Ok(ResolutionDetails::new(false))
    }

    fn resolve_int_value(
        &self,
        _flag_key: &str,
        _context: &EvaluationContext,
    ) -> EvaluationResult<ResolutionDetails<i64>> {
        Ok(ResolutionDetails::new(0))
    }

    fn resolve_float_value(
        &self,
        _flag_key: &str,
        _context: &EvaluationContext,
    ) -> EvaluationResult<ResolutionDetails<open_feature::FloatBits>> {
        Ok(ResolutionDetails::new(open_feature::FloatBits { bits: 0 }))
    }

    fn resolve_string_value(
        &self,
        _flag_key: &str,
        _context: &EvaluationContext,
    ) -> EvaluationResult<ResolutionDetails<String>> {
        Ok(ResolutionDetails::new(String::new()))
    }

    fn resolve_struct_value(
        &self,
        _flag_key: &str,
        _context: &EvaluationContext,
    ) -> EvaluationResult<ResolutionDetails<StructValue>> {
        Ok(ResolutionDetails::new(StructValue::new()))
    }
}

#[test]
fn replacement_shuts_superseded_provider_down_once() {
    let first_shutdowns = Arc::new(Mutex::new(0));
    let second_shutdowns = Arc::new(Mutex::new(0));

    let mut api = OpenFeature::new();
    api.set_named_provider("slot", ShutdownCountingProvider::new(&first_shutdowns));

    // Nothing is shut down while the provider is the active one.
    assert_eq!(*first_shutdowns.lock().unwrap(), 0);

    // Replacing it triggers its shutdown, exactly once.
    api.set_named_provider("slot", ShutdownCountingProvider::new(&second_shutdowns));
    assert_eq!(*first_shutdowns.lock().unwrap(), 1);
    assert_eq!(*second_shutdowns.lock().unwrap(), 0);

    // The registry shutdown triggers the remaining provider's, exactly once,
    // and never re-triggers the superseded one's.
    api.shutdown();
    assert_eq!(*first_shutdowns.lock().unwrap(), 1);
    assert_eq!(*second_shutdowns.lock().unwrap(), 1);
}

#[test]
fn new_client_uses_named_provider_when_bound() {
    let mut api = OpenFeature::new();
    api.set_provider(NoOpProvider::builder().int_value(100).build());
    api.set_named_provider("test", NoOpProvider::builder().int_value(200).build());

    let client = api.create_client();
    assert_eq!(client.get_int_value("key", None, None), Ok(100));

    let client = api.create_named_client("test");
    assert_eq!(client.get_int_value("key", None, None), Ok(200));

    let client = api.create_named_client("another");
    assert_eq!(client.get_int_value("test", None, None), Ok(100));
}

#[test]
fn replacement_reaches_existing_clients() {
    let mut api = OpenFeature::new();
    api.set_named_provider("test", NoOpProvider::builder().int_value(10).build());

    let client = api.create_named_client("test");
    assert_eq!(client.get_int_value("", None, None), Ok(10));

    api.set_named_provider("test", NoOpProvider::builder().int_value(30).build());

    assert_eq!(client.get_int_value("", None, None), Ok(30));

    let new_client = api.create_named_client("test");
    assert_eq!(new_client.get_int_value("", None, None), Ok(30));
}
