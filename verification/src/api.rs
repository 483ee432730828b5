//! The API object: the holder of the global context, global hooks and
//! provider registry. One instance is constructed explicitly and handed to
//! every client it creates, which share its state by reference; a
//! process-wide singleton is a convenience an application can layer on top.

use crate::client::Client;
use crate::context::EvaluationContext;
use crate::global_evaluation_context::GlobalEvaluationContext;
use crate::global_hooks::GlobalHooks;
use crate::hooks::Hook;
use crate::hooks::HookWrapper;
use crate::provider::FeatureProvider;
use crate::provider::ProviderMetadata;
use crate::provider_registry::ProviderRegistry;
use vstd::prelude::*;

verus! {

/// The entry point of the library: holds the global evaluation context, the
/// global hooks and the provider registry, and creates clients that share
/// them.
pub struct OpenFeature {
    evaluation_context: GlobalEvaluationContext,
    global_hooks: GlobalHooks,
    provider_registry: ProviderRegistry,
}

impl OpenFeature {
    /// Create an API instance with an empty global context, no global hooks,
    /// and a registry holding only the no-op default provider. Construction
    /// never fails.
    pub fn new() -> Self {
        let evaluation_context = GlobalEvaluationContext::default();
        let provider_registry = ProviderRegistry::new(evaluation_context.clone());
        OpenFeature { evaluation_context, global_hooks: GlobalHooks::new(), provider_registry }
    }

    /// Replace the global evaluation context.
    pub fn set_evaluation_context(&mut self, evaluation_context: EvaluationContext) {
        self.evaluation_context.set(evaluation_context);
    }

    /// Set the default provider: initialize it with the current global
    /// context, publish it, and trigger the superseded provider's shutdown
    /// exactly once.
    pub fn set_provider<T: FeatureProvider + 'static>(&mut self, provider: T) {
        self.provider_registry.set_default(provider);
    }

    /// Bind the given `provider` to the given `name`, initializing it first;
    /// a provider already bound to that name is superseded and its shutdown
    /// triggered exactly once.
    pub fn set_named_provider<T: FeatureProvider + 'static>(&mut self, name: &str, provider: T) {
        self.provider_registry.set_named(name, provider);
    }

    /// Append a hook at the global scope: it runs around every evaluation of
    /// every client.
    pub fn add_hook<T: Hook + 'static>(&mut self, hook: T) {
        self.global_hooks.add(HookWrapper::new(hook));
    }

    /// The metadata of the default provider.
    pub fn provider_metadata(&self) -> ProviderMetadata {
        proof {
            reveal_strlit("");
            assert(""@ =~= Seq::<char>::empty());
        }
        let handle = self.provider_registry.read_providers();
        let providers = handle.borrow();
        let metadata = match providers.get("") {
            Some(entry) => entry.get().metadata().clone(),
            None => unreached(),
        };
        handle.release_read();
        metadata
    }

    /// The metadata of the provider bound to `name`, if that name has one.
    pub fn named_provider_metadata(&self, name: &str) -> Option<ProviderMetadata> {
        let handle = self.provider_registry.read_providers();
        let providers = handle.borrow();
        let metadata = match providers.get(name) {
            Some(entry) => Some(entry.get().metadata().clone()),
            None => None,
        };
        handle.release_read();
        metadata
    }

    /// Create a client with the default name. Creation never fails; the
    /// client resolves against whatever provider is active at call time.
    pub fn create_client(&self) -> (r: Client)
        ensures
            r.spec_metadata().name@ == Seq::<char>::empty(),
            r.spec_hooks().len() == 0,
    {
        proof {
            reveal_strlit("");
        }
        Client::new(
            "",
            self.evaluation_context.clone(),
            self.global_hooks.clone(),
            self.provider_registry.clone(),
        )
    }

    /// Create a client bound to `name`: it uses the provider bound to that
    /// name, if any, and the default provider otherwise.
    pub fn create_named_client(&self, name: &str) -> (r: Client)
        ensures
            r.spec_metadata().name@ == name@,
            r.spec_hooks().len() == 0,
    {
        Client::new(
            name,
            self.evaluation_context.clone(),
            self.global_hooks.clone(),
            self.provider_registry.clone(),
        )
    }

    /// Shut the API down: drop every registered provider, triggering each
    /// provider's shutdown exactly once.
    pub fn shutdown(&mut self) {
        self.provider_registry.clear();
    }
}

impl Default for OpenFeature {
    /// The default API instance equals a newly created one.
    fn default() -> Self {
        OpenFeature::new()
    }
}

} // verus!
