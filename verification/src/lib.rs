//! A feature-flag evaluation client.
//!
//! Application code asks for the value of a named flag; the library
//! coordinates pluggable evaluation backends ("providers"), per-call
//! contextual data, and lifecycle extension points ("hooks") to produce a
//! value together with metadata about how that value was derived.
//!
//! The library's value model holds only plain data: floats appear as their
//! bit patterns and timestamps as plain integers. Conversions between that
//! model and host-environment types — machine floats, wall-clock
//! timestamps, JSON documents, or caller-defined structures — are the
//! embedding application's work, outside this crate's verified core.

pub mod string_map;
pub mod value;
pub mod context;
pub mod error;
pub mod details;
pub mod hooks;
pub mod provider;
pub mod global_evaluation_context;
pub mod global_hooks;
pub mod provider_registry;
pub mod pipeline;
pub mod options;
pub mod logging;
pub mod client;
pub mod api;
pub use api::OpenFeature;
pub use client::default_value_of_type;
pub use client::Client;
pub use context::context_equiv;
pub use context::observed_context;
pub use context::DateTimeValue;
pub use context::EvaluationContext;
pub use context::EvaluationContextBuilder;
pub use context::EvaluationContextFieldValue;
pub use details::EvaluationDetails;
pub use details::EvaluationReason;
pub use details::EvaluationResult;
pub use details::FlagMetadata;
pub use details::FlagMetadataValue;
pub use error::EvaluationError;
pub use error::EvaluationErrorCode;
pub use global_evaluation_context::GlobalEvaluationContext;
pub use global_hooks::GlobalHooks;
pub use hooks::ClientMetadata;
pub use hooks::Hook;
pub use hooks::HookContext;
pub use hooks::HookHints;
pub use hooks::HookWrapper;
pub use logging::LoggingHook;
pub use options::EvaluationOptions;
pub use provider::DummyStruct;
pub use provider::FeatureProvider;
pub use provider::FixedValueProvider;
pub use provider::NoOpProvider;
pub use provider::ProviderMetadata;
pub use provider::ProviderStatus;
pub use provider::ResolutionDetails;
pub use provider_registry::FeatureProviderWrapper;
pub use provider_registry::ProviderEntry;
pub use provider_registry::ProviderRegistry;
pub use string_map::StringMap;
pub use value::FloatBits;
pub use value::StructValue;
pub use value::Type;
pub use value::Value;
