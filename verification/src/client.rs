//! The client: a façade bound to a logical name that owns client-scope
//! context and hooks, and runs the evaluation pipeline for every flag-value
//! request.

use crate::context::apply_hook_delta;
use crate::context::merged_context;
use crate::context::EvaluationContext;
use crate::details::EvaluationDetails;
use crate::details::EvaluationResult;
use crate::error::EvaluationError;
use crate::global_evaluation_context::GlobalEvaluationContext;
use crate::global_hooks::GlobalHooks;
use crate::hooks::ClientMetadata;
use crate::hooks::Hook;
use crate::hooks::HookContext;
use crate::hooks::HookHints;
use crate::hooks::HookWrapper;
use crate::logging::LoggingHook;
use crate::options::EvaluationOptions;
use crate::pipeline::pipeline_action;
use crate::pipeline::pipeline_start;
use crate::pipeline::pipeline_step;
use crate::pipeline::state_measure;
use crate::pipeline::state_valid;
use crate::pipeline::PipelineAction;
use crate::pipeline::PipelineEvent;
use crate::pipeline::PipelineState;
use crate::provider::FeatureProvider;
use crate::provider::ResolutionDetails;
use crate::provider_registry::ProviderRegistry;
use crate::value::FloatBits;
use crate::value::StructValue;
use crate::value::Type;
use crate::value::Value;
use vstd::prelude::*;

verus! {

/// The value a caller would fall back to for each flag type: the type's
/// zero value.
pub fn default_value_of_type(flag_type: Type) -> (r: Value)
    ensures
        r.spec_type() == flag_type,
        flag_type is Bool ==> r == Value::Bool(false),
        flag_type is Int ==> r == Value::Int(0i64),
        flag_type is Float ==> r == Value::Float(FloatBits { bits: 0u64 }),
        flag_type is String ==> r->String_0@ == Seq::<char>::empty(),
        flag_type is Array ==> r->Array_0@ == Seq::<Value>::empty(),
        flag_type is Struct ==> r->Struct_0@ == Map::<Seq<char>, Value>::empty(),
{
    match flag_type {
        Type::Bool => Value::Bool(false),
        Type::Int => Value::Int(0),
        Type::Float => Value::Float(FloatBits { bits: 0 }),
        Type::String => Value::String(String::new()),
        Type::Array => Value::Array(Vec::new()),
        Type::Struct => Value::Struct(StructValue::new()),
    }
}

/// Whether an erased resolution carries everything of a typed one: the
/// variant, reason, error and metadata unchanged, and the value wrapped in
/// the given tag.
pub open spec fn erases_to<T>(
    typed: ResolutionDetails<T>,
    erased: ResolutionDetails<Value>,
    value: Value,
) -> bool {
    &&& erased.value == value
    &&& erased.variant == typed.variant
    &&& erased.reason == typed.reason
    &&& erased.error == typed.error
    &&& erased.flag_metadata == typed.flag_metadata
}

/// Erase a bool resolution: wrap the value, keep every other field.
fn erase_bool(d: ResolutionDetails<bool>) -> (r: ResolutionDetails<Value>)
    ensures
        erases_to(d, r, Value::Bool(d.value)),
{
    ResolutionDetails {
        value: Value::Bool(d.value),
        variant: d.variant,
        reason: d.reason,
        error: d.error,
        flag_metadata: d.flag_metadata,
    }
}

/// Erase an int resolution: wrap the value, keep every other field.
fn erase_int(d: ResolutionDetails<i64>) -> (r: ResolutionDetails<Value>)
    ensures
        erases_to(d, r, Value::Int(d.value)),
{
    ResolutionDetails {
        value: Value::Int(d.value),
        variant: d.variant,
        reason: d.reason,
        error: d.error,
        flag_metadata: d.flag_metadata,
    }
}

/// Erase a float resolution: wrap the value, keep every other field.
fn erase_float(d: ResolutionDetails<FloatBits>) -> (r: ResolutionDetails<Value>)
    ensures
        erases_to(d, r, Value::Float(d.value)),
{
    ResolutionDetails {
        value: Value::Float(d.value),
        variant: d.variant,
        reason: d.reason,
        error: d.error,
        flag_metadata: d.flag_metadata,
    }
}

/// Erase a string resolution: wrap the value, keep every other field.
fn erase_string(d: ResolutionDetails<String>) -> (r: ResolutionDetails<Value>)
    ensures
        erases_to(d, r, Value::String(d.value)),
{
    let value = Value::String(d.value);
    ResolutionDetails {
        value,
        variant: d.variant,
        reason: d.reason,
        error: d.error,
        flag_metadata: d.flag_metadata,
    }
}

/// Erase a struct resolution: wrap the value, keep every other field.
fn erase_struct(d: ResolutionDetails<StructValue>) -> (r: ResolutionDetails<Value>)
    ensures
        erases_to(d, r, Value::Struct(d.value)),
{
    let value = Value::Struct(d.value);
    ResolutionDetails {
        value,
        variant: d.variant,
        reason: d.reason,
        error: d.error,
        flag_metadata: d.flag_metadata,
    }
}

/// Dispatch a resolution to the provider method of the wanted type, and
/// erase the typed value into a tagged one. Each arm only routes: the
/// field-preserving erasure itself is contracted at the `erase_*` helpers.
fn resolve_erased(
    provider: &dyn FeatureProvider,
    flag_type: Type,
    flag_key: &str,
    context: &EvaluationContext,
) -> (r: EvaluationResult<ResolutionDetails<Value>>)
    requires
        !(flag_type is Array),
    ensures
        r matches Ok(d) ==> d.value.spec_type() == flag_type,
{
    match flag_type {
        Type::Bool => match provider.resolve_bool_value(flag_key, context) {
            Ok(d) => Ok(erase_bool(d)),
            Err(e) => Err(e),
        },
        Type::Int => match provider.resolve_int_value(flag_key, context) {
            Ok(d) => Ok(erase_int(d)),
            Err(e) => Err(e),
        },
        Type::Float => match provider.resolve_float_value(flag_key, context) {
            Ok(d) => Ok(erase_float(d)),
            Err(e) => Err(e),
        },
        Type::String => match provider.resolve_string_value(flag_key, context) {
            Ok(d) => Ok(erase_string(d)),
            Err(e) => Err(e),
        },
        Type::Struct => match provider.resolve_struct_value(flag_key, context) {
            Ok(d) => Ok(erase_struct(d)),
            Err(e) => Err(e),
        },
        Type::Array => unreached(),
    }
}

/// Whether a typed details record carries everything of an erased one: the
/// flag key, reason, variant and metadata unchanged, and the value the
/// erased record's, unwrapped.
pub open spec fn projects_to<T>(
    erased: EvaluationDetails<Value>,
    typed: EvaluationDetails<T>,
    value: Value,
) -> bool {
    &&& typed.flag_key == erased.flag_key
    &&& value == erased.value
    &&& typed.reason == erased.reason
    &&& typed.variant == erased.variant
    &&& typed.flag_metadata == erased.flag_metadata
}

/// Unwrap a bool out of erased details, keeping every other field.
fn project_bool(details: EvaluationDetails<Value>) -> (r: EvaluationDetails<bool>)
    requires
        details.value is Bool,
    ensures
        projects_to(details, r, Value::Bool(r.value)),
{
    match details.value {
        Value::Bool(value) => EvaluationDetails {
            flag_key: details.flag_key,
            value,
            reason: details.reason,
            variant: details.variant,
            flag_metadata: details.flag_metadata,
        },
        _ => unreached(),
    }
}

/// Unwrap an int out of erased details, keeping every other field.
fn project_int(details: EvaluationDetails<Value>) -> (r: EvaluationDetails<i64>)
    requires
        details.value is Int,
    ensures
        projects_to(details, r, Value::Int(r.value)),
{
    match details.value {
        Value::Int(value) => EvaluationDetails {
            flag_key: details.flag_key,
            value,
            reason: details.reason,
            variant: details.variant,
            flag_metadata: details.flag_metadata,
        },
        _ => unreached(),
    }
}

/// Unwrap a float's bits out of erased details, keeping every other field.
fn project_float(details: EvaluationDetails<Value>) -> (r: EvaluationDetails<FloatBits>)
    requires
        details.value is Float,
    ensures
        projects_to(details, r, Value::Float(r.value)),
{
    match details.value {
        Value::Float(value) => EvaluationDetails {
            flag_key: details.flag_key,
            value,
            reason: details.reason,
            variant: details.variant,
            flag_metadata: details.flag_metadata,
        },
        _ => unreached(),
    }
}

/// Unwrap a string out of erased details, keeping every other field.
fn project_string(details: EvaluationDetails<Value>) -> (r: EvaluationDetails<String>)
    requires
        details.value is String,
    ensures
        projects_to(details, r, Value::String(r.value)),
{
    match details.value {
        Value::String(value) => EvaluationDetails {
            flag_key: details.flag_key,
            value,
            reason: details.reason,
            variant: details.variant,
            flag_metadata: details.flag_metadata,
        },
        _ => unreached(),
    }
}

/// Unwrap a structure out of erased details, keeping every other field.
fn project_struct(details: EvaluationDetails<Value>) -> (r: EvaluationDetails<StructValue>)
    requires
        details.value is Struct,
    ensures
        projects_to(details, r, Value::Struct(r.value)),
{
    match details.value {
        Value::Struct(value) => EvaluationDetails {
            flag_key: details.flag_key,
            value,
            reason: details.reason,
            variant: details.variant,
            flag_metadata: details.flag_metadata,
        },
        _ => unreached(),
    }
}

/// Append references to every hook of `source` to the chain: the chain so
/// far keeps its places, and the source hooks follow in their own order.
fn extend_chain<'a>(chain: &mut Vec<&'a HookWrapper>, source: &'a [HookWrapper])
    ensures
        final(chain)@.len() == old(chain)@.len() + source@.len(),
        forall|i: int| 0 <= i < old(chain)@.len() ==> final(chain)@[i] == old(chain)@[i],
        forall|i: int|
            0 <= i < source@.len() ==> final(chain)@[old(chain)@.len() + i] == source@[i],
{
    let n = source.len();
    let mut i: usize = 0;
    while i < n
        invariant
            n == source@.len(),
            i <= n,
            chain@.len() == old(chain)@.len() + i,
            forall|j: int| 0 <= j < old(chain)@.len() ==> chain@[j] == old(chain)@[j],
            forall|j: int| 0 <= j < i ==> chain@[old(chain)@.len() + j] == source@[j],
        decreases n - i,
    {
        chain.push(&source[i]);
        i = i + 1;
    }
}

/// The OpenFeature client: the caller-facing entry point for evaluating
/// flags under one logical name. Creating a client never fails and never
/// blocks; the provider is looked up per call, not cached at construction.
pub struct Client {
    metadata: ClientMetadata,
    provider_registry: ProviderRegistry,
    evaluation_context: EvaluationContext,
    global_evaluation_context: GlobalEvaluationContext,
    global_hooks: GlobalHooks,
    hooks: Vec<HookWrapper>,
}

impl Client {
    /// Create a new client bound to `name`. The global context, global
    /// hooks and provider registry are shared by reference with the API
    /// that created the client.
    pub fn new(
        name: &str,
        global_evaluation_context: GlobalEvaluationContext,
        global_hooks: GlobalHooks,
        provider_registry: ProviderRegistry,
    ) -> (r: Self)
        ensures
            r.spec_metadata().name@ == name@,
            r.spec_evaluation_context().targeting_key is None,
            r.spec_evaluation_context().custom_fields@ == Map::<
                Seq<char>,
                crate::context::EvaluationContextFieldValue,
            >::empty(),
            r.spec_hooks().len() == 0,
    {
        Client {
            metadata: ClientMetadata::new(name),
            provider_registry,
            evaluation_context: EvaluationContext::new(),
            global_evaluation_context,
            global_hooks,
            hooks: Vec::new(),
        }
    }

    /// The metadata of this client.
    pub fn metadata(&self) -> (r: &ClientMetadata)
        ensures
            *r == self.spec_metadata(),
    {
        &self.metadata
    }

    /// The client-scope evaluation context.
    pub closed spec fn spec_evaluation_context(&self) -> EvaluationContext {
        self.evaluation_context
    }

    /// The client-scope metadata.
    pub closed spec fn spec_metadata(&self) -> ClientMetadata {
        self.metadata
    }

    /// The client-scope hooks, in registration order.
    pub closed spec fn spec_hooks(&self) -> Seq<HookWrapper> {
        self.hooks@
    }

    /// Replace the client-scope evaluation context.
    pub fn set_evaluation_context(&mut self, evaluation_context: EvaluationContext)
        ensures
            final(self).spec_evaluation_context() == evaluation_context,
            final(self).spec_metadata() == old(self).spec_metadata(),
            final(self).spec_hooks() == old(self).spec_hooks(),
    {
        self.evaluation_context = evaluation_context;
    }

    /// Add a client-scope hook: the list so far is kept and the new hook is
    /// appended to its end; nothing else of the client changes.
    #[must_use]
    pub fn with_hook<T: Hook + 'static>(self, hook: T) -> (r: Self)
        ensures
            r.spec_hooks() == self.spec_hooks().push(r.spec_hooks().last()),
            r.spec_metadata() == self.spec_metadata(),
            r.spec_evaluation_context() == self.spec_evaluation_context(),
    {
        let mut r = self;
        r.hooks.push(HookWrapper::new(hook));
        proof {
            assert(r.spec_hooks() =~= self.spec_hooks().push(r.spec_hooks().last()));
        }
        r
    }

    /// Add the logging hook to the client: the list so far is kept and the
    /// hook is appended to its end.
    #[must_use]
    pub fn with_logging_hook(self) -> (r: Self)
        ensures
            r.spec_hooks() == self.spec_hooks().push(r.spec_hooks().last()),
            r.spec_metadata() == self.spec_metadata(),
            r.spec_evaluation_context() == self.spec_evaluation_context(),
    {
        self.with_hook(LoggingHook::new())
    }

    /// Evaluate the given `flag_key` as a bool value.
    pub fn get_bool_value(
        &self,
        flag_key: &str,
        evaluation_context: Option<&EvaluationContext>,
        evaluation_options: Option<&EvaluationOptions>,
    ) -> (r: EvaluationResult<bool>)
    {
        match self.get_bool_details(flag_key, evaluation_context, evaluation_options) {
            Ok(details) => Ok(details.value),
            Err(e) => Err(e),
        }
    }

    /// Evaluate the given `flag_key` as an int value.
    pub fn get_int_value(
        &self,
        flag_key: &str,
        evaluation_context: Option<&EvaluationContext>,
        evaluation_options: Option<&EvaluationOptions>,
    ) -> (r: EvaluationResult<i64>)
    {
        match self.get_int_details(flag_key, evaluation_context, evaluation_options) {
            Ok(details) => Ok(details.value),
            Err(e) => Err(e),
        }
    }

    /// Evaluate the given `flag_key` as a float value, carried as its bits.
    pub fn get_float_value(
        &self,
        flag_key: &str,
        evaluation_context: Option<&EvaluationContext>,
        evaluation_options: Option<&EvaluationOptions>,
    ) -> (r: EvaluationResult<FloatBits>)
    {
        match self.get_float_details(flag_key, evaluation_context, evaluation_options) {
            Ok(details) => Ok(details.value),
            Err(e) => Err(e),
        }
    }

    /// Evaluate the given `flag_key` as a string value.
    pub fn get_string_value(
        &self,
        flag_key: &str,
        evaluation_context: Option<&EvaluationContext>,
        evaluation_options: Option<&EvaluationOptions>,
    ) -> (r: EvaluationResult<String>)
    {
        match self.get_string_details(flag_key, evaluation_context, evaluation_options) {
            Ok(details) => Ok(details.value),
            Err(e) => Err(e),
        }
    }

    /// Evaluate the given `flag_key` as a structure value. Converting the
    /// returned structure into a caller-defined type is the caller's work; a
    /// failed conversion is the caller's type-mismatch error.
    pub fn get_struct_value(
        &self,
        flag_key: &str,
        evaluation_context: Option<&EvaluationContext>,
        evaluation_options: Option<&EvaluationOptions>,
    ) -> (r: EvaluationResult<StructValue>)
    {
        match self.get_struct_details(flag_key, evaluation_context, evaluation_options) {
            Ok(details) => Ok(details.value),
            Err(e) => Err(e),
        }
    }

    /// Evaluate the given `flag_key` and return the full details of the
    /// outcome, as a bool flag.
    pub fn get_bool_details(
        &self,
        flag_key: &str,
        evaluation_context: Option<&EvaluationContext>,
        evaluation_options: Option<&EvaluationOptions>,
    ) -> (r: EvaluationResult<EvaluationDetails<bool>>)
        ensures
            r matches Ok(d) ==> d.flag_key@ == flag_key@,
    {
        match self.evaluate(flag_key, evaluation_context, evaluation_options, Type::Bool) {
            Ok(details) => Ok(project_bool(details)),
            Err(e) => Err(e),
        }
    }

    /// Evaluate the given `flag_key` and return the full details of the
    /// outcome, as an int flag.
    pub fn get_int_details(
        &self,
        flag_key: &str,
        evaluation_context: Option<&EvaluationContext>,
        evaluation_options: Option<&EvaluationOptions>,
    ) -> (r: EvaluationResult<EvaluationDetails<i64>>)
        ensures
            r matches Ok(d) ==> d.flag_key@ == flag_key@,
    {
        match self.evaluate(flag_key, evaluation_context, evaluation_options, Type::Int) {
            Ok(details) => Ok(project_int(details)),
            Err(e) => Err(e),
        }
    }

    /// Evaluate the given `flag_key` and return the full details of the
    /// outcome, as a float flag, the value carried as its bits.
    pub fn get_float_details(
        &self,
        flag_key: &str,
        evaluation_context: Option<&EvaluationContext>,
        evaluation_options: Option<&EvaluationOptions>,
    ) -> (r: EvaluationResult<EvaluationDetails<FloatBits>>)
        ensures
            r matches Ok(d) ==> d.flag_key@ == flag_key@,
    {
        match self.evaluate(flag_key, evaluation_context, evaluation_options, Type::Float) {
            Ok(details) => Ok(project_float(details)),
            Err(e) => Err(e),
        }
    }

    /// Evaluate the given `flag_key` and return the full details of the
    /// outcome, as a string flag.
    pub fn get_string_details(
        &self,
        flag_key: &str,
        evaluation_context: Option<&EvaluationContext>,
        evaluation_options: Option<&EvaluationOptions>,
    ) -> (r: EvaluationResult<EvaluationDetails<String>>)
        ensures
            r matches Ok(d) ==> d.flag_key@ == flag_key@,
    {
        match self.evaluate(flag_key, evaluation_context, evaluation_options, Type::String) {
            Ok(details) => Ok(project_string(details)),
            Err(e) => Err(e),
        }
    }

    /// Evaluate the given `flag_key` and return the full details of the
    /// outcome, as a structure flag. Converting the value into a
    /// caller-defined type is the caller's work.
    pub fn get_struct_details(
        &self,
        flag_key: &str,
        evaluation_context: Option<&EvaluationContext>,
        evaluation_options: Option<&EvaluationOptions>,
    ) -> (r: EvaluationResult<EvaluationDetails<StructValue>>)
        ensures
            r matches Ok(d) ==> d.flag_key@ == flag_key@,
    {
        match self.evaluate(flag_key, evaluation_context, evaluation_options, Type::Struct) {
            Ok(details) => Ok(project_struct(details)),
            Err(e) => Err(e),
        }
    }

    /// Run the full evaluation pipeline for one flag: merge the context
    /// layers, look the provider up (late-bound, pinned for this call),
    /// build the hook chain (global, client, invocation, provider), and
    /// drive the pipeline state machine, performing each action it calls
    /// for: before stages forward, then the resolution, then after or error
    /// stages and finally stages in reverse. Returns the details of a
    /// successful resolution, or the first error any stage or the
    /// resolution raised.
    fn evaluate(
        &self,
        flag_key: &str,
        evaluation_context: Option<&EvaluationContext>,
        evaluation_options: Option<&EvaluationOptions>,
        flag_type: Type,
    ) -> (r: EvaluationResult<EvaluationDetails<Value>>)
        requires
            !(flag_type is Array),
        ensures
            r matches Ok(d) ==> d.flag_key@ == flag_key@ && d.value.spec_type() == flag_type,
    {
        let global_context = self.global_evaluation_context.get_cloned();
        let context = merged_context(
            evaluation_context,
            &self.evaluation_context,
            &global_context,
        );

        let global_hooks_handle = self.global_hooks.read_hooks();
        let providers_handle = self.provider_registry.read_providers();
        let providers = providers_handle.borrow();
        proof {
            reveal_strlit("");
            assert(""@ =~= Seq::<char>::empty());
        }
        let entry = match providers.get(self.metadata.name.as_str()) {
            Some(entry) => entry,
            None => match providers.get("") {
                Some(entry) => entry,
                None => unreached(),
            },
        };
        let provider = entry.get();

        let mut chain: Vec<&HookWrapper> = Vec::new();
        extend_chain(&mut chain, global_hooks_handle.borrow().as_slice());
        extend_chain(&mut chain, self.hooks.as_slice());
        match evaluation_options {
            Some(options) => extend_chain(&mut chain, options.hooks.as_slice()),
            None => {},
        }
        extend_chain(&mut chain, provider.hooks());
        let n = chain.len();

        let hints: Option<&HookHints> = match evaluation_options {
            Some(options) => Some(&options.hints),
            None => None,
        };
        let default_value = default_value_of_type(flag_type);

        let mut working = context;
        let mut details: Option<EvaluationDetails<Value>> = None;
        let mut error: Option<EvaluationError> = None;
        let mut state = pipeline_start();

        loop
            invariant
                n == chain@.len(),
                state_valid(n as int, state),
                state is After ==> details is Some,
                state is ErrorStage ==> error is Some,
                state is Finally ==> details is Some || error is Some,
                state is Done ==> details is Some || error is Some,
                details matches Some(d) ==> d.flag_key@ == flag_key@ && d.value.spec_type()
                    == flag_type,
                !(flag_type is Array),
            ensures
                state is Done,
                details matches Some(d) ==> d.flag_key@ == flag_key@ && d.value.spec_type()
                    == flag_type,
                details is Some || error is Some,
            decreases state_measure(n as int, state),
        {
            if matches!(state, PipelineState::Done) {
                break ;
            }
            let action = pipeline_action(n, &state);
            let event: PipelineEvent = match action {
                PipelineAction::CallBefore(i) => {
                    proof {
                        assert(i < n);
                    }
                    let hook_context = HookContext {
                        flag_key: flag_key.to_owned(),
                        flag_type,
                        evaluation_context: working.clone(),
                        default_value: Some(default_value.clone()),
                        client_metadata: self.metadata.clone(),
                    };
                    match chain[i].before(&hook_context, hints) {
                        Ok(Some(delta)) => {
                            working = apply_hook_delta(delta, &working);
                            PipelineEvent::Succeeded
                        },
                        Ok(None) => PipelineEvent::Succeeded,
                        Err(e) => {
                            error = Some(e);
                            PipelineEvent::Failed
                        },
                    }
                },
                PipelineAction::CallResolve => {
                    match resolve_erased(provider, flag_type, flag_key, &working) {
                        Ok(resolution) => {
                            details = Some(resolution.into_evaluation_details(flag_key));
                            PipelineEvent::Succeeded
                        },
                        Err(e) => {
                            error = Some(e);
                            PipelineEvent::Failed
                        },
                    }
                },
                PipelineAction::CallAfter(i) => {
                    proof {
                        assert(state is After);
                        assert(details is Some);
                        assert(i < n);
                    }
                    let hook_context = HookContext {
                        flag_key: flag_key.to_owned(),
                        flag_type,
                        evaluation_context: working.clone(),
                        default_value: Some(default_value.clone()),
                        client_metadata: self.metadata.clone(),
                    };
                    let after_result = match &details {
                        Some(d) => chain[i].after(&hook_context, d, hints),
                        None => unreached(),
                    };
                    match after_result {
                        Ok(()) => PipelineEvent::Succeeded,
                        Err(e) => {
                            error = Some(e);
                            PipelineEvent::Failed
                        },
                    }
                },
                PipelineAction::CallError(i) => {
                    proof {
                        assert(state is ErrorStage);
                        assert(error is Some);
                        assert(i < n);
                    }
                    let hook_context = HookContext {
                        flag_key: flag_key.to_owned(),
                        flag_type,
                        evaluation_context: working.clone(),
                        default_value: Some(default_value.clone()),
                        client_metadata: self.metadata.clone(),
                    };
                    match &error {
                        Some(e) => chain[i].error(&hook_context, e, hints),
                        None => unreached(),
                    }
                    PipelineEvent::Succeeded
                },
                PipelineAction::CallFinally(i) => {
                    proof {
                        assert(i < n);
                    }
                    let hook_context = HookContext {
                        flag_key: flag_key.to_owned(),
                        flag_type,
                        evaluation_context: working.clone(),
                        default_value: Some(default_value.clone()),
                        client_metadata: self.metadata.clone(),
                    };
                    chain[i].finally(&hook_context, hints);
                    PipelineEvent::Succeeded
                },
            };
            state = pipeline_step(n, &state, event);
        }

        providers_handle.release_read();
        global_hooks_handle.release_read();

        match error {
            Some(e) => Err(e),
            None => match details {
                Some(d) => Ok(d),
                None => unreached(),
            },
        }
    }
}

} // verus!
