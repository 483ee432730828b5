//! Lifecycle extension points: hooks observe and amend the evaluation of a
//! flag at fixed points (before, after, error, finally).

use crate::context::context_equiv;
use crate::context::EvaluationContext;
use crate::details::EvaluationDetails;
use crate::error::EvaluationError;
use crate::string_map::StringMap;
use crate::value::value_deep_eq;
use crate::value::Type;
use crate::value::Value;
use vstd::prelude::*;

verus! {

/// The metadata of a client: its logical name.
#[derive(PartialEq, Eq, Debug)]
pub struct ClientMetadata {
    /// The name of the client.
    pub name: String,
}

impl ClientMetadata {
    /// Create metadata out of a name.
    pub fn new(name: &str) -> (r: Self)
        ensures
            r.name@ == name@,
    {
        ClientMetadata { name: name.to_owned() }
    }
}

impl Clone for ClientMetadata {
    /// Cloning keeps the name.
    fn clone(&self) -> (r: Self)
        ensures
            r == *self,
    {
        ClientMetadata { name: self.name.clone() }
    }
}

impl Default for ClientMetadata {
    /// The default metadata carries the empty name.
    fn default() -> (r: Self)
        ensures
            r.name@ == Seq::<char>::empty(),
    {
        ClientMetadata { name: String::new() }
    }
}

/// An immutable mapping from string key to value, supplied by the caller at
/// invocation time and passed unchanged to every hook stage.
#[derive(PartialEq, Debug)]
pub struct HookHints {
    /// The hints, by key.
    pub hints: StringMap<Value>,
}

impl HookHints {
    /// Create an empty hints record.
    pub fn new() -> (r: Self)
        ensures
            r.hints@ == Map::<Seq<char>, Value>::empty(),
    {
        HookHints { hints: StringMap::new() }
    }
}

impl Default for HookHints {
    /// The default hints record is empty.
    fn default() -> (r: Self)
        ensures
            r.hints@ == Map::<Seq<char>, Value>::empty(),
    {
        HookHints::new()
    }
}

/// The per-call snapshot a hook receives: the flag key, the static type of
/// the flag's value, the client's identity, the evaluation context visible
/// at the moment the hook runs, and the default value the caller would
/// substitute on failure. A new snapshot is built whenever the working
/// context changes; one is never mutated in place.
#[derive(PartialEq, Debug)]
pub struct HookContext {
    /// The key of the flag being evaluated.
    pub flag_key: String,

    /// The static type of the flag's value.
    pub flag_type: Type,

    /// The evaluation context visible to the hook.
    pub evaluation_context: EvaluationContext,

    /// The default value the caller would substitute on failure.
    pub default_value: Option<Value>,

    /// The identity of the client making the call.
    pub client_metadata: ClientMetadata,
}

/// Whether two hook contexts carry the same data, with the default value
/// compared deeply.
pub open spec fn hook_context_equiv(a: HookContext, b: HookContext) -> bool {
    &&& a.flag_key@ == b.flag_key@
    &&& a.flag_type == b.flag_type
    &&& context_equiv(a.evaluation_context, b.evaluation_context)
    &&& match (a.default_value, b.default_value) {
        (Some(x), Some(y)) => value_deep_eq(x, y),
        (None, None) => true,
        _ => false,
    }
    &&& a.client_metadata == b.client_metadata
}

impl Clone for HookContext {
    /// Cloning keeps the snapshot's data.
    fn clone(&self) -> (r: Self)
        ensures
            hook_context_equiv(*self, r),
    {
        let default_value = match &self.default_value {
            Some(v) => Some(v.clone()),
            None => None,
        };
        HookContext {
            flag_key: self.flag_key.clone(),
            flag_type: self.flag_type,
            evaluation_context: self.evaluation_context.clone(),
            default_value,
            client_metadata: self.client_metadata.clone(),
        }
    }
}

/// A lifecycle extension point. Implementors supply four stage callbacks;
/// the library calls them in the documented order around each evaluation.
/// A hook must not panic: where a stage may fail it returns an error, and
/// the error and finally stages swallow failures by having no result at all.
pub trait Hook: Send + Sync {
    /// Called before the flag is resolved. May return a context delta, which
    /// the library merges over the working context; an error here stops the
    /// evaluation.
    fn before(&self, context: &HookContext, hints: Option<&HookHints>) -> Result<
        Option<EvaluationContext>,
        EvaluationError,
    >;

    /// Called after a successful resolution; an error here routes the
    /// remaining hooks to the error stage.
    fn after(
        &self,
        context: &HookContext,
        details: &EvaluationDetails<Value>,
        hints: Option<&HookHints>,
    ) -> Result<(), EvaluationError>;

    /// Called when a before stage, the resolution, or an after stage failed.
    fn error(&self, context: &HookContext, error: &EvaluationError, hints: Option<&HookHints>);

    /// Called after every evaluation, whatever its outcome.
    fn finally(&self, context: &HookContext, hints: Option<&HookHints>);
}

/// Owns one registered hook instance behind a uniform type, so hooks of
/// different types can stand in one list.
pub struct HookWrapper {
    hook: Box<dyn Hook>,
}

impl HookWrapper {
    /// Wrap a hook.
    pub fn new<T: Hook + 'static>(hook: T) -> Self {
        HookWrapper { hook: Box::new(hook) }
    }

    /// The before stage of the wrapped hook.
    pub fn before(&self, context: &HookContext, hints: Option<&HookHints>) -> Result<
        Option<EvaluationContext>,
        EvaluationError,
    > {
        self.hook.before(context, hints)
    }

    /// The after stage of the wrapped hook.
    pub fn after(
        &self,
        context: &HookContext,
        details: &EvaluationDetails<Value>,
        hints: Option<&HookHints>,
    ) -> Result<(), EvaluationError> {
        self.hook.after(context, details, hints)
    }

    /// The error stage of the wrapped hook.
    pub fn error(&self, context: &HookContext, error: &EvaluationError, hints: Option<&HookHints>) {
        self.hook.error(context, error, hints)
    }

    /// The finally stage of the wrapped hook.
    pub fn finally(&self, context: &HookContext, hints: Option<&HookHints>) {
        self.hook.finally(context, hints)
    }
}

} // verus!
