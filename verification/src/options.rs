//! Per-call options: invocation-scope hooks and hints.

use crate::hooks::Hook;
use crate::hooks::HookHints;
use crate::hooks::HookWrapper;
use vstd::prelude::*;

verus! {

/// What a caller may attach to one evaluation: hooks that run only for this
/// call, and hints passed to every hook stage.
pub struct EvaluationOptions {
    /// The invocation-scope hooks.
    pub hooks: Vec<HookWrapper>,

    /// The hints passed to every hook stage.
    pub hints: HookHints,
}

impl EvaluationOptions {
    /// Create options out of hooks and hints.
    pub fn new(hooks: Vec<HookWrapper>, hints: HookHints) -> (r: Self)
        ensures
            r.hooks == hooks,
            r.hints == hints,
    {
        EvaluationOptions { hooks, hints }
    }

    /// Add an invocation-scope hook: the list so far is kept and the new
    /// hook is appended to its end; the hints are unchanged.
    #[must_use]
    pub fn with_hook<T: Hook + 'static>(self, hook: T) -> (r: Self)
        ensures
            r.hooks@ == self.hooks@.push(r.hooks@.last()),
            r.hints == self.hints,
    {
        let mut hooks = self.hooks;
        hooks.push(HookWrapper::new(hook));
        proof {
            assert(hooks@ =~= self.hooks@.push(hooks@.last()));
        }
        EvaluationOptions { hooks, hints: self.hints }
    }
}

impl Default for EvaluationOptions {
    /// The default options carry no hooks and no hints.
    fn default() -> (r: Self)
        ensures
            r.hooks@.len() == 0,
            r.hints.hints@ == Map::<Seq<char>, crate::value::Value>::empty(),
    {
        EvaluationOptions { hooks: Vec::new(), hints: HookHints::new() }
    }
}

} // verus!
