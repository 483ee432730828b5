//! The process-wide evaluation context, shared by reference among the API
//! and every client, guarded by a reader/writer lock.

use crate::context::EvaluationContext;
use std::sync::Arc;
use vstd::prelude::*;
use vstd::rwlock::RwLock;
use vstd::rwlock::RwLockPredicate;

verus! {

/// The lock invariant of the global context: any context may be stored.
pub struct GlobalContextPred;

impl RwLockPredicate<EvaluationContext> for GlobalContextPred {
    open spec fn inv(self, v: EvaluationContext) -> bool {
        true
    }
}

/// The global evaluation context: one lock-guarded context, shared by
/// cloning the handle, not the data.
pub struct GlobalEvaluationContext {
    context: Arc<RwLock<EvaluationContext, GlobalContextPred>>,
}

impl GlobalEvaluationContext {
    /// Create a holder around the given context.
    pub fn new(evaluation_context: EvaluationContext) -> Self {
        GlobalEvaluationContext {
            context: Arc::new(RwLock::new(evaluation_context, Ghost(GlobalContextPred))),
        }
    }

    /// Take a read lock and return a copy of the context it guards at this
    /// instant; a concurrent write may change the stored context afterwards.
    pub fn get_cloned(&self) -> EvaluationContext {
        let handle = (*self.context).acquire_read();
        let context = handle.borrow().clone();
        handle.release_read();
        context
    }

    /// Take the write lock and replace the stored context.
    pub fn set(&self, evaluation_context: EvaluationContext) {
        let (old_context, handle) = (*self.context).acquire_write();
        handle.release_write(evaluation_context);
    }
}

impl Clone for GlobalEvaluationContext {
    /// Cloning shares the same lock-guarded context.
    fn clone(&self) -> (r: Self)
        ensures
            r == *self,
    {
        GlobalEvaluationContext { context: Arc::clone(&self.context) }
    }
}

impl Default for GlobalEvaluationContext {
    /// The default holder guards an empty context.
    fn default() -> Self {
        GlobalEvaluationContext::new(EvaluationContext::new())
    }
}

} // verus!
