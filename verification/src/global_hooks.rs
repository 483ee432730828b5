//! The process-wide hook list, shared by reference among the API and every
//! client, guarded by a reader/writer lock.

use crate::hooks::HookWrapper;
use std::sync::Arc;
use vstd::prelude::*;
use vstd::rwlock::ReadHandle;
use vstd::rwlock::RwLock;
use vstd::rwlock::RwLockPredicate;

verus! {

/// The lock invariant of the global hook list: any list may be stored.
pub struct GlobalHooksPred;

impl RwLockPredicate<Vec<HookWrapper>> for GlobalHooksPred {
    open spec fn inv(self, v: Vec<HookWrapper>) -> bool {
        true
    }
}

/// The global hooks: one lock-guarded, append-only list of hooks that run
/// around every evaluation of every client.
pub struct GlobalHooks {
    hooks: Arc<RwLock<Vec<HookWrapper>, GlobalHooksPred>>,
}

impl GlobalHooks {
    /// Create an empty list.
    pub fn new() -> Self {
        let hooks: Vec<HookWrapper> = Vec::new();
        GlobalHooks { hooks: Arc::new(RwLock::new(hooks, Ghost(GlobalHooksPred))) }
    }

    /// Append a hook at the end of the list, under the write lock: the
    /// hooks already registered keep their places, so the global part of
    /// every chain stays in registration order. The lock exposes its
    /// contents only through its handles, so this carries no postcondition.
    pub fn add(&self, hook: HookWrapper) {
        let (mut hooks, handle) = (*self.hooks).acquire_write();
        hooks.push(hook);
        handle.release_write(hooks);
    }

    /// Take and return a read lock on the list, for the duration of one
    /// evaluation.
    pub fn read_hooks<'a>(&'a self) -> ReadHandle<'a, Vec<HookWrapper>, GlobalHooksPred> {
        (*self.hooks).acquire_read()
    }
}

impl Clone for GlobalHooks {
    /// Cloning shares the same lock-guarded list.
    fn clone(&self) -> (r: Self)
        ensures
            r == *self,
    {
        GlobalHooks { hooks: Arc::clone(&self.hooks) }
    }
}

impl Default for GlobalHooks {
    /// The default list is empty.
    fn default() -> Self {
        GlobalHooks::new()
    }
}

} // verus!
