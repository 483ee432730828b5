//! The provider registry: the currently active default and named providers,
//! with atomic replacement and exactly-once shutdown of superseded ones.

use crate::global_evaluation_context::GlobalEvaluationContext;
use crate::provider::FeatureProvider;
use crate::provider::NoOpProvider;
use crate::string_map::StringMap;
use std::sync::Arc;
use vstd::prelude::*;
use vstd::rwlock::ReadHandle;
use vstd::rwlock::RwLock;
use vstd::rwlock::RwLockPredicate;

verus! {

/// Owns one provider instance behind a uniform type, so providers of
/// different types can stand in one registry.
pub struct FeatureProviderWrapper {
    provider: Box<dyn FeatureProvider>,
}

impl FeatureProviderWrapper {
    /// Wrap a provider.
    pub fn new<T: FeatureProvider + 'static>(provider: T) -> Self {
        FeatureProviderWrapper { provider: Box::new(provider) }
    }

    /// The wrapped provider.
    pub fn get(&self) -> &dyn FeatureProvider {
        &*self.provider
    }
}

/// A registry entry: one provider and its one-shot "shutdown started" flag.
/// The flag makes the shutdown of a superseded provider happen exactly once,
/// whichever caller gets there first.
pub struct ProviderEntry {
    wrapper: FeatureProviderWrapper,
    shutdown_started: bool,
}

/// One step of an entry's one-shot shutdown protocol: the caller wins
/// exactly when the flag was still clear, the flag is set afterwards, and
/// the provider is untouched.
pub open spec fn shutdown_step(pre: ProviderEntry, post: ProviderEntry, won: bool) -> bool {
    &&& won == !pre.spec_shutdown_started()
    &&& post.spec_shutdown_started()
    &&& post.spec_wrapper() == pre.spec_wrapper()
}

impl ProviderEntry {
    /// Whether a shutdown of this entry's provider has begun.
    pub closed spec fn spec_shutdown_started(&self) -> bool {
        self.shutdown_started
    }

    /// The wrapped provider.
    pub closed spec fn spec_wrapper(&self) -> FeatureProviderWrapper {
        self.wrapper
    }

    /// Create an entry whose provider no one has begun to shut down.
    pub fn new(wrapper: FeatureProviderWrapper) -> (r: Self)
        ensures
            !r.spec_shutdown_started(),
            r.spec_wrapper() == wrapper,
    {
        ProviderEntry { wrapper, shutdown_started: false }
    }

    /// The wrapped provider.
    pub fn get(&self) -> &dyn FeatureProvider {
        self.wrapper.get()
    }

    /// Claim the right to shut the provider down: the winner is the caller
    /// that found the flag clear, and there is at most one (see
    /// [`lemma_shutdown_begins_once`]).
    pub fn try_begin_shutdown(&mut self) -> (won: bool)
        ensures
            shutdown_step(*old(self), *final(self), won),
    {
        let won = !self.shutdown_started;
        self.shutdown_started = true;
        won
    }

    /// Begin the shutdown and, exactly when this caller won the claim, call
    /// the provider's shutdown.
    pub fn shutdown_once(&mut self)
        ensures
            shutdown_step(*old(self), *final(self), !old(self).spec_shutdown_started()),
    {
        let won = self.try_begin_shutdown();
        if won {
            self.wrapper.get().shutdown();
        }
    }
}

/// However often an entry's shutdown is attempted, at most one attempt wins:
/// after a winning step the flag is set, and every later step loses.
pub proof fn lemma_shutdown_begins_once(
    e0: ProviderEntry,
    e1: ProviderEntry,
    e2: ProviderEntry,
    first_won: bool,
    second_won: bool,
)
    requires
        shutdown_step(e0, e1, first_won),
        shutdown_step(e1, e2, second_won),
    ensures
        !second_won,
        !(first_won && second_won),
{
}

/// The lock invariant of the provider map: the default entry, under the
/// empty name, is always present, so lookups always have a fallback.
pub struct RegistryPred;

impl RwLockPredicate<StringMap<ProviderEntry>> for RegistryPred {
    open spec fn inv(self, v: StringMap<ProviderEntry>) -> bool {
        v@.contains_key(Seq::<char>::empty())
    }
}

/// Holds the currently active default and named providers. Lookups take the
/// read lock and fall back to the default entry; replacement takes the
/// write lock, publishes the initialized provider, and then triggers the
/// superseded provider's shutdown exactly once, outside the lock.
pub struct ProviderRegistry {
    global_evaluation_context: GlobalEvaluationContext,
    providers: Arc<RwLock<StringMap<ProviderEntry>, RegistryPred>>,
}

impl Clone for ProviderRegistry {
    /// Cloning shares the same lock-guarded provider map.
    fn clone(&self) -> (r: Self)
        ensures
            r == *self,
    {
        ProviderRegistry {
            global_evaluation_context: self.global_evaluation_context.clone(),
            providers: Arc::clone(&self.providers),
        }
    }
}

impl ProviderRegistry {
    /// Create a registry whose default entry holds the no-op provider.
    pub fn new(evaluation_context: GlobalEvaluationContext) -> Self {
        let mut providers: StringMap<ProviderEntry> = StringMap::new();
        providers.insert(
            String::new(),
            ProviderEntry::new(FeatureProviderWrapper::new(NoOpProvider::default())),
        );
        ProviderRegistry {
            global_evaluation_context: evaluation_context,
            providers: Arc::new(RwLock::new(providers, Ghost(RegistryPred))),
        }
    }

    /// Take and return a read lock on the provider map, for the duration of
    /// one lookup; the map it shows always holds the default entry.
    pub fn read_providers<'a>(&'a self) -> (handle: ReadHandle<
        'a,
        StringMap<ProviderEntry>,
        RegistryPred,
    >)
        ensures
            handle.view()@.contains_key(Seq::<char>::empty()),
    {
        (*self.providers).acquire_read()
    }

    /// Initialize `provider` with the current global context, publish it as
    /// the default provider, and trigger the superseded provider's shutdown
    /// exactly once.
    pub fn set_default<T: FeatureProvider + 'static>(&self, provider: T) {
        self.set_with_name(String::new(), provider);
    }

    /// Initialize `provider` with the current global context, publish it
    /// under `name`, and trigger the superseded provider's shutdown exactly
    /// once, if that name already had one.
    pub fn set_named<T: FeatureProvider + 'static>(&self, name: &str, provider: T) {
        self.set_with_name(name.to_owned(), provider);
    }

    /// Initialization happens before the swap makes the provider visible;
    /// the superseded entry leaves the map during the swap and is shut down
    /// after the lock is released, so replacement never blocks lookups on a
    /// provider's shutdown.
    fn set_with_name<T: FeatureProvider + 'static>(&self, name: String, provider: T) {
        let mut provider = provider;
        let context = self.global_evaluation_context.get_cloned();
        provider.initialize(&context);
        let entry = ProviderEntry::new(FeatureProviderWrapper::new(provider));
        let (mut providers, handle) = (*self.providers).acquire_write();
        let superseded = providers.remove(name.as_str());
        providers.insert(name, entry);
        handle.release_write(providers);
        match superseded {
            Some(mut old_entry) => {
                old_entry.shutdown_once();
            },
            None => {},
        }
    }

    /// Remove every entry and trigger each provider's shutdown exactly once;
    /// the registry is left with a fresh no-op default entry.
    pub fn clear(&self) {
        let mut emptied: StringMap<ProviderEntry> = StringMap::new();
        emptied.insert(
            String::new(),
            ProviderEntry::new(FeatureProviderWrapper::new(NoOpProvider::default())),
        );
        let (mut providers, handle) = (*self.providers).acquire_write();
        std::mem::swap(&mut providers, &mut emptied);
        handle.release_write(providers);
        let mut drained = emptied;
        let mut n = drained.len();
        while n > 0
            invariant
                n == drained@.dom().len(),
            decreases n,
        {
            proof {
                use_type_invariant(&drained);
                drained.lemma_pairs();
            }
            let key = drained.pair_at(0).0.clone();
            proof {
                assert(drained@.contains_key(drained.pairs()[0].0@));
                assert(drained@.contains_key(key@));
            }
            let ghost before = drained@;
            match drained.remove(key.as_str()) {
                Some(mut entry) => {
                    entry.shutdown_once();
                },
                None => {},
            }
            proof {
                assert(drained@.dom() =~= before.dom().remove(key@));
            }
            n = n - 1;
        }
    }
}

impl Default for ProviderRegistry {
    /// The default registry guards a fresh global context and the no-op
    /// default provider.
    fn default() -> Self {
        ProviderRegistry::new(GlobalEvaluationContext::default())
    }
}

} // verus!
