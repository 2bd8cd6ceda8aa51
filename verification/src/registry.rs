//! Registry of package directories whose activation has already been claimed.
//!
//! A claim is the atomic check-and-record step establishing that the caller
//! is now responsible for activating a package. The registry is pure
//! in-memory bookkeeping: claims cannot fail, keys are never removed one by
//! one, and only a reset clears the whole set.

use vstd::prelude::*;

verus! {

/// One claim attempt is granted exactly when the key has not been claimed
/// since the last reset.
pub open spec fn claim_granted(claimed: Set<Seq<char>>, key: Seq<char>) -> bool {
    !claimed.contains(key)
}

/// The claimed-key set after one claim attempt: the key is recorded whether
/// or not the claim was granted, so recording is idempotent.
pub open spec fn after_claim(claimed: Set<Seq<char>>, key: Seq<char>) -> Set<Seq<char>> {
    claimed.insert(key)
}

/// The claimed-key set after a reset: empty, so every key is eligible again.
pub open spec fn after_reset(claimed: Set<Seq<char>>) -> Set<Seq<char>> {
    Set::empty()
}

/// The set of package directories already claimed for activation.
///
/// The view of a registry is the set of claimed keys, each key a package
/// directory path.
pub struct ActivationRegistry {
    claimed: Vec<String>,
}

impl View for ActivationRegistry {
    type V = Set<Seq<char>>;

    closed spec fn view(&self) -> Set<Seq<char>> {
        Set::new(
            |key: Seq<char>|
                exists|i: int| 0 <= i < self.claimed@.len() && #[trigger] self.claimed@[i]@ == key,
        )
    }
}

impl ActivationRegistry {
    /// Each claimed key is stored exactly once between resets.
    pub closed spec fn wf(&self) -> bool {
        forall|i: int, j: int|
            0 <= i < j < self.claimed@.len() ==> #[trigger] self.claimed@[i]@ != #[trigger] self.claimed@[j]@
    }

    /// A fresh registry has no claimed keys.
    pub fn new() -> (registry: ActivationRegistry)
        ensures
            registry.wf(),
            registry@ == Set::<Seq<char>>::empty(),
    {
        let registry = ActivationRegistry { claimed: Vec::new() };
        proof {
            assert(registry@ =~= Set::<Seq<char>>::empty());
        }
        registry
    }

    /// Whether the key has been claimed since the last reset.
    pub fn is_claimed(&self, key: &String) -> (present: bool)
        ensures
            present == self@.contains(key@),
    {
        let mut i: usize = 0;
        while i < self.claimed.len()
            invariant
                i <= self.claimed@.len(),
                forall|j: int| 0 <= j < i ==> #[trigger] self.claimed@[j]@ != key@,
            decreases self.claimed@.len() - i,
        {
            if self.claimed[i] == *key {
                return true;
            }
            i += 1;
        }
        false
    }

    /// Check-and-record under exclusive access: grants the claim exactly when
    /// the key was not yet claimed, and records it either way.
    pub fn try_claim(&mut self, key: &String) -> (granted: bool)
        requires
            old(self).wf(),
        ensures
            final(self).wf(),
            granted == claim_granted(old(self)@, key@),
            final(self)@ == after_claim(old(self)@, key@),
    {
        if self.is_claimed(key) {
            proof {
                assert(after_claim(self@, key@) =~= self@);
            }
            false
        } else {
            self.claimed.push(key.clone());
            proof {
                let n = old(self).claimed@.len() as int;
                assert(self.claimed@[n]@ == key@);
                assert forall|k: Seq<char>|
                    after_claim(old(self)@, key@).contains(k) implies self@.contains(k) by {
                    if k == key@ {
                        assert(self.claimed@[n]@ == k);
                    } else {
                        let i = choose|i: int|
                            0 <= i < old(self).claimed@.len() && #[trigger] old(
                                self,
                            ).claimed@[i]@ == k;
                        assert(self.claimed@[i]@ == k);
                    }
                }
                assert forall|k: Seq<char>| self@.contains(k) implies after_claim(
                    old(self)@,
                    key@,
                ).contains(k) by {
                    let i = choose|i: int|
                        0 <= i < self.claimed@.len() && #[trigger] self.claimed@[i]@ == k;
                    if i < n {
                        assert(old(self).claimed@[i]@ == k);
                    } else {
                        assert(k == key@);
                    }
                }
                assert(self@ =~= after_claim(old(self)@, key@));
            }
            true
        }
    }

    /// Clears every claimed key; the registry object itself survives.
    pub fn reset(&mut self)
        ensures
            final(self).wf(),
            final(self)@ == after_reset(old(self)@),
    {
        self.claimed.clear();
        proof {
            assert(self@ =~= after_reset(old(self)@));
        }
    }
}

/// Lifecycle wrapper around the registry: the registry is created on first
/// use (first relevant file event or first relevant server registration) and
/// then lives until process exit; a reset clears its keys but never destroys
/// it.
///
/// The view of a tracker is the set of claimed keys; while no registry
/// exists yet, that set is empty.
pub struct ActivationTracker {
    registry: Option<ActivationRegistry>,
}

impl View for ActivationTracker {
    type V = Set<Seq<char>>;

    closed spec fn view(&self) -> Set<Seq<char>> {
        match self.registry {
            Some(registry) => registry@,
            None => Set::empty(),
        }
    }
}

impl ActivationTracker {
    /// Whether the registry has been created.
    pub closed spec fn is_initialized(&self) -> bool {
        self.registry is Some
    }

    pub closed spec fn wf(&self) -> bool {
        self.registry matches Some(registry) ==> registry.wf()
    }

    /// A fresh tracker: no registry yet, nothing claimed.
    pub fn new() -> (tracker: ActivationTracker)
        ensures
            tracker.wf(),
            !tracker.is_initialized(),
            tracker@ == Set::<Seq<char>>::empty(),
    {
        ActivationTracker { registry: None }
    }

    /// Idempotently creates the registry if absent; cannot fail, and leaves
    /// an existing registry untouched.
    pub fn ensure_initialized(&mut self)
        requires
            old(self).wf(),
        ensures
            final(self).wf(),
            final(self).is_initialized(),
            final(self)@ == old(self)@,
            old(self).is_initialized() ==> *final(self) == *old(self),
    {
        if self.registry.is_none() {
            self.registry = Some(ActivationRegistry::new());
        }
    }

    /// Whether the registry has been created yet.
    pub fn initialized(&self) -> (created: bool)
        ensures
            created == self.is_initialized(),
    {
        self.registry.is_some()
    }

    /// Whether the key has been claimed since the last reset; an absent
    /// registry claims nothing.
    pub fn is_claimed(&self, key: &String) -> (present: bool)
        ensures
            present == self@.contains(key@),
    {
        match &self.registry {
            Some(registry) => registry.is_claimed(key),
            None => false,
        }
    }

    /// Check-and-record on the registry; while no registry exists, nothing is
    /// claimable and nothing changes.
    pub fn try_claim(&mut self, key: &String) -> (granted: bool)
        requires
            old(self).wf(),
        ensures
            final(self).wf(),
            final(self).is_initialized() == old(self).is_initialized(),
            old(self).is_initialized() ==> granted == claim_granted(old(self)@, key@)
                && final(self)@ == after_claim(old(self)@, key@),
            !old(self).is_initialized() ==> !granted && *final(self) == *old(self),
    {
        match self.registry.take() {
            Some(mut registry) => {
                let granted = registry.try_claim(key);
                self.registry = Some(registry);
                granted
            },
            None => false,
        }
    }

    /// Clears every claimed key; whether a registry exists is unchanged.
    pub fn reset(&mut self)
        requires
            old(self).wf(),
        ensures
            final(self).wf(),
            final(self).is_initialized() == old(self).is_initialized(),
            final(self)@ == after_reset(old(self)@),
    {
        match self.registry.take() {
            Some(mut registry) => {
                registry.reset();
                self.registry = Some(registry);
            },
            None => {
                proof {
                    assert(self@ =~= after_reset(old(self)@));
                }
            },
        }
    }
}

} // verus!
