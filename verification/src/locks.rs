//! Per-resource serialization of webhook deliveries.
//!
//! A registry maps each resource id to one exclusive handle, created on its
//! first delivery and kept for the life of the registry. Deliveries for the
//! same resource take that handle's lock around their decision section, so
//! two of them never run it at once; deliveries for different resources do
//! not contend. The registry's bookkeeping — one lock per id, kept for
//! life — is verified; the mutex itself is the standard library's, behind
//! trusted wrappers, and blocking is performed by the embedding process,
//! never by a verified function.

use std::sync::Arc;
use std::sync::Mutex;
use std::sync::MutexGuard;
use std::sync::TryLockError;

use vstd::prelude::*;

verus! {

/// The identity of the mutex behind a handle: handles with equal `lock_id`
/// contend on one lock. Spoken for by [`LockHandle::duplicate`].
pub uninterp spec fn lock_id(h: LockHandle) -> int;

/// The exclusive handle of one resource id. Duplicates share the same
/// underlying mutex, so every delivery for an id contends on one lock.
#[verifier::external_body]
pub struct LockHandle {
    inner: Arc<Mutex<()>>,
}

/// Witness that a handle's lock is held; dropping it releases the lock, so
/// release happens on every exit path.
#[verifier::external_body]
pub struct LockGuard<'a> {
    inner: MutexGuard<'a, ()>,
}

impl LockHandle {
    /// Relies on `std::sync::Mutex::new` and `std::sync::Arc::new`: a fresh
    /// handle around a new, unlocked mutex.
    #[verifier::external_body]
    fn new() -> LockHandle {
        LockHandle { inner: Arc::new(Mutex::new(())) }
    }

    /// Relies on `std::sync::Arc::clone`: the duplicate shares the same
    /// underlying mutex as `self`.
    #[verifier::external_body]
    fn duplicate(&self) -> (r: LockHandle)
        ensures
            lock_id(r) == lock_id(*self),
    {
        LockHandle { inner: Arc::clone(&self.inner) }
    }

    /// Relies on `std::sync::Mutex::lock`: returns once no other guard of
    /// this mutex is alive, and the guard excludes all others until dropped.
    /// A poisoned mutex is taken over rather than propagated: it protects
    /// `()`, so no data invariant can have been broken.
    ///
    /// Hazard, per the standard library's documentation: a thread that
    /// already holds a guard of this mutex and calls this again deadlocks
    /// or panics. No verified function of this crate calls `acquire`: the
    /// embedding process acquires, once per delivery, and hands the guard
    /// to the decision functions.
    #[verifier::external_body]
    pub fn acquire(&self) -> LockGuard<'_> {
        LockGuard {
            inner: match self.inner.lock() {
                Ok(g) => g,
                Err(poisoned) => poisoned.into_inner(),
            },
        }
    }

    /// Relies on `std::sync::Mutex::try_lock`: yields a guard exactly when
    /// no other guard of this mutex is alive, without blocking and without
    /// panicking.
    #[verifier::external_body]
    pub fn try_acquire(&self) -> Option<LockGuard<'_>> {
        match self.inner.try_lock() {
            Ok(g) => Some(LockGuard { inner: g }),
            Err(TryLockError::Poisoned(poisoned)) => Some(
                LockGuard { inner: poisoned.into_inner() },
            ),
            Err(TryLockError::WouldBlock) => None,
        }
    }
}

/// One lock handle per resource id, created on first use and never removed:
/// id cardinality is bounded by operator configuration, not request volume.
pub struct LockRegistry {
    entries: Vec<(String, LockHandle)>,
}

impl LockRegistry {
    /// The ids in registration order.
    pub closed spec fn key_seq(self) -> Seq<Seq<char>> {
        self.entries@.map_values(|e: (String, LockHandle)| e.0@)
    }

    /// The lock identities in registration order: `handle_ids()[k]` is the
    /// mutex behind the entry of `key_seq()[k]`.
    pub closed spec fn handle_ids(self) -> Seq<int> {
        self.entries@.map_values(|e: (String, LockHandle)| lock_id(e.1))
    }

    /// The ids that already own a handle.
    pub open spec fn ids(self) -> Set<Seq<char>> {
        self.key_seq().to_set()
    }

    /// Each id owns at most one handle.
    pub closed spec fn wf(self) -> bool {
        forall|i: int, j: int|
            0 <= i < j < self.key_seq().len() ==> self.key_seq()[i] != self.key_seq()[j]
    }

    /// An empty registry.
    pub fn new() -> (r: LockRegistry)
        ensures
            r.wf(),
            r.ids() == Set::<Seq<char>>::empty(),
            r.key_seq().len() == 0,
    {
        let r = LockRegistry { entries: Vec::new() };
        proof {
            assert(r.ids() =~= Set::<Seq<char>>::empty());
        }
        r
    }

    /// The handle of `id`, created now if this is the id's first delivery.
    /// Afterwards the registry covers `id` and everything it covered
    /// before; every existing entry keeps its id and its lock, and the
    /// returned handle shares the lock of the entry that now bears `id` —
    /// so every later lookup of `id` hands back that same lock.
    pub fn get_or_create(&mut self, id: &String) -> (h: LockHandle)
        requires
            old(self).wf(),
        ensures
            final(self).wf(),
            final(self).ids() == old(self).ids().insert(id@),
            old(self).key_seq().len() <= final(self).key_seq().len(),
            forall|k: int|
                0 <= k < old(self).key_seq().len()
                    ==> final(self).key_seq()[k] == old(self).key_seq()[k],
            forall|k: int|
                0 <= k < old(self).key_seq().len()
                    ==> final(self).handle_ids()[k] == old(self).handle_ids()[k],
            exists|k: int|
                0 <= k < final(self).key_seq().len() && final(self).key_seq()[k] == id@
                    && final(self).handle_ids()[k] == lock_id(h),
    {
        let n = self.entries.len();
        let mut i: usize = 0;
        while i < n
            invariant
                *self == *old(self),
                self.wf(),
                n == self.entries.len(),
                i <= n,
                forall|k: int| 0 <= k < i ==> self.key_seq()[k] != id@,
            decreases n - i,
        {
            if self.entries[i].0 == *id {
                let found = self.entries[i].1.duplicate();
                proof {
                    assert(self.key_seq()[i as int] == id@);
                    assert(self.key_seq().contains(id@));
                    assert(self.ids().insert(id@) =~= self.ids());
                    assert(self.handle_ids()[i as int] == lock_id(found));
                }
                return found;
            }
            i += 1;
        }
        let handle = LockHandle::new();
        let ghost before = self.key_seq();
        let ghost before_ids = self.handle_ids();
        let entry = (id.clone(), handle.duplicate());
        proof {
            assert(entry.0@ == id@);
        }
        self.entries.push(entry);
        proof {
            let after = self.key_seq();
            assert(after.len() == before.len() + 1);
            assert forall|k: int| 0 <= k < before.len() implies after[k] == before[k] by {}
            assert forall|k: int| 0 <= k < before_ids.len() implies self.handle_ids()[k]
                == before_ids[k] by {}
            assert(after[before.len() as int] == id@);
            assert(self.handle_ids()[before.len() as int] == lock_id(handle));
            assert(after =~= before.push(id@));
            before.lemma_push_to_set_commute(id@);
        }
        handle
    }
}

/// Law: a well-formed registry holds at most one lock per id — any two
/// entries bearing the same id are the same entry, with the same lock.
pub proof fn lemma_one_lock_per_id(r: LockRegistry, j: int, k: int)
    requires
        r.wf(),
        0 <= j < r.key_seq().len(),
        0 <= k < r.key_seq().len(),
        r.key_seq()[j] == r.key_seq()[k],
    ensures
        j == k,
        r.handle_ids()[j] == r.handle_ids()[k],
{
}

/// Law: registry identity — two lookups of the same id, in whatever order
/// and with any others between them, return handles of one and the same
/// mutex, so their acquirers exclude each other. The hypotheses are what
/// [`LockRegistry::get_or_create`] ensures of each lookup: `before` is the
/// registry as the first lookup left it, having returned `h1`; `after` is
/// the registry as the second lookup left it, having returned `h2`, with
/// every entry of `before` preserved in between.
pub proof fn lemma_registry_identity(
    before: LockRegistry,
    after: LockRegistry,
    id: Seq<char>,
    h1: LockHandle,
    h2: LockHandle,
)
    requires
        after.wf(),
        exists|k: int|
            0 <= k < before.key_seq().len() && before.key_seq()[k] == id && before.handle_ids()[k]
                == lock_id(h1),
        before.key_seq().len() <= after.key_seq().len(),
        forall|k: int| 0 <= k < before.key_seq().len() ==> after.key_seq()[k] == before.key_seq()[k],
        forall|k: int|
            0 <= k < before.key_seq().len() ==> after.handle_ids()[k] == before.handle_ids()[k],
        exists|k: int|
            0 <= k < after.key_seq().len() && after.key_seq()[k] == id && after.handle_ids()[k]
                == lock_id(h2),
    ensures
        lock_id(h1) == lock_id(h2),
{
    let k1 = choose|k: int|
        0 <= k < before.key_seq().len() && before.key_seq()[k] == id && before.handle_ids()[k]
            == lock_id(h1);
    let k2 = choose|k: int|
        0 <= k < after.key_seq().len() && after.key_seq()[k] == id && after.handle_ids()[k]
            == lock_id(h2);
    assert(after.key_seq()[k1] == id);
    lemma_one_lock_per_id(after, k1, k2);
}

/// The process-wide registry serializing procedure deliveries: the embedding
/// process creates exactly one and keeps it for its lifetime.
pub fn procedure_locks() -> (r: LockRegistry)
    ensures
        r.wf(),
        r.ids() == Set::<Seq<char>>::empty(),
        r.key_seq().len() == 0,
{
    LockRegistry::new()
}

/// The process-wide registry serializing stack deliveries, independent of
/// the procedure registry so one kind never blocks the other.
pub fn stack_locks() -> (r: LockRegistry)
    ensures
        r.wf(),
        r.ids() == Set::<Seq<char>>::empty(),
        r.key_seq().len() == 0,
{
    LockRegistry::new()
}

} // verus!
