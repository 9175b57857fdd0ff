//! The lock-handoff protocol of the block-scoped locking executor.
//!
//! Around each custom opcode the executor acquires its mutex and hands the
//! guard to the handler; the handler returns the lock the executor should
//! hold afterward. The guard itself is owned by the host and opaque to the
//! plugin, so everything here is generic over the guard type `G`: a lock
//! value is `Some(guard)` while held and `None` once released.

use vstd::prelude::*;

verus! {

/// The lock value a handler must return for a given request.
///
/// `should_drop` is the executor's request for the post-state: `true` asks
/// for the lock to be released, `false` asks for it back unchanged.
pub open spec fn lock_after<G>(should_drop: bool, lock: Option<G>) -> Option<G> {
    if should_drop {
        None
    } else {
        lock
    }
}

/// Consumes a guard, releasing the underlying mutex at the call site.
///
/// Taking the guard by value ends its lifetime here, so the release happens
/// eagerly, before the caller returns, not at some later scope exit.
pub fn release<G>(_guard: G) {
}

/// Turns the executor's request and the lock it handed over into the lock
/// value to return: released when `should_drop` asks for it, unchanged
/// otherwise. The single place the handoff protocol is encoded; every
/// handler delegates to it.
#[inline(always)]
pub fn handle_lock<G>(should_drop: bool, lock: Option<G>) -> (out: Option<G>)
    ensures
        out == lock_after(should_drop, lock),
{
    if should_drop {
        release(lock);
        None
    } else {
        lock
    }
}

/// Lock handoff law: for every lock value, a `true` request yields the
/// released state and a `false` request returns the lock untouched.
pub proof fn lemma_lock_handoff<G>(lock: Option<G>)
    ensures
        lock_after(true, lock) is None,
        lock_after(false, lock) == lock,
{
}

} // verus!
