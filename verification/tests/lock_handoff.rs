use std::sync::atomic::{AtomicBool, Ordering};
use std::sync::Arc;

use open_entry_plugin::lock::handle_lock;

/// Stands in for the executor's mutex guard: records the moment it is
/// released.
struct Guard {
    released: Arc<AtomicBool>,
}

impl Drop for Guard {
    fn drop(&mut self) {
        self.released.store(true, Ordering::SeqCst);
    }
}

fn held_guard() -> (Guard, Arc<AtomicBool>) {
    let released = Arc::new(AtomicBool::new(false));
    (
        Guard {
            released: released.clone(),
        },
        released,
    )
}

#[test]
fn drop_request_releases_and_returns_empty() {
    let (guard, released) = held_guard();
    let out = handle_lock(true, Some(guard));
    assert!(out.is_none());
    assert!(released.load(Ordering::SeqCst));
}

#[test]
fn keep_request_returns_lock_still_held() {
    let (guard, released) = held_guard();
    let out = handle_lock(false, Some(guard));
    assert!(!released.load(Ordering::SeqCst));
    let guard_back = out.expect("lock must come back held");
    assert!(Arc::ptr_eq(&guard_back.released, &released));
}

#[test]
fn drop_request_on_released_lock_stays_empty() {
    let out: Option<Guard> = handle_lock(true, None);
    assert!(out.is_none());
}

#[test]
fn keep_request_on_released_lock_stays_empty() {
    let out: Option<Guard> = handle_lock(false, None);
    assert!(out.is_none());
}

#[test]
fn release_happens_before_handle_lock_returns() {
    // The guard must be gone by the time handle_lock hands the empty state
    // back, not at some later scope exit of the caller.
    let (guard, released) = held_guard();
    let lock = Some(guard);
    assert!(!released.load(Ordering::SeqCst));
    let out = handle_lock(true, lock);
    assert!(released.load(Ordering::SeqCst));
    drop(out);
}
