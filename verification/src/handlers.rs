//! The two opcode handlers: interrupts and function calls.
//!
//! The executor invokes a handler to service a custom opcode, handing over
//! the virtual-thread handle, its current lock value, the 32-bit opcode id
//! and its request for the lock's post-state. The two handlers share one
//! contract and differ only in the semantic domain of the opcode: an
//! interrupt works on VM registers alone, a function call also reaches the
//! VM stack frame. Opcode ids are allocated by the host, so an id this
//! plugin does not recognize is serviced as a no-op rather than an error;
//! this plugin recognizes none, treats every id that way, and never asks
//! the executor for more than the next instruction.

use vstd::prelude::*;
use crate::behaviour::Behaviour;
use crate::lock::{handle_lock, lock_after};

verus! {

/// Services one custom interrupt opcode on behalf of virtual thread
/// `_thread`: a no-op that obeys the executor's lock request and lets it
/// advance to the next instruction.
pub fn vm_interrupt<T, G>(
    _thread: T,
    lock: Option<G>,
    _id: u32,
    should_drop: bool,
) -> (r: (Option<G>, Behaviour))
    ensures
        r.0 == lock_after(should_drop, lock),
        r.1 == Behaviour::Advance,
{
    (handle_lock(should_drop, lock), Behaviour::Advance)
}

/// Services one custom function-call opcode on behalf of virtual thread
/// `_thread`: a no-op that obeys the executor's lock request and lets it
/// advance to the next instruction. A function call that touched VM
/// registers would have to restore them; this one touches none.
pub fn vm_function_call<T, G>(
    _thread: T,
    lock: Option<G>,
    _id: u32,
    should_drop: bool,
) -> (r: (Option<G>, Behaviour))
    ensures
        r.0 == lock_after(should_drop, lock),
        r.1 == Behaviour::Advance,
{
    (handle_lock(should_drop, lock), Behaviour::Advance)
}

} // verus!
