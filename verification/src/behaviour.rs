//! What an opcode handler tells the executor to do next.

use vstd::prelude::*;

verus! {

/// How the virtual machine should go down when a handler requests shutdown.
///
/// These variants are host-reserved: this plugin never emits them, but a
/// handler result must be able to carry them so that the surrounding shim
/// can translate every value the executor understands.
#[derive(Clone, Copy, Debug, PartialEq, Eq, Structural)]
pub enum ShutdownKind {
    /// A shutdown with no stated reason.
    Unspecified,
    /// Stop after the current instruction, releasing resources in order.
    Graceful,
    /// Stop and start the virtual machine again.
    Restart,
    /// Stop because of an unrecoverable fault.
    Fault,
}

/// What the executor should do once an opcode handler returns.
#[derive(Clone, Copy, Debug, PartialEq, Eq, Structural)]
pub enum Behaviour {
    /// Advance to the next instruction.
    Advance,
    /// Shut the executor down. Host-reserved: the handlers in this crate
    /// never return it.
    Shutdown(ShutdownKind),
}

} // verus!
