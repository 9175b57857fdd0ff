//! Events the runtime or peer extensions deliver to the event sink.

use vstd::prelude::*;
use crate::behaviour::ShutdownKind;

verus! {

/// One event delivered to the sink.
///
/// The catalog belongs to the host; the sink must accept every variant
/// without failing, including ones it does not recognize. A foreign event
/// carries an opaque payload owned by the sending extension; only its
/// routing data is visible to the plugin.
#[derive(Clone, Copy, Debug, PartialEq, Eq, Structural)]
pub enum Event {
    /// The virtual machine started running.
    VmRun,
    /// The virtual machine reached the end of its program.
    VmEnd,
    /// The virtual machine is shutting down.
    VmShutdown(ShutdownKind),
    /// A call from another extension: the sender's extension id and the
    /// sender-chosen event id.
    Foreign { from: u32, event: u32 },
}

} // verus!
