//! The entry-point lifecycle and the bindings-layer traffic it produces.
//!
//! The host resolves four symbols and drives them; the plugin itself only
//! ever reaches the host back through the bindings layer. Which bindings
//! calls each entry point issues, and in what order, is the initialization
//! contract: the registration call must come first in every session, and
//! no entry point other than the initialization hook issues any bindings
//! call at all. This module states that contract over explicit call
//! sequences and proves it.

use vstd::prelude::*;
use crate::event::Event;

verus! {

/// The value the initialization hook's spawned task writes to the
/// per-extension data slot and reads back as a startup self-check.
pub const SLOT_CHECK_VALUE: i32 = 12345;

/// One call from the plugin into the host bindings layer.
#[derive(Clone, Copy, Debug, PartialEq, Eq, Structural)]
pub enum BindingsCall {
    /// The bindings-layer initializer: stores the runtime handle and the
    /// assigned extension id in process-wide bindings state. Every other
    /// bindings facility is undefined until this has happened.
    Register { id: u32 },
    /// Spawn a task on the runtime's task executor that writes `value` to
    /// the per-extension data slot, reads it back and checks the round
    /// trip.
    SpawnSlotCheck { value: i32 },
}

/// One invocation of an entry point by the host, with the inputs that
/// determine its bindings-layer traffic.
#[derive(Clone, Copy, Debug, PartialEq, Eq, Structural)]
pub enum EntryCall {
    /// The initialization hook, with the extension id the host assigned.
    Init { id: u32 },
    /// The event sink.
    EventRecv,
    /// The interrupt opcode handler.
    Interrupt,
    /// The function-call opcode handler.
    FunctionCall,
}

/// The bindings calls the initialization hook issues, in order:
/// registration first, then the spawn of the data-slot self-check.
pub open spec fn init_traffic(id: u32) -> Seq<BindingsCall> {
    seq![
        BindingsCall::Register { id },
        BindingsCall::SpawnSlotCheck { value: SLOT_CHECK_VALUE },
    ]
}

/// The bindings calls one entry-point invocation issues. Only the
/// initialization hook produces any.
pub open spec fn traffic(call: EntryCall) -> Seq<BindingsCall> {
    match call {
        EntryCall::Init { id } => init_traffic(id),
        EntryCall::EventRecv => Seq::empty(),
        EntryCall::Interrupt => Seq::empty(),
        EntryCall::FunctionCall => Seq::empty(),
    }
}

/// All bindings calls of a session, in the order the host's invocations
/// produce them.
pub open spec fn session_traffic(calls: Seq<EntryCall>) -> Seq<BindingsCall>
    decreases calls.len(),
{
    if calls.len() == 0 {
        Seq::empty()
    } else {
        traffic(calls.first()) + session_traffic(calls.drop_first())
    }
}

/// The initialization hook's decision: the ordered list of bindings calls
/// to perform. The shim that exports the symbol performs them in order,
/// so the bindings-layer initializer runs before any other bindings
/// facility is touched.
pub fn vm_init(id: u32) -> (calls: Vec<BindingsCall>)
    ensures
        calls@ == init_traffic(id),
{
    let mut calls: Vec<BindingsCall> = Vec::new();
    calls.push(BindingsCall::Register { id });
    calls.push(BindingsCall::SpawnSlotCheck { value: SLOT_CHECK_VALUE });
    proof {
        assert(calls@ =~= init_traffic(id));
    }
    calls
}

/// The event sink's decision for one delivered event: accept it, whatever
/// it is, mutate nothing, and issue no bindings call.
pub fn vm_event_recv(_event: &Event) -> (calls: Vec<BindingsCall>)
    ensures
        calls@ == Seq::<BindingsCall>::empty(),
{
    let calls: Vec<BindingsCall> = Vec::new();
    calls
}

/// Init ordering law, first half: in every session that begins with the
/// initialization hook, the bindings-layer registration — carrying the id
/// the host assigned — is the first bindings call observed.
pub proof fn lemma_init_registers_first(calls: Seq<EntryCall>, id: u32)
    requires
        calls.len() > 0,
        calls.first() == (EntryCall::Init { id }),
    ensures
        session_traffic(calls).len() >= 2,
        session_traffic(calls).first() == (BindingsCall::Register { id }),
{
    assert(session_traffic(calls) == traffic(calls.first()) + session_traffic(calls.drop_first()));
    assert(init_traffic(id)[0] == (BindingsCall::Register { id }));
}

/// Init ordering law, second half: a session in which the host (or a
/// hostile harness) never invokes the initialization hook produces no
/// bindings-layer traffic at all.
pub proof fn lemma_silent_without_init(calls: Seq<EntryCall>)
    requires
        forall|i: int| 0 <= i < calls.len() ==> !(calls[i] is Init),
    ensures
        session_traffic(calls) == Seq::<BindingsCall>::empty(),
    decreases calls.len(),
{
    if calls.len() > 0 {
        assert(!(calls[0] is Init));
        let rest = calls.drop_first();
        assert forall|i: int| 0 <= i < rest.len() implies !(rest[i] is Init) by {
            assert(rest[i] == calls[i + 1]);
        }
        lemma_silent_without_init(rest);
        assert(session_traffic(calls) =~= Seq::<BindingsCall>::empty());
    }
}

} // verus!
