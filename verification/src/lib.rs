//! Core of an OpenEntry extension plugin, verified with Verus.
//!
//! An OpenEntry extension is a dynamically loaded artifact that the host
//! virtual machine drives through four entry points: an initialization hook,
//! an event sink, and two opcode handlers (interrupts and function calls).
//! This crate holds the decision logic behind those entry points:
//!
//! * the lock-handoff protocol for the executor's block-scoped locking
//!   discipline ([`lock`]),
//! * the opcode handlers' result assembly ([`handlers`]),
//! * the initialization sequence and the bindings-layer traffic each entry
//!   point is allowed to produce ([`lifecycle`]),
//! * a typed model of the per-extension data slot ([`slot`]).
//!
//! The executor lock guard, the virtual-thread handle and the runtime handle
//! are owned by the host and opaque to the plugin; the functions here are
//! generic over them, so the host's real values flow through the verified
//! code unchanged. The thin layer that exports the entry-point symbols,
//! performs I/O and talks to the host bindings lives outside this crate.

pub mod behaviour;
pub mod event;
pub mod handlers;
pub mod lifecycle;
pub mod lock;
pub mod slot;
