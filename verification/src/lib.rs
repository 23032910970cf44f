//! Final safety gate of a segmented-memory virtual machine.
//!
//! After a run completes, its memory trace is relocated into a single flat
//! address space and consumed downstream. Before that relocation may happen,
//! the run must be shown to have touched only memory it was authorized to
//! touch, and no placeholder (temporary) address may survive in real memory.
//! This crate holds the address model, the frozen segment store, the
//! capability contract each builtin satisfies, and the verification pass
//! itself, with the verdict of the pass pinned down by `verify_spec`.

pub mod builtins;
pub mod memory;
pub mod relocatable;
pub mod security;
