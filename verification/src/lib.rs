//! A hint execution bridge for a deterministic register machine.
//!
//! The machine executes instructions over a segmented, write-once
//! memory; hints are fragments of dynamically typed code attached to
//! program locations, run by an embedded scripting engine before the
//! location's instruction. This crate holds the bridge between the two
//! worlds: the address model and the memory store, the segment
//! allocator with structured bulk writes, the identifier resolver that
//! turns symbolic names into addresses, the persistent scope stack,
//! the per-step hint dispatch, and the signature side-channel. The
//! engine itself and the machine's instruction execution are external
//! collaborators: the bridge applies their reported outcomes under
//! proved invariants.

pub mod errors;
pub mod felt;
pub mod relocatable;
pub mod memory;
pub mod memory_segments;
pub mod scope_manager;
pub mod ids;
pub mod vm_core;
pub mod ecdsa;
