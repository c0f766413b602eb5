//! The fault taxonomy of the call bridge.
//!
//! None of these faults are retried or caught internally: a faulted
//! bridge cannot be safely resumed, and the caller must discard the
//! frame and perform a fresh reset before any further call.

use vstd::prelude::*;

verus! {

/// A fault raised by the bridge.
#[derive(Clone, Copy, Debug, PartialEq, Eq, Structural)]
pub enum Error {
    /// An arena access beyond the addressable range, a jump target that
    /// is null or outside the arena, or a value that does not fit a
    /// fixed-capacity foreign container.
    OutOfRange,
    /// The reserved stack frame region is exhausted.
    StackOverflow,
    /// An opcode the execution loop cannot emulate, or a runaway
    /// execution that exceeded the instruction budget.
    UnsupportedInstruction,
    /// A singleton manager object has not been constructed yet by the
    /// target process.
    NotInitialized,
    /// No code offset and no reimplementation is registered for the
    /// active revision/operation pair.
    VersionUnsupported,
    /// A native call's output violated its documented contract, or a
    /// post-call frame integrity check failed.
    DataFault,
}

} // verus!
