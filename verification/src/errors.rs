//! Error taxonomy for the hint execution bridge.
//!
//! Every failure inside the bridge is fatal to the current step; the run
//! driver decides whether to abort or report. Errors carry no payload so
//! that they compare structurally in contracts and tests.

use vstd::prelude::*;

verus! {

/// Failures of the segmented memory store and of address arithmetic.
#[derive(Clone, Copy, Debug, PartialEq, Eq, Structural)]
pub enum MemoryError {
    /// A write or read addressed a segment that was never allocated.
    UnallocatedSegment,
    /// A cell already holds a different value (memory is write-once).
    InconsistentMemory,
    /// A read found no value at the addressed cell.
    UnknownMemoryCell,
    /// An address was found where a field element was required.
    ExpectedInteger,
    /// A field element was found where an address was required.
    ExpectedRelocatable,
    /// Subtraction of addresses that lie in different segments.
    DifferentSegments,
    /// An offset computation left the representable range.
    OffsetOutOfRange,
}

/// Failures of the scope frame stack.
#[derive(Clone, Copy, Debug, PartialEq, Eq, Structural)]
pub enum ScopeError {
    /// An exit was attempted while only the main frame remained.
    ExitMainScope,
    /// A lookup named a variable absent from the current frame.
    VariableNotInScope,
}

/// Failures of the identifier resolver.
#[derive(Clone, Copy, Debug, PartialEq, Eq, Structural)]
pub enum IdentifierError {
    /// No reference is recorded for the requested name.
    UnresolvedReference,
    /// A value path named a field absent from the struct layout.
    UnknownField,
    /// A write through a reference that does not denote an address.
    CannotAssignToExpression,
}

/// Failures surfaced by the embedded scripting engine.
#[derive(Clone, Copy, Debug, PartialEq, Eq, Structural)]
pub enum HintError {
    /// The hint body raised a syntax or runtime error.
    ScriptFailure,
}

/// Failures of the signature side-channel.
#[derive(Clone, Copy, Debug, PartialEq, Eq, Structural)]
pub enum SignatureError {
    /// A signature address lies outside the verification builtin's segment.
    AddressOutOfRange,
}

/// Umbrella error: any failure that aborts the current step.
#[derive(Clone, Copy, Debug, PartialEq, Eq, Structural)]
pub enum VmError {
    Memory(MemoryError),
    Scope(ScopeError),
    Identifier(IdentifierError),
    Hint(HintError),
    Signature(SignatureError),
}

} // verus!
