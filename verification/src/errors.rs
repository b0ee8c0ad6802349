use vstd::prelude::*;

verus! {

/// The closed set of adapter-level failure kinds.
///
/// The protocol layer only understands a coarse fatal / non-fatal vocabulary;
/// the structured kind is kept so that logs and tests see the original cause
/// and only the outermost boundary collapses it.
#[derive(Debug, Clone, Copy, PartialEq, Eq, Structural)]
pub enum TricoreTargetError {
    /// A thread identifier outside the registered range.
    InvalidCoreReference(usize),
    /// A named register could not be located or read.
    RegisterAccessFailure,
    /// A memory read or write outside accessible ranges, or a transport
    /// fault; the debug session survives it.
    MemoryAccessFailure,
    /// Trigger creation, download, or removal failed on some core.
    BreakpointOperationFailure(u32),
    /// An operation intentionally not implemented; it fails loudly instead
    /// of silently doing nothing.
    UnsupportedOperation,
}

/// The diagnostic wording of each failure kind.
pub open spec fn spec_error_description(e: TricoreTargetError) -> Seq<char> {
    match e {
        TricoreTargetError::InvalidCoreReference(_) => "specified invalid core"@,
        TricoreTargetError::RegisterAccessFailure => "cannot read the register window"@,
        TricoreTargetError::MemoryAccessFailure => "memory access failed"@,
        TricoreTargetError::BreakpointOperationFailure(_) => "breakpoint operation failed"@,
        TricoreTargetError::UnsupportedOperation => "operation not supported"@,
    }
}

impl TricoreTargetError {
    /// Whether this failure ends the debug session. Memory-access faults are
    /// reported to the debugger as a failed request and the session goes on;
    /// every other kind is fatal at the protocol boundary.
    pub fn is_fatal(&self) -> (r: bool)
        ensures
            r <==> !(*self is MemoryAccessFailure),
    {
        match self {
            TricoreTargetError::MemoryAccessFailure => false,
            _ => true,
        }
    }

    /// The diagnostic text for logs and for the protocol layer's rendering.
    pub fn description(&self) -> (r: &'static str)
        ensures
            r@ == spec_error_description(*self),
    {
        match self {
            TricoreTargetError::InvalidCoreReference(_) => "specified invalid core",
            TricoreTargetError::RegisterAccessFailure => "cannot read the register window",
            TricoreTargetError::MemoryAccessFailure => "memory access failed",
            TricoreTargetError::BreakpointOperationFailure(_) => "breakpoint operation failed",
            TricoreTargetError::UnsupportedOperation => "operation not supported",
        }
    }
}

} // verus!
