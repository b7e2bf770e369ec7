//! The calls into the engine that the crate's operations owe.

use crate::utils::ptr::NonNullPtr;
use crate::value::RawValue;
use vstd::prelude::*;

verus! {

/// One call into the engine that the holder of the runtime owes.
///
/// The library never calls the engine. Where an operation takes or gives up
/// a share in an engine-owned object, it says so by handing back the call
/// that moves the engine's count, and the caller, on a thread that holds the
/// runtime, makes it. Calls that come in a list are made first to last.
#[derive(Clone, Copy, Debug, PartialEq, Eq, Structural)]
pub enum EngineCall {
    /// Take one more share in a reference-counted value.
    DupValue { runtime: NonNullPtr, value: RawValue },
    /// Give up one share in a reference-counted value.
    FreeValue { runtime: NonNullPtr, value: RawValue },
    /// Take one more share in an atom.
    DupAtom { runtime: NonNullPtr, atom: u32 },
    /// Give up one share in an atom.
    FreeAtom { runtime: NonNullPtr, atom: u32 },
    /// Take one more share in an execution context.
    DupContext { context: NonNullPtr },
    /// Give up one share in an execution context.
    FreeContext { context: NonNullPtr },
    /// Run the jobs that are still queued on the runtime.
    ExecutePendingJobs { runtime: NonNullPtr },
    /// Free the engine instance itself.
    FreeRuntime { runtime: NonNullPtr },
}

impl EngineCall {
    /// Whether the call gives up a share, that is, whether it is one of the
    /// engine's release primitives.
    pub open spec fn is_release(self) -> bool {
        self is FreeValue || self is FreeAtom || self is FreeContext
    }
}

} // verus!
