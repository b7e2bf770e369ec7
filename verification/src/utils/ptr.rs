//! Addresses of engine-side objects.

use vstd::prelude::*;

verus! {

/// The address of an object that lives on the engine's side, such as an engine
/// instance or an execution context. It is never null, and it is only ever
/// compared, never dereferenced.
#[derive(Clone, Copy, Debug, PartialEq, Eq, Hash, Structural)]
pub struct NonNullPtr {
    addr: usize,
}

impl NonNullPtr {
    #[verifier::type_invariant]
    spec fn non_null(self) -> bool {
        self.addr != 0
    }

    /// The address this pointer holds.
    pub closed spec fn addr(self) -> usize {
        self.addr
    }

    /// Wraps an address, unless it is null.
    pub fn new(addr: usize) -> (ret: Option<NonNullPtr>)
        ensures
            addr == 0 <==> ret is None,
            ret matches Some(p) ==> p.addr() == addr,
    {
        if addr == 0 {
            None
        } else {
            Some(NonNullPtr { addr })
        }
    }

    /// The address, which is never zero.
    pub fn as_ptr(&self) -> (ret: usize)
        ensures
            ret == self.addr(),
            ret != 0,
    {
        proof {
            use_type_invariant(self);
        }
        self.addr
    }
}

/// Turns the address that an allocating engine call handed back into a
/// pointer. The engine reports exhausted memory by a null address, which has
/// no pointer: callers rule it out first.
pub fn enforce_not_out_of_memory(ptr: usize) -> (ret: NonNullPtr)
    requires
        ptr != 0,
    ensures
        ret.addr() == ptr,
{
    NonNullPtr { addr: ptr }
}

} // verus!
