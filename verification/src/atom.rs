//! Interned identifiers that own a share in the engine's reference count.

use crate::engine::EngineCall;
use crate::utils::ptr::NonNullPtr;
use vstd::prelude::*;

verus! {

/// The atom that stands for "no atom". No [`Atom`] holds it.
pub const ATOM_NULL: u32 = 0;

/// An interned identifier, owned: the atom holds one share in the engine's
/// count for it. Atoms belong to a runtime, not to a context.
#[derive(Debug, PartialEq, Eq, Structural)]
pub struct Atom {
    rt: NonNullPtr,
    atom: u32,
}

impl Atom {
    #[verifier::type_invariant]
    spec fn inv(self) -> bool {
        self.atom != ATOM_NULL
    }

    /// The atom of the runtime `rt` with the engine's number `atom`.
    pub closed spec fn model(rt: NonNullPtr, atom: u32) -> Atom {
        Atom { rt, atom }
    }

    /// An atom is what its runtime and its number say.
    pub proof fn lemma_model(rt: NonNullPtr, atom: u32)
        ensures
            Atom::model(rt, atom).runtime() == rt,
            Atom::model(rt, atom).raw() == atom,
    {
    }

    /// The runtime that interned the atom.
    pub closed spec fn runtime(self) -> NonNullPtr {
        self.rt
    }

    /// The engine's number for the atom.
    pub closed spec fn raw(self) -> u32 {
        self.atom
    }

    /// Takes over one share in `atom`, which `rt` has interned and counted
    /// for the caller already. The null atom is no atom at all.
    pub fn from_raw(rt: NonNullPtr, atom: u32) -> (ret: Atom)
        requires
            atom != ATOM_NULL,
        ensures
            ret == Atom::model(rt, atom),
            ret.runtime() == rt,
            ret.raw() == atom,
    {
        Atom { rt, atom }
    }

    /// Reads the atom that an engine call answered with: the null atom says
    /// that the call threw, any other is taken over as by [`Atom::from_raw`].
    pub fn try_from_raw(rt: NonNullPtr, atom: u32) -> (ret: Option<Atom>)
        ensures
            ret == if atom == ATOM_NULL {
                None
            } else {
                Some(Atom::model(rt, atom))
            },
    {
        if atom == ATOM_NULL {
            None
        } else {
            Some(Atom::from_raw(rt, atom))
        }
    }

    /// The engine's number for the atom; the share stays with `self`.
    pub fn as_raw(&self) -> (atom: u32)
        ensures
            atom == self.raw(),
            atom != ATOM_NULL,
    {
        proof {
            use_type_invariant(self);
        }
        self.atom
    }

    /// The runtime that interned the atom.
    pub fn get_runtime(&self) -> (rt: NonNullPtr)
        ensures
            rt == self.runtime(),
    {
        self.rt
    }

    /// A second owner of the same atom, and the call that takes its share.
    pub fn duplicate(&self) -> (ret: (Atom, EngineCall))
        ensures
            ret.0 == *self,
            ret.1 == (EngineCall::DupAtom { runtime: self.runtime(), atom: self.raw() }),
    {
        proof {
            use_type_invariant(self);
        }
        (
            Atom { rt: self.rt, atom: self.atom },
            EngineCall::DupAtom { runtime: self.rt, atom: self.atom },
        )
    }

    /// Ends this owner: the call that gives its share up.
    pub fn release(self) -> (call: EngineCall)
        ensures
            call == (EngineCall::FreeAtom { runtime: self.runtime(), atom: self.raw() }),
    {
        EngineCall::FreeAtom { runtime: self.rt, atom: self.atom }
    }
}

} // verus!
