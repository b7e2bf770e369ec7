//! Execution contexts, and what a call through one asks of its arguments
//! and makes of its answer.

use crate::atom::{Atom, ATOM_NULL};
use crate::engine::EngineCall;
use crate::runtime::{free_atoms, GlobalAtom, Runtime, RuntimeModel};
use crate::utils::cstr::{has_nul, is_first_nul, ContainNul, MaybeTinyCString};
use crate::utils::ptr::NonNullPtr;
use crate::utils::vec::MaybeTinyVec;
use crate::value::{RawValue, Value};
use crate::InvalidRuntime;
use vstd::prelude::*;
use vstd::string::{StringExecFns, StringSliceAdditionalSpecFns};

verus! {

/// An own property key of an object, and whether the property shows up when
/// the object's properties are listed.
#[derive(Debug)]
pub struct OwnAtom {
    pub atom: Atom,
    pub is_enumerable: bool,
}

/// The raw forms of `values`, in their order.
pub open spec fn raw_values(values: Seq<Value>) -> Seq<RawValue> {
    values.map_values(|v: Value| v.raw())
}

/// What is thrown at a string that cannot be a C string because of the NUL
/// at `pos`.
pub open spec fn nul_message(pos: nat) -> Seq<char> {
    "convert string: unexpected nul at "@ + ContainNul(pos as usize).message()
}

/// An execution context: one share in an engine-side context object, and the
/// runtime it was drawn from. Many may exist per runtime, each is released on
/// its own, and none may outlive the runtime.
#[derive(Debug, PartialEq, Eq, Structural)]
pub struct Context {
    /// The runtime that the context was drawn from.
    pub rt: NonNullPtr,
    /// The address of the engine-side context.
    pub ptr: NonNullPtr,
}

impl Context {
    /// The runtime that the context was drawn from.
    pub open spec fn runtime(self) -> NonNullPtr {
        self.rt
    }

    /// The address of the engine-side context.
    pub open spec fn raw(self) -> NonNullPtr {
        self.ptr
    }

    /// Takes over one share in the context at `ptr`, which belongs to the
    /// runtime `rt`.
    pub fn from_raw(rt: NonNullPtr, ptr: NonNullPtr) -> (ctx: Context)
        ensures
            ctx.runtime() == rt,
            ctx.raw() == ptr,
    {
        Context { rt, ptr }
    }

    /// The runtime that the context was drawn from.
    pub fn get_runtime(&self) -> (rt: NonNullPtr)
        ensures
            rt == self.runtime(),
    {
        self.rt
    }

    /// The address of the engine-side context; the share stays with `self`.
    pub fn as_raw(&self) -> (ptr: NonNullPtr)
        ensures
            ptr == self.raw(),
    {
        self.ptr
    }

    /// A second owner of the same context, and the call that takes its share.
    pub fn duplicate(&self) -> (ret: (Context, EngineCall))
        ensures
            ret.0 == *self,
            ret.1 == (EngineCall::DupContext { context: self.raw() }),
    {
        (Context { rt: self.rt, ptr: self.ptr }, EngineCall::DupContext { context: self.ptr })
    }

    /// Ends this owner. The runtime's queued jobs are run first, so that none
    /// is left pointing at the context; then the share is given up.
    pub fn release(self) -> (calls: Vec<EngineCall>)
        ensures
            calls@ == seq![
                EngineCall::ExecutePendingJobs { runtime: self.runtime() },
                EngineCall::FreeContext { context: self.raw() },
            ],
    {
        let mut calls: Vec<EngineCall> = Vec::new();
        calls.push(EngineCall::ExecutePendingJobs { runtime: self.rt });
        calls.push(EngineCall::FreeContext { context: self.ptr });
        calls
    }

    /// Whether `value` may be handed to the engine through this context: it
    /// is plain, or its object lives in the context's runtime.
    pub open spec fn accepts_value(self, value: Value) -> bool {
        value.runtime() matches Some(rt) ==> rt == self.runtime()
    }

    /// Whether `atom` may be handed to the engine through this context: the
    /// context's runtime interned it.
    pub open spec fn accepts_atom(self, atom: Atom) -> bool {
        atom.runtime() == self.runtime()
    }

    /// Tells whether `value` is plain or lives in this context's runtime, which
    /// is what a call through the context asks of it.
    pub fn enforce_value_in_same_runtime(&self, value: &Value) -> (ret: Result<(), InvalidRuntime>)
        ensures
            ret is Ok <==> self.accepts_value(*value),
    {
        match value.get_runtime() {
            None => Ok(()),
            Some(rt) => {
                if rt == self.rt {
                    Ok(())
                } else {
                    Err(InvalidRuntime)
                }
            },
        }
    }

    /// Tells whether this context's runtime interned `atom`, which is what a call
    /// through the context asks of it.
    pub fn enforce_atom_in_same_runtime(&self, atom: &Atom) -> (ret: Result<(), InvalidRuntime>)
        ensures
            ret is Ok <==> self.accepts_atom(*atom),
    {
        if atom.get_runtime() == self.rt {
            Ok(())
        } else {
            Err(InvalidRuntime)
        }
    }

    /// What a pending exception amounts to: the thrown value, unless the
    /// engine holds none, which it says by `null`, `undefined`, an
    /// uninitialized binding or the exception marker itself.
    pub open spec fn caught(self, pending: RawValue) -> Option<Value> {
        match Value::classify(self.runtime(), pending) {
            Ok(Value::Null) => None,
            Ok(Value::Undefined) => None,
            Ok(Value::Uninitialized) => None,
            Ok(v) => Some(v),
            Err(_) => None,
        }
    }

    /// Takes over the exception that the engine handed out as pending.
    pub fn catch(&self, pending: RawValue) -> (thrown: Option<Value>)
        requires
            pending.is_classifiable(),
        ensures
            thrown == self.caught(pending),
    {
        match Value::from_raw(self.rt, pending) {
            Ok(Value::Null) => None,
            Ok(Value::Undefined) => None,
            Ok(Value::Uninitialized) => None,
            Ok(v) => Some(v),
            Err(_) => None,
        }
    }

    /// Promotes `atom` in the runtime `rt`, which is this context's and the
    /// atom's. The atom holder is swept, a record for the atom is registered
    /// behind the others, and the handle comes back with the calls that are
    /// owed: the releases of the sweep, then the one that takes the record's
    /// share in the atom.
    pub fn new_global_atom(&self, rt: &mut Runtime, atom: &Atom) -> (ret: (
        GlobalAtom,
        Vec<EngineCall>,
    ))
        requires
            old(rt)@.ptr == self.runtime(),
            self.accepts_atom(*atom),
            old(rt)@.running,
            old(rt)@.atoms.issued < u64::MAX,
        ensures
            final(rt)@ == (RuntimeModel {
                atoms: old(rt)@.atoms.cleanup().push(atom.raw()),
                ..old(rt)@
            }),
            final(rt)@.atoms.is_live(ret.0.record_id()),
            ret.0.runtime() == self.runtime(),
            ret.0.record_id() == old(rt)@.atoms.issued,
            ret.0.value() == atom.raw(),
            ret.1@ == free_atoms(self.runtime(), old(rt)@.atoms.released()).push(
                EngineCall::DupAtom { runtime: self.runtime(), atom: atom.raw() },
            ),
    {
        rt.promote_atom(atom)
    }

    /// The raw forms of `args`, for a call through this context, unless one
    /// of them lives in another runtime. Up to `TINY_CAP` of them are kept
    /// tiny.
    pub fn convert_value_to_raw_value<const TINY_CAP: usize>(&self, args: &[Value]) -> (ret: Result<
        MaybeTinyVec<RawValue, TINY_CAP>,
        InvalidRuntime,
    >)
        ensures
            ret is Ok <==> forall|i: int| 0 <= i < args@.len() ==> self.accepts_value(args@[i]),
            ret matches Ok(raw) ==> raw@ == raw_values(args@) && (raw is Tiny <==> args@.len()
                <= TINY_CAP),
    {
        let n = args.len();
        let mut raw: Vec<RawValue> = Vec::new();
        let mut i: usize = 0;
        while i < n
            invariant
                n == args@.len(),
                i <= n,
                raw@ == raw_values(args@.take(i as int)),
                forall|k: int| 0 <= k < i ==> self.accepts_value(args@[k]),
            decreases n - i,
        {
            if self.enforce_value_in_same_runtime(&args[i]).is_err() {
                return Err(InvalidRuntime);
            }
            raw.push(args[i].as_raw());
            assert(raw@ =~= raw_values(args@.take(i + 1)));
            i += 1;
        }
        assert(args@.take(n as int) =~= args@);
        Ok(MaybeTinyVec::from_vec(raw))
    }

    /// The bytes of `s` as a C string for the engine, tiny if they fit in
    /// `TINY_CAP` bytes with their NUL. A string that holds a NUL cannot be
    /// one: what comes back then is the message to throw at it, which names
    /// the place of the first NUL.
    pub fn new_c_string<const TINY_CAP: usize>(&self, s: &str) -> (ret: Result<
        MaybeTinyCString<TINY_CAP>,
        String,
    >)
        ensures
            ret is Err <==> has_nul(s.spec_bytes()),
            ret matches Ok(c) ==> c@ == s.spec_bytes() && (c is Tiny <==> s.spec_bytes().len()
                < TINY_CAP),
            ret matches Err(msg) ==> exists|pos: nat|
                is_first_nul(s.spec_bytes(), pos as int) && msg@ == nul_message(pos),
    {
        match MaybeTinyCString::new(s.as_bytes()) {
            Ok(c) => Ok(c),
            Err(e) => {
                let mut msg = String::from_str("convert string: unexpected nul at ");
                let place = e.to_string();
                msg.append(place.as_str());
                assert(msg@ == nul_message(e.0 as nat));
                Err(msg)
            },
        }
    }

    /// Takes over the own property keys that the engine listed: `raw` holds,
    /// for each key, its atom, with a share that the engine counted for the
    /// caller, and whether the property is enumerable.
    pub fn own_atoms(&self, raw: &[(u32, bool)]) -> (atoms: Vec<OwnAtom>)
        requires
            forall|i: int| 0 <= i < raw@.len() ==> (#[trigger] raw@[i]).0 != ATOM_NULL,
        ensures
            atoms@.len() == raw@.len(),
            forall|i: int|
                0 <= i < raw@.len() ==> (#[trigger] atoms@[i]).atom == Atom::model(
                    self.runtime(),
                    raw@[i].0,
                ) && atoms@[i].is_enumerable == raw@[i].1,
    {
        let n = raw.len();
        let mut atoms: Vec<OwnAtom> = Vec::new();
        let mut i: usize = 0;
        while i < n
            invariant
                n == raw@.len(),
                i <= n,
                atoms@.len() == i,
                forall|k: int| 0 <= k < raw@.len() ==> (#[trigger] raw@[k]).0 != ATOM_NULL,
                forall|k: int|
                    0 <= k < i ==> (#[trigger] atoms@[k]).atom == Atom::model(
                        self.runtime(),
                        raw@[k].0,
                    ) && atoms@[k].is_enumerable == raw@[k].1,
            decreases n - i,
        {
            let (atom, is_enumerable) = raw[i];
            atoms.push(OwnAtom { atom: Atom::from_raw(self.rt, atom), is_enumerable });
            i += 1;
        }
        atoms
    }
}

} // verus!
