//! The runtime: the owner of one engine instance, of the registries of its
//! promoted references, and of their teardown.

use crate::atom::{Atom, ATOM_NULL};
use crate::class::{class_id_of, ClassEntry, ClassIds};
use crate::context::Context;
use crate::engine::EngineCall;
use crate::utils::global::{Global, GlobalHolder, HolderModel};
use crate::utils::ptr::NonNullPtr;
use crate::value::{RawValue, Value, TAG_EXCEPTION};
use crate::InvalidRuntime;
use core::any::TypeId;
use vstd::pervasive::unreached;
use vstd::prelude::*;

verus! {

/// The calls that release one share in each of the contexts `ptrs`.
pub open spec fn free_contexts(ptrs: Seq<NonNullPtr>) -> Seq<EngineCall> {
    ptrs.map_values(|context: NonNullPtr| EngineCall::FreeContext { context })
}

/// The calls that release one share in each of `values`, which live in the
/// runtime `runtime`.
pub open spec fn free_values(runtime: NonNullPtr, values: Seq<RawValue>) -> Seq<EngineCall> {
    values.map_values(|value: RawValue| EngineCall::FreeValue { runtime, value })
}

/// The calls that release one share in each of `atoms`, which the runtime
/// `runtime` interned.
pub open spec fn free_atoms(runtime: NonNullPtr, atoms: Seq<u32>) -> Seq<EngineCall> {
    atoms.map_values(|atom: u32| EngineCall::FreeAtom { runtime, atom })
}

/// The mathematical state of a [`Runtime`].
pub struct RuntimeModel {
    /// The engine instance.
    pub ptr: NonNullPtr,
    /// Whether the runtime still takes promotions. Once teardown has begun
    /// it does not, and the three holders below are empty.
    pub running: bool,
    /// The class table, which outlives the holders.
    pub class_ids: Seq<ClassEntry>,
    /// The promoted contexts.
    pub contexts: HolderModel<NonNullPtr>,
    /// The promoted values.
    pub values: HolderModel<RawValue>,
    /// The promoted atoms.
    pub atoms: HolderModel<u32>,
}

impl RuntimeModel {
    /// The state after a sweep of the three holders.
    pub open spec fn swept(self) -> RuntimeModel {
        RuntimeModel {
            contexts: self.contexts.cleanup(),
            values: self.values.cleanup(),
            atoms: self.atoms.cleanup(),
            ..self
        }
    }

    /// The calls that a sweep owes the engine: one release for each detached
    /// record, contexts first, then values, then atoms.
    pub open spec fn sweep_calls(self) -> Seq<EngineCall> {
        free_contexts(self.contexts.released()) + free_values(self.ptr, self.values.released())
            + free_atoms(self.ptr, self.atoms.released())
    }

    /// The state once teardown has begun: no holder is left, the class table
    /// stays.
    pub open spec fn destroying(self) -> RuntimeModel {
        RuntimeModel {
            running: false,
            contexts: HolderModel::empty(self.ptr),
            values: HolderModel::empty(self.ptr),
            atoms: HolderModel::empty(self.ptr),
            ..self
        }
    }

    /// The calls that teardown owes the engine: one release for every record
    /// that is still registered, contexts first, then values, then atoms, and
    /// only then the release of the engine instance.
    pub open spec fn teardown_calls(self) -> Seq<EngineCall> {
        free_contexts(self.contexts.values()) + free_values(self.ptr, self.values.values())
            + free_atoms(self.ptr, self.atoms.values()) + seq![
            EngineCall::FreeRuntime { runtime: self.ptr },
        ]
    }

    /// Whether the runtime can promote another context, value and atom.
    pub open spec fn can_promote(self) -> bool {
        &&& self.running
        &&& self.contexts.issued < u64::MAX
        &&& self.values.issued < u64::MAX
        &&& self.atoms.issued < u64::MAX
    }
}

/// A handle to a promoted execution context. It can be held, copied and
/// dropped on any thread, and gives no access to the engine by itself.
#[derive(Clone, Copy, Debug)]
pub struct GlobalContext {
    global: Global<NonNullPtr>,
}

/// A handle to a promoted value. It can be held, copied and dropped on any
/// thread, and gives no access to the engine by itself.
#[derive(Clone, Copy, Debug)]
pub struct GlobalValue {
    global: Global<RawValue>,
}

/// A handle to a promoted atom. It can be held, copied and dropped on any
/// thread, and gives no access to the engine by itself.
#[derive(Clone, Copy, Debug)]
pub struct GlobalAtom {
    global: Global<u32>,
}

impl GlobalContext {
    /// The runtime under which the context was promoted.
    pub closed spec fn runtime(self) -> NonNullPtr {
        self.global.runtime()
    }

    /// The identity of the handle's record.
    pub closed spec fn record_id(self) -> u64 {
        self.global.record_id()
    }

    /// The promoted context.
    pub closed spec fn value(self) -> NonNullPtr {
        self.global.value()
    }

    /// What resolving the handle against the runtime `rt` gives: a context
    /// of that runtime and the call that takes its share, or the report that
    /// the handle is not of that runtime.
    pub open spec fn resolve(self, rt: NonNullPtr) -> Result<(Context, EngineCall), InvalidRuntime> {
        if rt == self.runtime() {
            Ok(
                (
                    Context { rt, ptr: self.value() },
                    EngineCall::DupContext { context: self.value() },
                ),
            )
        } else {
            Err(InvalidRuntime)
        }
    }

    /// The runtime under which the context was promoted.
    pub fn get_runtime(&self) -> (rt: NonNullPtr)
        ensures
            rt == self.runtime(),
    {
        self.global.get_runtime()
    }

    /// The identity of the handle's record: what the runtime is told when
    /// the last copy of the handle is dropped.
    pub fn id(&self) -> (id: u64)
        ensures
            id == self.record_id(),
    {
        self.global.id()
    }

    /// A local context for the promoted one, if `rt` is the runtime it was
    /// promoted under. The handle's record must still be registered there: a
    /// handle whose record was swept has been dropped, and resolving it is a
    /// fault of the bookkeeping, not an error to report.
    pub fn to_local(&self, rt: &Runtime) -> (ret: Result<(Context, EngineCall), InvalidRuntime>)
        requires
            rt@.ptr == self.runtime() ==> rt@.contexts.is_registered(self.record_id()),
        ensures
            ret == self.resolve(rt@.ptr),
    {
        match self.global.get(rt.as_raw()) {
            Some(ptr) => Ok(
                (Context::from_raw(rt.as_raw(), ptr), EngineCall::DupContext { context: ptr }),
            ),
            None => Err(InvalidRuntime),
        }
    }
}

impl GlobalValue {
    #[verifier::type_invariant]
    spec fn inv(self) -> bool {
        self.global.value().is_classifiable() && self.global.value().tag != TAG_EXCEPTION
    }

    /// The runtime under which the value was promoted.
    pub closed spec fn runtime(self) -> NonNullPtr {
        self.global.runtime()
    }

    /// The identity of the handle's record.
    pub closed spec fn record_id(self) -> u64 {
        self.global.record_id()
    }

    /// The raw form of the promoted value.
    pub closed spec fn value(self) -> RawValue {
        self.global.value()
    }

    /// What resolving the handle against the runtime `rt` gives: the
    /// promoted value as a local one and the call that takes its share, or
    /// the report that the handle is not of that runtime.
    pub open spec fn resolve(self, rt: NonNullPtr) -> Result<(Value, EngineCall), InvalidRuntime> {
        if rt == self.runtime() {
            Ok(
                (
                    Value::classify(rt, self.value())->Ok_0,
                    EngineCall::DupValue { runtime: rt, value: self.value() },
                ),
            )
        } else {
            Err(InvalidRuntime)
        }
    }

    /// The runtime under which the value was promoted.
    pub fn get_runtime(&self) -> (rt: NonNullPtr)
        ensures
            rt == self.runtime(),
    {
        self.global.get_runtime()
    }

    /// The identity of the handle's record: what the runtime is told when
    /// the last copy of the handle is dropped.
    pub fn id(&self) -> (id: u64)
        ensures
            id == self.record_id(),
    {
        self.global.id()
    }

    /// The raw form of the promoted value, without a look at the runtime,
    /// for the collector to mark.
    pub fn as_raw(&self) -> (raw: RawValue)
        ensures
            raw == self.value(),
    {
        *self.global.as_raw()
    }

    /// A local value for the promoted one, if `rt` is the runtime it was
    /// promoted under. A handle never resolves against another runtime. The
    /// handle's record must still be registered in its own: a handle whose
    /// record was swept has been dropped, and resolving it is a fault of the
    /// bookkeeping, not an error to report.
    pub fn to_local(&self, rt: &Runtime) -> (ret: Result<(Value, EngineCall), InvalidRuntime>)
        requires
            rt@.ptr == self.runtime() ==> rt@.values.is_registered(self.record_id()),
        ensures
            ret == self.resolve(rt@.ptr),
    {
        proof {
            use_type_invariant(self);
        }
        match self.global.get(rt.as_raw()) {
            Some(raw) => {
                let runtime = rt.as_raw();
                match Value::from_raw(runtime, raw) {
                    Ok(value) => Ok((value, EngineCall::DupValue { runtime, value: raw })),
                    Err(_) => unreached(),
                }
            },
            None => Err(InvalidRuntime),
        }
    }
}

impl GlobalAtom {
    #[verifier::type_invariant]
    spec fn inv(self) -> bool {
        self.global.value() != ATOM_NULL
    }

    /// The runtime under which the atom was promoted.
    pub closed spec fn runtime(self) -> NonNullPtr {
        self.global.runtime()
    }

    /// The identity of the handle's record.
    pub closed spec fn record_id(self) -> u64 {
        self.global.record_id()
    }

    /// The promoted atom.
    pub closed spec fn value(self) -> u32 {
        self.global.value()
    }

    /// What resolving the handle through a context of the runtime `rt`
    /// gives: the promoted atom as a local one and the call that takes its
    /// share, or the report that the handle is not of that runtime.
    pub open spec fn resolve(self, rt: NonNullPtr) -> Result<(Atom, EngineCall), InvalidRuntime> {
        if rt == self.runtime() {
            Ok(
                (
                    Atom::model(rt, self.value()),
                    EngineCall::DupAtom { runtime: rt, atom: self.value() },
                ),
            )
        } else {
            Err(InvalidRuntime)
        }
    }

    /// The runtime under which the atom was promoted.
    pub fn get_runtime(&self) -> (rt: NonNullPtr)
        ensures
            rt == self.runtime(),
    {
        self.global.get_runtime()
    }

    /// The identity of the handle's record: what the runtime is told when
    /// the last copy of the handle is dropped.
    pub fn id(&self) -> (id: u64)
        ensures
            id == self.record_id(),
    {
        self.global.id()
    }

    /// A local atom for the promoted one, if `ctx`, a context of the runtime
    /// `rt`, is a context of the runtime the atom was promoted under. The
    /// handle's record must still be registered there: a handle whose record
    /// was swept has been dropped, and resolving it is a fault of the
    /// bookkeeping, not an error to report.
    pub fn to_local(&self, rt: &Runtime, ctx: &Context) -> (ret: Result<
        (Atom, EngineCall),
        InvalidRuntime,
    >)
        requires
            ctx.runtime() == rt@.ptr,
            rt@.ptr == self.runtime() ==> rt@.atoms.is_registered(self.record_id()),
        ensures
            ret == self.resolve(ctx.runtime()),
    {
        proof {
            use_type_invariant(self);
        }
        let runtime = ctx.get_runtime();
        match self.global.get(runtime) {
            Some(atom) => Ok((Atom::from_raw(runtime, atom), EngineCall::DupAtom { runtime, atom })),
            None => Err(InvalidRuntime),
        }
    }
}

/// A handle never resolves against a runtime other than the one it was
/// promoted under: given the runtimes `a` and `b`, a handle promoted under
/// `a` resolves against `b` to the report of an invalid runtime, never to a
/// value.
pub proof fn law_cross_runtime_resolution_fails(
    value: GlobalValue,
    context: GlobalContext,
    atom: GlobalAtom,
    a: NonNullPtr,
    b: NonNullPtr,
)
    requires
        a != b,
    ensures
        value.runtime() == a ==> value.resolve(b) == Err::<(Value, EngineCall), InvalidRuntime>(
            InvalidRuntime,
        ),
        context.runtime() == a ==> context.resolve(b) == Err::<
            (Context, EngineCall),
            InvalidRuntime,
        >(InvalidRuntime),
        atom.runtime() == a ==> atom.resolve(b) == Err::<(Atom, EngineCall), InvalidRuntime>(
            InvalidRuntime,
        ),
{
}

/// Under its own runtime a handle resolves to what was promoted: a value
/// handle to the very value, a context handle to a context at the promoted
/// address, an atom handle to the promoted atom, each with the call that
/// takes the share of the new local.
pub proof fn law_handle_resolves_to_what_was_promoted(
    rt: NonNullPtr,
    promoted: Value,
    value: GlobalValue,
    context: GlobalContext,
    atom: GlobalAtom,
)
    requires
        promoted.runtime() matches Some(owner) ==> owner == rt,
    ensures
        value.runtime() == rt && value.value() == promoted.raw() ==> value.resolve(rt) == Ok::<
            (Value, EngineCall),
            InvalidRuntime,
        >((promoted, EngineCall::DupValue { runtime: rt, value: promoted.raw() })),
        context.runtime() == rt ==> (context.resolve(rt) matches Ok((local, call))
            && local.runtime() == rt && local.raw() == context.value() && call
            == EngineCall::DupContext { context: context.value() }),
        atom.runtime() == rt ==> (atom.resolve(rt) matches Ok((local, call)) && local.runtime()
            == rt && local.raw() == atom.value() && call == EngineCall::DupAtom {
            runtime: rt,
            atom: atom.value(),
        }),
{
    crate::value::law_raw_round_trip(promoted, rt);
    Atom::lemma_model(rt, atom.value());
}

/// What a runtime keeps beside the engine instance. While the runtime is
/// running these are the class table and the three holders; once teardown
/// has begun only the class table is left, for the finalizers that the
/// engine still runs.
enum RuntimeStore {
    Running {
        class_ids: ClassIds,
        global_contexts: GlobalHolder<NonNullPtr>,
        global_refs: GlobalHolder<RawValue>,
        global_atoms: GlobalHolder<u32>,
    },
    Destroying { class_ids: ClassIds },
}

/// The owner of one engine instance, and the only authority on whether a
/// reference belongs to it. It keeps the registries of promoted references
/// and decides what is released, and when; it makes no call into the engine
/// itself, but hands each call that it owes to its caller.
pub struct Runtime {
    rt_ptr: NonNullPtr,
    store: RuntimeStore,
}

impl View for Runtime {
    type V = RuntimeModel;

    closed spec fn view(&self) -> RuntimeModel {
        match self.store {
            RuntimeStore::Running { class_ids, global_contexts, global_refs, global_atoms } => {
                RuntimeModel {
                    ptr: self.rt_ptr,
                    running: true,
                    class_ids: class_ids@,
                    contexts: global_contexts@,
                    values: global_refs@,
                    atoms: global_atoms@,
                }
            },
            RuntimeStore::Destroying { class_ids } => RuntimeModel {
                ptr: self.rt_ptr,
                running: false,
                class_ids: class_ids@,
                contexts: HolderModel::empty(self.rt_ptr),
                values: HolderModel::empty(self.rt_ptr),
                atoms: HolderModel::empty(self.rt_ptr),
            },
        }
    }
}

/// Appends to `calls` the release of each context in `released`.
fn push_free_contexts(calls: &mut Vec<EngineCall>, released: &Vec<NonNullPtr>)
    ensures
        final(calls)@ == old(calls)@ + free_contexts(released@),
{
    let n = released.len();
    let mut i: usize = 0;
    assert(calls@ =~= old(calls)@ + free_contexts(released@.take(0)));
    while i < n
        invariant
            n == released.len(),
            i <= n,
            calls@ == old(calls)@ + free_contexts(released@.take(i as int)),
        decreases n - i,
    {
        calls.push(EngineCall::FreeContext { context: released[i] });
        assert(released@.take(i + 1) =~= released@.take(i as int).push(released@[i as int]));
        assert(calls@ =~= old(calls)@ + free_contexts(released@.take(i + 1)));
        i += 1;
    }
    assert(released@.take(n as int) =~= released@);
}

/// Appends to `calls` the release of each value in `released`.
fn push_free_values(calls: &mut Vec<EngineCall>, runtime: NonNullPtr, released: &Vec<RawValue>)
    ensures
        final(calls)@ == old(calls)@ + free_values(runtime, released@),
{
    let n = released.len();
    let mut i: usize = 0;
    assert(calls@ =~= old(calls)@ + free_values(runtime, released@.take(0)));
    while i < n
        invariant
            n == released.len(),
            i <= n,
            calls@ == old(calls)@ + free_values(runtime, released@.take(i as int)),
        decreases n - i,
    {
        calls.push(EngineCall::FreeValue { runtime, value: released[i] });
        assert(released@.take(i + 1) =~= released@.take(i as int).push(released@[i as int]));
        assert(calls@ =~= old(calls)@ + free_values(runtime, released@.take(i + 1)));
        i += 1;
    }
    assert(released@.take(n as int) =~= released@);
}

/// Appends to `calls` the release of each atom in `released`.
fn push_free_atoms(calls: &mut Vec<EngineCall>, runtime: NonNullPtr, released: &Vec<u32>)
    ensures
        final(calls)@ == old(calls)@ + free_atoms(runtime, released@),
{
    let n = released.len();
    let mut i: usize = 0;
    assert(calls@ =~= old(calls)@ + free_atoms(runtime, released@.take(0)));
    while i < n
        invariant
            n == released.len(),
            i <= n,
            calls@ == old(calls)@ + free_atoms(runtime, released@.take(i as int)),
        decreases n - i,
    {
        calls.push(EngineCall::FreeAtom { runtime, atom: released[i] });
        assert(released@.take(i + 1) =~= released@.take(i as int).push(released@[i as int]));
        assert(calls@ =~= old(calls)@ + free_atoms(runtime, released@.take(i + 1)));
        i += 1;
    }
    assert(released@.take(n as int) =~= released@);
}

impl Runtime {
    #[verifier::type_invariant]
    spec fn inv(self) -> bool {
        match self.store {
            RuntimeStore::Running { class_ids, global_contexts, global_refs, global_atoms } => {
                &&& global_contexts@.runtime == self.rt_ptr
                &&& global_refs@.runtime == self.rt_ptr
                &&& global_atoms@.runtime == self.rt_ptr
            },
            RuntimeStore::Destroying { class_ids } => true,
        }
    }

    /// Takes charge of the engine instance at `ptr`: a running runtime with
    /// an empty class table and nothing promoted.
    pub fn new(ptr: NonNullPtr) -> (rt: Runtime)
        ensures
            rt@ == (RuntimeModel {
                ptr,
                running: true,
                class_ids: Seq::<ClassEntry>::empty(),
                contexts: HolderModel::empty(ptr),
                values: HolderModel::empty(ptr),
                atoms: HolderModel::empty(ptr),
            }),
    {
        Runtime {
            rt_ptr: ptr,
            store: RuntimeStore::Running {
                class_ids: ClassIds::new(),
                global_contexts: GlobalHolder::new(ptr),
                global_refs: GlobalHolder::new(ptr),
                global_atoms: GlobalHolder::new(ptr),
            },
        }
    }

    /// The engine instance.
    pub fn as_raw(&self) -> (ptr: NonNullPtr)
        ensures
            ptr == self@.ptr,
    {
        self.rt_ptr
    }

    /// Whether the runtime still takes promotions.
    pub fn is_running(&self) -> (running: bool)
        ensures
            running == self@.running,
    {
        match &self.store {
            RuntimeStore::Running { .. } => true,
            RuntimeStore::Destroying { .. } => false,
        }
    }

    /// Whether the runtime can promote another context, value and atom: it
    /// is running and no holder has run out of identities.
    pub fn can_promote(&self) -> (ok: bool)
        ensures
            ok == self@.can_promote(),
    {
        match &self.store {
            RuntimeStore::Running { class_ids, global_contexts, global_refs, global_atoms } => {
                global_contexts.has_identities() && global_refs.has_identities()
                    && global_atoms.has_identities()
            },
            RuntimeStore::Destroying { .. } => false,
        }
    }

    /// The number of registered context records.
    pub fn global_contexts_len(&self) -> (n: usize)
        ensures
            n == self@.contexts.records.len(),
    {
        match &self.store {
            RuntimeStore::Running { class_ids, global_contexts, global_refs, global_atoms } => {
                global_contexts.len()
            },
            RuntimeStore::Destroying { .. } => 0,
        }
    }

    /// The number of registered value records.
    pub fn global_refs_len(&self) -> (n: usize)
        ensures
            n == self@.values.records.len(),
    {
        match &self.store {
            RuntimeStore::Running { class_ids, global_contexts, global_refs, global_atoms } => {
                global_refs.len()
            },
            RuntimeStore::Destroying { .. } => 0,
        }
    }

    /// The number of registered atom records.
    pub fn global_atoms_len(&self) -> (n: usize)
        ensures
            n == self@.atoms.records.len(),
    {
        match &self.store {
            RuntimeStore::Running { class_ids, global_contexts, global_refs, global_atoms } => {
                global_atoms.len()
            },
            RuntimeStore::Destroying { .. } => 0,
        }
    }

    /// Whether the context record with identity `id` is still registered.
    pub fn has_global_context(&self, id: u64) -> (registered: bool)
        ensures
            registered == self@.contexts.is_registered(id),
    {
        match &self.store {
            RuntimeStore::Running { class_ids, global_contexts, global_refs, global_atoms } => {
                global_contexts.contains(id)
            },
            RuntimeStore::Destroying { .. } => false,
        }
    }

    /// Whether the value record with identity `id` is still registered.
    pub fn has_global_value(&self, id: u64) -> (registered: bool)
        ensures
            registered == self@.values.is_registered(id),
    {
        match &self.store {
            RuntimeStore::Running { class_ids, global_contexts, global_refs, global_atoms } => {
                global_refs.contains(id)
            },
            RuntimeStore::Destroying { .. } => false,
        }
    }

    /// Whether the atom record with identity `id` is still registered.
    pub fn has_global_atom(&self, id: u64) -> (registered: bool)
        ensures
            registered == self@.atoms.is_registered(id),
    {
        match &self.store {
            RuntimeStore::Running { class_ids, global_contexts, global_refs, global_atoms } => {
                global_atoms.contains(id)
            },
            RuntimeStore::Destroying { .. } => false,
        }
    }

    /// The number of native types that have a class identifier.
    pub fn class_ids_len(&self) -> (n: usize)
        ensures
            n == self@.class_ids.len(),
    {
        match &self.store {
            RuntimeStore::Running { class_ids, .. } => class_ids.len(),
            RuntimeStore::Destroying { class_ids } => class_ids.len(),
        }
    }

    /// Sweeps the three holders: every record whose last handle is gone is
    /// dropped, and the calls that release them come back, contexts first,
    /// then values, then atoms. Once teardown has begun there is nothing to
    /// sweep.
    pub fn cleanup(&mut self) -> (calls: Vec<EngineCall>)
        ensures
            final(self)@ == old(self)@.swept(),
            calls@ == old(self)@.sweep_calls(),
    {
        proof {
            use_type_invariant(&*self);
            lemma_empty_holders_have_nothing_to_sweep(self.rt_ptr);
        }
        let runtime = self.rt_ptr;
        let mut calls: Vec<EngineCall> = Vec::new();
        let mut store = RuntimeStore::Destroying { class_ids: ClassIds::new() };
        core::mem::swap(&mut self.store, &mut store);
        match store {
            RuntimeStore::Running {
                class_ids,
                mut global_contexts,
                mut global_refs,
                mut global_atoms,
            } => {
                let contexts = global_contexts.cleanup();
                let values = global_refs.cleanup();
                let atoms = global_atoms.cleanup();
                push_free_contexts(&mut calls, &contexts);
                push_free_values(&mut calls, runtime, &values);
                push_free_atoms(&mut calls, runtime, &atoms);
                assert(calls@ =~= old(self)@.sweep_calls());
                self.store =
                RuntimeStore::Running { class_ids, global_contexts, global_refs, global_atoms };
            },
            RuntimeStore::Destroying { class_ids } => {
                assert(calls@ =~= old(self)@.sweep_calls());
                self.store = RuntimeStore::Destroying { class_ids };
            },
        }
        calls
    }

    /// Wraps the context at `ptr`, which the engine has just made for this
    /// runtime, and takes the occasion to sweep the holders: the calls that
    /// the sweep owes come back with the context.
    pub fn new_context(&mut self, ptr: NonNullPtr) -> (ret: (Context, Vec<EngineCall>))
        ensures
            ret.0.runtime() == old(self)@.ptr,
            ret.0.raw() == ptr,
            final(self)@ == old(self)@.swept(),
            ret.1@ == old(self)@.sweep_calls(),
    {
        let calls = self.cleanup();
        (Context::from_raw(self.rt_ptr, ptr), calls)
    }

    /// Wraps the context at `ptr`, which the engine has just made for this
    /// runtime without any of the built-in objects. In every other respect
    /// it is [`Runtime::new_context`].
    pub fn new_plain_context(&mut self, ptr: NonNullPtr) -> (ret: (Context, Vec<EngineCall>))
        ensures
            ret.0.runtime() == old(self)@.ptr,
            ret.0.raw() == ptr,
            final(self)@ == old(self)@.swept(),
            ret.1@ == old(self)@.sweep_calls(),
    {
        self.new_context(ptr)
    }

    /// Promotes the context `ctx`. A context of another runtime is refused.
    /// Otherwise the context holder is swept, a record for the context is
    /// registered behind the others, and the handle comes back with the
    /// calls that are owed: the releases of the sweep, then the one that
    /// takes the record's share in the context.
    pub fn new_global_context(&mut self, ctx: &Context) -> (ret: Result<
        (GlobalContext, Vec<EngineCall>),
        InvalidRuntime,
    >)
        requires
            ctx.runtime() == old(self)@.ptr ==> old(self)@.running && old(self)@.contexts.issued
                < u64::MAX,
        ensures
            ctx.runtime() != old(self)@.ptr ==> ret is Err && final(self)@ == old(self)@,
            ctx.runtime() == old(self)@.ptr ==> ret is Ok && final(self)@ == (RuntimeModel {
                contexts: old(self)@.contexts.cleanup().push(ctx.raw()),
                ..old(self)@
            }),
            ret matches Ok((handle, calls)) ==> {
                &&& final(self)@.contexts.is_live(handle.record_id())
                &&& handle.runtime() == old(self)@.ptr
                &&& handle.record_id() == old(self)@.contexts.issued
                &&& handle.value() == ctx.raw()
                &&& calls@ == free_contexts(old(self)@.contexts.released()).push(
                    EngineCall::DupContext { context: ctx.raw() },
                )
            },
    {
        proof {
            use_type_invariant(&*self);
        }
        if self.rt_ptr != ctx.get_runtime() {
            return Err(InvalidRuntime);
        }
        let ptr = ctx.as_raw();
        let mut calls: Vec<EngineCall> = Vec::new();
        let mut store = RuntimeStore::Destroying { class_ids: ClassIds::new() };
        core::mem::swap(&mut self.store, &mut store);
        match store {
            RuntimeStore::Running {
                class_ids,
                mut global_contexts,
                global_refs,
                global_atoms,
            } => {
                let (global, released) = global_contexts.new_global(ptr);
                push_free_contexts(&mut calls, &released);
                calls.push(EngineCall::DupContext { context: ptr });
                self.store =
                RuntimeStore::Running { class_ids, global_contexts, global_refs, global_atoms };
                Ok((GlobalContext { global }, calls))
            },
            RuntimeStore::Destroying { .. } => unreached(),
        }
    }

    /// Promotes `value`. A value of another runtime is refused; a plain
    /// value belongs to none and is taken. The value holder is swept, a
    /// record for the value is registered behind the others, and the handle
    /// comes back with the calls that are owed: the releases of the sweep,
    /// then the one that takes the record's share in the value.
    pub fn new_global_value(&mut self, value: &Value) -> (ret: Result<
        (GlobalValue, Vec<EngineCall>),
        InvalidRuntime,
    >)
        requires
            old(self)@.accepts(*value) ==> old(self)@.running && old(self)@.values.issued
                < u64::MAX,
        ensures
            !old(self)@.accepts(*value) ==> ret is Err && final(self)@ == old(self)@,
            old(self)@.accepts(*value) ==> ret is Ok && final(self)@ == (RuntimeModel {
                values: old(self)@.values.cleanup().push(value.raw()),
                ..old(self)@
            }),
            ret matches Ok((handle, calls)) ==> {
                &&& final(self)@.values.is_live(handle.record_id())
                &&& handle.runtime() == old(self)@.ptr
                &&& handle.record_id() == old(self)@.values.issued
                &&& handle.value() == value.raw()
                &&& calls@ == free_values(old(self)@.ptr, old(self)@.values.released()).push(
                    EngineCall::DupValue { runtime: old(self)@.ptr, value: value.raw() },
                )
            },
    {
        proof {
            use_type_invariant(&*self);
        }
        let runtime = self.rt_ptr;
        match value.get_runtime() {
            Some(rt) => {
                if rt != runtime {
                    return Err(InvalidRuntime);
                }
            },
            None => {},
        }
        proof {
            crate::value::law_raw_round_trip(*value, runtime);
        }
        let raw = value.as_raw();
        let mut calls: Vec<EngineCall> = Vec::new();
        let mut store = RuntimeStore::Destroying { class_ids: ClassIds::new() };
        core::mem::swap(&mut self.store, &mut store);
        match store {
            RuntimeStore::Running {
                class_ids,
                global_contexts,
                mut global_refs,
                global_atoms,
            } => {
                let (global, released) = global_refs.new_global(raw);
                push_free_values(&mut calls, runtime, &released);
                calls.push(EngineCall::DupValue { runtime, value: raw });
                self.store =
                RuntimeStore::Running { class_ids, global_contexts, global_refs, global_atoms };
                Ok((GlobalValue { global }, calls))
            },
            RuntimeStore::Destroying { .. } => unreached(),
        }
    }

    /// Promotes `atom`, which this runtime interned. The atom holder is
    /// swept, a record for the atom is registered behind the others, and the
    /// handle comes back with the calls that are owed: the releases of the
    /// sweep, then the one that takes the record's share in the atom.
    pub(crate) fn promote_atom(&mut self, atom: &Atom) -> (ret: (GlobalAtom, Vec<EngineCall>))
        requires
            atom.runtime() == old(self)@.ptr,
            old(self)@.running,
            old(self)@.atoms.issued < u64::MAX,
        ensures
            final(self)@ == (RuntimeModel {
                atoms: old(self)@.atoms.cleanup().push(atom.raw()),
                ..old(self)@
            }),
            final(self)@.atoms.is_live(ret.0.record_id()),
            ret.0.runtime() == old(self)@.ptr,
            ret.0.record_id() == old(self)@.atoms.issued,
            ret.0.value() == atom.raw(),
            ret.1@ == free_atoms(old(self)@.ptr, old(self)@.atoms.released()).push(
                EngineCall::DupAtom { runtime: old(self)@.ptr, atom: atom.raw() },
            ),
    {
        proof {
            use_type_invariant(&*self);
        }
        let runtime = self.rt_ptr;
        let raw = atom.as_raw();
        let mut calls: Vec<EngineCall> = Vec::new();
        let mut store = RuntimeStore::Destroying { class_ids: ClassIds::new() };
        core::mem::swap(&mut self.store, &mut store);
        match store {
            RuntimeStore::Running {
                class_ids,
                global_contexts,
                global_refs,
                mut global_atoms,
            } => {
                let (global, released) = global_atoms.new_global(raw);
                push_free_atoms(&mut calls, runtime, &released);
                calls.push(EngineCall::DupAtom { runtime, atom: raw });
                self.store =
                RuntimeStore::Running { class_ids, global_contexts, global_refs, global_atoms };
                (GlobalAtom { global }, calls)
            },
            RuntimeStore::Destroying { .. } => unreached(),
        }
    }

    /// Records that the last copy of the context handle with record `id` was
    /// dropped. Nothing is released before the next sweep.
    pub fn detach_global_context(&mut self, id: u64)
        ensures
            old(self)@.running ==> final(self)@ == (RuntimeModel {
                contexts: old(self)@.contexts.detach(id),
                ..old(self)@
            }),
            !old(self)@.running ==> final(self)@ == old(self)@,
    {
        proof {
            use_type_invariant(&*self);
        }
        let mut store = RuntimeStore::Destroying { class_ids: ClassIds::new() };
        core::mem::swap(&mut self.store, &mut store);
        match store {
            RuntimeStore::Running {
                class_ids,
                mut global_contexts,
                global_refs,
                global_atoms,
            } => {
                global_contexts.detach(id);
                self.store =
                RuntimeStore::Running { class_ids, global_contexts, global_refs, global_atoms };
            },
            RuntimeStore::Destroying { class_ids } => {
                self.store = RuntimeStore::Destroying { class_ids };
            },
        }
    }

    /// Records that the last copy of the value handle with record `id` was
    /// dropped. Nothing is released before the next sweep.
    pub fn detach_global_value(&mut self, id: u64)
        ensures
            old(self)@.running ==> final(self)@ == (RuntimeModel {
                values: old(self)@.values.detach(id),
                ..old(self)@
            }),
            !old(self)@.running ==> final(self)@ == old(self)@,
    {
        proof {
            use_type_invariant(&*self);
        }
        let mut store = RuntimeStore::Destroying { class_ids: ClassIds::new() };
        core::mem::swap(&mut self.store, &mut store);
        match store {
            RuntimeStore::Running {
                class_ids,
                global_contexts,
                mut global_refs,
                global_atoms,
            } => {
                global_refs.detach(id);
                self.store =
                RuntimeStore::Running { class_ids, global_contexts, global_refs, global_atoms };
            },
            RuntimeStore::Destroying { class_ids } => {
                self.store = RuntimeStore::Destroying { class_ids };
            },
        }
    }

    /// Records that the last copy of the atom handle with record `id` was
    /// dropped. Nothing is released before the next sweep.
    pub fn detach_global_atom(&mut self, id: u64)
        ensures
            old(self)@.running ==> final(self)@ == (RuntimeModel {
                atoms: old(self)@.atoms.detach(id),
                ..old(self)@
            }),
            !old(self)@.running ==> final(self)@ == old(self)@,
    {
        proof {
            use_type_invariant(&*self);
        }
        let mut store = RuntimeStore::Destroying { class_ids: ClassIds::new() };
        core::mem::swap(&mut self.store, &mut store);
        match store {
            RuntimeStore::Running {
                class_ids,
                global_contexts,
                global_refs,
                mut global_atoms,
            } => {
                global_atoms.detach(id);
                self.store =
                RuntimeStore::Running { class_ids, global_contexts, global_refs, global_atoms };
            },
            RuntimeStore::Destroying { class_ids } => {
                self.store = RuntimeStore::Destroying { class_ids };
            },
        }
    }

    /// The class identifier of the native type `type_id`, if it has one.
    /// The table can be read for as long as the runtime exists, teardown
    /// included.
    pub fn class_id(&self, type_id: &TypeId) -> (id: Option<u32>)
        ensures
            id == class_id_of(self@.class_ids, *type_id),
    {
        match &self.store {
            RuntimeStore::Running { class_ids, .. } => class_ids.get(type_id),
            RuntimeStore::Destroying { class_ids } => class_ids.get(type_id),
        }
    }

    /// The class identifier of the native type `type_id`. A type that has
    /// none yet gets the one that `alloc` hands out, which is only called in
    /// that case, and the table remembers it. Once teardown has begun no
    /// type gets a new identifier.
    pub fn get_or_alloc_class_id<F: FnOnce() -> u32>(&mut self, type_id: TypeId, alloc: F) -> (id:
        u32)
        requires
            alloc.requires(()),
            !old(self)@.running ==> class_id_of(old(self)@.class_ids, type_id) is Some,
        ensures
            class_id_of(old(self)@.class_ids, type_id) matches Some(known) ==> id == known
                && final(self)@ == old(self)@,
            class_id_of(old(self)@.class_ids, type_id) is None ==> alloc.ensures((), id)
                && final(self)@ == (RuntimeModel {
                class_ids: old(self)@.class_ids.push(ClassEntry { type_id, class_id: id }),
                ..old(self)@
            }),
            class_id_of(final(self)@.class_ids, type_id) == Some(id),
    {
        proof {
            use_type_invariant(&*self);
        }
        let mut store = RuntimeStore::Destroying { class_ids: ClassIds::new() };
        core::mem::swap(&mut self.store, &mut store);
        match store {
            RuntimeStore::Running {
                mut class_ids,
                global_contexts,
                global_refs,
                global_atoms,
            } => {
                let id = class_ids.get_or_alloc(type_id, alloc);
                self.store =
                RuntimeStore::Running { class_ids, global_contexts, global_refs, global_atoms };
                id
            },
            RuntimeStore::Destroying { mut class_ids } => {
                let id = class_ids.get_or_alloc(type_id, alloc);
                self.store = RuntimeStore::Destroying { class_ids };
                id
            },
        }
    }

    /// Begins teardown, in the one order that is safe. The runtime stops
    /// taking promotions and gives up its holders, keeping only the class
    /// table. The calls that come back release every record that was still
    /// registered, whether or not a sweep had run, and release the engine
    /// instance last of all.
    pub fn teardown(&mut self) -> (calls: Vec<EngineCall>)
        requires
            old(self)@.running,
        ensures
            final(self)@ == old(self)@.destroying(),
            calls@ == old(self)@.teardown_calls(),
    {
        proof {
            use_type_invariant(&*self);
        }
        let runtime = self.rt_ptr;
        let mut calls: Vec<EngineCall> = Vec::new();
        let mut store = RuntimeStore::Destroying { class_ids: ClassIds::new() };
        core::mem::swap(&mut self.store, &mut store);
        match store {
            RuntimeStore::Running { class_ids, global_contexts, global_refs, global_atoms } => {
                let contexts = global_contexts.teardown();
                let values = global_refs.teardown();
                let atoms = global_atoms.teardown();
                push_free_contexts(&mut calls, &contexts);
                push_free_values(&mut calls, runtime, &values);
                push_free_atoms(&mut calls, runtime, &atoms);
                calls.push(EngineCall::FreeRuntime { runtime });
                assert(calls@ =~= old(self)@.teardown_calls());
                self.store = RuntimeStore::Destroying { class_ids };
            },
            RuntimeStore::Destroying { .. } => unreached(),
        }
        calls
    }
}

impl RuntimeModel {
    /// Whether the runtime takes `value` for promotion: the value is plain,
    /// or its object lives in this runtime.
    pub open spec fn accepts(self, value: Value) -> bool {
        value.runtime() matches Some(rt) ==> rt == self.ptr
    }
}

/// Teardown releases the engine instance last. Every call before the last
/// gives up the share of one record, there is one for every record of the
/// three holders, and only then is the instance freed.
pub proof fn law_engine_is_freed_last(m: RuntimeModel)
    ensures
        m.teardown_calls().len() == m.contexts.records.len() + m.values.records.len()
            + m.atoms.records.len() + 1,
        m.teardown_calls().last() == (EngineCall::FreeRuntime { runtime: m.ptr }),
        forall|i: int|
            0 <= i < m.teardown_calls().len() - 1 ==> (#[trigger] m.teardown_calls()[i]).is_release(),
{
    let calls = m.teardown_calls();
    let c = m.contexts.values().len() as int;
    let v = m.values.values().len() as int;
    assert forall|i: int| 0 <= i < calls.len() - 1 implies (#[trigger] calls[i]).is_release() by {
        if i < c {
            assert(calls[i] == free_contexts(m.contexts.values())[i]);
        } else if i < c + v {
            assert(calls[i] == free_values(m.ptr, m.values.values())[i - c]);
        } else {
            assert(calls[i] == free_atoms(m.ptr, m.atoms.values())[i - c - v]);
        }
    }
}

/// A sweep makes one call for each detached record, and each call gives up
/// a share: a sweep never frees the engine instance.
pub proof fn law_sweep_only_releases(m: RuntimeModel)
    ensures
        m.sweep_calls().len() == m.contexts.released().len() + m.values.released().len()
            + m.atoms.released().len(),
        forall|i: int| 0 <= i < m.sweep_calls().len() ==> (#[trigger] m.sweep_calls()[i]).is_release(),
{
    let calls = m.sweep_calls();
    let c = m.contexts.released().len() as int;
    let v = m.values.released().len() as int;
    assert forall|i: int| 0 <= i < calls.len() implies (#[trigger] calls[i]).is_release() by {
        if i < c {
            assert(calls[i] == free_contexts(m.contexts.released())[i]);
        } else if i < c + v {
            assert(calls[i] == free_values(m.ptr, m.values.released())[i - c]);
        } else {
            assert(calls[i] == free_atoms(m.ptr, m.atoms.released())[i - c - v]);
        }
    }
}

/// A holder with no records keeps and releases nothing in a sweep.
pub proof fn lemma_empty_holders_have_nothing_to_sweep(ptr: NonNullPtr)
    ensures
        HolderModel::<NonNullPtr>::empty(ptr).cleanup() == HolderModel::<NonNullPtr>::empty(ptr),
        HolderModel::<RawValue>::empty(ptr).cleanup() == HolderModel::<RawValue>::empty(ptr),
        HolderModel::<u32>::empty(ptr).cleanup() == HolderModel::<u32>::empty(ptr),
        HolderModel::<NonNullPtr>::empty(ptr).released() == Seq::<NonNullPtr>::empty(),
        HolderModel::<RawValue>::empty(ptr).released() == Seq::<RawValue>::empty(),
        HolderModel::<u32>::empty(ptr).released() == Seq::<u32>::empty(),
{
    crate::utils::global::lemma_clean_has_nothing_to_release(
        HolderModel::<NonNullPtr>::empty(ptr),
    );
    crate::utils::global::lemma_clean_has_nothing_to_release(HolderModel::<RawValue>::empty(ptr));
    crate::utils::global::lemma_clean_has_nothing_to_release(HolderModel::<u32>::empty(ptr));
}

} // verus!
