//! The registry of promoted references and its deferred, batched
//! reclamation.
//!
//! Promoting a value registers a record for it and hands out a handle. The
//! record owns the promoted reference for as long as a copy of the handle
//! exists. Dropping a handle releases nothing: the record is marked, the
//! holder becomes dirty, and the next sweep, made by whoever holds the
//! runtime, drops the marked records and hands back what is to be released.

use crate::utils::ptr::NonNullPtr;
use vstd::prelude::*;

verus! {

/// One promoted reference as the holder's model sees it.
pub struct RecordModel<V> {
    /// The identity that the record's handles carry.
    pub id: u64,
    /// Whether the last handle to the record is gone.
    pub detached: bool,
    /// The owning reference that the record keeps alive.
    pub value: V,
}

/// One step in the life of a holder.
pub enum HolderStep<V> {
    /// A value is promoted.
    Promote(V),
    /// The last handle of the record with this identity is dropped.
    Detach(u64),
    /// The holder is swept.
    Sweep,
}

/// The mathematical state of a [`GlobalHolder`]: the records in the order of
/// their promotion, the dirty flag, and the number of identities handed out.
pub struct HolderModel<V> {
    /// The runtime whose references the holder keeps.
    pub runtime: NonNullPtr,
    /// Set by every dropped handle, cleared by every sweep.
    pub dirty: bool,
    /// How many identities have been handed out so far.
    pub issued: nat,
    /// The registered records, oldest first.
    pub records: Seq<RecordModel<V>>,
}

impl<V> HolderModel<V> {
    /// Identities grow along the records and stay below `issued`, and a clean
    /// holder has no detached record.
    pub open spec fn wf(self) -> bool {
        &&& self.issued <= u64::MAX
        &&& forall|i: int| 0 <= i < self.records.len() ==> (#[trigger] self.records[i]).id < self.issued
        &&& forall|i: int, j: int|
            0 <= i < j < self.records.len() ==> (#[trigger] self.records[i]).id < (
            #[trigger] self.records[j]).id
        &&& !self.dirty ==> forall|i: int|
            0 <= i < self.records.len() ==> !(#[trigger] self.records[i]).detached
    }

    /// The holder of `runtime` before any promotion.
    pub open spec fn empty(runtime: NonNullPtr) -> Self {
        HolderModel { runtime, dirty: false, issued: 0, records: Seq::empty() }
    }

    /// Whether a record with identity `id` is registered.
    pub open spec fn is_registered(self, id: u64) -> bool {
        exists|i: int| 0 <= i < self.records.len() && (#[trigger] self.records[i]).id == id
    }

    /// Whether a record with identity `id` is registered and still has a handle.
    pub open spec fn is_live(self, id: u64) -> bool {
        exists|i: int|
            0 <= i < self.records.len() && (#[trigger] self.records[i]).id == id
                && !self.records[i].detached
    }

    /// The records that still have a handle, oldest first.
    pub open spec fn live(self) -> Seq<RecordModel<V>> {
        self.records.filter(|r: RecordModel<V>| !r.detached)
    }

    /// The values of all records, oldest first.
    pub open spec fn values(self) -> Seq<V> {
        self.records.map_values(|r: RecordModel<V>| r.value)
    }

    /// The values that a sweep hands to the engine's release primitive: those
    /// of the detached records, oldest first.
    pub open spec fn released(self) -> Seq<V> {
        self.records.filter(|r: RecordModel<V>| r.detached).map_values(
            |r: RecordModel<V>| r.value,
        )
    }

    /// The state after promoting `value`: a new live record under the next
    /// identity, behind all others.
    pub open spec fn push(self, value: V) -> Self {
        HolderModel {
            issued: self.issued + 1,
            records: self.records.push(
                RecordModel { id: self.issued as u64, detached: false, value },
            ),
            ..self
        }
    }

    /// The state after the last handle of record `id` was dropped: the record,
    /// if it is registered, is detached, and the holder is dirty either way.
    pub open spec fn detach(self, id: u64) -> Self {
        HolderModel {
            dirty: true,
            records: self.records.map_values(
                |r: RecordModel<V>|
                    if r.id == id {
                        RecordModel { detached: true, ..r }
                    } else {
                        r
                    },
            ),
            ..self
        }
    }

    /// The state after a sweep: the live records stay, in their order, and
    /// the holder is clean.
    pub open spec fn cleanup(self) -> Self {
        HolderModel { dirty: false, records: self.live(), ..self }
    }

    /// The state after promoting each of `values`, first to last.
    pub open spec fn promote_all(self, values: Seq<V>) -> Self
        decreases values.len(),
    {
        if values.len() == 0 {
            self
        } else {
            self.promote_all(values.drop_last()).push(values.last())
        }
    }

    /// The state after one step.
    pub open spec fn step(self, step: HolderStep<V>) -> Self {
        match step {
            HolderStep::Promote(value) => self.push(value),
            HolderStep::Detach(id) => self.detach(id),
            HolderStep::Sweep => self.cleanup(),
        }
    }

    /// The state after the steps `steps`, first to last.
    pub open spec fn run(self, steps: Seq<HolderStep<V>>) -> Self
        decreases steps.len(),
    {
        if steps.len() == 0 {
            self
        } else {
            self.run(steps.drop_last()).step(steps.last())
        }
    }

    /// All that the sweeps among `steps` release, in the order of release.
    pub open spec fn run_released(self, steps: Seq<HolderStep<V>>) -> Seq<V>
        decreases steps.len(),
    {
        if steps.len() == 0 {
            Seq::empty()
        } else {
            let before = self.run(steps.drop_last());
            let earlier = self.run_released(steps.drop_last());
            match steps.last() {
                HolderStep::Sweep => earlier + before.released(),
                _ => earlier,
            }
        }
    }

    /// All that `steps` promote, in the order of promotion.
    pub open spec fn run_promoted(steps: Seq<HolderStep<V>>) -> Seq<V>
        decreases steps.len(),
    {
        if steps.len() == 0 {
            Seq::empty()
        } else {
            let earlier = Self::run_promoted(steps.drop_last());
            match steps.last() {
                HolderStep::Promote(value) => earlier.push(value),
                _ => earlier,
            }
        }
    }

    /// Whether `steps` can be the life of a holder that starts in this
    /// state: every promotion finds an identity left, and every dropped
    /// handle is the last one of a record that had a handle until then.
    pub open spec fn admits(self, steps: Seq<HolderStep<V>>) -> bool
        decreases steps.len(),
    {
        if steps.len() == 0 {
            true
        } else {
            let before = self.run(steps.drop_last());
            &&& self.admits(steps.drop_last())
            &&& match steps.last() {
                HolderStep::Promote(_) => before.issued < u64::MAX,
                HolderStep::Detach(id) => before.is_live(id),
                HolderStep::Sweep => true,
            }
        }
    }

    /// The number of promotions among `steps`.
    pub open spec fn promotions(steps: Seq<HolderStep<V>>) -> nat
        decreases steps.len(),
    {
        if steps.len() == 0 {
            0
        } else {
            Self::promotions(steps.drop_last()) + if steps.last() is Promote {
                1nat
            } else {
                0nat
            }
        }
    }

    /// The number of dropped handles among `steps`.
    pub open spec fn drops(steps: Seq<HolderStep<V>>) -> nat
        decreases steps.len(),
    {
        if steps.len() == 0 {
            0
        } else {
            Self::drops(steps.drop_last()) + if steps.last() is Detach {
                1nat
            } else {
                0nat
            }
        }
    }

    /// The state after the handles of the records `ids` were dropped, first
    /// to last.
    pub open spec fn detach_all(self, ids: Seq<u64>) -> Self
        decreases ids.len(),
    {
        if ids.len() == 0 {
            self
        } else {
            self.detach_all(ids.drop_last()).detach(ids.last())
        }
    }
}

/// One promoted reference inside a [`GlobalHolder`]. It exists from promotion
/// until a sweep or the holder's teardown reclaims it.
pub struct GlobalRecord<V> {
    id: u64,
    detached: bool,
    value: V,
}

impl<V> View for GlobalRecord<V> {
    type V = RecordModel<V>;

    closed spec fn view(&self) -> RecordModel<V> {
        RecordModel { id: self.id, detached: self.detached, value: self.value }
    }
}

/// The registry of one runtime's promoted references.
///
/// The holder is the only owner of reclamation. It never calls into the
/// engine itself: `cleanup` and `teardown` hand back the values whose
/// reference the caller, who holds the runtime, must release, each exactly
/// once.
pub struct GlobalHolder<V> {
    runtime: NonNullPtr,
    dirty: bool,
    issued: u64,
    records: Vec<GlobalRecord<V>>,
}

impl<V> View for GlobalHolder<V> {
    type V = HolderModel<V>;

    closed spec fn view(&self) -> HolderModel<V> {
        HolderModel {
            runtime: self.runtime,
            dirty: self.dirty,
            issued: self.issued as nat,
            records: self.records@.map_values(|r: GlobalRecord<V>| r@),
        }
    }
}

/// A handle to one promoted reference. It is plain data: it names the runtime
/// it was promoted under and its record, and carries a copy of the value, so
/// resolving it never visits the holder.
#[derive(Debug)]
pub struct Global<T> {
    runtime: NonNullPtr,
    id: u64,
    value: T,
}

impl<T> Global<T> {
    /// The runtime under which the reference was promoted.
    pub closed spec fn runtime(self) -> NonNullPtr {
        self.runtime
    }

    /// The identity of the handle's record.
    pub closed spec fn record_id(self) -> u64 {
        self.id
    }

    /// The promoted value.
    pub closed spec fn value(self) -> T {
        self.value
    }

    /// The runtime under which the reference was promoted.
    pub fn get_runtime(&self) -> (rt: NonNullPtr)
        ensures
            rt == self.runtime(),
    {
        self.runtime
    }

    /// The identity of the handle's record: what the holder is told when the
    /// last copy of the handle is dropped.
    pub fn id(&self) -> (id: u64)
        ensures
            id == self.record_id(),
    {
        self.id
    }

    /// The promoted value, without a look at the runtime.
    pub fn as_raw(&self) -> (value: &T)
        ensures
            *value == self.value(),
    {
        &self.value
    }

    /// The promoted value, if `rt` is the runtime it was promoted under.
    pub fn to_local(&self, rt: NonNullPtr) -> (value: Option<&T>)
        ensures
            rt == self.runtime() ==> value == Some(&self.value()),
            rt != self.runtime() ==> value is None,
    {
        if self.runtime == rt {
            Some(&self.value)
        } else {
            None
        }
    }
}

impl<T: Copy> Clone for Global<T> {
    /// Another copy of the handle, for the same record.
    fn clone(&self) -> (copy: Self)
        ensures
            copy == *self,
    {
        Global { runtime: self.runtime, id: self.id, value: self.value }
    }
}

impl<T: Copy> Copy for Global<T> {

}

impl<T: Copy> Global<T> {
    /// A copy of the promoted value, if `rt` is the runtime it was promoted
    /// under. A handle never resolves against another runtime.
    pub fn get(&self, rt: NonNullPtr) -> (value: Option<T>)
        ensures
            rt == self.runtime() ==> value == Some(self.value()),
            rt != self.runtime() ==> value is None,
    {
        if self.runtime == rt {
            Some(self.value)
        } else {
            None
        }
    }
}

impl<V> GlobalHolder<V> {
    #[verifier::type_invariant]
    spec fn inv(self) -> bool {
        self@.wf()
    }

    /// An empty holder for the runtime `rt`.
    pub fn new(rt: NonNullPtr) -> (holder: Self)
        ensures
            holder@ == HolderModel::<V>::empty(rt),
    {
        let holder = GlobalHolder { runtime: rt, dirty: false, issued: 0, records: Vec::new() };
        assert(holder@.records =~= Seq::empty());
        holder
    }

    /// The runtime whose references the holder keeps.
    pub fn runtime(&self) -> (rt: NonNullPtr)
        ensures
            rt == self@.runtime,
    {
        self.runtime
    }

    /// The number of registered records, detached ones included.
    pub fn len(&self) -> (n: usize)
        ensures
            n == self@.records.len(),
    {
        self.records.len()
    }

    /// Whether a handle was dropped since the last sweep.
    pub fn is_dirty(&self) -> (dirty: bool)
        ensures
            dirty == self@.dirty,
    {
        self.dirty
    }

    /// Whether the record with identity `id` is still registered: it was
    /// promoted here and no sweep has dropped it.
    pub fn contains(&self, id: u64) -> (registered: bool)
        ensures
            registered == self@.is_registered(id),
    {
        proof {
            use_type_invariant(self);
        }
        assert forall|k: int| 0 <= k < self.records@.len() implies (#[trigger] self.records@[k])@
            == self@.records[k] by {}
        match position(&self.records, id) {
            Some(at) => {
                assert(self@.records[at as int].id == id);
                true
            },
            None => false,
        }
    }

    /// Whether another value can be promoted: the holder has identities left.
    pub fn has_identities(&self) -> (ok: bool)
        ensures
            ok == (self@.issued < u64::MAX),
    {
        self.issued < u64::MAX
    }
}


impl<V> GlobalHolder<V> {
    /// Records that the last handle of record `id` was dropped. The record is
    /// only marked and the holder made dirty: nothing is released before the
    /// next sweep. An identity that is not registered marks nothing.
    pub fn detach(&mut self, id: u64)
        ensures
            final(self)@ == old(self)@.detach(id),
    {
        proof {
            use_type_invariant(&*self);
        }
        let ghost before = self@.records;
        let mut records: Vec<GlobalRecord<V>> = Vec::new();
        core::mem::swap(&mut self.records, &mut records);
        assert forall|k: int| 0 <= k < records@.len() implies (#[trigger] records@[k])@
            == before[k] by {}
        match position(&records, id) {
            Some(at) => {
                records[at].detached = true;
                assert forall|k: int| 0 <= k < records@.len() implies (#[trigger] records@[k])@
                    == old(self)@.detach(id).records[k] by {
                    if k < at {
                        assert(before[k].id < before[at as int].id);
                    } else if k > at {
                        assert(before[at as int].id < before[k].id);
                    }
                }
            },
            None => {},
        }
        proof {
            let next = GlobalHolder { dirty: true, records, ..*self };
            assert(next@.records =~= old(self)@.detach(id).records);
            assert(next@.wf());
        }
        *self = GlobalHolder { runtime: self.runtime, dirty: true, issued: self.issued, records };
    }
}

/// Where the record with identity `id` stands among `records`, whose
/// identities grow from first to last: the range that can still hold it is
/// halved until the record is found or nothing is left.
fn position<V>(records: &Vec<GlobalRecord<V>>, id: u64) -> (at: Option<usize>)
    requires
        forall|i: int, j: int|
            0 <= i < j < records@.len() ==> (#[trigger] records@[i])@.id < (
            #[trigger] records@[j])@.id,
    ensures
        at matches Some(k) ==> k < records@.len() && records@[k as int]@.id == id,
        at is None ==> forall|k: int| 0 <= k < records@.len() ==> (#[trigger] records@[k])@.id != id,
{
    let mut low: usize = 0;
    let mut high: usize = records.len();
    while low < high
        invariant
            low <= high <= records@.len(),
            forall|i: int, j: int|
                0 <= i < j < records@.len() ==> (#[trigger] records@[i])@.id < (
                #[trigger] records@[j])@.id,
            forall|k: int| 0 <= k < low ==> (#[trigger] records@[k])@.id < id,
            forall|k: int| high <= k < records@.len() ==> (#[trigger] records@[k])@.id > id,
        decreases high - low,
    {
        let mid = low + (high - low) / 2;
        let found = records[mid].id;
        if found == id {
            return Some(mid);
        } else if found < id {
            assert forall|k: int| 0 <= k <= mid implies (#[trigger] records@[k])@.id < id by {
                if k < mid {
                    assert(records@[k]@.id < records@[mid as int]@.id);
                }
            }
            low = mid + 1;
        } else {
            assert forall|k: int| mid <= k < records@.len() implies (#[trigger] records@[k])@.id
                > id by {
                if k > mid {
                    assert(records@[mid as int]@.id < records@[k]@.id);
                }
            }
            high = mid;
        }
    }
    None
}

impl<V: Copy> GlobalHolder<V> {
    /// Promotes `value`: stores it in a new record behind all others and
    /// returns the handle that stands for it.
    pub fn push(&mut self, value: V) -> (handle: Global<V>)
        requires
            old(self)@.issued < u64::MAX,
        ensures
            final(self)@ == old(self)@.push(value),
            final(self)@.is_live(handle.record_id()),
            handle.runtime() == old(self)@.runtime,
            handle.record_id() == old(self)@.issued,
            handle.value() == value,
    {
        proof {
            use_type_invariant(&*self);
            lemma_push(self@, value);
        }
        let id = self.issued;
        let mut records: Vec<GlobalRecord<V>> = Vec::new();
        core::mem::swap(&mut self.records, &mut records);
        records.push(GlobalRecord { id, detached: false, value });
        proof {
            let next = GlobalHolder { issued: (id + 1) as u64, records, ..*self };
            assert(next@.records =~= old(self)@.push(value).records);
            assert(next@.wf());
        }
        *self = GlobalHolder { runtime: self.runtime, dirty: self.dirty, issued: id + 1, records };
        Global { runtime: self.runtime, id, value }
    }

    /// Sweeps the holder. The records that still have a handle stay, in their
    /// order; every detached record is dropped, and its value is handed back
    /// for the caller to release with the engine, once each. A holder that is
    /// not dirty is left alone, at constant cost.
    pub fn cleanup(&mut self) -> (released: Vec<V>)
        ensures
            final(self)@ == old(self)@.cleanup(),
            released@ == old(self)@.released(),
    {
        proof {
            use_type_invariant(&*self);
        }
        let mut released: Vec<V> = Vec::new();
        if !self.dirty {
            proof {
                lemma_clean_has_nothing_to_release(self@);
            }
            return released;
        }
        let ghost before = self@.records;
        let ghost is_live = |r: RecordModel<V>| !r.detached;
        let ghost is_dead = |r: RecordModel<V>| r.detached;
        let ghost value_of = |r: RecordModel<V>| r.value;
        let mut kept: Vec<GlobalRecord<V>> = Vec::new();
        let n = self.records.len();
        let mut i: usize = 0;
        while i < n
            invariant
                n == self.records.len(),
                i <= n,
                *self == *old(self),
                before == self@.records,
                is_live == |r: RecordModel<V>| !r.detached,
                is_dead == |r: RecordModel<V>| r.detached,
                value_of == |r: RecordModel<V>| r.value,
                kept@.map_values(|r: GlobalRecord<V>| r@) == before.take(i as int).filter(is_live),
                released@ == before.take(i as int).filter(is_dead).map_values(value_of),
            decreases n - i,
        {
            let record = &self.records[i];
            proof {
                let head = before.take(i as int);
                assert(before.take(i + 1) =~= head.push(before[i as int]));
                head.lemma_filter_push(before[i as int], is_live);
                head.lemma_filter_push(before[i as int], is_dead);
                assert(record@ == before[i as int]);
            }
            if record.detached {
                released.push(record.value);
                assert(released@ =~= before.take(i + 1).filter(is_dead).map_values(value_of));
            } else {
                kept.push(GlobalRecord { id: record.id, detached: false, value: record.value });
                assert(kept@.map_values(|r: GlobalRecord<V>| r@) =~= before.take(i + 1).filter(
                    is_live,
                ));
            }
            i += 1;
        }
        proof {
            assert(before.take(n as int) =~= before);
            lemma_live_is_well_formed(old(self)@);
            let next = GlobalHolder { dirty: false, records: kept, ..*self };
            assert(next@ == old(self)@.cleanup());
        }
        *self = GlobalHolder { runtime: self.runtime, dirty: false, issued: self.issued, records: kept };
        released
    }

    /// Sweeps the holder, then promotes `value`: the opportunistic sweep that
    /// comes before a promotion. Returns the new handle and the values that
    /// the sweep released.
    pub fn new_global(&mut self, value: V) -> (ret: (Global<V>, Vec<V>))
        requires
            old(self)@.issued < u64::MAX,
        ensures
            final(self)@ == old(self)@.cleanup().push(value),
            final(self)@.is_live(ret.0.record_id()),
            ret.0.runtime() == old(self)@.runtime,
            ret.0.record_id() == old(self)@.issued,
            ret.0.value() == value,
            ret.1@ == old(self)@.released(),
    {
        let released = self.cleanup();
        let handle = self.push(value);
        (handle, released)
    }

    /// Ends the holder: hands back the value of every record that is still
    /// registered, detached or not, swept or not, oldest first, for the caller
    /// to release with the engine.
    pub fn teardown(self) -> (released: Vec<V>)
        ensures
            released@ == self@.values(),
    {
        let mut released: Vec<V> = Vec::new();
        let n = self.records.len();
        let mut i: usize = 0;
        while i < n
            invariant
                n == self.records.len(),
                i <= n,
                released@ == self@.values().take(i as int),
            decreases n - i,
        {
            released.push(self.records[i].value);
            assert(released@ =~= self@.values().take(i + 1));
            i += 1;
        }
        assert(self@.values().take(n as int) =~= self@.values());
        released
    }
}

/// Promoting a value, dropping its handle and sweeping releases that value
/// once and removes its record and no other: the holder is left as a sweep
/// without the promotion would have left it, and the sweep releases what that
/// sweep would have released, then the value. Had the handle been kept, the
/// record would have stayed.
pub proof fn law_dropped_handle_is_released_once<V>(s: HolderModel<V>, value: V)
    requires
        s.wf(),
        s.issued < u64::MAX,
    ensures
        s.push(value).detach(s.issued as u64).cleanup().records == s.cleanup().records,
        s.push(value).detach(s.issued as u64).released() == s.released().push(value),
        s.push(value).cleanup().records == s.cleanup().records.push(
            RecordModel { id: s.issued as u64, detached: false, value },
        ),
        s.push(value).released() == s.released(),
{
    let id = s.issued as u64;
    let fresh = RecordModel { id, detached: false, value };
    let gone = RecordModel { id, detached: true, value };
    let is_live = |r: RecordModel<V>| !r.detached;
    let is_dead = |r: RecordModel<V>| r.detached;
    let dropped = s.push(value).detach(id);
    assert(dropped.records =~= s.records.push(gone));
    s.records.lemma_filter_push(gone, is_live);
    s.records.lemma_filter_push(gone, is_dead);
    s.records.lemma_filter_push(fresh, is_live);
    s.records.lemma_filter_push(fresh, is_dead);
    assert(dropped.released() =~= s.released().push(value));
}

/// Every record of a holder leaves it exactly once: a sweep keeps it or
/// releases its value, never both and never neither.
pub proof fn law_sweep_keeps_or_releases<V>(s: HolderModel<V>)
    ensures
        s.values().to_multiset() == s.cleanup().values().to_multiset().add(
            s.released().to_multiset(),
        ),
        s.cleanup().records.len() + s.released().len() == s.records.len(),
    decreases s.records.len(),
{
    broadcast use vstd::seq_lib::group_to_multiset_ensures;

    reveal(Seq::filter);
    let is_live = |r: RecordModel<V>| !r.detached;
    let is_dead = |r: RecordModel<V>| r.detached;
    if s.records.len() == 0 {
        assert(s.values() =~= Seq::<V>::empty());
        assert(s.cleanup().values() =~= Seq::<V>::empty());
        assert(s.released() =~= Seq::<V>::empty());
        assert(s.values().to_multiset() =~= s.cleanup().values().to_multiset().add(
            s.released().to_multiset(),
        ));
    } else {
        let rest = HolderModel { records: s.records.drop_last(), ..s };
        let last = s.records.last();
        law_sweep_keeps_or_releases(rest);
        assert(s.values() =~= rest.values().push(last.value));
        if last.detached {
            assert(s.cleanup().values() =~= rest.cleanup().values());
            assert(s.released() =~= rest.released().push(last.value));
        } else {
            assert(s.cleanup().values() =~= rest.cleanup().values().push(last.value));
            assert(s.released() =~= rest.released());
        }
        assert(s.values().to_multiset() =~= s.cleanup().values().to_multiset().add(
            s.released().to_multiset(),
        ));
    }
}

/// No release is lost and none is made twice, whatever a holder lives
/// through: the values that its sweeps released, together with those that
/// its teardown releases, are the values that were promoted, each as often
/// as it was promoted.
pub proof fn law_every_promotion_is_released_once<V>(
    runtime: NonNullPtr,
    steps: Seq<HolderStep<V>>,
)
    ensures
        ({
            let start = HolderModel::<V>::empty(runtime);
            start.run_released(steps).to_multiset().add(start.run(steps).values().to_multiset())
                == HolderModel::<V>::run_promoted(steps).to_multiset()
        }),
    decreases steps.len(),
{
    broadcast use vstd::seq_lib::group_to_multiset_ensures;

    let start = HolderModel::<V>::empty(runtime);
    if steps.len() == 0 {
        assert(start.values() =~= Seq::<V>::empty());
        assert(start.run_released(steps).to_multiset().add(
            start.run(steps).values().to_multiset(),
        ) =~= HolderModel::<V>::run_promoted(steps).to_multiset());
    } else {
        let earlier = steps.drop_last();
        law_every_promotion_is_released_once::<V>(runtime, earlier);
        let before = start.run(earlier);
        let after = start.run(steps);
        match steps.last() {
            HolderStep::Promote(value) => {
                assert(after.values() =~= before.values().push(value));
            },
            HolderStep::Detach(id) => {
                assert(after.values() =~= before.values());
            },
            HolderStep::Sweep => {
                law_sweep_keeps_or_releases(before);
                vstd::seq_lib::lemma_multiset_commutative(
                    start.run_released(earlier),
                    before.released(),
                );
            },
        }
        assert(start.run_released(steps).to_multiset().add(
            start.run(steps).values().to_multiset(),
        ) =~= HolderModel::<V>::run_promoted(steps).to_multiset());
    }
}

/// A sweep removes the records whose last handle was dropped, and only
/// those: a record is registered after the sweep exactly if it was
/// registered and had a handle before it.
pub proof fn law_sweep_keeps_exactly_the_live<V>(s: HolderModel<V>)
    ensures
        forall|id: u64| #[trigger] s.cleanup().is_registered(id) <==> s.is_live(id),
{
    lemma_live_comes_from_records(s);
    let live = s.live();
    assert forall|id: u64| #[trigger] s.cleanup().is_registered(id) <==> s.is_live(id) by {
        if s.cleanup().is_registered(id) {
            let k = choose|k: int| 0 <= k < live.len() && (#[trigger] live[k]).id == id;
            let a = choose|a: int| 0 <= a < s.records.len() && s.records[a] == live[k];
            assert(s.records[a].id == id && !s.records[a].detached);
        }
        if s.is_live(id) {
            let a = choose|a: int|
                0 <= a < s.records.len() && (#[trigger] s.records[a]).id == id
                    && !s.records[a].detached;
            s.records.lemma_filter_contains(|r: RecordModel<V>| !r.detached, a);
            let k = choose|k: int| 0 <= k < live.len() && live[k] == s.records[a];
            assert(s.cleanup().records[k].id == id);
        }
    }
}

/// Nothing is released that was not promoted, and nothing more often than it
/// was promoted: at any point in the life of a holder, each value has been
/// released at most as often as it has been promoted until then.
pub proof fn law_no_release_without_promotion<V>(
    runtime: NonNullPtr,
    steps: Seq<HolderStep<V>>,
    value: V,
)
    ensures
        HolderModel::<V>::empty(runtime).run_released(steps).to_multiset().count(value)
            <= HolderModel::<V>::run_promoted(steps).to_multiset().count(value),
{
    law_every_promotion_is_released_once(runtime, steps);
}

/// A second sweep with no dropped handle in between changes nothing and
/// releases nothing: the first one left the holder clean.
pub proof fn law_cleanup_is_idempotent<V>(s: HolderModel<V>)
    requires
        s.wf(),
    ensures
        !s.cleanup().dirty,
        s.cleanup().cleanup() == s.cleanup(),
        s.cleanup().released() == Seq::<V>::empty(),
{
    lemma_live_is_well_formed(s);
    lemma_live_comes_from_records(s);
    lemma_clean_has_nothing_to_release(s.cleanup());
}

/// The count invariant: after the promotions `values` and the drop of the
/// handles `dropped`, all different and all of records that had a handle, a
/// sweep leaves as many records as there were live ones before, plus the
/// promotions, less the drops. From an empty holder that is the number of
/// promotions less the number of drops.
pub proof fn law_count_after_cleanup<V>(s: HolderModel<V>, values: Seq<V>, dropped: Seq<u64>)
    requires
        s.wf(),
        s.issued + values.len() <= u64::MAX,
        dropped.no_duplicates(),
        forall|k: int|
            0 <= k < dropped.len() ==> s.promote_all(values).is_live(#[trigger] dropped[k]),
    ensures
        s.promote_all(values).detach_all(dropped).cleanup().records.len() == s.live().len()
            + values.len() - dropped.len(),
        s.promote_all(values).detach_all(dropped).released().len() == s.released().len()
            + dropped.len(),
{
    lemma_promote_all(s, values);
    let promoted = s.promote_all(values);
    lemma_detach_all(promoted, dropped);
    law_sweep_keeps_or_releases(s);
    law_sweep_keeps_or_releases(promoted);
    law_sweep_keeps_or_releases(promoted.detach_all(dropped));
}

/// The count invariant over any life of a holder: however promotions, drops
/// and sweeps follow one another, the records that still have a handle are
/// as many as there were at the start, plus the promotions, less the drops,
/// and a sweep leaves exactly those records.
pub proof fn law_live_count<V>(s: HolderModel<V>, steps: Seq<HolderStep<V>>)
    requires
        s.wf(),
        s.admits(steps),
    ensures
        s.run(steps).wf(),
        s.run(steps).live().len() == s.live().len() + HolderModel::<V>::promotions(steps)
            - HolderModel::<V>::drops(steps),
        s.run(steps).cleanup().records.len() == s.live().len() + HolderModel::<V>::promotions(
            steps,
        ) - HolderModel::<V>::drops(steps),
    decreases steps.len(),
{
    if steps.len() > 0 {
        let earlier = steps.drop_last();
        law_live_count(s, earlier);
        let before = s.run(earlier);
        match steps.last() {
            HolderStep::Promote(value) => {
                lemma_push(before, value);
            },
            HolderStep::Detach(id) => {
                lemma_detach(before, id);
            },
            HolderStep::Sweep => {
                lemma_live_is_well_formed(before);
                lemma_live_comes_from_records(before);
                lemma_clean_has_nothing_to_release(before.cleanup());
            },
        }
    }
}

/// Teardown completeness: whatever handles were dropped, as long as no sweep
/// ran, the holder still has a record for every promotion, so tearing it
/// down releases every promoted value, in the order of promotion.
pub proof fn law_teardown_releases_every_promotion<V>(
    runtime: NonNullPtr,
    values: Seq<V>,
    dropped: Seq<u64>,
)
    ensures
        HolderModel::empty(runtime).promote_all(values).detach_all(dropped).values() == values,
{
    let s = HolderModel::<V>::empty(runtime);
    lemma_promote_all_values(s, values);
    lemma_detach_all_keeps_values(s.promote_all(values), dropped);
    assert(s.values() =~= Seq::<V>::empty());
    assert(Seq::<V>::empty() + values =~= values);
}

/// Promotions append their values to the holder's, in order.
pub proof fn lemma_promote_all_values<V>(s: HolderModel<V>, values: Seq<V>)
    ensures
        s.promote_all(values).values() == s.values() + values,
        s.promote_all(values).records.len() == s.records.len() + values.len(),
    decreases values.len(),
{
    if values.len() == 0 {
        assert(s.values() + values =~= s.values());
    } else {
        let head = values.drop_last();
        lemma_promote_all_values(s, head);
        assert(values =~= head.push(values.last()));
        assert(s.promote_all(values).records == s.promote_all(head).records.push(
            RecordModel {
                id: s.promote_all(head).issued as u64,
                detached: false,
                value: values.last(),
            },
        ));
        assert(s.promote_all(values).values() =~= s.promote_all(head).values().push(
            values.last(),
        ));
        assert(s.promote_all(values).values() =~= s.values() + values);
    }
}

/// Dropped handles change no value and remove no record.
pub proof fn lemma_detach_all_keeps_values<V>(s: HolderModel<V>, ids: Seq<u64>)
    ensures
        s.detach_all(ids).values() == s.values(),
        s.detach_all(ids).records.len() == s.records.len(),
    decreases ids.len(),
{
    if ids.len() > 0 {
        lemma_detach_all_keeps_values(s, ids.drop_last());
        assert(s.detach_all(ids).values() =~= s.values());
    }
}

/// A promotion keeps the holder well formed and adds one live record.
pub proof fn lemma_push<V>(s: HolderModel<V>, value: V)
    requires
        s.wf(),
        s.issued < u64::MAX,
    ensures
        s.push(value).wf(),
        s.push(value).live() == s.live().push(
            RecordModel { id: s.issued as u64, detached: false, value },
        ),
        s.push(value).released() == s.released(),
        s.push(value).is_live(s.issued as u64),
        forall|id: u64| s.is_live(id) ==> s.push(value).is_live(id),
{
    let fresh = RecordModel { id: s.issued as u64, detached: false, value };
    s.records.lemma_filter_push(fresh, |r: RecordModel<V>| !r.detached);
    s.records.lemma_filter_push(fresh, |r: RecordModel<V>| r.detached);
    let next = s.push(value);
    assert(next.records[s.records.len() as int] == fresh);
    assert forall|id: u64| s.is_live(id) implies next.is_live(id) by {
        let i = choose|i: int|
            0 <= i < s.records.len() && (#[trigger] s.records[i]).id == id
                && !s.records[i].detached;
        assert(next.records[i] == s.records[i]);
    }
}

/// Promotions keep the holder well formed; each adds one live record and
/// releases nothing.
pub proof fn lemma_promote_all<V>(s: HolderModel<V>, values: Seq<V>)
    requires
        s.wf(),
        s.issued + values.len() <= u64::MAX,
    ensures
        s.promote_all(values).wf(),
        s.promote_all(values).issued == s.issued + values.len(),
        s.promote_all(values).live().len() == s.live().len() + values.len(),
        s.promote_all(values).released() == s.released(),
    decreases values.len(),
{
    if values.len() > 0 {
        lemma_promote_all(s, values.drop_last());
        lemma_push(s.promote_all(values.drop_last()), values.last());
    }
}

/// Dropping the last handle of a live record keeps the holder well formed,
/// takes one record from the live ones, and leaves every other record as
/// live as it was.
pub proof fn lemma_detach<V>(s: HolderModel<V>, id: u64)
    requires
        s.wf(),
    ensures
        s.detach(id).wf(),
        s.is_live(id) ==> s.detach(id).live().len() == s.live().len() - 1,
        !s.is_live(id) ==> s.detach(id).live() == s.live(),
        !s.detach(id).is_live(id),
        forall|other: u64| other != id ==> (s.detach(id).is_live(other) <==> s.is_live(other)),
    decreases s.records.len(),
{
    reveal(Seq::filter);
    let next = s.detach(id);
    assert forall|other: u64| other != id implies (next.is_live(other) <==> s.is_live(other)) by {
        if s.is_live(other) {
            let i = choose|i: int|
                0 <= i < s.records.len() && (#[trigger] s.records[i]).id == other
                    && !s.records[i].detached;
            assert(next.records[i].id == other && !next.records[i].detached);
        }
        if next.is_live(other) {
            let i = choose|i: int|
                0 <= i < next.records.len() && (#[trigger] next.records[i]).id == other
                    && !next.records[i].detached;
            assert(s.records[i].id == other && !s.records[i].detached);
        }
    }
    assert(!next.is_live(id)) by {
        if next.is_live(id) {
            let i = choose|i: int|
                0 <= i < next.records.len() && (#[trigger] next.records[i]).id == id
                    && !next.records[i].detached;
            assert(s.records[i].id == id);
        }
    }
    if s.records.len() > 0 {
        let rest = HolderModel { records: s.records.drop_last(), ..s };
        let last = s.records.last();
        assert(rest.wf()) by {
            assert forall|i: int| 0 <= i < rest.records.len() implies rest.records[i]
                == s.records[i] by {}
        }
        lemma_detach(rest, id);
        assert(next.records.drop_last() =~= rest.detach(id).records);
        if last.id == id {
            assert(!rest.is_live(id)) by {
                if rest.is_live(id) {
                    let i = choose|i: int|
                        0 <= i < rest.records.len() && (#[trigger] rest.records[i]).id == id
                            && !rest.records[i].detached;
                    assert(s.records[i].id < s.records[s.records.len() - 1].id);
                }
            }
            if !last.detached {
                assert(s.is_live(id)) by {
                    assert(s.records[s.records.len() - 1].id == id);
                }
            } else {
                assert(!s.is_live(id)) by {
                    if s.is_live(id) {
                        let i = choose|i: int|
                            0 <= i < s.records.len() && (#[trigger] s.records[i]).id == id
                                && !s.records[i].detached;
                        if i < s.records.len() - 1 {
                            assert(s.records[i].id < s.records[s.records.len() - 1].id);
                        }
                    }
                }
            }
        } else {
            assert(next.records.last() == last);
            assert(s.is_live(id) <==> rest.is_live(id)) by {
                if s.is_live(id) {
                    let i = choose|i: int|
                        0 <= i < s.records.len() && (#[trigger] s.records[i]).id == id
                            && !s.records[i].detached;
                    assert(rest.records[i].id == id && !rest.records[i].detached);
                }
                if rest.is_live(id) {
                    let i = choose|i: int|
                        0 <= i < rest.records.len() && (#[trigger] rest.records[i]).id == id
                            && !rest.records[i].detached;
                    assert(s.records[i].id == id && !s.records[i].detached);
                }
            }
        }
    } else {
        assert(next.records =~= s.records);
        assert(!s.is_live(id));
    }
}

/// Dropping the handles of different live records keeps the holder well
/// formed and takes one record from the live ones for each.
pub proof fn lemma_detach_all<V>(s: HolderModel<V>, ids: Seq<u64>)
    requires
        s.wf(),
        ids.no_duplicates(),
        forall|k: int| 0 <= k < ids.len() ==> s.is_live(#[trigger] ids[k]),
    ensures
        s.detach_all(ids).wf(),
        s.detach_all(ids).live().len() == s.live().len() - ids.len(),
        s.detach_all(ids).records.len() == s.records.len(),
        forall|other: u64|
            !ids.contains(other) ==> (s.detach_all(ids).is_live(other) <==> s.is_live(other)),
    decreases ids.len(),
{
    if ids.len() > 0 {
        let head = ids.drop_last();
        let id = ids.last();
        assert forall|k: int| 0 <= k < head.len() implies s.is_live(#[trigger] head[k]) by {
            assert(head[k] == ids[k]);
        }
        lemma_detach_all(s, head);
        let mid = s.detach_all(head);
        assert(!head.contains(id)) by {
            if head.contains(id) {
                let k = choose|k: int| 0 <= k < head.len() && head[k] == id;
                assert(ids[k] == ids[ids.len() - 1]);
            }
        }
        assert(s.is_live(id)) by {
            assert(ids[ids.len() - 1] == id);
        }
        lemma_detach(mid, id);
        lemma_detach_all_keeps_values(s, ids);
        assert forall|other: u64| !ids.contains(other) implies (s.detach_all(ids).is_live(other)
            <==> s.is_live(other)) by {
            assert(other != id) by {
                assert(ids[ids.len() - 1] == id);
            }
            assert(!head.contains(other)) by {
                if head.contains(other) {
                    let k = choose|k: int| 0 <= k < head.len() && head[k] == other;
                    assert(ids[k] == other);
                }
            }
        }
    }
}

/// A holder that is not dirty keeps all its records in a sweep and releases
/// nothing.
pub proof fn lemma_clean_has_nothing_to_release<V>(s: HolderModel<V>)
    requires
        s.wf(),
        !s.dirty,
    ensures
        s.cleanup() == s,
        s.released() == Seq::<V>::empty(),
    decreases s.records.len(),
{
    reveal(Seq::filter);
    if s.records.len() > 0 {
        let rest = HolderModel { records: s.records.drop_last(), ..s };
        lemma_clean_has_nothing_to_release(rest);
        assert(s.live() =~= s.records);
    } else {
        assert(s.live() =~= s.records);
    }
    assert(s.released() =~= Seq::<V>::empty());
}

/// A sweep leaves a well-formed holder well formed.
pub proof fn lemma_live_is_well_formed<V>(s: HolderModel<V>)
    requires
        s.wf(),
    ensures
        s.cleanup().wf(),
{
    lemma_live_is_ordered_selection(s);
    lemma_live_comes_from_records(s);
    let live = s.live();
    assert forall|i: int, j: int| 0 <= i < j < live.len() implies (#[trigger] live[i]).id < (
    #[trigger] live[j]).id by {
        let (a, b) = choose|a: int, b: int|
            0 <= a < b < s.records.len() && s.records[a] == live[i] && s.records[b] == live[j];
    }
    assert forall|i: int| 0 <= i < live.len() implies (#[trigger] live[i]).id < s.issued by {
        let a = choose|a: int| 0 <= a < s.records.len() && s.records[a] == live[i];
    }
}

/// The live records are taken from the records without changing their order:
/// any two of them stand in the records as they stand among the live ones.
pub proof fn lemma_live_is_ordered_selection<V>(s: HolderModel<V>)
    ensures
        forall|i: int, j: int|
            #![trigger s.live()[i], s.live()[j]]
            0 <= i < j < s.live().len() ==> exists|a: int, b: int|
                0 <= a < b < s.records.len() && s.records[a] == s.live()[i] && s.records[b]
                    == s.live()[j],
    decreases s.records.len(),
{
    reveal(Seq::filter);
    let live = s.live();
    if s.records.len() > 0 {
        let rest = HolderModel { records: s.records.drop_last(), ..s };
        lemma_live_is_ordered_selection(rest);
        lemma_live_comes_from_records(rest);
        let rest_live = rest.live();
        assert forall|i: int, j: int|
            #![trigger live[i], live[j]]
            0 <= i < j < live.len() implies exists|a: int, b: int|
            0 <= a < b < s.records.len() && s.records[a] == live[i] && s.records[b] == live[j] by {
            if j < rest_live.len() {
                let (a, b) = choose|a: int, b: int|
                    0 <= a < b < rest.records.len() && rest.records[a] == rest_live[i]
                        && rest.records[b] == rest_live[j];
                assert(s.records[a] == live[i] && s.records[b] == live[j]);
            } else {
                let a = choose|a: int|
                    0 <= a < rest.records.len() && rest.records[a] == rest_live[i];
                assert(s.records[a] == live[i]);
                assert(s.records[s.records.len() - 1] == live[j]);
            }
        }
    }
}

/// Every live record is one of the records, and has a handle.
pub proof fn lemma_live_comes_from_records<V>(s: HolderModel<V>)
    ensures
        forall|k: int|
            0 <= k < s.live().len() ==> !(#[trigger] s.live()[k]).detached && exists|a: int|
                0 <= a < s.records.len() && s.records[a] == s.live()[k],
    decreases s.records.len(),
{
    reveal(Seq::filter);
    let live = s.live();
    if s.records.len() > 0 {
        let rest = HolderModel { records: s.records.drop_last(), ..s };
        lemma_live_comes_from_records(rest);
        let rest_live = rest.live();
        assert forall|k: int| 0 <= k < live.len() implies !(#[trigger] live[k]).detached
            && exists|a: int| 0 <= a < s.records.len() && s.records[a] == live[k] by {
            if k < rest_live.len() {
                let a = choose|a: int|
                    0 <= a < rest.records.len() && rest.records[a] == rest_live[k];
                assert(s.records[a] == live[k]);
            } else {
                assert(s.records[s.records.len() - 1] == live[k]);
            }
        }
    }
}

} // verus!
