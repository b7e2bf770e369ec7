//! The handles that are out, and how their drop is found out.
//!
//! A handle may be dropped on any thread, by code that has no access to the
//! registry. So the registry does not learn of a drop when it happens: with
//! each handle goes a token that only tells, when asked, whether a copy of
//! the handle is still alive, and whoever holds the runtime asks before a
//! sweep.

use vstd::prelude::*;

verus! {

/// One handle that is out: the identity of its record, and the token that
/// tells whether a copy of the handle is still alive.
pub struct Issue<T> {
    pub record: u64,
    pub token: T,
}

/// The handles whose tokens answered `alive` with yes, in their order.
/// `alive` holds one answer for each handle.
pub open spec fn still_out<T>(issued: Seq<Issue<T>>, alive: Seq<bool>) -> Seq<Issue<T>>
    decreases issued.len(),
{
    if issued.len() == 0 {
        Seq::empty()
    } else {
        let before = still_out(issued.drop_last(), alive.drop_last());
        if alive.last() {
            before.push(issued.last())
        } else {
            before
        }
    }
}

/// The records of the handles whose tokens answered `alive` with no, in the
/// order of the handles. `alive` holds one answer for each handle.
pub open spec fn dropped_records<T>(issued: Seq<Issue<T>>, alive: Seq<bool>) -> Seq<u64>
    decreases issued.len(),
{
    if issued.len() == 0 {
        Seq::empty()
    } else {
        let before = dropped_records(issued.drop_last(), alive.drop_last());
        if alive.last() {
            before
        } else {
            before.push(issued.last().record)
        }
    }
}

/// The handles of one kind that a runtime has given out and not yet found
/// dropped.
pub struct Issued<T> {
    entries: Vec<Issue<T>>,
}

impl<T> View for Issued<T> {
    type V = Seq<Issue<T>>;

    closed spec fn view(&self) -> Seq<Issue<T>> {
        self.entries@
    }
}

impl<T> Issued<T> {
    /// No handle is out.
    pub fn new() -> (issued: Self)
        ensures
            issued@ == Seq::<Issue<T>>::empty(),
    {
        Issued { entries: Vec::new() }
    }

    /// The number of handles that are out.
    pub fn len(&self) -> (n: usize)
        ensures
            n == self@.len(),
    {
        self.entries.len()
    }

    /// Notes that a handle for `record` went out with `token`.
    pub fn issue(&mut self, record: u64, token: T)
        ensures
            final(self)@ == old(self)@.push(Issue { record, token }),
    {
        self.entries.push(Issue { record, token });
    }

    /// Sorts the handles by the answers `alive`, one for each handle: those
    /// that are alive stay, in their order, and the records of the others
    /// come back, in the order of the handles.
    pub fn take_where_not(&mut self, alive: &Vec<bool>) -> (dropped: Vec<u64>)
        requires
            alive@.len() == old(self)@.len(),
        ensures
            final(self)@ == still_out(old(self)@, alive@),
            dropped@ == dropped_records(old(self)@, alive@),
    {
        let ghost all = self@;
        let mut entries: Vec<Issue<T>> = Vec::new();
        core::mem::swap(&mut self.entries, &mut entries);
        // Turned round, the handles can be moved out one by one, first to last.
        let mut rest = turned(entries);
        let mut kept: Vec<Issue<T>> = Vec::new();
        let mut dropped: Vec<u64> = Vec::new();
        let mut i: usize = 0;
        assert(all.take(0) =~= Seq::<Issue<T>>::empty());
        while rest.len() > 0
            invariant
                alive@.len() == all.len(),
                i + rest@.len() == all.len(),
                rest@ == all.reverse().take(rest@.len() as int),
                kept@ == still_out(all.take(i as int), alive@.take(i as int)),
                dropped@ == dropped_records(all.take(i as int), alive@.take(i as int)),
            decreases rest@.len(),
        {
            let ghost n = rest@.len() as int;
            let is_alive = alive[i];
            assert(i < alive.len());
            match rest.pop() {
                Some(entry) => {
                    proof {
                        assert(entry == all[i as int]);
                        assert(all.take(i + 1).drop_last() =~= all.take(i as int));
                        assert(alive@.take(i + 1).drop_last() =~= alive@.take(i as int));
                        assert(all.take(i + 1).last() == entry);
                        assert(alive@.take(i + 1).last() == is_alive);
                        assert(rest@ =~= all.reverse().take(n - 1));
                    }
                    if is_alive {
                        kept.push(entry);
                    } else {
                        dropped.push(entry.record);
                    }
                    i += 1;
                },
                None => {},
            }
        }
        proof {
            assert(all.take(i as int) =~= all);
            assert(alive@.take(i as int) =~= alive@);
        }
        self.entries = kept;
        dropped
    }

    /// Asks the token of every handle whether a copy of the handle is still
    /// alive. The handles that are stay, in their order; the records of the
    /// others come back, for the runtime to be told that their last handle is
    /// gone. What the tokens answer is not the registry's to know: whatever
    /// they answer, the handles are sorted by it.
    pub fn take_dropped<F: Fn(&T) -> bool>(&mut self, is_alive: F) -> (dropped: Vec<u64>)
        requires
            forall|token: &T| #[trigger] is_alive.requires((token,)),
        ensures
            exists|alive: Seq<bool>|
                {
                    &&& alive.len() == old(self)@.len()
                    &&& forall|i: int|
                        0 <= i < alive.len() ==> is_alive.ensures(
                            (&(#[trigger] old(self)@[i]).token,),
                            alive[i],
                        )
                    &&& final(self)@ == still_out(old(self)@, alive)
                    &&& dropped@ == dropped_records(old(self)@, alive)
                },
    {
        let n = self.entries.len();
        let mut alive: Vec<bool> = Vec::new();
        let mut i: usize = 0;
        while i < n
            invariant
                n == self.entries@.len(),
                *self == *old(self),
                i <= n,
                alive@.len() == i,
                forall|token: &T| #[trigger] is_alive.requires((token,)),
                forall|k: int|
                    0 <= k < i ==> is_alive.ensures((&(#[trigger] self@[k]).token,), alive@[k]),
            decreases n - i,
        {
            let answer = is_alive(&self.entries[i].token);
            alive.push(answer);
            i += 1;
        }
        self.take_where_not(&alive)
    }
}

/// The items of `items` in the opposite order.
fn turned<A>(items: Vec<A>) -> (ret: Vec<A>)
    ensures
        ret@ == items@.reverse(),
{
    let ghost all = items@;
    let mut items = items;
    let mut ret: Vec<A> = Vec::new();
    while items.len() > 0
        invariant
            items@.len() <= all.len(),
            items@ == all.take(items@.len() as int),
            ret@ == all.skip(items@.len() as int).reverse(),
        decreases items@.len(),
    {
        let ghost n = items@.len() as int;
        match items.pop() {
            Some(v) => {
                ret.push(v);
                assert(items@ =~= all.take(n - 1));
                assert(ret@ =~= all.skip(n - 1).reverse());
            },
            None => {},
        }
    }
    assert(all.skip(0) =~= all);
    ret
}

} // verus!
