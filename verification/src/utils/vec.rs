//! Vectors that stay small while they can.

use vstd::prelude::*;

verus! {

/// A vector that holds at most `CAP` items.
pub struct TinyVec<T, const CAP: usize> {
    data: Vec<T>,
}

impl<T, const CAP: usize> View for TinyVec<T, CAP> {
    type V = Seq<T>;

    closed spec fn view(&self) -> Seq<T> {
        self.data@
    }
}

impl<T, const TINY_CAP: usize> TinyVec<T, TINY_CAP> {
    #[verifier::type_invariant]
    spec fn inv(self) -> bool {
        self.data@.len() <= TINY_CAP
    }

    /// An empty vector.
    pub fn new() -> (ret: Self)
        ensures
            ret@ == Seq::<T>::empty(),
    {
        TinyVec { data: Vec::new() }
    }

    /// Appends `v` if there is room for it, and hands it back if there is
    /// none.
    pub fn try_push(&mut self, v: T) -> (ret: Result<(), T>)
        ensures
            old(self)@.len() < TINY_CAP ==> ret is Ok && final(self)@ == old(self)@.push(v),
            old(self)@.len() >= TINY_CAP ==> ret == Err::<(), T>(v) && final(self)@ == old(self)@,
            final(self)@.len() <= TINY_CAP,
    {
        proof {
            use_type_invariant(&*self);
        }
        if self.data.len() < TINY_CAP {
            let mut data: Vec<T> = Vec::new();
            core::mem::swap(&mut self.data, &mut data);
            data.push(v);
            self.data = data;
            Ok(())
        } else {
            Err(v)
        }
    }

    /// The number of items, which never exceeds the capacity.
    pub fn len(&self) -> (n: usize)
        ensures
            n == self@.len(),
            n <= TINY_CAP,
    {
        proof {
            use_type_invariant(self);
        }
        self.data.len()
    }

    /// The items, first to last.
    pub fn as_slice(&self) -> (items: &[T])
        ensures
            items@ == self@,
    {
        self.data.as_slice()
    }

    /// Puts `v` in the place of the item at `index`, and hands that item
    /// back.
    pub fn replace(&mut self, index: usize, v: T) -> (old_item: T)
        requires
            index < old(self)@.len(),
        ensures
            final(self)@ == old(self)@.update(index as int, v),
            old_item == old(self)@[index as int],
    {
        proof {
            use_type_invariant(&*self);
        }
        let mut data: Vec<T> = Vec::new();
        core::mem::swap(&mut self.data, &mut data);
        let mut v = v;
        core::mem::swap(&mut data[index], &mut v);
        self.data = data;
        v
    }

    /// Gives the items up, first to last.
    pub fn into_vec(self) -> (items: Vec<T>)
        ensures
            items@ == self@,
    {
        self.data
    }

    /// An iterator that hands the items out, first to last.
    pub fn into_iter(self) -> (iter: TinyVecIntoIter<T, TINY_CAP>)
        ensures
            iter@ == self@,
    {
        proof {
            use_type_invariant(&self);
        }
        let rest = reversed(self.data);
        TinyVecIntoIter { rest }
    }
}

/// The items of `items` in the opposite order.
fn reversed<T>(items: Vec<T>) -> (ret: Vec<T>)
    ensures
        ret@ == items@.reverse(),
{
    let ghost all = items@;
    let mut items = items;
    let mut ret: Vec<T> = Vec::new();
    while items.len() > 0
        invariant
            items@.len() <= all.len(),
            items@ == all.take(items@.len() as int),
            ret@ == all.skip(items@.len() as int).reverse(),
        decreases items@.len(),
    {
        let ghost n = items@.len() as int;
        let last = items.pop();
        match last {
            Some(v) => {
                ret.push(v);
                assert(items@ =~= all.take(n - 1));
                assert(ret@ =~= all.skip(n - 1).reverse());
            },
            None => {},
        }
    }
    assert(all.skip(0) =~= all);
    ret
}

/// The items of a [`TinyVec`] that are still to be handed out.
pub struct TinyVecIntoIter<T, const CAP: usize> {
    rest: Vec<T>,
}

impl<T, const CAP: usize> View for TinyVecIntoIter<T, CAP> {
    type V = Seq<T>;

    /// The items that are left, next one first.
    closed spec fn view(&self) -> Seq<T> {
        self.rest@.reverse()
    }
}

impl<T, const CAP: usize> TinyVecIntoIter<T, CAP> {
    #[verifier::type_invariant]
    spec fn inv(self) -> bool {
        self.rest@.len() <= CAP
    }

    /// Hands out the next item, if one is left.
    pub fn next(&mut self) -> (item: Option<T>)
        ensures
            old(self)@.len() == 0 ==> item is None && final(self)@ == old(self)@,
            old(self)@.len() > 0 ==> item == Some(old(self)@.first()) && final(self)@ == old(
                self,
            )@.drop_first(),
    {
        proof {
            use_type_invariant(&*self);
        }
        let mut rest: Vec<T> = Vec::new();
        core::mem::swap(&mut self.rest, &mut rest);
        let item = rest.pop();
        proof {
            if old(self)@.len() > 0 {
                assert(rest@.reverse() =~= old(self)@.drop_first());
            } else {
                assert(rest@.reverse() =~= old(self)@);
            }
        }
        self.rest = rest;
        item
    }

    /// The number of items that are left.
    pub fn len(&self) -> (n: usize)
        ensures
            n == self@.len(),
    {
        self.rest.len()
    }
}

/// A vector that keeps up to `TINY_CAP` items in a [`TinyVec`] and moves to
/// an ordinary vector when it holds more.
pub enum MaybeTinyVec<T, const TINY_CAP: usize> {
    Tiny(TinyVec<T, TINY_CAP>),
    Fat(Vec<T>),
}

impl<T, const TINY_CAP: usize> View for MaybeTinyVec<T, TINY_CAP> {
    type V = Seq<T>;

    open spec fn view(&self) -> Seq<T> {
        match self {
            MaybeTinyVec::Tiny(tiny) => tiny@,
            MaybeTinyVec::Fat(fat) => fat@,
        }
    }
}

impl<T, const TINY_CAP: usize> MaybeTinyVec<T, TINY_CAP> {
    /// An empty vector, tiny.
    pub fn new() -> (ret: Self)
        ensures
            ret@ == Seq::<T>::empty(),
            ret is Tiny,
    {
        MaybeTinyVec::Tiny(TinyVec::new())
    }

    /// Appends `v`. A tiny vector that is full moves all its items, and
    /// `v` behind them, to an ordinary vector; a fat one stays fat.
    pub fn push(&mut self, v: T)
        ensures
            final(self)@ == old(self)@.push(v),
            *final(self) is Tiny <==> *old(self) is Tiny && old(self)@.len() < TINY_CAP,
    {
        let mut taken: MaybeTinyVec<T, TINY_CAP> = MaybeTinyVec::Fat(Vec::new());
        core::mem::swap(self, &mut taken);
        match taken {
            MaybeTinyVec::Tiny(mut tiny) => {
                match tiny.try_push(v) {
                    Ok(_) => {
                        *self = MaybeTinyVec::Tiny(tiny);
                    },
                    Err(v) => {
                        let mut fat = tiny.into_vec();
                        fat.push(v);
                        *self = MaybeTinyVec::Fat(fat);
                    },
                }
            },
            MaybeTinyVec::Fat(mut fat) => {
                fat.push(v);
                *self = MaybeTinyVec::Fat(fat);
            },
        }
    }

    /// The number of items.
    pub fn len(&self) -> (n: usize)
        ensures
            n == self@.len(),
    {
        match self {
            MaybeTinyVec::Tiny(tiny) => tiny.len(),
            MaybeTinyVec::Fat(fat) => fat.len(),
        }
    }

    /// The items, first to last.
    pub fn as_slice(&self) -> (items: &[T])
        ensures
            items@ == self@,
    {
        match self {
            MaybeTinyVec::Tiny(tiny) => tiny.as_slice(),
            MaybeTinyVec::Fat(fat) => fat.as_slice(),
        }
    }

    /// Puts `v` in the place of the item at `index`, and hands that item
    /// back.
    pub fn replace(&mut self, index: usize, v: T) -> (old_item: T)
        requires
            index < old(self)@.len(),
        ensures
            final(self)@ == old(self)@.update(index as int, v),
            old_item == old(self)@[index as int],
            *final(self) is Tiny <==> *old(self) is Tiny,
    {
        match self {
            MaybeTinyVec::Tiny(tiny) => tiny.replace(index, v),
            MaybeTinyVec::Fat(fat) => {
                let mut v = v;
                core::mem::swap(&mut fat[index], &mut v);
                v
            },
        }
    }

    /// Collects `items`, in their order: more than `TINY_CAP` of them go
    /// straight to an ordinary vector, fewer are kept tiny.
    pub fn from_vec(items: Vec<T>) -> (ret: Self)
        ensures
            ret@ == items@,
            ret is Tiny <==> items@.len() <= TINY_CAP,
    {
        if items.len() > TINY_CAP {
            MaybeTinyVec::Fat(items)
        } else {
            let ghost all = items@;
            let mut rest = reversed(items);
            let mut ret: MaybeTinyVec<T, TINY_CAP> = MaybeTinyVec::new();
            while rest.len() > 0
                invariant
                    all.len() <= TINY_CAP,
                    rest@.len() <= all.len(),
                    ret is Tiny,
                    ret@ == all.take(all.len() - rest@.len()),
                    rest@ == all.reverse().take(rest@.len() as int),
                decreases rest@.len(),
            {
                let ghost n = rest@.len() as int;
                match rest.pop() {
                    Some(v) => {
                        assert(v == all[all.len() - n]);
                        ret.push(v);
                        assert(ret@ =~= all.take(all.len() - n + 1));
                        assert(rest@ =~= all.reverse().take(n - 1));
                    },
                    None => {},
                }
            }
            assert(all.take(all.len() as int) =~= all);
            ret
        }
    }

    /// An iterator that hands the items out, first to last.
    pub fn into_iter(self) -> (iter: MaybeTinyVecIntoIter<T, TINY_CAP>)
        ensures
            iter@ == self@,
    {
        match self {
            MaybeTinyVec::Tiny(tiny) => MaybeTinyVecIntoIter::Tiny(tiny.into_iter()),
            MaybeTinyVec::Fat(fat) => MaybeTinyVecIntoIter::Fat(FatIntoIter { rest: reversed(fat) }),
        }
    }
}

/// The items of an ordinary vector that are still to be handed out.
pub struct FatIntoIter<T> {
    rest: Vec<T>,
}

impl<T> View for FatIntoIter<T> {
    type V = Seq<T>;

    /// The items that are left, next one first.
    closed spec fn view(&self) -> Seq<T> {
        self.rest@.reverse()
    }
}

impl<T> FatIntoIter<T> {
    /// Hands out the next item, if one is left.
    pub fn next(&mut self) -> (item: Option<T>)
        ensures
            old(self)@.len() == 0 ==> item is None && final(self)@ == old(self)@,
            old(self)@.len() > 0 ==> item == Some(old(self)@.first()) && final(self)@ == old(
                self,
            )@.drop_first(),
    {
        let item = self.rest.pop();
        proof {
            if old(self)@.len() > 0 {
                assert(self.rest@.reverse() =~= old(self)@.drop_first());
            } else {
                assert(self.rest@.reverse() =~= old(self)@);
            }
        }
        item
    }
}

/// The items of a [`MaybeTinyVec`] that are still to be handed out.
pub enum MaybeTinyVecIntoIter<T, const TINY_CAP: usize> {
    Tiny(TinyVecIntoIter<T, TINY_CAP>),
    Fat(FatIntoIter<T>),
}

impl<T, const TINY_CAP: usize> View for MaybeTinyVecIntoIter<T, TINY_CAP> {
    type V = Seq<T>;

    /// The items that are left, next one first.
    open spec fn view(&self) -> Seq<T> {
        match self {
            MaybeTinyVecIntoIter::Tiny(tiny) => tiny@,
            MaybeTinyVecIntoIter::Fat(fat) => fat@,
        }
    }
}

impl<T, const TINY_CAP: usize> MaybeTinyVecIntoIter<T, TINY_CAP> {
    /// Hands out the next item, if one is left.
    pub fn next(&mut self) -> (item: Option<T>)
        ensures
            old(self)@.len() == 0 ==> item is None && final(self)@ == old(self)@,
            old(self)@.len() > 0 ==> item == Some(old(self)@.first()) && final(self)@ == old(
                self,
            )@.drop_first(),
    {
        match self {
            MaybeTinyVecIntoIter::Tiny(tiny) => tiny.next(),
            MaybeTinyVecIntoIter::Fat(fat) => fat.next(),
        }
    }
}

} // verus!
