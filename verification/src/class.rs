//! The table of the class identifiers that native types were given.

use core::any::TypeId;
use vstd::prelude::*;

verus! {

/// How a native class object is being called.
#[derive(Clone, Copy, Debug, PartialEq, Eq, Structural)]
pub struct CallOptions {
    /// Whether the call is a construction with `new`.
    pub constructor: bool,
}

/// The bit of a call's flags that says the call is a construction.
pub const CALL_FLAG_CONSTRUCTOR: u32 = 1;

impl CallOptions {
    /// Reads the flags that the engine passes to a native class call.
    pub fn from_flags(flags: u32) -> (options: CallOptions)
        ensures
            options.constructor == (flags & CALL_FLAG_CONSTRUCTOR > 0),
    {
        CallOptions { constructor: flags & CALL_FLAG_CONSTRUCTOR > 0 }
    }
}

/// `core::any::TypeId` of std: the identifier of a type, which the table
/// carries through as it is.
#[verifier::external_type_specification]
#[verifier::external_body]
pub struct ExTypeId(TypeId);

/// `TypeId::eq` of std: two type identifiers compare equal exactly when they
/// are the same identifier.
#[verifier::external_body]
fn same_type(a: &TypeId, b: &TypeId) -> (same: bool)
    ensures
        same == (*a == *b),
{
    a == b
}

/// One line of a runtime's class table: a native type and the class
/// identifier that the engine gave it.
pub struct ClassEntry {
    pub type_id: TypeId,
    pub class_id: u32,
}

/// What a class table says of `type_id`: the identifier in the first line
/// for it, if there is one.
pub open spec fn class_id_of(entries: Seq<ClassEntry>, type_id: TypeId) -> Option<u32>
    decreases entries.len(),
{
    if entries.len() == 0 {
        None
    } else if entries.first().type_id == type_id {
        Some(entries.first().class_id)
    } else {
        class_id_of(entries.drop_first(), type_id)
    }
}

/// The class table of a runtime: which class identifier of the engine
/// stands for which native type. A type has at most one line.
pub struct ClassIds {
    entries: Vec<ClassEntry>,
}

impl View for ClassIds {
    type V = Seq<ClassEntry>;

    closed spec fn view(&self) -> Seq<ClassEntry> {
        self.entries@
    }
}

impl ClassIds {
    #[verifier::type_invariant]
    spec fn inv(self) -> bool {
        forall|i: int, j: int|
            0 <= i < j < self.entries@.len() ==> (#[trigger] self.entries@[i]).type_id != (
            #[trigger] self.entries@[j]).type_id
    }

    /// A table without lines.
    pub fn new() -> (table: ClassIds)
        ensures
            table@ == Seq::<ClassEntry>::empty(),
    {
        ClassIds { entries: Vec::new() }
    }

    /// The number of types that have a class identifier.
    pub fn len(&self) -> (n: usize)
        ensures
            n == self@.len(),
    {
        self.entries.len()
    }

    /// The class identifier of `type_id`, if it has one.
    pub fn get(&self, type_id: &TypeId) -> (id: Option<u32>)
        ensures
            id == class_id_of(self@, *type_id),
    {
        let n = self.entries.len();
        let mut i: usize = 0;
        assert(self.entries@.skip(0) =~= self.entries@);
        while i < n
            invariant
                n == self.entries@.len(),
                i <= n,
                class_id_of(self@, *type_id) == class_id_of(
                    self.entries@.skip(i as int),
                    *type_id,
                ),
            decreases n - i,
        {
            if same_type(&self.entries[i].type_id, type_id) {
                return Some(self.entries[i].class_id);
            }
            assert(self.entries@.skip(i as int).drop_first() =~= self.entries@.skip(i + 1));
            i += 1;
        }
        None
    }

    /// The class identifier of `type_id`. A type that has none yet gets the
    /// one that `alloc` hands out, which is only called in that case, and the
    /// table remembers it in a new last line.
    pub fn get_or_alloc<F: FnOnce() -> u32>(&mut self, type_id: TypeId, alloc: F) -> (id: u32)
        requires
            alloc.requires(()),
        ensures
            class_id_of(old(self)@, type_id) matches Some(known) ==> id == known && final(self)@
                == old(self)@,
            class_id_of(old(self)@, type_id) is None ==> alloc.ensures((), id) && final(self)@
                == old(self)@.push(ClassEntry { type_id, class_id: id }),
            class_id_of(final(self)@, type_id) == Some(id),
    {
        proof {
            use_type_invariant(&*self);
        }
        match self.get(&type_id) {
            Some(id) => id,
            None => {
                let id = alloc();
                let mut entries: Vec<ClassEntry> = Vec::new();
                core::mem::swap(&mut self.entries, &mut entries);
                entries.push(ClassEntry { type_id, class_id: id });
                proof {
                    lemma_absent_type_has_no_line(old(self)@, type_id);
                    lemma_class_id_after_push(old(self)@, type_id, id);
                }
                self.entries = entries;
                id
            },
        }
    }
}

/// A type without a class identifier has no line in the table.
pub proof fn lemma_absent_type_has_no_line(entries: Seq<ClassEntry>, type_id: TypeId)
    requires
        class_id_of(entries, type_id) is None,
    ensures
        forall|i: int| 0 <= i < entries.len() ==> (#[trigger] entries[i]).type_id != type_id,
    decreases entries.len(),
{
    if entries.len() > 0 {
        lemma_absent_type_has_no_line(entries.drop_first(), type_id);
        assert forall|i: int| 0 <= i < entries.len() implies (#[trigger] entries[i]).type_id
            != type_id by {
            if i > 0 {
                assert(entries.drop_first()[i - 1] == entries[i]);
            }
        }
    }
}

/// A new last line gives its type the identifier it holds, unless the type
/// had one before, and changes nothing for any other type.
pub proof fn lemma_class_id_after_push(entries: Seq<ClassEntry>, type_id: TypeId, class_id: u32)
    ensures
        class_id_of(entries.push(ClassEntry { type_id, class_id }), type_id) == match class_id_of(
            entries,
            type_id,
        ) {
            Some(known) => Some(known),
            None => Some(class_id),
        },
        forall|other: TypeId|
            other != type_id ==> #[trigger] class_id_of(
                entries.push(ClassEntry { type_id, class_id }),
                other,
            ) == class_id_of(entries, other),
    decreases entries.len(),
{
    let line = ClassEntry { type_id, class_id };
    let pushed = entries.push(line);
    if entries.len() == 0 {
        assert(pushed.drop_first() =~= Seq::<ClassEntry>::empty());
        assert forall|other: TypeId| other != type_id implies #[trigger] class_id_of(pushed, other)
            == class_id_of(entries, other) by {
            assert(class_id_of(pushed.drop_first(), other) is None);
        }
    } else {
        lemma_class_id_after_push(entries.drop_first(), type_id, class_id);
        assert(pushed.drop_first() =~= entries.drop_first().push(line));
        assert(pushed.first() == entries.first());
        assert forall|other: TypeId| other != type_id implies #[trigger] class_id_of(pushed, other)
            == class_id_of(entries, other) by {
            assert(class_id_of(entries.drop_first().push(line), other) == class_id_of(
                entries.drop_first(),
                other,
            ));
        }
    }
}

} // verus!
