//! Sets of flags that the engine's calls take, and what they select.

use crate::value::{Exception, Value};
use vstd::prelude::*;

verus! {

/// One group of built-in objects that a plain context can be given.
#[derive(Clone, Copy, Debug, PartialEq, Eq, Structural)]
pub enum Intrinsic {
    BaseObjects,
    Date,
    Eval,
    RegExpCompiler,
    RegExp,
    JSON,
    Proxy,
    MapSet,
    TypedArrays,
    Promise,
    BigInt,
}

/// The number of groups of built-in objects.
pub const INTRINSIC_COUNT: usize = 11;

impl Intrinsic {
    /// The group that stands at `index` in the order in which groups are
    /// added to a context.
    pub open spec fn at(index: int) -> Intrinsic {
        if index == 0 {
            Intrinsic::BaseObjects
        } else if index == 1 {
            Intrinsic::Date
        } else if index == 2 {
            Intrinsic::Eval
        } else if index == 3 {
            Intrinsic::RegExpCompiler
        } else if index == 4 {
            Intrinsic::RegExp
        } else if index == 5 {
            Intrinsic::JSON
        } else if index == 6 {
            Intrinsic::Proxy
        } else if index == 7 {
            Intrinsic::MapSet
        } else if index == 8 {
            Intrinsic::TypedArrays
        } else if index == 9 {
            Intrinsic::Promise
        } else {
            Intrinsic::BigInt
        }
    }

    /// The bit that selects the group in a set of groups.
    pub open spec fn mask(self) -> u64 {
        match self {
            Intrinsic::BaseObjects => 0x001,
            Intrinsic::Date => 0x002,
            Intrinsic::Eval => 0x004,
            Intrinsic::RegExpCompiler => 0x010,
            Intrinsic::RegExp => 0x020,
            Intrinsic::JSON => 0x040,
            Intrinsic::Proxy => 0x080,
            Intrinsic::MapSet => 0x100,
            Intrinsic::TypedArrays => 0x200,
            Intrinsic::Promise => 0x400,
            Intrinsic::BigInt => 0x800,
        }
    }

    /// Whether the set of groups `bits` holds the group.
    pub open spec fn is_in(self, bits: u64) -> bool {
        bits & self.mask() == self.mask()
    }

    /// The groups among the first `count` that the set `bits` holds, in the
    /// order in which groups are added.
    pub open spec fn selection(bits: u64, count: nat) -> Seq<Intrinsic>
        decreases count,
    {
        if count == 0 {
            Seq::empty()
        } else {
            let before = Intrinsic::selection(bits, (count - 1) as nat);
            let group = Intrinsic::at(count - 1);
            if group.is_in(bits) {
                before.push(group)
            } else {
                before
            }
        }
    }

    /// The group that stands at `index` in the order in which groups are
    /// added to a context.
    pub fn from_index(index: usize) -> (group: Intrinsic)
        requires
            index < INTRINSIC_COUNT,
        ensures
            group == Intrinsic::at(index as int),
    {
        if index == 0 {
            Intrinsic::BaseObjects
        } else if index == 1 {
            Intrinsic::Date
        } else if index == 2 {
            Intrinsic::Eval
        } else if index == 3 {
            Intrinsic::RegExpCompiler
        } else if index == 4 {
            Intrinsic::RegExp
        } else if index == 5 {
            Intrinsic::JSON
        } else if index == 6 {
            Intrinsic::Proxy
        } else if index == 7 {
            Intrinsic::MapSet
        } else if index == 8 {
            Intrinsic::TypedArrays
        } else if index == 9 {
            Intrinsic::Promise
        } else {
            Intrinsic::BigInt
        }
    }

    /// The bit that selects the group in a set of groups.
    pub fn bits(&self) -> (mask: u64)
        ensures
            mask == self.mask(),
    {
        match self {
            Intrinsic::BaseObjects => 0x001,
            Intrinsic::Date => 0x002,
            Intrinsic::Eval => 0x004,
            Intrinsic::RegExpCompiler => 0x010,
            Intrinsic::RegExp => 0x020,
            Intrinsic::JSON => 0x040,
            Intrinsic::Proxy => 0x080,
            Intrinsic::MapSet => 0x100,
            Intrinsic::TypedArrays => 0x200,
            Intrinsic::Promise => 0x400,
            Intrinsic::BigInt => 0x800,
        }
    }

    /// The groups that the set `bits` holds, in the order in which they are
    /// to be added to a context.
    pub fn selected(bits: u64) -> (groups: Vec<Intrinsic>)
        ensures
            groups@ == Intrinsic::selection(bits, INTRINSIC_COUNT as nat),
    {
        let mut groups: Vec<Intrinsic> = Vec::new();
        let mut i: usize = 0;
        while i < INTRINSIC_COUNT
            invariant
                i <= INTRINSIC_COUNT,
                groups@ == Intrinsic::selection(bits, i as nat),
            decreases INTRINSIC_COUNT - i,
        {
            let group = Intrinsic::from_index(i);
            let mask = group.bits();
            if bits & mask == mask {
                groups.push(group);
            }
            i += 1;
        }
        groups
    }
}

/// The property can be deleted and redefined.
pub const PROP_CONFIGURABLE: u32 = 0x0001;

/// The property can be assigned.
pub const PROP_WRITABLE: u32 = 0x0002;

/// The property shows up when the object's properties are listed.
pub const PROP_ENUMERABLE: u32 = 0x0004;

/// The descriptor names a getter.
pub const PROP_HAS_GET: u32 = 0x0800;

/// The descriptor names a setter.
pub const PROP_HAS_SET: u32 = 0x1000;

/// The descriptor names a value.
pub const PROP_HAS_VALUE: u32 = 0x2000;

/// The flags with which a native property is defined: enumerable and
/// configurable unless it says otherwise, writable if it says so, and one
/// flag each for the getter, the setter and the value that it comes with. A
/// value of `undefined` counts as none.
pub open spec fn native_property_flags_spec(
    no_enumerable: bool,
    no_configurable: bool,
    writable: bool,
    has_getter: bool,
    has_setter: bool,
    value: Value,
) -> u32 {
    (if no_enumerable {
        0u32
    } else {
        PROP_ENUMERABLE
    }) | (if no_configurable {
        0u32
    } else {
        PROP_CONFIGURABLE
    }) | (if writable {
        PROP_WRITABLE
    } else {
        0u32
    }) | (if has_getter {
        PROP_HAS_GET
    } else {
        0u32
    }) | (if has_setter {
        PROP_HAS_SET
    } else {
        0u32
    }) | (if value is Undefined {
        0u32
    } else {
        PROP_HAS_VALUE
    })
}

/// The flags with which a native property is defined.
pub fn native_property_flags(
    no_enumerable: bool,
    no_configurable: bool,
    writable: bool,
    has_getter: bool,
    has_setter: bool,
    value: &Value,
) -> (flags: u32)
    ensures
        flags == native_property_flags_spec(
            no_enumerable,
            no_configurable,
            writable,
            has_getter,
            has_setter,
            *value,
        ),
{
    let enumerable: u32 = if no_enumerable {
        0
    } else {
        PROP_ENUMERABLE
    };
    let configurable: u32 = if no_configurable {
        0
    } else {
        PROP_CONFIGURABLE
    };
    let writable: u32 = if writable {
        PROP_WRITABLE
    } else {
        0
    };
    let getter: u32 = if has_getter {
        PROP_HAS_GET
    } else {
        0
    };
    let setter: u32 = if has_setter {
        PROP_HAS_SET
    } else {
        0
    };
    let valued: u32 = match value {
        Value::Undefined => 0,
        _ => PROP_HAS_VALUE,
    };
    enumerable | configurable | writable | getter | setter | valued
}

/// The kind of a typed array, by the engine's number for it.
#[derive(Clone, Copy, Debug, PartialEq, Eq, Hash, PartialOrd, Ord, Structural)]
pub struct TypedArrayType(pub u32);

impl TypedArrayType {
    /// Reads the kind that the engine reports of a value: a negative number
    /// says that the value is no typed array and that the engine threw.
    pub fn from_raw(kind: i32) -> (ret: Result<TypedArrayType, Exception>)
        ensures
            ret == if kind < 0 {
                Err::<TypedArrayType, Exception>(Exception)
            } else {
                Ok::<TypedArrayType, Exception>(TypedArrayType(kind as u32))
            },
    {
        if kind < 0 {
            Err(Exception)
        } else {
            Ok(TypedArrayType(kind as u32))
        }
    }
}

} // verus!
