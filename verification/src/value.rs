//! Values as the engine hands them over, and values that own a share in the
//! engine's reference count.

use crate::engine::EngineCall;
use crate::utils::ptr::NonNullPtr;
use vstd::prelude::*;

verus! {

/// The engine's tag of a big integer, the first of the reference-counted tags.
pub const TAG_BIG_INT: i32 = -9;

/// The engine's tag of a symbol.
pub const TAG_SYMBOL: i32 = -8;

/// The engine's tag of a string.
pub const TAG_STRING: i32 = -7;

/// The engine's tag of a module.
pub const TAG_MODULE: i32 = -3;

/// The engine's tag of compiled function code.
pub const TAG_FUNCTION_BYTECODE: i32 = -2;

/// The engine's tag of an object.
pub const TAG_OBJECT: i32 = -1;

/// The engine's tag of a small integer.
pub const TAG_INT: i32 = 0;

/// The engine's tag of a boolean.
pub const TAG_BOOL: i32 = 1;

/// The engine's tag of `null`.
pub const TAG_NULL: i32 = 2;

/// The engine's tag of `undefined`.
pub const TAG_UNDEFINED: i32 = 3;

/// The engine's tag of a binding that is not initialized yet.
pub const TAG_UNINITIALIZED: i32 = 4;

/// The engine's tag of a catch offset.
pub const TAG_CATCH_OFFSET: i32 = 5;

/// The engine's tag of the exception marker.
pub const TAG_EXCEPTION: i32 = 6;

/// The engine's tag of a float.
pub const TAG_FLOAT64: i32 = 8;

/// What a tagged value carries beside its tag. The engine keeps the three in
/// one place; the tag says which of them is there.
#[derive(Clone, Copy, Debug, PartialEq, Eq, Structural)]
pub enum RawUnion {
    /// A 32-bit integer: small integers, booleans and catch offsets.
    Int32(i32),
    /// A float, by the bits of its IEEE 754 double.
    Float64(u64),
    /// The address of a reference-counted object.
    Ptr(usize),
}

/// A value as the engine hands it over: a tag and what the tag stands on.
/// It owns nothing by itself; whoever holds it knows whether a share in the
/// engine's count comes with it.
#[derive(Clone, Copy, Debug, PartialEq, Eq, Structural)]
pub struct RawValue {
    pub tag: i32,
    pub u: RawUnion,
}

/// Whether values with this tag are reference-counted by the engine.
pub open spec fn is_ref_tag(tag: i32) -> bool {
    tag == TAG_BIG_INT || tag == TAG_SYMBOL || tag == TAG_STRING || tag == TAG_MODULE || tag
        == TAG_FUNCTION_BYTECODE || tag == TAG_OBJECT
}

/// Whether the tag is one that a [`Value`] or the exception marker has.
pub open spec fn is_known_tag(tag: i32) -> bool {
    is_ref_tag(tag) || tag == TAG_INT || tag == TAG_BOOL || tag == TAG_NULL || tag
        == TAG_UNDEFINED || tag == TAG_UNINITIALIZED || tag == TAG_CATCH_OFFSET || tag
        == TAG_EXCEPTION || tag == TAG_FLOAT64
}

impl RawValue {
    /// Whether the value can be classified: its tag is known, and it carries
    /// what values of that tag carry.
    pub open spec fn is_classifiable(self) -> bool {
        &&& is_known_tag(self.tag)
        &&& is_ref_tag(self.tag) ==> self.u is Ptr
        &&& self.tag == TAG_INT || self.tag == TAG_BOOL || self.tag == TAG_CATCH_OFFSET
            ==> self.u is Int32
        &&& self.tag == TAG_FLOAT64 ==> self.u is Float64
    }

    /// A value with an integer beside its tag.
    pub fn mkval(tag: i32, val: i32) -> (raw: RawValue)
        ensures
            raw == (RawValue { tag, u: RawUnion::Int32(val) }),
    {
        RawValue { tag, u: RawUnion::Int32(val) }
    }

    /// A value with the address of a reference-counted object beside its tag.
    pub fn mkptr(tag: i32, ptr: usize) -> (raw: RawValue)
        ensures
            raw == (RawValue { tag, u: RawUnion::Ptr(ptr) }),
    {
        RawValue { tag, u: RawUnion::Ptr(ptr) }
    }

    /// The raw form of `null`.
    pub fn null() -> (raw: RawValue)
        ensures
            raw == (RawValue { tag: TAG_NULL, u: RawUnion::Int32(0) }),
    {
        RawValue::mkval(TAG_NULL, 0)
    }

    /// The raw form of `undefined`.
    pub fn undefined() -> (raw: RawValue)
        ensures
            raw == (RawValue { tag: TAG_UNDEFINED, u: RawUnion::Int32(0) }),
    {
        RawValue::mkval(TAG_UNDEFINED, 0)
    }

    /// The raw form of a binding that is not initialized yet.
    pub fn uninitialized() -> (raw: RawValue)
        ensures
            raw == (RawValue { tag: TAG_UNINITIALIZED, u: RawUnion::Int32(0) }),
    {
        RawValue::mkval(TAG_UNINITIALIZED, 0)
    }

    /// The marker by which the engine says that a call threw.
    pub fn exception() -> (raw: RawValue)
        ensures
            raw == (RawValue { tag: TAG_EXCEPTION, u: RawUnion::Int32(0) }),
    {
        RawValue::mkval(TAG_EXCEPTION, 0)
    }

    /// Whether the engine counts references to this value.
    pub fn has_ref_count(&self) -> (counted: bool)
        ensures
            counted == is_ref_tag(self.tag),
    {
        self.tag == TAG_BIG_INT || self.tag == TAG_SYMBOL || self.tag == TAG_STRING || self.tag
            == TAG_MODULE || self.tag == TAG_FUNCTION_BYTECODE || self.tag == TAG_OBJECT
    }

    /// Whether [`Value::from_raw`] can classify this value.
    pub fn can_classify(&self) -> (ok: bool)
        ensures
            ok == self.is_classifiable(),
    {
        if self.has_ref_count() {
            matches!(self.u, RawUnion::Ptr(_))
        } else if self.tag == TAG_INT || self.tag == TAG_BOOL || self.tag == TAG_CATCH_OFFSET {
            matches!(self.u, RawUnion::Int32(_))
        } else if self.tag == TAG_FLOAT64 {
            matches!(self.u, RawUnion::Float64(_))
        } else {
            self.tag == TAG_NULL || self.tag == TAG_UNDEFINED || self.tag == TAG_UNINITIALIZED
                || self.tag == TAG_EXCEPTION
        }
    }
}

/// The engine's report that a call threw. The thrown value waits in the
/// context until it is caught.
#[derive(Clone, Copy, Debug, PartialEq, Eq, Structural)]
pub struct Exception;

impl Exception {
    /// The raw marker that stands for the exception.
    pub fn as_raw(&self) -> (raw: RawValue)
        ensures
            raw == (RawValue { tag: TAG_EXCEPTION, u: RawUnion::Int32(0) }),
    {
        RawValue::exception()
    }

    /// Reads the status that an engine call answered with: a negative status
    /// says that the call threw, any other is the answer, zero for no.
    pub fn check(status: i32) -> (ret: Result<bool, Exception>)
        ensures
            ret == if status < 0 {
                Err::<bool, Exception>(Exception)
            } else {
                Ok::<bool, Exception>(status != 0)
            },
    {
        if status < 0 {
            Err(Exception)
        } else {
            Ok(status != 0)
        }
    }

    /// Reads the status of an engine call that has nothing to answer: a
    /// negative status says that the call threw.
    pub fn check_done(status: i32) -> (ret: Result<(), Exception>)
        ensures
            ret is Err <==> status < 0,
    {
        if status < 0 {
            Err(Exception)
        } else {
            Ok(())
        }
    }

    /// Reads the status of an engine call that wrote its answer to `out`:
    /// the answer counts unless the status is negative, which says that the
    /// call threw.
    pub fn check_out<T>(status: i32, out: T) -> (ret: Result<T, Exception>)
        ensures
            ret == if status < 0 {
                Err::<T, Exception>(Exception)
            } else {
                Ok::<T, Exception>(out)
            },
    {
        if status < 0 {
            Err(Exception)
        } else {
            Ok(out)
        }
    }
}

/// The owning half of a reference-counted value: the runtime it lives in and
/// the address of its object. Which kind of object it is, the variant of
/// [`Value`] around it says.
#[derive(Debug, PartialEq, Eq, Structural)]
pub struct RefValue {
    /// The runtime that owns the object.
    pub rt: NonNullPtr,
    /// The address of the object.
    pub ptr: usize,
}

impl RefValue {
    /// The runtime that owns the object.
    pub open spec fn runtime(self) -> NonNullPtr {
        self.rt
    }

    /// The address of the object.
    pub open spec fn addr(self) -> usize {
        self.ptr
    }

    /// An owner of the object at `ptr` in the runtime `rt`.
    pub fn new(rt: NonNullPtr, ptr: usize) -> (r: RefValue)
        ensures
            r.runtime() == rt,
            r.addr() == ptr,
    {
        RefValue { rt, ptr }
    }

    /// The runtime that owns the object.
    pub fn get_runtime(&self) -> (rt: NonNullPtr)
        ensures
            rt == self.runtime(),
    {
        self.rt
    }

    /// The address of the object.
    pub fn as_ptr(&self) -> (ptr: usize)
        ensures
            ptr == self.addr(),
    {
        self.ptr
    }

    /// The raw value that refers to the object under `tag`; the share stays
    /// with `self`.
    pub fn as_raw(&self, tag: i32) -> (raw: RawValue)
        ensures
            raw == (RawValue { tag, u: RawUnion::Ptr(self.addr()) }),
    {
        RawValue::mkptr(tag, self.ptr)
    }
}

/// Any value the engine can represent, owned. A reference-counted variant
/// holds exactly one share in the engine's count for its object, from
/// construction to release; the other variants are plain data and belong to
/// no runtime.
///
/// Two values are equal when they are the same representation: the same
/// variant with the same runtime and address, or the same plain data, floats
/// bit for bit. That is identity, not the engine's own notion of equality.
#[derive(Debug, PartialEq, Eq, Structural)]
pub enum Value {
    BigInt(RefValue),
    Symbol(RefValue),
    String(RefValue),
    Module(RefValue),
    FunctionByteCode(RefValue),
    Object(RefValue),
    Int32(i32),
    Bool(bool),
    Null,
    Undefined,
    Uninitialized,
    CatchOffset(i32),
    /// A float, by the bits of its IEEE 754 double.
    Float64(u64),
}

impl Value {
    /// What a classifiable raw value of the runtime `rt` is: the variant that
    /// its tag names, around what it carries, or the exception.
    pub open spec fn classify(rt: NonNullPtr, raw: RawValue) -> Result<Value, Exception> {
        let reference = RefValue { rt, ptr: raw.u->Ptr_0 };
        if raw.tag == TAG_BIG_INT {
            Ok(Value::BigInt(reference))
        } else if raw.tag == TAG_SYMBOL {
            Ok(Value::Symbol(reference))
        } else if raw.tag == TAG_STRING {
            Ok(Value::String(reference))
        } else if raw.tag == TAG_MODULE {
            Ok(Value::Module(reference))
        } else if raw.tag == TAG_FUNCTION_BYTECODE {
            Ok(Value::FunctionByteCode(reference))
        } else if raw.tag == TAG_OBJECT {
            Ok(Value::Object(reference))
        } else if raw.tag == TAG_INT {
            Ok(Value::Int32(raw.u->Int32_0))
        } else if raw.tag == TAG_BOOL {
            Ok(Value::Bool(raw.u->Int32_0 != 0))
        } else if raw.tag == TAG_NULL {
            Ok(Value::Null)
        } else if raw.tag == TAG_UNDEFINED {
            Ok(Value::Undefined)
        } else if raw.tag == TAG_UNINITIALIZED {
            Ok(Value::Uninitialized)
        } else if raw.tag == TAG_CATCH_OFFSET {
            Ok(Value::CatchOffset(raw.u->Int32_0))
        } else if raw.tag == TAG_FLOAT64 {
            Ok(Value::Float64(raw.u->Float64_0))
        } else {
            Err(Exception)
        }
    }

    /// The raw form of the value: its tag, and beside it what it holds.
    pub open spec fn raw(self) -> RawValue {
        match self {
            Value::BigInt(v) => RawValue { tag: TAG_BIG_INT, u: RawUnion::Ptr(v.addr()) },
            Value::Symbol(v) => RawValue { tag: TAG_SYMBOL, u: RawUnion::Ptr(v.addr()) },
            Value::String(v) => RawValue { tag: TAG_STRING, u: RawUnion::Ptr(v.addr()) },
            Value::Module(v) => RawValue { tag: TAG_MODULE, u: RawUnion::Ptr(v.addr()) },
            Value::FunctionByteCode(v) => RawValue {
                tag: TAG_FUNCTION_BYTECODE,
                u: RawUnion::Ptr(v.addr()),
            },
            Value::Object(v) => RawValue { tag: TAG_OBJECT, u: RawUnion::Ptr(v.addr()) },
            Value::Int32(v) => RawValue { tag: TAG_INT, u: RawUnion::Int32(v) },
            Value::Bool(v) => RawValue { tag: TAG_BOOL, u: RawUnion::Int32(if v { 1 } else { 0 }) },
            Value::Null => RawValue { tag: TAG_NULL, u: RawUnion::Int32(0) },
            Value::Undefined => RawValue { tag: TAG_UNDEFINED, u: RawUnion::Int32(0) },
            Value::Uninitialized => RawValue { tag: TAG_UNINITIALIZED, u: RawUnion::Int32(0) },
            Value::CatchOffset(v) => RawValue { tag: TAG_CATCH_OFFSET, u: RawUnion::Int32(v) },
            Value::Float64(bits) => RawValue { tag: TAG_FLOAT64, u: RawUnion::Float64(bits) },
        }
    }

    /// The runtime that owns the value's object; a plain value has none.
    pub open spec fn runtime(self) -> Option<NonNullPtr> {
        match self {
            Value::BigInt(v) => Some(v.runtime()),
            Value::Symbol(v) => Some(v.runtime()),
            Value::String(v) => Some(v.runtime()),
            Value::Module(v) => Some(v.runtime()),
            Value::FunctionByteCode(v) => Some(v.runtime()),
            Value::Object(v) => Some(v.runtime()),
            _ => None,
        }
    }

    /// Whether the value holds a share in the engine's count.
    pub open spec fn is_counted(self) -> bool {
        self.runtime() is Some
    }

    /// The call that takes a share in the value's object for one more owner:
    /// the engine's duplicate primitive for a counted value, none for a plain
    /// one.
    pub open spec fn dup_call(self) -> Option<EngineCall> {
        match self.runtime() {
            Some(runtime) => Some(EngineCall::DupValue { runtime, value: self.raw() }),
            None => None,
        }
    }

    /// The call that gives up an owner's share in the value's object: the
    /// engine's release primitive for a counted value, none for a plain one.
    pub open spec fn free_call(self) -> Option<EngineCall> {
        match self.runtime() {
            Some(runtime) => Some(EngineCall::FreeValue { runtime, value: self.raw() }),
            None => None,
        }
    }

    /// Classifies `value` by its tag and takes over the one share that comes
    /// with it, if it is reference-counted. The exception marker is no value.
    pub fn from_raw(rt: NonNullPtr, value: RawValue) -> (ret: Result<Value, Exception>)
        requires
            value.is_classifiable(),
        ensures
            ret == Value::classify(rt, value),
            ret is Err <==> value.tag == TAG_EXCEPTION,
    {
        match value.u {
            RawUnion::Ptr(ptr) => {
                if value.tag == TAG_BIG_INT {
                    Ok(Value::BigInt(RefValue { rt, ptr }))
                } else if value.tag == TAG_SYMBOL {
                    Ok(Value::Symbol(RefValue { rt, ptr }))
                } else if value.tag == TAG_STRING {
                    Ok(Value::String(RefValue { rt, ptr }))
                } else if value.tag == TAG_MODULE {
                    Ok(Value::Module(RefValue { rt, ptr }))
                } else if value.tag == TAG_FUNCTION_BYTECODE {
                    Ok(Value::FunctionByteCode(RefValue { rt, ptr }))
                } else if value.tag == TAG_OBJECT {
                    Ok(Value::Object(RefValue { rt, ptr }))
                } else {
                    Value::from_plain_tag(value.tag)
                }
            },
            RawUnion::Int32(int32) => {
                if value.tag == TAG_INT {
                    Ok(Value::Int32(int32))
                } else if value.tag == TAG_BOOL {
                    Ok(Value::Bool(int32 != 0))
                } else if value.tag == TAG_CATCH_OFFSET {
                    Ok(Value::CatchOffset(int32))
                } else {
                    Value::from_plain_tag(value.tag)
                }
            },
            RawUnion::Float64(bits) => {
                if value.tag == TAG_FLOAT64 {
                    Ok(Value::Float64(bits))
                } else {
                    Value::from_plain_tag(value.tag)
                }
            },
        }
    }

    /// The value of a tag that stands alone.
    fn from_plain_tag(tag: i32) -> (ret: Result<Value, Exception>)
        requires
            tag == TAG_NULL || tag == TAG_UNDEFINED || tag == TAG_UNINITIALIZED || tag
                == TAG_EXCEPTION,
        ensures
            tag == TAG_NULL ==> ret == Ok::<Value, Exception>(Value::Null),
            tag == TAG_UNDEFINED ==> ret == Ok::<Value, Exception>(Value::Undefined),
            tag == TAG_UNINITIALIZED ==> ret == Ok::<Value, Exception>(Value::Uninitialized),
            tag == TAG_EXCEPTION ==> ret == Err::<Value, Exception>(Exception),
    {
        if tag == TAG_NULL {
            Ok(Value::Null)
        } else if tag == TAG_UNDEFINED {
            Ok(Value::Undefined)
        } else if tag == TAG_UNINITIALIZED {
            Ok(Value::Uninitialized)
        } else {
            Err(Exception)
        }
    }

    /// The raw form of the value, for a call that only looks at it: the
    /// share stays with `self`. May be asked any number of times.
    pub fn as_raw(&self) -> (raw: RawValue)
        ensures
            raw == self.raw(),
    {
        match self {
            Value::BigInt(v) => v.as_raw(TAG_BIG_INT),
            Value::Symbol(v) => v.as_raw(TAG_SYMBOL),
            Value::String(v) => v.as_raw(TAG_STRING),
            Value::Module(v) => v.as_raw(TAG_MODULE),
            Value::FunctionByteCode(v) => v.as_raw(TAG_FUNCTION_BYTECODE),
            Value::Object(v) => v.as_raw(TAG_OBJECT),
            Value::Int32(v) => RawValue::mkval(TAG_INT, *v),
            Value::Bool(v) => RawValue::mkval(
                TAG_BOOL,
                if *v {
                    1
                } else {
                    0
                },
            ),
            Value::Null => RawValue::null(),
            Value::Undefined => RawValue::undefined(),
            Value::Uninitialized => RawValue::uninitialized(),
            Value::CatchOffset(offset) => RawValue::mkval(TAG_CATCH_OFFSET, *offset),
            Value::Float64(bits) => RawValue { tag: TAG_FLOAT64, u: RawUnion::Float64(*bits) },
        }
    }

    /// Gives the value up without releasing it: the share it held goes to
    /// the caller with the raw form, and the caller releases it exactly once.
    pub fn into_raw(self) -> (raw: RawValue)
        ensures
            raw == self.raw(),
    {
        self.as_raw()
    }

    /// The runtime that owns the value's object. A plain value has none, and
    /// says so.
    pub fn get_runtime(&self) -> (rt: Option<NonNullPtr>)
        ensures
            rt == self.runtime(),
    {
        match self {
            Value::BigInt(v) => Some(v.get_runtime()),
            Value::Symbol(v) => Some(v.get_runtime()),
            Value::String(v) => Some(v.get_runtime()),
            Value::Module(v) => Some(v.get_runtime()),
            Value::FunctionByteCode(v) => Some(v.get_runtime()),
            Value::Object(v) => Some(v.get_runtime()),
            _ => None,
        }
    }

    /// Whether the value is a float that is not a number.
    pub fn is_nan(&self) -> (nan: bool)
        ensures
            nan == (self matches Value::Float64(bits) && (bits & 0x7fff_ffff_ffff_ffff)
                > 0x7ff0_0000_0000_0000),
    {
        match self {
            Value::Float64(bits) => (*bits & 0x7fff_ffff_ffff_ffff) > 0x7ff0_0000_0000_0000,
            _ => false,
        }
    }

    /// The value for a 64-bit integer, where a plain one will do: an integer
    /// that fits in 32 bits is a small integer. Any other needs a big integer,
    /// which only the engine can make.
    pub fn from_i64(v: i64) -> (ret: Option<Value>)
        ensures
            ret == if i32::MIN <= v <= i32::MAX {
                Some(Value::Int32(v as i32))
            } else {
                None
            },
    {
        if v >= -0x8000_0000 && v <= 0x7fff_ffff {
            Some(Value::Int32(v as i32))
        } else {
            None
        }
    }

    /// The value for an unsigned 64-bit integer, where a plain one will do:
    /// an integer that fits in 32 signed bits is a small integer. Any other
    /// needs a big integer, which only the engine can make.
    pub fn from_u64(v: u64) -> (ret: Option<Value>)
        ensures
            ret == if v <= i32::MAX {
                Some(Value::Int32(v as i32))
            } else {
                None
            },
    {
        if v <= 0x7fff_ffff {
            Some(Value::Int32(v as i32))
        } else {
            None
        }
    }

    /// A second owner of the same value, and the call that takes its share:
    /// the engine's duplicate primitive for a reference-counted value, none
    /// for a plain one, which is simply copied.
    pub fn duplicate(&self) -> (ret: (Value, Option<EngineCall>))
        ensures
            ret.0 == *self,
            ret.1 == self.dup_call(),
    {
        let raw = self.as_raw();
        let copy = match self {
            Value::BigInt(v) => Value::BigInt(RefValue { rt: v.rt, ptr: v.ptr }),
            Value::Symbol(v) => Value::Symbol(RefValue { rt: v.rt, ptr: v.ptr }),
            Value::String(v) => Value::String(RefValue { rt: v.rt, ptr: v.ptr }),
            Value::Module(v) => Value::Module(RefValue { rt: v.rt, ptr: v.ptr }),
            Value::FunctionByteCode(v) => Value::FunctionByteCode(RefValue { rt: v.rt, ptr: v.ptr }),
            Value::Object(v) => Value::Object(RefValue { rt: v.rt, ptr: v.ptr }),
            Value::Int32(v) => Value::Int32(*v),
            Value::Bool(v) => Value::Bool(*v),
            Value::Null => Value::Null,
            Value::Undefined => Value::Undefined,
            Value::Uninitialized => Value::Uninitialized,
            Value::CatchOffset(v) => Value::CatchOffset(*v),
            Value::Float64(v) => Value::Float64(*v),
        };
        let call = match self.get_runtime() {
            Some(runtime) => Some(EngineCall::DupValue { runtime, value: raw }),
            None => None,
        };
        (copy, call)
    }

    /// Ends this owner: the call that gives its share up, once, for a
    /// reference-counted value, and none for a plain one.
    pub fn release(self) -> (call: Option<EngineCall>)
        ensures
            call == self.free_call(),
    {
        match self.get_runtime() {
            Some(runtime) => Some(EngineCall::FreeValue { runtime, value: self.as_raw() }),
            None => None,
        }
    }
}

impl From<i32> for Value {
    /// The small integer `value`.
    fn from(value: i32) -> (ret: Value)
        ensures
            ret == Value::Int32(value),
    {
        Value::Int32(value)
    }
}

impl vstd::std_specs::convert::FromSpecImpl<i32> for Value {
    open spec fn obeys_from_spec() -> bool {
        true
    }

    open spec fn from_spec(value: i32) -> Value {
        Value::Int32(value)
    }
}

impl From<bool> for Value {
    /// The boolean `value`.
    fn from(value: bool) -> (ret: Value)
        ensures
            ret == Value::Bool(value),
    {
        Value::Bool(value)
    }
}

impl vstd::std_specs::convert::FromSpecImpl<bool> for Value {
    open spec fn obeys_from_spec() -> bool {
        true
    }

    open spec fn from_spec(value: bool) -> Value {
        Value::Bool(value)
    }
}

/// The count is kept: an owner gives up exactly the share that was taken for
/// it. A counted value owes the engine one duplicate when an owner is added
/// and one release when an owner ends, both for the same object of the same
/// runtime; a plain value owes neither.
pub proof fn law_share_taken_is_share_given_up(value: Value)
    ensures
        value.is_counted() <==> value.dup_call() is Some,
        value.is_counted() <==> value.free_call() is Some,
        value.is_counted() <==> is_ref_tag(value.raw().tag),
        value.dup_call() matches Some(EngineCall::DupValue { runtime: taken_in, value: taken })
            ==> value.free_call() == Some(
            EngineCall::FreeValue { runtime: taken_in, value: taken },
        ),
{
}

/// Reading a value's raw form and classifying it again, under the value's
/// own runtime, gives the value back: nothing is lost on the way to the
/// engine and back. A plain value comes back under any runtime.
pub proof fn law_raw_round_trip(value: Value, rt: NonNullPtr)
    requires
        value.runtime() is Some ==> value.runtime() == Some(rt),
    ensures
        value.raw().is_classifiable(),
        value.raw().tag != TAG_EXCEPTION,
        Value::classify(rt, value.raw()) == Ok::<Value, Exception>(value),
        is_ref_tag(value.raw().tag) <==> value.is_counted(),
{
}

/// The raw form of a result: that of the value, or the exception marker.
pub trait ValueResultExt {
    /// The raw form, as a spec.
    spec fn raw(&self) -> RawValue;

    /// The raw form of the result.
    fn as_raw(&self) -> (raw: RawValue)
        ensures
            raw == self.raw(),
    ;
}

impl ValueResultExt for Result<Value, Exception> {
    open spec fn raw(&self) -> RawValue {
        match self {
            Ok(v) => v.raw(),
            Err(_) => RawValue { tag: TAG_EXCEPTION, u: RawUnion::Int32(0) },
        }
    }

    fn as_raw(&self) -> (raw: RawValue) {
        match self {
            Ok(v) => v.as_raw(),
            Err(e) => e.as_raw(),
        }
    }
}

} // verus!
