use libquickjs::atom::{Atom, ATOM_NULL};
use libquickjs::engine::EngineCall;
use libquickjs::utils::ptr::NonNullPtr;
use libquickjs::value::{
    Exception, RawUnion, RawValue, RefValue, Value, ValueResultExt, TAG_BIG_INT, TAG_BOOL, TAG_CATCH_OFFSET,
    TAG_EXCEPTION, TAG_FLOAT64, TAG_FUNCTION_BYTECODE, TAG_INT, TAG_MODULE, TAG_NULL, TAG_OBJECT, TAG_STRING,
    TAG_SYMBOL, TAG_UNDEFINED, TAG_UNINITIALIZED,
};

fn rt() -> NonNullPtr {
    NonNullPtr::new(0x1000).unwrap()
}

#[test]
fn tags_are_the_engines() {
    assert_eq!(TAG_BIG_INT, rquickjs_sys::JS_TAG_BIG_INT);
    assert_eq!(TAG_SYMBOL, rquickjs_sys::JS_TAG_SYMBOL);
    assert_eq!(TAG_STRING, rquickjs_sys::JS_TAG_STRING);
    assert_eq!(TAG_MODULE, rquickjs_sys::JS_TAG_MODULE);
    assert_eq!(TAG_FUNCTION_BYTECODE, rquickjs_sys::JS_TAG_FUNCTION_BYTECODE);
    assert_eq!(TAG_OBJECT, rquickjs_sys::JS_TAG_OBJECT);
    assert_eq!(TAG_INT, rquickjs_sys::JS_TAG_INT);
    assert_eq!(TAG_BOOL, rquickjs_sys::JS_TAG_BOOL);
    assert_eq!(TAG_NULL, rquickjs_sys::JS_TAG_NULL);
    assert_eq!(TAG_UNDEFINED, rquickjs_sys::JS_TAG_UNDEFINED);
    assert_eq!(TAG_UNINITIALIZED, rquickjs_sys::JS_TAG_UNINITIALIZED);
    assert_eq!(TAG_CATCH_OFFSET, rquickjs_sys::JS_TAG_CATCH_OFFSET);
    assert_eq!(TAG_EXCEPTION, rquickjs_sys::JS_TAG_EXCEPTION);
    assert_eq!(TAG_FLOAT64, rquickjs_sys::JS_TAG_FLOAT64);
    assert_eq!(ATOM_NULL, rquickjs_sys::JS_ATOM_NULL);
}

#[test]
fn from_raw_classifies_by_tag() {
    let r = RefValue::new(rt(), 0x50);
    assert_eq!(Value::from_raw(rt(), RawValue::mkptr(TAG_BIG_INT, 0x50)), Ok(Value::BigInt(RefValue::new(rt(), 0x50))));
    assert_eq!(Value::from_raw(rt(), RawValue::mkptr(TAG_SYMBOL, 0x50)), Ok(Value::Symbol(RefValue::new(rt(), 0x50))));
    assert_eq!(Value::from_raw(rt(), RawValue::mkptr(TAG_STRING, 0x50)), Ok(Value::String(RefValue::new(rt(), 0x50))));
    assert_eq!(Value::from_raw(rt(), RawValue::mkptr(TAG_MODULE, 0x50)), Ok(Value::Module(RefValue::new(rt(), 0x50))));
    assert_eq!(
        Value::from_raw(rt(), RawValue::mkptr(TAG_FUNCTION_BYTECODE, 0x50)),
        Ok(Value::FunctionByteCode(RefValue::new(rt(), 0x50)))
    );
    assert_eq!(Value::from_raw(rt(), RawValue::mkptr(TAG_OBJECT, 0x50)), Ok(Value::Object(r)));
    assert_eq!(Value::from_raw(rt(), RawValue::mkval(TAG_INT, -7)), Ok(Value::Int32(-7)));
    assert_eq!(Value::from_raw(rt(), RawValue::mkval(TAG_BOOL, 0)), Ok(Value::Bool(false)));
    assert_eq!(Value::from_raw(rt(), RawValue::mkval(TAG_BOOL, 1)), Ok(Value::Bool(true)));
    assert_eq!(Value::from_raw(rt(), RawValue::mkval(TAG_BOOL, 2)), Ok(Value::Bool(true)));
    assert_eq!(Value::from_raw(rt(), RawValue::null()), Ok(Value::Null));
    assert_eq!(Value::from_raw(rt(), RawValue::undefined()), Ok(Value::Undefined));
    assert_eq!(Value::from_raw(rt(), RawValue::uninitialized()), Ok(Value::Uninitialized));
    assert_eq!(Value::from_raw(rt(), RawValue::mkval(TAG_CATCH_OFFSET, 12)), Ok(Value::CatchOffset(12)));
    let pi = std::f64::consts::PI.to_bits();
    assert_eq!(
        Value::from_raw(rt(), RawValue { tag: TAG_FLOAT64, u: RawUnion::Float64(pi) }),
        Ok(Value::Float64(pi))
    );
    assert_eq!(Value::from_raw(rt(), RawValue::exception()), Err(Exception));
    assert_eq!(Value::from_raw(rt(), RawValue::mkptr(TAG_NULL, 0x50)), Ok(Value::Null));
}

#[test]
fn classifiable_raw_values() {
    assert!(RawValue::mkptr(TAG_OBJECT, 0x50).can_classify());
    assert!(!RawValue::mkval(TAG_OBJECT, 5).can_classify());
    assert!(RawValue::mkval(TAG_INT, 5).can_classify());
    assert!(!RawValue::mkptr(TAG_INT, 5).can_classify());
    assert!(!RawValue::mkval(TAG_FLOAT64, 5).can_classify());
    assert!(RawValue::exception().can_classify());
    assert!(!RawValue::mkval(7, 0).can_classify());
    assert!(!RawValue::mkptr(-6, 0x50).can_classify());
    assert!(!RawValue::mkval(99, 0).can_classify());
    assert!(RawValue::mkptr(TAG_STRING, 0).has_ref_count());
    assert!(!RawValue::mkval(TAG_INT, 0).has_ref_count());
    assert!(!RawValue::mkptr(-6, 0).has_ref_count());
}

#[test]
fn raw_form_round_trips() {
    let values = vec![
        Value::BigInt(RefValue::new(rt(), 8)),
        Value::Symbol(RefValue::new(rt(), 16)),
        Value::String(RefValue::new(rt(), 24)),
        Value::Module(RefValue::new(rt(), 32)),
        Value::FunctionByteCode(RefValue::new(rt(), 40)),
        Value::Object(RefValue::new(rt(), 48)),
        Value::Int32(i32::MIN),
        Value::Int32(i32::MAX),
        Value::Bool(true),
        Value::Bool(false),
        Value::Null,
        Value::Undefined,
        Value::Uninitialized,
        Value::CatchOffset(3),
        Value::Float64(1.5f64.to_bits()),
    ];
    for v in values {
        let raw = v.as_raw();
        assert_eq!(raw, v.as_raw());
        assert!(raw.can_classify());
        assert_eq!(raw.has_ref_count(), v.get_runtime().is_some());
        assert_eq!(Value::from_raw(rt(), raw).as_ref(), Ok(&v));
        let (copy, call) = v.duplicate();
        assert_eq!(copy, v);
        match v.get_runtime() {
            Some(runtime) => {
                assert_eq!(runtime, rt());
                assert_eq!(call, Some(EngineCall::DupValue { runtime, value: raw }));
                assert_eq!(copy.release(), Some(EngineCall::FreeValue { runtime, value: raw }));
            }
            None => {
                assert_eq!(call, None);
                assert_eq!(copy.release(), None);
            }
        }
        assert_eq!(v.into_raw(), raw);
    }
}

#[test]
fn raw_forms_of_plain_values() {
    assert_eq!(Value::Int32(5).as_raw(), RawValue { tag: TAG_INT, u: RawUnion::Int32(5) });
    assert_eq!(Value::Bool(true).as_raw(), RawValue { tag: TAG_BOOL, u: RawUnion::Int32(1) });
    assert_eq!(Value::Bool(false).as_raw(), RawValue { tag: TAG_BOOL, u: RawUnion::Int32(0) });
    assert_eq!(Value::Null.as_raw(), RawValue { tag: TAG_NULL, u: RawUnion::Int32(0) });
    assert_eq!(Value::Undefined.as_raw(), RawValue { tag: TAG_UNDEFINED, u: RawUnion::Int32(0) });
    assert_eq!(Value::Uninitialized.as_raw(), RawValue { tag: TAG_UNINITIALIZED, u: RawUnion::Int32(0) });
    assert_eq!(Value::CatchOffset(9).as_raw(), RawValue { tag: TAG_CATCH_OFFSET, u: RawUnion::Int32(9) });
    assert_eq!(
        Value::Object(RefValue::new(rt(), 0x88)).as_raw(),
        RawValue { tag: TAG_OBJECT, u: RawUnion::Ptr(0x88) }
    );
    assert_eq!(Exception.as_raw(), RawValue { tag: TAG_EXCEPTION, u: RawUnion::Int32(0) });
    let ok: Result<Value, Exception> = Ok(Value::Int32(4));
    let err: Result<Value, Exception> = Err(Exception);
    assert_eq!(ok.as_raw(), Value::Int32(4).as_raw());
    assert_eq!(err.as_raw(), RawValue::exception());
}

#[test]
fn equality_is_identity_of_representation() {
    let other = NonNullPtr::new(0x2000).unwrap();
    assert_eq!(Value::Object(RefValue::new(rt(), 8)), Value::Object(RefValue::new(rt(), 8)));
    assert_ne!(Value::Object(RefValue::new(rt(), 8)), Value::Object(RefValue::new(rt(), 16)));
    assert_ne!(Value::Object(RefValue::new(rt(), 8)), Value::Object(RefValue::new(other, 8)));
    assert_ne!(Value::Object(RefValue::new(rt(), 8)), Value::String(RefValue::new(rt(), 8)));
    assert_ne!(Value::Int32(1), Value::Bool(true));
    assert_ne!(Value::Null, Value::Undefined);
    assert_eq!(Value::Object(RefValue::new(rt(), 8)).get_runtime(), Some(rt()));
    assert_eq!(Value::Int32(1).get_runtime(), None);
    assert_eq!(RefValue::new(rt(), 8).get_runtime(), rt());
    assert_eq!(RefValue::new(rt(), 8).as_ptr(), 8);
    assert_eq!(RefValue::new(rt(), 8).as_raw(TAG_SYMBOL), RawValue::mkptr(TAG_SYMBOL, 8));
}

#[test]
fn nan_is_told_from_numbers() {
    assert!(Value::Float64(f64::NAN.to_bits()).is_nan());
    assert!(Value::Float64((-f64::NAN).to_bits()).is_nan());
    assert!(!Value::Float64(f64::INFINITY.to_bits()).is_nan());
    assert!(!Value::Float64(f64::NEG_INFINITY.to_bits()).is_nan());
    assert!(!Value::Float64(0.0f64.to_bits()).is_nan());
    assert!(!Value::Float64(1.25f64.to_bits()).is_nan());
    assert!(!Value::Int32(0).is_nan());
    assert!(!Value::Null.is_nan());
}

#[test]
fn integers_that_fit_are_small_integers() {
    assert_eq!(Value::from_i64(0), Some(Value::Int32(0)));
    assert_eq!(Value::from_i64(i32::MAX as i64), Some(Value::Int32(i32::MAX)));
    assert_eq!(Value::from_i64(i32::MIN as i64), Some(Value::Int32(i32::MIN)));
    assert_eq!(Value::from_i64(i32::MAX as i64 + 1), None);
    assert_eq!(Value::from_i64(i32::MIN as i64 - 1), None);
    assert_eq!(Value::from_i64(123456789012), None);
    assert_eq!(Value::from_u64(42), Some(Value::Int32(42)));
    assert_eq!(Value::from_u64(i32::MAX as u64), Some(Value::Int32(i32::MAX)));
    assert_eq!(Value::from_u64(i32::MAX as u64 + 1), None);
    assert_eq!(Value::from_u64(u64::MAX), None);
    assert_eq!(Value::from(7), Value::Int32(7));
    assert_eq!(Value::from(true), Value::Bool(true));
}

#[test]
fn status_of_an_engine_call() {
    assert_eq!(Exception::check(-1), Err(Exception));
    assert_eq!(Exception::check(0), Ok(false));
    assert_eq!(Exception::check(1), Ok(true));
    assert_eq!(Exception::check(5), Ok(true));
    assert_eq!(Exception::check_done(-1), Err(Exception));
    assert_eq!(Exception::check_done(0), Ok(()));
    assert_eq!(Exception::check_out(-1, 9i64), Err(Exception));
    assert_eq!(Exception::check_out(0, 9i64), Ok(9));
    assert_eq!(Exception::check_out(0, 2.5f64), Ok(2.5));
}

#[test]
fn atoms_own_one_share() {
    let atom = Atom::from_raw(rt(), 31);
    assert_eq!(atom.as_raw(), 31);
    assert_eq!(atom.get_runtime(), rt());
    let (copy, call) = atom.duplicate();
    assert_eq!(copy, atom);
    assert_eq!(call, EngineCall::DupAtom { runtime: rt(), atom: 31 });
    assert_eq!(copy.release(), EngineCall::FreeAtom { runtime: rt(), atom: 31 });
    assert_eq!(Atom::try_from_raw(rt(), ATOM_NULL), None);
    assert_eq!(Atom::try_from_raw(rt(), 31), Some(atom));
}
