use libquickjs::atom::Atom;
use libquickjs::context::Context;
use libquickjs::engine::EngineCall;
use libquickjs::utils::cstr::MaybeTinyCString;
use libquickjs::utils::ptr::NonNullPtr;
use libquickjs::utils::vec::MaybeTinyVec;
use libquickjs::value::{RawValue, RefValue, Value, TAG_OBJECT, TAG_STRING};
use libquickjs::InvalidRuntime;

fn ptr(addr: usize) -> NonNullPtr {
    NonNullPtr::new(addr).unwrap()
}

fn ctx() -> Context {
    Context::from_raw(ptr(0x1000), ptr(0x2000))
}

#[test]
fn context_knows_its_runtime() {
    let c = ctx();
    assert_eq!(c.get_runtime(), ptr(0x1000));
    assert_eq!(c.as_raw(), ptr(0x2000));
    let (copy, call) = c.duplicate();
    assert_eq!(copy, c);
    assert_eq!(call, EngineCall::DupContext { context: ptr(0x2000) });
}

#[test]
fn values_of_other_runtimes_are_turned_away() {
    let c = ctx();
    let own = Value::Object(RefValue::new(ptr(0x1000), 8));
    let foreign = Value::Object(RefValue::new(ptr(0x9000), 8));
    assert_eq!(c.enforce_value_in_same_runtime(&own), Ok(()));
    assert_eq!(c.enforce_value_in_same_runtime(&Value::Int32(1)), Ok(()));
    assert_eq!(c.enforce_value_in_same_runtime(&foreign), Err(InvalidRuntime));
    assert_eq!(c.enforce_atom_in_same_runtime(&Atom::from_raw(ptr(0x1000), 3)), Ok(()));
    assert_eq!(c.enforce_atom_in_same_runtime(&Atom::from_raw(ptr(0x9000), 3)), Err(InvalidRuntime));
}

#[test]
fn pending_exception_is_caught() {
    let c = ctx();
    assert_eq!(c.catch(RawValue::null()), None);
    assert_eq!(c.catch(RawValue::undefined()), None);
    assert_eq!(c.catch(RawValue::uninitialized()), None);
    assert_eq!(c.catch(RawValue::exception()), None);
    assert_eq!(
        c.catch(RawValue::mkptr(TAG_OBJECT, 0x30)),
        Some(Value::Object(RefValue::new(ptr(0x1000), 0x30)))
    );
    assert_eq!(
        c.catch(RawValue::mkptr(TAG_STRING, 0x30)),
        Some(Value::String(RefValue::new(ptr(0x1000), 0x30)))
    );
    assert_eq!(c.catch(Value::Int32(3).as_raw()), Some(Value::Int32(3)));
}

#[test]
fn arguments_are_converted_in_order() {
    let c = ctx();
    let args = vec![Value::Int32(1), Value::Object(RefValue::new(ptr(0x1000), 8)), Value::Null];
    let raw = c.convert_value_to_raw_value::<16>(&args).ok().unwrap();
    assert!(matches!(raw, MaybeTinyVec::Tiny(_)));
    assert_eq!(
        raw.as_slice(),
        [Value::Int32(1).as_raw(), RawValue::mkptr(TAG_OBJECT, 8), RawValue::null()]
    );
    let raw = c.convert_value_to_raw_value::<2>(&args).ok().unwrap();
    assert!(matches!(raw, MaybeTinyVec::Fat(_)));
    assert_eq!(raw.len(), 3);
    let raw = c.convert_value_to_raw_value::<2>(&[]).ok().unwrap();
    assert_eq!(raw.len(), 0);

    let bad = vec![Value::Int32(1), Value::Object(RefValue::new(ptr(0x9000), 8))];
    assert_eq!(c.convert_value_to_raw_value::<16>(&bad).err(), Some(InvalidRuntime));
}

#[test]
fn strings_become_c_strings() {
    let c = ctx();
    match c.new_c_string::<64>("app.js") {
        Ok(MaybeTinyCString::Tiny(s)) => assert_eq!(s.as_bytes_with_nul(), b"app.js\0"),
        _ => panic!("expected a tiny string"),
    }
    match c.new_c_string::<4>("app.js") {
        Ok(MaybeTinyCString::Fat(s)) => assert_eq!(s.as_bytes_with_nul(), b"app.js\0"),
        _ => panic!("expected a string on the heap"),
    }
    assert_eq!(
        c.new_c_string::<64>("ab\0cd").err(),
        Some("convert string: unexpected nul at str contains nul char at 2".to_string())
    );
}

#[test]
fn own_property_keys_are_taken_over() {
    let c = ctx();
    let atoms = c.own_atoms(&[(5, true), (9, false)]);
    assert_eq!(atoms.len(), 2);
    assert_eq!(atoms[0].atom, Atom::from_raw(ptr(0x1000), 5));
    assert!(atoms[0].is_enumerable);
    assert_eq!(atoms[1].atom, Atom::from_raw(ptr(0x1000), 9));
    assert!(!atoms[1].is_enumerable);
    assert!(c.own_atoms(&[]).is_empty());
}
