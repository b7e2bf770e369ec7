use libquickjs::class::ClassIds;
use libquickjs::runtime::Runtime;
use libquickjs::utils::ptr::NonNullPtr;
use std::any::TypeId;

struct First;
struct Second;

#[test]
fn class_ids_are_allocated_once() {
    let mut table = ClassIds::new();
    assert_eq!(table.len(), 0);
    assert_eq!(table.get(&TypeId::of::<First>()), None);
    assert_eq!(table.get_or_alloc(TypeId::of::<First>(), || 40), 40);
    assert_eq!(table.get_or_alloc(TypeId::of::<First>(), || 41), 40);
    assert_eq!(table.get_or_alloc(TypeId::of::<Second>(), || 42), 42);
    assert_eq!(table.len(), 2);
    assert_eq!(table.get(&TypeId::of::<First>()), Some(40));
    assert_eq!(table.get(&TypeId::of::<Second>()), Some(42));
    assert_eq!(table.get(&TypeId::of::<u8>()), None);
}

#[test]
fn class_table_outlives_the_holders() {
    let mut rt = Runtime::new(NonNullPtr::new(0x1000).unwrap());
    let mut calls = 0;
    let id = rt.get_or_alloc_class_id(TypeId::of::<First>(), || {
        calls += 1;
        7
    });
    assert_eq!(id, 7);
    let id = rt.get_or_alloc_class_id(TypeId::of::<First>(), || {
        calls += 1;
        8
    });
    assert_eq!(id, 7);
    assert_eq!(calls, 1);
    assert_eq!(rt.class_ids_len(), 1);
    let _ = rt.teardown();
    assert_eq!(rt.class_ids_len(), 1);
    assert_eq!(rt.class_id(&TypeId::of::<First>()), Some(7));
    assert_eq!(rt.class_id(&TypeId::of::<Second>()), None);
    assert_eq!(rt.get_or_alloc_class_id(TypeId::of::<First>(), || 9), 7);
}
