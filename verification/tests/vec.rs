use libquickjs::utils::vec::{MaybeTinyVec, TinyVec};

#[test]
fn tiny_vec_takes_up_to_its_capacity() {
    let mut v: TinyVec<String, 2> = TinyVec::new();
    assert_eq!(v.len(), 0);
    assert_eq!(v.try_push("a".to_string()), Ok(()));
    assert_eq!(v.try_push("b".to_string()), Ok(()));
    assert_eq!(v.try_push("c".to_string()), Err("c".to_string()));
    assert_eq!(v.len(), 2);
    assert_eq!(v.as_slice(), ["a".to_string(), "b".to_string()]);
    let mut it = v.into_iter();
    assert_eq!(it.len(), 2);
    assert_eq!(it.next(), Some("a".to_string()));
    assert_eq!(it.next(), Some("b".to_string()));
    assert_eq!(it.next(), None);
    assert_eq!(it.next(), None);
}

#[test]
fn tiny_vec_without_room() {
    let mut v: TinyVec<u8, 0> = TinyVec::new();
    assert_eq!(v.try_push(1), Err(1));
    assert_eq!(v.len(), 0);
    assert!(v.into_vec().is_empty());
}

#[test]
fn maybe_tiny_vec_grows_fat() {
    let mut v: MaybeTinyVec<u32, 3> = MaybeTinyVec::new();
    assert!(matches!(v, MaybeTinyVec::Tiny(_)));
    for i in 0..3 {
        v.push(i);
        assert!(matches!(v, MaybeTinyVec::Tiny(_)));
    }
    assert_eq!(v.len(), 3);
    v.push(3);
    assert!(matches!(v, MaybeTinyVec::Fat(_)));
    v.push(4);
    assert!(matches!(v, MaybeTinyVec::Fat(_)));
    assert_eq!(v.len(), 5);
    assert_eq!(v.as_slice(), [0, 1, 2, 3, 4]);
    let mut it = v.into_iter();
    for i in 0..5 {
        assert_eq!(it.next(), Some(i));
    }
    assert_eq!(it.next(), None);
}

#[test]
fn maybe_tiny_vec_collects() {
    let v: MaybeTinyVec<u32, 4> = MaybeTinyVec::from_vec(vec![1, 2, 3, 4]);
    assert!(matches!(v, MaybeTinyVec::Tiny(_)));
    assert_eq!(v.as_slice(), [1, 2, 3, 4]);
    let v: MaybeTinyVec<u32, 4> = MaybeTinyVec::from_vec(vec![1, 2, 3, 4, 5]);
    assert!(matches!(v, MaybeTinyVec::Fat(_)));
    assert_eq!(v.as_slice(), [1, 2, 3, 4, 5]);
    let v: MaybeTinyVec<u32, 4> = MaybeTinyVec::from_vec(Vec::new());
    assert!(matches!(v, MaybeTinyVec::Tiny(_)));
    assert_eq!(v.len(), 0);
    let mut it = MaybeTinyVec::<String, 1>::from_vec(vec!["x".to_string()]).into_iter();
    assert_eq!(it.next(), Some("x".to_string()));
    assert_eq!(it.next(), None);
}

#[test]
fn items_are_replaced_in_place() {
    let mut v: TinyVec<String, 4> = TinyVec::new();
    let _ = v.try_push("a".to_string());
    let _ = v.try_push("b".to_string());
    assert_eq!(v.replace(1, "c".to_string()), "b".to_string());
    assert_eq!(v.as_slice(), ["a".to_string(), "c".to_string()]);

    let mut v: MaybeTinyVec<u32, 2> = MaybeTinyVec::from_vec(vec![1, 2]);
    assert_eq!(v.replace(0, 9), 1);
    assert!(matches!(v, MaybeTinyVec::Tiny(_)));
    assert_eq!(v.as_slice(), [9, 2]);
    let mut v: MaybeTinyVec<u32, 2> = MaybeTinyVec::from_vec(vec![1, 2, 3]);
    assert_eq!(v.replace(2, 9), 3);
    assert!(matches!(v, MaybeTinyVec::Fat(_)));
    assert_eq!(v.as_slice(), [1, 2, 9]);
}
