use libquickjs::utils::cstr::{MaybeTinyCString, TinyCString};
use libquickjs::utils::ContainNul;

#[test]
fn tiny_c_string_holds_what_fits() {
    let s = TinyCString::<8>::new(b"abc").unwrap();
    assert_eq!(s.as_bytes_with_nul(), b"abc\0");
    let s = TinyCString::<4>::new(b"abc").unwrap();
    assert_eq!(s.as_bytes_with_nul(), b"abc\0");
    assert!(TinyCString::<3>::new(b"abc").is_none());
    assert!(TinyCString::<8>::new(b"a\0c").is_none());
    assert!(TinyCString::<0>::new(b"").is_none());
    let s = TinyCString::<1>::new(b"").unwrap();
    assert_eq!(s.as_bytes_with_nul(), b"\0");
}

#[test]
fn maybe_tiny_c_string_is_tiny_where_it_can() {
    match MaybeTinyCString::<8>::new(b"script.js") {
        Ok(MaybeTinyCString::Fat(s)) => assert_eq!(s.as_bytes_with_nul(), b"script.js\0"),
        _ => panic!("expected a string on the heap"),
    }
    match MaybeTinyCString::<16>::new(b"script.js") {
        Ok(MaybeTinyCString::Tiny(s)) => assert_eq!(s.as_bytes_with_nul(), b"script.js\0"),
        _ => panic!("expected a tiny string"),
    }
    match MaybeTinyCString::<10>::new(b"script.js") {
        Ok(MaybeTinyCString::Tiny(s)) => assert_eq!(s.as_bytes_with_nul(), b"script.js\0"),
        _ => panic!("expected a tiny string"),
    }
    match MaybeTinyCString::<9>::new(b"script.js") {
        Ok(MaybeTinyCString::Fat(_)) => {}
        _ => panic!("expected a string on the heap"),
    }
    let s = MaybeTinyCString::<4>::new(b"hello world").ok().unwrap();
    assert_eq!(s.as_bytes_with_nul(), b"hello world\0");
    assert_eq!(s.count_bytes(), 11);
    let s = MaybeTinyCString::<4>::new(b"").ok().unwrap();
    assert_eq!(s.as_bytes_with_nul(), b"\0");
    assert_eq!(s.count_bytes(), 0);
}

#[test]
fn nul_is_refused_with_its_first_place() {
    assert_eq!(MaybeTinyCString::<8>::new(b"ab\0c\0").err(), Some(ContainNul(2)));
    assert_eq!(MaybeTinyCString::<2>::new(b"ab\0c\0").err(), Some(ContainNul(2)));
    assert_eq!(MaybeTinyCString::<8>::new(b"\0").err(), Some(ContainNul(0)));
    assert_eq!(MaybeTinyCString::<64>::new(b"a long string with its nul at the end\0").err(), Some(ContainNul(37)));
}

#[test]
fn contain_nul_in_words() {
    assert_eq!(ContainNul(0).to_string(), "str contains nul char at 0");
    assert_eq!(ContainNul(7).to_string(), "str contains nul char at 7");
    assert_eq!(ContainNul(10).to_string(), "str contains nul char at 10");
    assert_eq!(ContainNul(1234567890).to_string(), "str contains nul char at 1234567890");
    assert_eq!(
        ContainNul(usize::MAX).to_string(),
        format!("str contains nul char at {}", usize::MAX)
    );
}
