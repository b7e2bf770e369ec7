use libquickjs::serde::error::collect_path;
use libquickjs::serde::{Error, ErrorRepr};

fn path(segments: &[&str]) -> Vec<String> {
    segments.iter().map(|s| s.to_string()).collect()
}

#[test]
fn error_keeps_what_it_was_given() {
    let e = Error::new(path(&["a", "b"]), ErrorRepr::ExpectingArray);
    assert_eq!(e.object_path(), ["a".to_string(), "b".to_string()]);
    assert!(matches!(e.repr(), ErrorRepr::ExpectingArray));
    let e = Error::new(Vec::new(), ErrorRepr::Custom("oops".to_string()));
    assert!(e.object_path().is_empty());
    match e.repr() {
        ErrorRepr::Custom(msg) => assert_eq!(msg, "oops"),
        other => panic!("unexpected repr {:?}", other),
    }
}

#[test]
fn error_in_words() {
    assert_eq!(
        Error::new(path(&["c", "d"]), ErrorRepr::Custom("missing field".to_string())).to_string(),
        "parse .c.d: missing field"
    );
    assert_eq!(
        Error::new(Vec::new(), ErrorRepr::EvalValue("TypeError: x".to_string())).to_string(),
        "parse : eval error: TypeError: x"
    );
    assert_eq!(
        Error::new(path(&["f"]), ErrorRepr::SerializingFunctionCode).to_string(),
        "parse .f: serializing function code"
    );
    assert_eq!(
        Error::new(path(&["f"]), ErrorRepr::SerializingCatchOffset).to_string(),
        "parse .f: serializing catch offset"
    );
    assert_eq!(
        Error::new(path(&["0", "buf"]), ErrorRepr::ExceptingArrayBuffer).to_string(),
        "parse .0.buf: excepting array buffer"
    );
    assert_eq!(Error::new(path(&["o"]), ErrorRepr::ExpectingObject).to_string(), "parse .o: expecting object");
    assert_eq!(Error::new(path(&["a"]), ErrorRepr::ExpectingArray).to_string(), "parse .a: expecting array");
}

#[test]
fn error_without_a_place_is_given_one() {
    let e = Error::new(Vec::new(), ErrorRepr::ExpectingObject).fix_path(path(&["x", "y"]));
    assert_eq!(e.object_path(), ["x".to_string(), "y".to_string()]);
    assert!(matches!(e.repr(), ErrorRepr::ExpectingObject));
    let e = Error::new(path(&["z"]), ErrorRepr::ExpectingObject).fix_path(path(&["x", "y"]));
    assert_eq!(e.object_path(), ["z".to_string()]);
}

#[test]
fn path_is_collected_root_first() {
    let names = vec![Some("leaf".to_string()), None, Some("root".to_string())];
    assert_eq!(
        collect_path(names),
        vec!["root".to_string(), "<unknown>".to_string(), "leaf".to_string()]
    );
    assert!(collect_path(Vec::new()).is_empty());
}
