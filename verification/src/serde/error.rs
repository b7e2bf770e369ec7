//! The path from the root of a converted value to the place of an error.

use vstd::prelude::*;
use vstd::string::StringExecFns;

verus! {

/// The name that a path shows for a key whose name could not be read.
pub open spec fn unknown_name() -> Seq<char> {
    "<unknown>"@
}

/// The name that a path shows for the key `name`.
pub open spec fn shown_name(name: Option<String>) -> Seq<char> {
    match name {
        Some(s) => s@,
        None => unknown_name(),
    }
}

/// The path from the root to a place, given the names of the keys that were
/// met on the way from the place up to the root: the same names, root first.
/// A key whose name could not be read shows as `<unknown>`.
pub fn collect_path(names: Vec<Option<String>>) -> (path: Vec<String>)
    ensures
        path@.len() == names@.len(),
        forall|i: int|
            0 <= i < path@.len() ==> (#[trigger] path@[i])@ == shown_name(
                names@[names@.len() - 1 - i],
            ),
{
    let ghost all = names@;
    let mut names = names;
    let mut path: Vec<String> = Vec::new();
    while names.len() > 0
        invariant
            names@.len() <= all.len(),
            names@ == all.take(names@.len() as int),
            path@.len() == all.len() - names@.len(),
            forall|i: int|
                0 <= i < path@.len() ==> (#[trigger] path@[i])@ == shown_name(
                    all[all.len() - 1 - i],
                ),
        decreases names@.len(),
    {
        let ghost n = names@.len() as int;
        match names.pop() {
            Some(name) => {
                assert(name == all[n - 1]);
                let shown = match name {
                    Some(s) => s,
                    None => String::from_str("<unknown>"),
                };
                path.push(shown);
                assert(names@ =~= all.take(n - 1));
            },
            None => {},
        }
    }
    path
}

} // verus!
