//! The errors of the conversion between native values and engine values.

use vstd::prelude::*;
use vstd::string::StringExecFns;

pub mod error;

verus! {

/// What went wrong while a native value was turned into an engine value or
/// back.
#[derive(Debug)]
pub enum ErrorRepr {
    /// A message of the data format's own.
    Custom(String),
    /// The engine threw; the thrown value, in words.
    EvalValue(String),
    SerializingFunctionCode,
    SerializingCatchOffset,
    ExceptingArrayBuffer,
    ExpectingObject,
    ExpectingArray,
}

impl ErrorRepr {
    /// What this kind of error says, behind the place where it happened.
    pub open spec fn message(self) -> Seq<char> {
        match self {
            ErrorRepr::Custom(msg) => msg@,
            ErrorRepr::EvalValue(msg) => "eval error: "@ + msg@,
            ErrorRepr::SerializingFunctionCode => "serializing function code"@,
            ErrorRepr::SerializingCatchOffset => "serializing catch offset"@,
            ErrorRepr::ExceptingArrayBuffer => "excepting array buffer"@,
            ErrorRepr::ExpectingObject => "expecting object"@,
            ErrorRepr::ExpectingArray => "expecting array"@,
        }
    }
}

/// The segments of `path`, each behind a dot.
pub open spec fn dotted(path: Seq<String>) -> Seq<char>
    decreases path.len(),
{
    if path.len() == 0 {
        Seq::empty()
    } else {
        dotted(path.drop_last()) + seq!['.'] + path.last()@
    }
}

/// An error of the conversion between native and engine values: what went
/// wrong, and the path of property names that leads to the place.
pub struct Error {
    path: Vec<String>,
    repr: ErrorRepr,
}

impl Error {
    /// The path of property names from the root to the place of the error.
    pub closed spec fn path(self) -> Seq<String> {
        self.path@
    }

    /// What went wrong.
    pub closed spec fn kind(self) -> ErrorRepr {
        self.repr
    }

    /// What the error says: `parse`, the dotted path, a colon, and what
    /// went wrong.
    pub open spec fn message(self) -> Seq<char> {
        "parse "@ + dotted(self.path()) + ": "@ + self.kind().message()
    }

    /// The error `repr` at the place `path`.
    pub fn new(path: Vec<String>, repr: ErrorRepr) -> (ret: Self)
        ensures
            ret.path() == path@,
            ret.kind() == repr,
    {
        Self { path, repr }
    }

    /// The path of property names from the root to the place of the error.
    pub fn object_path(&self) -> (path: &[String])
        ensures
            path@ == self.path(),
    {
        self.path.as_slice()
    }

    /// What went wrong.
    pub fn repr(&self) -> (repr: &ErrorRepr)
        ensures
            *repr == self.kind(),
    {
        &self.repr
    }

    /// Gives an error that knows no place the place `path`. An error that
    /// knows its place keeps it.
    pub fn fix_path(self, path: Vec<String>) -> (ret: Error)
        ensures
            ret.kind() == self.kind(),
            ret.path() == if self.path().len() == 0 {
                path@
            } else {
                self.path()
            },
    {
        if self.path.len() == 0 {
            Error { path, repr: self.repr }
        } else {
            self
        }
    }

    /// The error in words.
    pub fn to_string(&self) -> (s: String)
        ensures
            s@ == self.message(),
    {
        let mut s = String::from_str("parse ");
        let n = self.path.len();
        let mut i: usize = 0;
        assert(self.path@.take(0) =~= Seq::<String>::empty());
        assert(s@ =~= "parse "@ + dotted(self.path@.take(0)));
        while i < n
            invariant
                n == self.path@.len(),
                i <= n,
                s@ == "parse "@ + dotted(self.path@.take(i as int)),
            decreases n - i,
        {
            proof {
                reveal_strlit(".");
                assert(self.path@.take(i + 1).drop_last() =~= self.path@.take(i as int));
                assert(self.path@.take(i + 1).last() == self.path@[i as int]);
            }
            s.append(".");
            s.append(self.path[i].as_str());
            assert(s@ =~= "parse "@ + dotted(self.path@.take(i + 1)));
            i += 1;
        }
        assert(self.path@.take(n as int) =~= self.path@);
        s.append(": ");
        match &self.repr {
            ErrorRepr::Custom(msg) => {
                s.append(msg.as_str());
            },
            ErrorRepr::EvalValue(msg) => {
                s.append("eval error: ");
                s.append(msg.as_str());
            },
            ErrorRepr::SerializingFunctionCode => {
                s.append("serializing function code");
            },
            ErrorRepr::SerializingCatchOffset => {
                s.append("serializing catch offset");
            },
            ErrorRepr::ExceptingArrayBuffer => {
                s.append("excepting array buffer");
            },
            ErrorRepr::ExpectingObject => {
                s.append("expecting object");
            },
            ErrorRepr::ExpectingArray => {
                s.append("expecting array");
            },
        }
        assert(s@ =~= self.message());
        s
    }
}

} // verus!
