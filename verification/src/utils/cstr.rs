//! C strings for the engine: bytes without a NUL, closed by one.

use crate::utils::text::{decimal, push_decimal};
use vstd::prelude::*;
use vstd::slice::slice_to_vec;
use vstd::string::StringExecFns;

verus! {

/// Whether `bytes` holds a NUL byte.
pub open spec fn has_nul(bytes: Seq<u8>) -> bool {
    exists|i: int| 0 <= i < bytes.len() && bytes[i] == 0
}

/// Whether the first NUL byte of `bytes` stands at `pos`.
pub open spec fn is_first_nul(bytes: Seq<u8>, pos: int) -> bool {
    &&& 0 <= pos < bytes.len()
    &&& bytes[pos] == 0
    &&& forall|i: int| 0 <= i < pos ==> bytes[i] != 0
}

/// A string could not be handed to the engine as a C string: it holds a NUL
/// byte, the first one at the position given.
#[derive(Clone, Copy, Debug, PartialEq, Eq, Structural)]
pub struct ContainNul(pub usize);

impl ContainNul {
    /// What the error says: that a NUL was found, and where.
    pub open spec fn message(self) -> Seq<char> {
        "str contains nul char at "@ + decimal(self.0 as nat)
    }

    /// The error in words.
    pub fn to_string(&self) -> (s: String)
        ensures
            s@ == self.message(),
    {
        let mut s = String::from_str("str contains nul char at ");
        push_decimal(&mut s, self.0);
        s
    }
}

/// `memchr::memchr`: the position of the first byte of `haystack` that is
/// `needle`, or `None` where no byte is.
#[verifier::external_body]
fn memchr(needle: u8, haystack: &[u8]) -> (pos: Option<usize>)
    ensures
        pos matches Some(p) ==> p < haystack@.len() && haystack@[p as int] == needle && forall|
            i: int,
        |
            0 <= i < p ==> haystack@[i] != needle,
        pos is None ==> forall|i: int| 0 <= i < haystack@.len() ==> haystack@[i] != needle,
{
    memchr::memchr(needle, haystack)
}

/// A C string on the heap: bytes that hold no NUL, and one NUL behind them.
pub struct FatCString {
    data: Vec<u8>,
}

impl View for FatCString {
    type V = Seq<u8>;

    /// The bytes before the closing NUL.
    closed spec fn view(&self) -> Seq<u8> {
        self.data@.drop_last()
    }
}

impl FatCString {
    #[verifier::type_invariant]
    spec fn inv(self) -> bool {
        &&& self.data@.len() >= 1
        &&& self.data@.last() == 0
        &&& !has_nul(self.data@.drop_last())
    }

    /// The bytes of `s` with a NUL behind them; `s` itself holds none.
    fn from_clean(s: &[u8]) -> (ret: FatCString)
        requires
            !has_nul(s@),
        ensures
            ret@ == s@,
    {
        let mut data = slice_to_vec(s);
        data.push(0);
        assert(data@.drop_last() =~= s@);
        FatCString { data }
    }

    /// The string as the engine reads it: the bytes, then the NUL.
    pub fn as_bytes_with_nul(&self) -> (bytes: &[u8])
        ensures
            bytes@ == self@.push(0),
            !has_nul(self@),
    {
        proof {
            use_type_invariant(self);
            assert(self.data@ =~= self.data@.drop_last().push(0));
        }
        self.data.as_slice()
    }
}

/// A C string of fewer than `CAP` bytes, so that it fits, NUL included, in
/// `CAP` bytes.
pub struct TinyCString<const CAP: usize> {
    data: Vec<u8>,
}

impl<const CAP: usize> View for TinyCString<CAP> {
    type V = Seq<u8>;

    /// The bytes before the closing NUL.
    closed spec fn view(&self) -> Seq<u8> {
        self.data@.drop_last()
    }
}

impl<const CAP: usize> TinyCString<CAP> {
    #[verifier::type_invariant]
    spec fn inv(self) -> bool {
        &&& 1 <= self.data@.len() <= CAP
        &&& self.data@.last() == 0
        &&& !has_nul(self.data@.drop_last())
    }

    /// The bytes of `s` as a tiny C string, if they fit with their NUL and
    /// hold no NUL themselves.
    pub fn new(s: &[u8]) -> (ret: Option<TinyCString<CAP>>)
        ensures
            ret is Some <==> s@.len() < CAP && !has_nul(s@),
            ret matches Some(c) ==> c@ == s@,
    {
        if s.len() < CAP {
            if memchr(0, s).is_some() {
                return None;
            }
            Some(TinyCString::from_clean(s))
        } else {
            None
        }
    }

    /// The bytes of `s` with a NUL behind them; `s` itself holds none and
    /// is short enough.
    fn from_clean(s: &[u8]) -> (ret: TinyCString<CAP>)
        requires
            s@.len() < CAP,
            !has_nul(s@),
        ensures
            ret@ == s@,
    {
        let mut data = slice_to_vec(s);
        data.push(0);
        assert(data@.drop_last() =~= s@);
        TinyCString { data }
    }

    /// The string as the engine reads it: the bytes, then the NUL.
    pub fn as_bytes_with_nul(&self) -> (bytes: &[u8])
        ensures
            bytes@ == self@.push(0),
            bytes@.len() <= CAP,
            !has_nul(self@),
    {
        proof {
            use_type_invariant(self);
            assert(self.data@ =~= self.data@.drop_last().push(0));
        }
        self.data.as_slice()
    }
}

/// A C string that is tiny where it can be and on the heap where it must.
pub enum MaybeTinyCString<const TINY_CAP: usize> {
    Tiny(TinyCString<TINY_CAP>),
    Fat(FatCString),
}

impl<const TINY_CAP: usize> View for MaybeTinyCString<TINY_CAP> {
    type V = Seq<u8>;

    /// The bytes before the closing NUL.
    open spec fn view(&self) -> Seq<u8> {
        match self {
            MaybeTinyCString::Tiny(s) => s@,
            MaybeTinyCString::Fat(s) => s@,
        }
    }
}

impl<const TINY_CAP: usize> MaybeTinyCString<TINY_CAP> {
    /// The bytes of `s` as a C string: tiny if they fit with their NUL in
    /// `TINY_CAP` bytes, on the heap if not. Bytes that hold a NUL cannot be
    /// a C string and are refused, with the position of their first NUL.
    pub fn new(s: &[u8]) -> (ret: Result<MaybeTinyCString<TINY_CAP>, ContainNul>)
        ensures
            ret is Err <==> has_nul(s@),
            ret matches Err(e) ==> is_first_nul(s@, e.0 as int),
            ret matches Ok(c) ==> c@ == s@ && (c is Tiny <==> s@.len() < TINY_CAP),
    {
        match memchr(0, s) {
            Some(pos) => Err(ContainNul(pos)),
            None => {
                if s.len() < TINY_CAP {
                    Ok(MaybeTinyCString::Tiny(TinyCString::from_clean(s)))
                } else {
                    Ok(MaybeTinyCString::Fat(FatCString::from_clean(s)))
                }
            },
        }
    }

    /// The string as the engine reads it: the bytes, then the NUL.
    pub fn as_bytes_with_nul(&self) -> (bytes: &[u8])
        ensures
            bytes@ == self@.push(0),
            !has_nul(self@),
    {
        match self {
            MaybeTinyCString::Tiny(s) => s.as_bytes_with_nul(),
            MaybeTinyCString::Fat(s) => s.as_bytes_with_nul(),
        }
    }

    /// The number of bytes before the closing NUL.
    pub fn count_bytes(&self) -> (n: usize)
        ensures
            n == self@.len(),
    {
        self.as_bytes_with_nul().len() - 1
    }
}

} // verus!
