//! The handle-management core of a safe wrapper around an embedded,
//! single-threaded, garbage-collected script engine.
//!
//! The engine counts references by hand, must only be entered from the
//! thread that holds it, and invalidates everything it handed out when it is
//! torn down. This crate keeps the books that make such an engine safe to
//! use: which value owns a share in which object, which promoted reference
//! still has a handle, what is owed to the engine when handles are dropped,
//! and in which order a runtime is taken apart.
//!
//! The crate never calls the engine. An operation that takes or gives up a
//! share hands back the [`EngineCall`]s that are owed, and the caller, who
//! holds the runtime, makes them. Handles are plain data, free to cross
//! threads; when the last copy of one is dropped, the holder of the runtime
//! tells the runtime so before the next sweep.

use vstd::prelude::*;
use vstd::string::StringExecFns;

pub mod atom;
pub mod class;
pub mod context;
pub mod engine;
pub mod flags;
pub mod runtime;
pub mod serde;
pub mod utils;
pub mod value;

pub use atom::Atom;
pub use class::CallOptions;
pub use context::{Context, OwnAtom};
pub use engine::EngineCall;
pub use flags::{Intrinsic, TypedArrayType};
pub use runtime::{GlobalAtom, GlobalContext, GlobalValue, Runtime};
pub use value::{Exception, RawUnion, RawValue, RefValue, Value, ValueResultExt};

verus! {

/// A handle or value was presented to a runtime that it does not belong to.
/// The mistake is the caller's, and it is always reported, never papered over.
#[derive(Debug, Clone, Copy, PartialEq, Eq, Structural)]
pub struct InvalidRuntime;

impl InvalidRuntime {
    /// The error in words.
    pub fn to_string(&self) -> (s: String)
        ensures
            s@ == "InvalidRuntime"@,
    {
        String::from_str("InvalidRuntime")
    }
}

/// The engine's number for a promise that is pending.
pub const PROMISE_PENDING: i32 = 0;

/// The engine's number for a promise that is fulfilled.
pub const PROMISE_FULFILLED: i32 = 1;

/// The engine's number for a promise that is rejected.
pub const PROMISE_REJECTED: i32 = 2;

/// The state of a promise.
#[derive(Debug, Clone, Copy, PartialEq, Eq, Structural)]
pub enum PromiseState {
    Pending,
    Fulfilled,
    Rejected,
}

/// A value was asked for its promise state and is no promise.
#[derive(Debug, Clone, Copy, PartialEq, Eq, Structural)]
pub struct NotAPromise;

impl NotAPromise {
    /// The error in words.
    pub fn to_string(&self) -> (s: String)
        ensures
            s@ == "NotAPromise"@,
    {
        String::from_str("NotAPromise")
    }
}

impl PromiseState {
    /// Reads the state that the engine reports of a value: one of the three
    /// states of a promise, or any other number for a value that is none.
    pub fn from_raw(state: i32) -> (ret: Result<PromiseState, NotAPromise>)
        ensures
            ret == if state == PROMISE_PENDING {
                Ok::<PromiseState, NotAPromise>(PromiseState::Pending)
            } else if state == PROMISE_FULFILLED {
                Ok::<PromiseState, NotAPromise>(PromiseState::Fulfilled)
            } else if state == PROMISE_REJECTED {
                Ok::<PromiseState, NotAPromise>(PromiseState::Rejected)
            } else {
                Err::<PromiseState, NotAPromise>(NotAPromise)
            },
    {
        if state == PROMISE_PENDING {
            Ok(PromiseState::Pending)
        } else if state == PROMISE_FULFILLED {
            Ok(PromiseState::Fulfilled)
        } else if state == PROMISE_REJECTED {
            Ok(PromiseState::Rejected)
        } else {
            Err(NotAPromise)
        }
    }
}

} // verus!
