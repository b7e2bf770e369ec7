//! Small data structures that the rest of the crate stands on.

pub mod cstr;
pub mod global;
pub mod liveness;
pub mod ptr;
pub mod text;
pub mod vec;

pub use cstr::ContainNul;
pub use ptr::enforce_not_out_of_memory;
pub use vec::MaybeTinyVec;
