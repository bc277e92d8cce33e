//! Error handling for a safe wrapper around the console's system library.
//!
//! Every system call of the console hands back a signed 32-bit result code.
//! This crate decodes such codes, turns failures into one [`Error`] type and
//! renders them as text.

pub mod error;
pub mod raw_result;
pub mod render;
pub mod result_code;

pub use error::Error;
pub use raw_result::{try_os, LibCtruResult};

use vstd::prelude::*;

verus! {

/// The outcome of a call into the library: a `T`, or the [`Error`] that
/// stopped it.
pub type Result<T> = core::result::Result<T, Error>;

} // verus!
