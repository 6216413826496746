//! Names that most modules use.

pub use crate::error::Error;
use vstd::prelude::*;

verus! {

/// The library's result type.
pub type Result<T> = core::result::Result<T, Error>;

/// A wrapper for giving a foreign type a local trait.
pub struct W<T>(pub T);

} // verus!
