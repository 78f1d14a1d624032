//! Descriptors that tell a GPU deep-learning primitives library the shape,
//! strides and element type of an n-dimensional array.
//!
//! The library itself is reached through a C interface that this crate does
//! not call. Every decision around those calls is made here: which native call
//! comes next, with exactly which arguments, what a returned status means, and
//! when an allocated handle must be released. A driver outside the crate issues
//! the calls and reports their outcomes back.
use vstd::prelude::*;

pub mod data_type;
pub mod error;
pub mod tensor_descriptor;
pub mod tensor_format;

verus! {

} // verus!
