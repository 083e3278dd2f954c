//! A bridge between a host process and a circuit capacity estimation engine.
//!
//! - `registry`: the table of checker instances, addressed by dense handles.
//! - `checker`: which requests reach the engine, and the result the host gets.
//! - `error`: why a request fails, and the message that says so.
//! - `utils`: zero-terminated buffers as the host hands them over.
use vstd::prelude::*;

pub mod checker;
pub mod error;
pub mod registry;
pub mod utils;

verus! {

} // verus!
