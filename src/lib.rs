//! The logic behind a small web service: a request counter that hands out
//! 1, 2, 3, ... to its callers, one increment at a time, and the texts that
//! the service replies with.

use vstd::prelude::*;

pub mod counter;
pub mod info;
pub mod text;

verus! {

} // verus!
