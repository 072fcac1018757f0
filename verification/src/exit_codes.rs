//! Exit codes of the command line front end, following Unix conventions.

use vstd::prelude::*;

verus! {

/// Successful execution.
pub const SUCCESS: i32 = 0;

/// A runtime error: a generator's source failed, or the inspected string is
/// no identifier of a known scheme.
pub const ERROR: i32 = 1;

/// Invalid usage: a parameter that the request needs is missing or
/// malformed.
pub const USAGE_ERROR: i32 = 2;

} // verus!
