//! Fixed values.

use vstd::prelude::*;

verus! {

/// The step of one tick, in milliseconds.
pub const TICK_VALUE_MS: u64 = 100;

} // verus!
