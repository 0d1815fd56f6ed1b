//! The operation that hands back a value after a delay.

use vstd::prelude::*;

verus! {

/// The value that the operation yields once its delay is over, whatever the
/// length of the delay.
pub const DELAYED_VALUE: u32 = 5;

} // verus!
