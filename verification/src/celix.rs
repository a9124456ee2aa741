//! Constants of the Celix C interface.

use vstd::prelude::*;

verus! {

/// The status Celix reports when it runs out of memory.
pub const ENOMEM: i32 = 12;

/// The initial value of a Celix thread handle.
#[allow(non_upper_case_globals)]
pub const celix_thread_default: (i32, i32) = (0, 0);

} // verus!
