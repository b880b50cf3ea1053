//! A count of calls, kept by the caller under a lock of its own.

use vstd::prelude::*;

verus! {

/// Records one more call in `count`.
pub fn do_a_call(count: &mut u8)
    requires
        *old(count) < u8::MAX,
    ensures
        *final(count) == *old(count) + 1,
{
    *count = *count + 1;
}

} // verus!
