//! The instances of one draw: the buffer that holds them has room for a
//! fixed number, and what is over is not drawn.

use vstd::prelude::*;

verus! {

/// How many instances the instance buffer has room for.
pub const MAX_INSTANCES: u64 = 10;

/// Cuts the instances down to what the instance buffer has room for, and
/// counts what is left: the first [`MAX_INSTANCES`] stay, in their order.
pub fn limit_instances<I>(instances: &mut Vec<I>) -> (count: u32)
    ensures
        final(instances)@ == (if old(instances)@.len() <= MAX_INSTANCES {
            old(instances)@
        } else {
            old(instances)@.take(MAX_INSTANCES as int)
        }),
        count == final(instances)@.len(),
{
    instances.truncate(MAX_INSTANCES as usize);
    instances.len() as u32
}

} // verus!
