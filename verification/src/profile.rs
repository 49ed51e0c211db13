//! Call counters for profiling.

use vstd::prelude::*;

verus! {

/// Whether calls are counted. Counting is switched off.
pub const RCL_PROFILE: bool = false;

/// Counts the calls of one function.
#[derive(Copy, Clone, Debug)]
pub struct Profiler {
    pub calls: u32,
}

impl Profiler {
    /// A counter at zero.
    pub fn new() -> (p: Profiler)
        ensures
            p.calls == 0,
    {
        Profiler { calls: 0 }
    }

    /// Notes one call. While `RCL_PROFILE` is off the counter stays as it is;
    /// when on, it goes up by one and wraps around at 2^32.
    pub fn call(&mut self)
        ensures
            final(self).calls == if RCL_PROFILE {
                old(self).calls.wrapping_add(1)
            } else {
                old(self).calls
            },
    {
        if RCL_PROFILE {
            self.calls = self.calls.wrapping_add(1);
        }
    }
}

} // verus!
