//! Fixed-rate tick scheduling from millisecond time stamps.

use vstd::prelude::*;

verus! {

/// Logic ticks per second that the scheduler aims for.
pub const TARGET_FPS: u8 = 100;

/// Most ticks that one call hands out; a longer pause is cut down to this.
pub const MAX_TICKS_PER_FRAME: u8 = 16;

/// Milliseconds per tick.
pub const TARGET_SLEEP: u8 = 10;

/// A step backwards in time by more than this many milliseconds is read as
/// a pause of `MAX_TICKS_PER_FRAME` ticks.
pub const MAX_DELTA_OVERFLOW_DISTANCE: i32 = -100;

/// What one scheduling step hands to the frame: the ticks that passed since
/// the previous frame and the running tick count.
#[derive(Copy, Clone, Debug)]
pub struct Time {
    tick_number: u32,
    ticks: u32,
}

impl Time {
    #[verifier::type_invariant]
    spec fn wf(self) -> bool {
        self.ticks != 0
    }

    /// The running tick count, as a model value.
    pub closed spec fn spec_tick_number(self) -> u32 {
        self.tick_number
    }

    /// The ticks since the previous frame, as a model value.
    pub closed spec fn spec_ticks(self) -> u32 {
        self.ticks
    }

    pub fn tick_number(&self) -> (n: u32)
        ensures
            n == self.spec_tick_number(),
    {
        self.tick_number
    }

    /// The ticks since the previous frame; never zero.
    pub fn ticks(&self) -> (n: u32)
        ensures
            n == self.spec_ticks(),
            n != 0,
    {
        proof {
            use_type_invariant(self);
        }
        self.ticks
    }
}

/// The scheduler: the running tick count and the time stamp up to which
/// ticks have been handed out (`i32::MIN` while no stamp was seen yet).
#[derive(Debug)]
pub struct Timing {
    tick_number: u32,
    last_tick_time_stamp: i32,
}

/// Milliseconds that count as passed between the stamp `last` and the stamp
/// `now`. Stamps wrap around, so the difference is taken modulo 2^32.
pub open spec fn spec_elapsed(last: i32, now: i32) -> i32 {
    if last == i32::MIN {
        TARGET_SLEEP as i32
    } else if now.wrapping_sub(last) < MAX_DELTA_OVERFLOW_DISTANCE {
        (MAX_TICKS_PER_FRAME * TARGET_SLEEP) as i32
    } else {
        now.wrapping_sub(last)
    }
}

/// Whole ticks in `delta` milliseconds, capped at `MAX_TICKS_PER_FRAME`.
pub open spec fn spec_due_ticks(delta: i32) -> u32 {
    if delta <= 0 {
        0
    } else if delta / (TARGET_SLEEP as i32) > MAX_TICKS_PER_FRAME {
        MAX_TICKS_PER_FRAME as u32
    } else {
        (delta / (TARGET_SLEEP as i32)) as u32
    }
}

/// The stamp up to which ticks are handed out after a step at `now`.
pub open spec fn spec_next_stamp(last: i32, now: i32) -> i32 {
    let delta = spec_elapsed(last, now);
    let base = if last == i32::MIN { now } else { last };
    if delta <= 0 {
        base
    } else if delta / (TARGET_SLEEP as i32) > MAX_TICKS_PER_FRAME {
        now
    } else {
        base.wrapping_add((spec_due_ticks(delta) * TARGET_SLEEP) as i32)
    }
}

impl Timing {
    /// The running tick count, as a model value.
    pub closed spec fn spec_tick_number(self) -> u32 {
        self.tick_number
    }

    /// The stamp up to which ticks have been handed out, as a model value.
    pub closed spec fn spec_last_stamp(self) -> i32 {
        self.last_tick_time_stamp
    }

    pub fn new() -> (t: Timing)
        ensures
            t.spec_tick_number() == 0,
            t.spec_last_stamp() == i32::MIN,
    {
        Timing { tick_number: 0, last_tick_time_stamp: i32::MIN }
    }

    /// One scheduling step at the time stamp `time_stamp` (milliseconds).
    ///
    /// Returns the ticks that are due, if any, and moves the scheduler on by
    /// exactly those ticks. The tick count wraps around at 2^32.
    pub fn timing_loop(&mut self, time_stamp: i32) -> (out: Option<Time>)
        ensures
            final(self).spec_last_stamp() == spec_next_stamp(
                old(self).spec_last_stamp(),
                time_stamp,
            ),
            final(self).spec_tick_number() == old(self).spec_tick_number().wrapping_add(
                spec_due_ticks(spec_elapsed(old(self).spec_last_stamp(), time_stamp)),
            ),
            out is Some <==> spec_due_ticks(spec_elapsed(old(self).spec_last_stamp(), time_stamp))
                != 0,
            out matches Some(time) ==> {
                &&& time.spec_ticks() == spec_due_ticks(
                    spec_elapsed(old(self).spec_last_stamp(), time_stamp),
                )
                &&& time.spec_tick_number() == final(self).spec_tick_number()
            },
    {
        let mut delta: i32;

        if self.last_tick_time_stamp == i32::MIN {
            self.last_tick_time_stamp = time_stamp;
            delta = TARGET_SLEEP as i32;
        } else {
            delta = time_stamp.wrapping_sub(self.last_tick_time_stamp);
            if delta < MAX_DELTA_OVERFLOW_DISTANCE {
                delta = (MAX_TICKS_PER_FRAME * TARGET_SLEEP) as i32;
            }
        }

        if delta <= 0 {
            return None;
        }
        let mut ticks: u32 = delta as u32 / TARGET_SLEEP as u32;

        if ticks > MAX_TICKS_PER_FRAME as u32 {
            ticks = MAX_TICKS_PER_FRAME as u32;
            self.last_tick_time_stamp = time_stamp;
        } else {
            self.last_tick_time_stamp = self.last_tick_time_stamp.wrapping_add(
                ticks as i32 * TARGET_SLEEP as i32,
            );
        }

        if ticks == 0 {
            return None;
        }
        self.tick_number = self.tick_number.wrapping_add(ticks);

        Some(Time { ticks, tick_number: self.tick_number })
    }
}

} // verus!
