//! Bounded speed-sample history for the debug overlay.
//!
//! The overlay plots the player's effective speed over time.  To keep the
//! plot readable and the memory bounded, samples are taken at most once per
//! sampling interval, and only the newest `capacity` samples are kept: a new
//! sample past the capacity pushes the oldest one out.

use vstd::prelude::*;

use crate::fixed::DT_LIMIT;

verus! {

/// Longest admissible sampling interval, in milliseconds (one hour).
pub const INTERVAL_LIMIT: u64 = 3_600_000;

/// A capacity-bounded, interval-gated history of speed samples
/// (milli-units per second).
#[derive(Clone, PartialEq, Eq, Debug)]
pub struct SpeedHistory {
    /// Kept samples, oldest first.
    pub samples: Vec<i64>,
    /// Time since the last kept sample, in milliseconds.
    pub time_since_last: u64,
    /// Minimum time between kept samples, in milliseconds.
    pub interval: u64,
    /// Largest number of samples kept.
    pub capacity: usize,
}

/// A sample recorded into a bounded history: appended, with the oldest
/// sample dropped when the capacity would be exceeded.
pub open spec fn recorded(s: Seq<i64>, sample: i64, capacity: int) -> Seq<i64> {
    let grown = s.push(sample);
    if grown.len() > capacity {
        grown.remove(0)
    } else {
        grown
    }
}

impl SpeedHistory {
    /// Well-formed history: a positive capacity that the samples respect, a
    /// bounded interval, and an accumulator that cannot overflow.
    pub open spec fn wf(self) -> bool {
        &&& 1 <= self.capacity
        &&& self.samples@.len() <= self.capacity
        &&& self.interval <= INTERVAL_LIMIT
        &&& self.time_since_last <= self.interval + DT_LIMIT
    }

    /// An empty history.  Returns `None` exactly when the capacity is zero
    /// or the interval is out of range.
    pub fn new(interval: u64, capacity: usize) -> (r: Option<SpeedHistory>)
        ensures
            r is Some <==> (1 <= capacity && interval <= INTERVAL_LIMIT),
            r matches Some(h) ==> {
                &&& h.wf()
                &&& h.samples@ == Seq::<i64>::empty()
                &&& h.time_since_last == 0
                &&& h.interval == interval
                &&& h.capacity == capacity
            },
    {
        if 1 <= capacity && interval <= INTERVAL_LIMIT {
            let samples: Vec<i64> = Vec::new();
            assert(samples@ =~= Seq::<i64>::empty());
            Some(SpeedHistory { samples, time_since_last: 0, interval, capacity })
        } else {
            None
        }
    }

    /// Offers one frame's speed sample: kept — and the accumulator reset —
    /// only when more than one interval has passed since the last kept
    /// sample; otherwise the frame time just accumulates.
    pub fn log(&mut self, speed: i64, dt: u64)
        requires
            old(self).wf(),
            dt <= DT_LIMIT,
        ensures
            final(self).wf(),
            final(self).interval == old(self).interval,
            final(self).capacity == old(self).capacity,
            old(self).time_since_last > old(self).interval ==> {
                &&& final(self).time_since_last == 0
                &&& final(self).samples@ == recorded(
                    old(self).samples@,
                    speed,
                    old(self).capacity as int,
                )
            },
            old(self).time_since_last <= old(self).interval ==> {
                &&& final(self).time_since_last == old(self).time_since_last + dt
                &&& final(self).samples@ == old(self).samples@
            },
    {
        if self.time_since_last > self.interval {
            self.time_since_last = 0;
            self.samples.push(speed);
            if self.samples.len() > self.capacity {
                self.samples.remove(0);
            }
        } else {
            self.time_since_last = self.time_since_last + dt;
        }
    }
}

} // verus!
