//! Simulated time.
//!
//! When `/use_sim_time` is set, the node follows the `/clock` topic
//! instead of the wall clock: the holder keeps the single most recent
//! clock value, and `now` is undefined until the first one arrives.

use crate::msgs::{Duration, Time};
use vstd::prelude::*;

verus! {

/// Holds the last value received on the clock topic.
#[derive(Debug)]
pub struct SimTime {
    /// The most recent clock reading, `None` until one has arrived.
    pub last_clock_msg: Option<Time>,
}

impl SimTime {
    /// A holder that has seen no clock value yet.
    pub fn new() -> (r: SimTime)
        ensures
            r.last_clock_msg is None,
    {
        SimTime { last_clock_msg: None }
    }

    /// Records a value received on the clock topic, replacing any earlier
    /// one.
    pub fn record_clock(&mut self, clock: Time)
        ensures
            final(self).last_clock_msg == Some(clock),
    {
        self.last_clock_msg = Some(clock);
    }

    /// Returns the last received time, or `None` if no clock value has
    /// arrived yet.
    pub fn now(&self) -> (r: Option<Time>)
        ensures
            r == self.last_clock_msg,
    {
        self.last_clock_msg
    }

    /// Returns the last received time as a span since the epoch, or
    /// `None` if no clock value has arrived yet.
    pub fn duration(&self) -> (r: Option<Duration>)
        ensures
            match self.last_clock_msg {
                Some(t) => r == Some(Duration { sec: t.sec, nsec: t.nsec }),
                None => r is None,
            },
    {
        match self.last_clock_msg {
            Some(t) => Some(Duration::since_epoch(t)),
            None => None,
        }
    }
}

} // verus!
