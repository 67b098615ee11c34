//! The node's time source: wall time, or simulated time when configured.

use crate::msgs::Time;
use crate::simtime::SimTime;
use vstd::prelude::*;

verus! {

/// The clock a node reads when stamping messages or answering `now`.
pub struct Clock {
    /// The simulated-time holder, present exactly when `/use_sim_time`
    /// was set at initialisation.
    pub sim_time: Option<SimTime>,
}

/// Relies on std::time::SystemTime::now and duration_since: the wall
/// clock reading since the epoch, of which nothing further is promised;
/// `None` when the clock is before the epoch or out of range.
#[verifier::external_body]
fn wall_clock_now() -> (r: Option<Time>) {
    let d = std::time::SystemTime::now().duration_since(std::time::SystemTime::UNIX_EPOCH).ok()?;
    let sec: u32 = d.as_secs().try_into().ok()?;
    Some(Time { sec, nsec: d.subsec_nanos() })
}

impl Clock {
    /// A clock that follows the wall clock.
    pub fn wall() -> (r: Clock)
        ensures
            r.sim_time is None,
    {
        Clock { sim_time: None }
    }

    /// A clock that follows the `/clock` topic.
    pub fn simulated() -> (r: Clock)
        ensures
            r.sim_time matches Some(s) && s.last_clock_msg is None,
    {
        Clock { sim_time: Some(SimTime::new()) }
    }

    /// Returns true if the node is using simulated time.
    pub fn is_using_sim_time(&self) -> (r: bool)
        ensures
            r == (self.sim_time is Some),
    {
        match &self.sim_time {
            Some(_) => true,
            None => false,
        }
    }

    /// Records a value received on the clock topic; without simulated
    /// time there is nothing to record.
    pub fn record_clock(&mut self, clock: Time)
        ensures
            old(self).sim_time is Some ==> (final(self).sim_time matches Some(s)
                && s.last_clock_msg == Some(clock)),
            old(self).sim_time is None ==> *final(self) == *old(self),
    {
        match &mut self.sim_time {
            Some(sim_time) => sim_time.record_clock(clock),
            None => (),
        }
    }

    /// Returns `now`: under simulated time the last received clock value,
    /// or `None` while none has arrived; otherwise the wall clock.
    pub fn now(&self) -> (r: Option<Time>)
        ensures
            self.sim_time matches Some(s) ==> r == s.last_clock_msg,
    {
        match &self.sim_time {
            Some(sim_time) => sim_time.now(),
            None => wall_clock_now(),
        }
    }
}

} // verus!
