//! The timers of one connection.
use vstd::prelude::*;
use crate::time::Timestamp;

verus! {

/// A timer that holds at most one deadline. Whether it fired is seen by
/// comparing the current time with the deadline.
#[derive(Clone, Copy, Debug)]
pub struct VirtualTimer {
    expiration: Option<Timestamp>,
}

/// The deadline of an armed timer, or nothing.
pub open spec fn armed(deadline: Option<Timestamp>) -> Seq<Timestamp> {
    match deadline {
        Some(t) => seq![t],
        None => Seq::empty(),
    }
}

impl VirtualTimer {
    pub closed spec fn deadline(self) -> Option<Timestamp> {
        self.expiration
    }

    /// A timer without a deadline.
    pub fn new() -> (r: VirtualTimer)
        ensures
            r.deadline().is_none(),
    {
        VirtualTimer { expiration: None }
    }

    /// Arms the timer for `time`, in place of any earlier deadline.
    pub fn set(&mut self, time: Timestamp)
        ensures
            final(self).deadline() == Some(time),
    {
        self.expiration = Some(time);
    }

    /// Disarms the timer.
    pub fn cancel(&mut self)
        ensures
            final(self).deadline().is_none(),
    {
        self.expiration = None;
    }

    /// Whether the timer holds a deadline.
    pub fn is_armed(&self) -> (r: bool)
        ensures
            r == self.deadline().is_some(),
    {
        self.expiration.is_some()
    }

    /// The deadline, if the timer is armed.
    pub fn expiration(&self) -> (r: Option<Timestamp>)
        ensures
            r == self.deadline(),
    {
        self.expiration
    }
}

impl Default for VirtualTimer {
    fn default() -> (r: VirtualTimer)
        ensures
            r.deadline().is_none(),
    {
        VirtualTimer::new()
    }
}

/// Stores connection-level timer state.
#[derive(Clone, Copy, Debug)]
pub struct ConnectionTimers {
    /// The timer which is used for closing/draining
    pub close_timer: VirtualTimer,
    /// The timer which is used to check peer idle times
    pub peer_idle_timer: VirtualTimer,
    /// The timer which is used to send packets to the peer before the idle
    /// timeout expires
    pub local_idle_timer: VirtualTimer,
}

impl ConnectionTimers {
    /// The deadlines of the armed timers: close, peer idle, local idle.
    pub open spec fn armed_deadlines(self) -> Seq<Timestamp> {
        armed(self.close_timer.deadline()) + armed(self.peer_idle_timer.deadline()) + armed(
            self.local_idle_timer.deadline(),
        )
    }

    /// Returns the deadlines of the currently armed timers, in the order
    /// close, peer idle, local idle; unarmed timers are skipped.
    pub fn iter(&self) -> (r: Vec<Timestamp>)
        ensures
            r@ == self.armed_deadlines(),
    {
        let mut r: Vec<Timestamp> = Vec::new();
        if let Some(t) = self.close_timer.expiration() {
            r.push(t);
        }
        if let Some(t) = self.peer_idle_timer.expiration() {
            r.push(t);
        }
        if let Some(t) = self.local_idle_timer.expiration() {
            r.push(t);
        }
        assert(r@ =~= self.armed_deadlines());
        r
    }
}

impl Default for ConnectionTimers {
    fn default() -> (r: ConnectionTimers)
        ensures
            r.armed_deadlines().len() == 0,
    {
        ConnectionTimers {
            close_timer: VirtualTimer::new(),
            peer_idle_timer: VirtualTimer::new(),
            local_idle_timer: VirtualTimer::new(),
        }
    }
}

} // verus!
