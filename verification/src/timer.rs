//! The periodic timer.

use vstd::prelude::*;

verus! {

/// The fixed period of the control loop, in time units. The output line
/// changes level once per period, so one full high-and-low cycle takes two.
pub const PERIOD: u32 = 500;

/// What a [`PeriodicTimer`] stands for.
pub struct TimerState {
    /// The period that the counter was started with, in time units.
    pub period: u32,
    /// Whether the counter runs.
    pub counting: bool,
    /// Whether an expiry raises an interrupt.
    pub listening: bool,
    /// Whether an expiry has been flagged and not yet acknowledged.
    pub pending: bool,
}

/// Exclusive handle on one hardware timer channel.
///
/// The handle records how the channel was set up and whether its
/// interrupt-pending flag is raised.
#[derive(Debug)]
pub struct PeriodicTimer {
    period: u32,
    counting: bool,
    listening: bool,
    pending: bool,
}

impl View for PeriodicTimer {
    type V = TimerState;

    closed spec fn view(&self) -> TimerState {
        TimerState {
            period: self.period,
            counting: self.counting,
            listening: self.listening,
            pending: self.pending,
        }
    }
}

impl PeriodicTimer {
    /// A new handle on a channel that is stopped, raises no interrupt and has
    /// nothing pending.
    pub fn new() -> (timer: PeriodicTimer)
        ensures
            timer@ == (TimerState { period: 0, counting: false, listening: false, pending: false }),
    {
        PeriodicTimer { period: 0, counting: false, listening: false, pending: false }
    }

    /// Starts the counter with the given period. Starting lowers a flag that
    /// was still raised; whether expiries raise an interrupt is left as it was.
    pub fn start(&mut self, period: u32)
        ensures
            final(self)@ == (TimerState { period, counting: true, pending: false, ..old(self)@ }),
    {
        self.period = period;
        self.counting = true;
        self.pending = false;
    }

    /// Lets every expiry raise an interrupt.
    pub fn listen(&mut self)
        ensures
            final(self)@ == (TimerState { listening: true, ..old(self)@ }),
    {
        self.listening = true;
    }

    /// Takes note that the period has run out. A running counter raises its
    /// pending flag; a stopped one cannot expire, and nothing changes.
    pub fn expire(&mut self)
        ensures
            final(self)@ == old(self)@.expired(),
    {
        if self.counting {
            self.pending = true;
        }
    }

    /// Acknowledges the expiry: lowers the pending flag.
    pub fn clear_irq(&mut self)
        ensures
            final(self)@ == (TimerState { pending: false, ..old(self)@ }),
    {
        self.pending = false;
    }

    /// The period that the counter was started with.
    pub fn period(&self) -> (period: u32)
        ensures
            period == self@.period,
    {
        self.period
    }

    /// Whether the counter runs.
    pub fn is_counting(&self) -> (counting: bool)
        ensures
            counting == self@.counting,
    {
        self.counting
    }

    /// Whether an expiry raises an interrupt.
    pub fn is_listening(&self) -> (listening: bool)
        ensures
            listening == self@.listening,
    {
        self.listening
    }

    /// Whether an expiry is flagged and not yet acknowledged.
    pub fn is_pending(&self) -> (pending: bool)
        ensures
            pending == self@.pending,
    {
        self.pending
    }
}

impl TimerState {
    /// The state after the period has run out once more.
    pub open spec fn expired(self) -> TimerState {
        TimerState { pending: self.pending || self.counting, ..self }
    }

    /// Whether the interrupt line of the channel is asserted: an expiry is
    /// pending and expiries raise an interrupt.
    pub open spec fn interrupting(self) -> bool {
        self.pending && self.listening
    }
}

} // verus!
