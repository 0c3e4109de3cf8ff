//! The decisions of a timer future: when to start the runtime's timer, when the
//! future is ready, and which timer to cancel when it is dropped.
//!
//! The caller performs the actions: it starts the timer with the runtime, hands
//! back the timer's id, and clears the timer that `on_drop` names.

use vstd::prelude::*;

verus! {

/// What a poll of the timer future asks of its caller.
#[derive(Debug, Clone, Copy, PartialEq, Eq, Structural)]
pub enum DelayAction {
    /// Start a runtime timer firing after this many milliseconds and wake the
    /// task then; the future is pending.
    Arm { timeout_ms: u32 },
    /// The future is complete.
    Ready,
}

/// A timer future that completes once its duration has passed.
#[derive(Debug)]
pub struct Delay {
    duration_ms: u128,
    armed: bool,
    timeout_id: Option<u32>,
}

/// The model of a timer future: its duration, whether its timer was started,
/// and the id of that timer once known.
pub struct DelayView {
    pub duration_ms: u128,
    pub armed: bool,
    pub timeout_id: Option<u32>,
}

impl View for Delay {
    type V = DelayView;

    closed spec fn view(&self) -> DelayView {
        DelayView { duration_ms: self.duration_ms, armed: self.armed, timeout_id: self.timeout_id }
    }
}

impl Delay {
    /// A timer future for a duration of `duration_ms` milliseconds, not started.
    pub fn from_millis(duration_ms: u128) -> (d: Self)
        ensures
            d@ == (DelayView { duration_ms, armed: false, timeout_id: None }),
    {
        Delay { duration_ms, armed: false, timeout_id: None }
    }

    /// Polls the future: the first poll starts the timer, with the duration in
    /// milliseconds cut to 32 bits as the runtime takes it, and is pending; every
    /// later poll finds the future complete.
    pub fn poll(&mut self) -> (a: DelayAction)
        ensures
            (a, final(self)@) == poll_step(old(self)@),
    {
        if self.armed {
            DelayAction::Ready
        } else {
            self.armed = true;
            DelayAction::Arm { timeout_ms: self.duration_ms as u32 }
        }
    }

    /// Records the id of the timer that the runtime started.
    pub fn timer_started(&mut self, timeout_id: u32)
        ensures
            final(self)@ == (DelayView { timeout_id: Some(timeout_id), ..old(self)@ }),
    {
        self.timeout_id = Some(timeout_id);
    }

    /// The timer to clear when the future is dropped, if one was started.
    pub fn on_drop(&self) -> (t: Option<u32>)
        ensures
            t == self@.timeout_id,
    {
        self.timeout_id
    }
}

/// One poll of a timer future: the action asked of the caller and the state after.
pub open spec fn poll_step(d: DelayView) -> (DelayAction, DelayView) {
    if d.armed {
        (DelayAction::Ready, d)
    } else {
        (DelayAction::Arm { timeout_ms: d.duration_ms as u32 }, DelayView { armed: true, ..d })
    }
}

/// A new timer future is pending exactly once: its first poll starts a timer for
/// its duration, and every poll after that, whatever timer id was recorded in
/// between, finds it complete.
pub proof fn lemma_pending_once(duration_ms: u128, timeout_id: Option<u32>)
    ensures
        ({
            let (first, after) = poll_step(DelayView { duration_ms, armed: false, timeout_id: None });
            &&& first == (DelayAction::Arm { timeout_ms: duration_ms as u32 })
            &&& poll_step(DelayView { timeout_id, ..after }).0 == DelayAction::Ready
            &&& poll_step(poll_step(DelayView { timeout_id, ..after }).1).0 == DelayAction::Ready
        }),
{
}

} // verus!
