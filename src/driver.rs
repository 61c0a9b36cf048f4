use vstd::prelude::*;

verus! {

/// Period of the native loop's wake cycle, in milliseconds: about one display
/// frame.
pub const FRAME_MILLIS: u64 = 16;

/// Why the native loop woke. Times are milliseconds on the loop's own clock.
#[derive(Clone, Copy, PartialEq, Eq, Structural, Debug)]
pub enum WakeCause {
    /// The deadline that the loop waited for has come.
    ResumeTimeReached,
    /// Native activity woke the loop before its deadline.
    WaitCancelled { requested_resume: Option<u64> },
    /// The loop is starting.
    Init,
    /// The loop was asked to poll.
    Poll,
}

/// The deadline the loop waits for next: a frame from now when the last one
/// was reached, the unchanged old deadline when input woke the loop early, and
/// otherwise the deadline already set.
pub open spec fn deadline_after(cause: WakeCause, now: u64, current: u64) -> u64 {
    match cause {
        WakeCause::ResumeTimeReached => if now <= u64::MAX - FRAME_MILLIS {
            (now + FRAME_MILLIS) as u64
        } else {
            u64::MAX
        },
        WakeCause::WaitCancelled { requested_resume } => match requested_resume {
            Some(t) => t,
            None => current,
        },
        _ => current,
    }
}

/// Decides the deadline of the next wake cycle.
pub fn next_deadline(cause: WakeCause, now: u64, current: u64) -> (r: u64)
    ensures
        r == deadline_after(cause, now, current),
{
    match cause {
        WakeCause::ResumeTimeReached => now.saturating_add(FRAME_MILLIS),
        WakeCause::WaitCancelled { requested_resume } => match requested_resume {
            Some(t) => t,
            None => current,
        },
        _ => current,
    }
}

/// The deadline of the first wake cycle: a frame after the loop starts.
pub fn first_deadline(now: u64) -> (r: u64)
    ensures
        r == deadline_after(WakeCause::ResumeTimeReached, now, now),
{
    now.saturating_add(FRAME_MILLIS)
}

} // verus!
