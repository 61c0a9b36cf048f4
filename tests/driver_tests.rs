use window_host::driver::{first_deadline, next_deadline, WakeCause, FRAME_MILLIS};

#[test]
fn reached_deadline_schedules_the_next_frame() {
    assert_eq!(FRAME_MILLIS, 16);
    assert_eq!(next_deadline(WakeCause::ResumeTimeReached, 100, 100), 116);
    assert_eq!(next_deadline(WakeCause::ResumeTimeReached, u64::MAX - 3, 0), u64::MAX);
    assert_eq!(first_deadline(0), 16);
}

#[test]
fn early_wake_keeps_the_requested_deadline() {
    let cause = WakeCause::WaitCancelled { requested_resume: Some(250) };
    assert_eq!(next_deadline(cause, 240, 250), 250);
    let none = WakeCause::WaitCancelled { requested_resume: None };
    assert_eq!(next_deadline(none, 240, 260), 260);
    assert_eq!(next_deadline(WakeCause::Poll, 240, 270), 270);
    assert_eq!(next_deadline(WakeCause::Init, 0, 16), 16);
}
