use vid_v2::clock::{ClockTime, FrameRate, FrameTime, NANOS_PER_SECOND};

#[test]
fn step_back_five_frames_at_the_default_rate() {
    let start = ClockTime::from_nseconds(NANOS_PER_SECOND);
    let target = start.step_back(5, FrameTime { numer: 1, denom: 30 });
    assert_eq!(target.nseconds(), 833_333_333);
    let seconds = target.nseconds() as f64 / 1e9;
    assert!((seconds - 0.8333).abs() < 1e-4);
}

#[test]
fn step_back_is_exact_where_frames_divide_the_second() {
    let start = ClockTime::from_nseconds(2 * NANOS_PER_SECOND);
    let target = start.step_back(25, FrameTime { numer: 1, denom: 25 });
    assert_eq!(target.nseconds(), NANOS_PER_SECOND);
    let target = start.step_back(1, FrameTime { numer: 1001, denom: 30000 });
    assert_eq!(target.nseconds(), 2_000_000_000 - 33_366_667);
}

#[test]
fn step_back_stops_at_zero() {
    let start = ClockTime::from_nseconds(100_000_000);
    assert_eq!(start.step_back(30, FrameTime { numer: 1, denom: 30 }).nseconds(), 0);
    assert_eq!(start.step_back(3, FrameTime { numer: 1, denom: 30 }).nseconds(), 0);
    assert_eq!(start.step_back(2, FrameTime { numer: 1, denom: 30 }).nseconds(), 33_333_333);
    assert_eq!(ClockTime::zero().step_back(1, FrameTime { numer: 1, denom: 30 }).nseconds(), 0);
}

#[test]
fn step_back_over_an_unbounded_frame_time_lands_on_zero() {
    let start = ClockTime::from_nseconds(5 * NANOS_PER_SECOND);
    assert_eq!(start.step_back(1, FrameTime { numer: 1, denom: 0 }).nseconds(), 0);
    assert_eq!(start.step_back(1, FrameTime { numer: 0, denom: 0 }).nseconds(), 0);
}

#[test]
fn step_back_of_no_time_stays() {
    let start = ClockTime::from_nseconds(5 * NANOS_PER_SECOND);
    assert_eq!(start.step_back(7, FrameTime { numer: 0, denom: 30 }), start);
    assert_eq!(start.step_back(0, FrameTime { numer: 1, denom: 30 }), start);
}

#[test]
fn step_back_with_the_largest_values_does_not_overflow() {
    let start = ClockTime::from_nseconds(u64::MAX);
    let ft = FrameTime { numer: u32::MAX, denom: u32::MAX };
    assert_eq!(start.step_back(1, ft).nseconds(), u64::MAX - NANOS_PER_SECOND);
    assert_eq!(start.step_back(u32::MAX, FrameTime { numer: u32::MAX, denom: 1 }).nseconds(), 0);
}

#[test]
fn seconds_become_nanoseconds() {
    assert_eq!(ClockTime::from_seconds(0), Some(ClockTime::zero()));
    assert_eq!(ClockTime::from_seconds(5), Some(ClockTime { nanos: 5_000_000_000 }));
    assert_eq!(
        ClockTime::from_seconds(18_446_744_073),
        Some(ClockTime { nanos: 18_446_744_073_000_000_000 })
    );
    assert_eq!(ClockTime::from_seconds(18_446_744_074), None);
    assert_eq!(ClockTime::from_seconds(u64::MAX), None);
}

#[test]
fn frame_time_is_the_rate_upside_down() {
    let rate = FrameRate { numer: 30000, denom: 1001 };
    assert_eq!(rate.frame_time(), FrameTime { numer: 1001, denom: 30000 });
    let none = FrameRate { numer: 0, denom: 1 };
    assert_eq!(none.frame_time(), FrameTime { numer: 1, denom: 0 });
}
