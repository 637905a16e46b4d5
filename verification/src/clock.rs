//! Pipeline time in whole nanoseconds, frame rates, and frame-step arithmetic.

use vstd::prelude::*;

verus! {

/// Nanoseconds in one second.
pub const NANOS_PER_SECOND: u64 = 1_000_000_000;

/// A position on the pipeline clock, or a span of it, in nanoseconds.
#[derive(Clone, Copy, Debug, PartialEq, Eq, Structural)]
pub struct ClockTime {
    pub nanos: u64,
}

/// Frames per second as a ratio. A zero numerator stands for a stream
/// without a fixed rate.
#[derive(Clone, Copy, Debug, PartialEq, Eq, Structural)]
pub struct FrameRate {
    pub numer: u32,
    pub denom: u32,
}

/// The time one frame is shown, in seconds, as the ratio `numer / denom`.
/// A zero denominator stands for a frame time without bound.
#[derive(Clone, Copy, Debug, PartialEq, Eq, Structural)]
pub struct FrameTime {
    pub numer: u32,
    pub denom: u32,
}

/// Frame time assumed until a frame has told the real rate: 1/30 s.
pub open spec fn default_frame_time() -> FrameTime {
    FrameTime { numer: 1, denom: 30 }
}

/// Numerator, over `ft.denom`, of the exact instant `frames` frames before
/// `start`, in nanoseconds. Negative when the step reaches before zero.
pub open spec fn step_back_numerator(start: ClockTime, frames: nat, ft: FrameTime) -> int {
    start.nanos * ft.denom - frames * ft.numer * NANOS_PER_SECOND
}

/// Where a step of `frames` frames back from `start` lands:
/// `max(0, start - frames * ft)`, cut to whole nanoseconds.
pub open spec fn step_back_target(start: ClockTime, frames: nat, ft: FrameTime) -> ClockTime {
    if ft.denom == 0 || step_back_numerator(start, frames, ft) <= 0 {
        ClockTime { nanos: 0 }
    } else {
        ClockTime { nanos: (step_back_numerator(start, frames, ft) / (ft.denom as int)) as u64 }
    }
}

impl ClockTime {
    /// The start of the clock.
    pub fn zero() -> (t: ClockTime)
        ensures
            t.nanos == 0,
    {
        ClockTime { nanos: 0 }
    }

    pub fn from_nseconds(nanos: u64) -> (t: ClockTime)
        ensures
            t.nanos == nanos,
    {
        ClockTime { nanos }
    }

    pub fn nseconds(&self) -> (n: u64)
        ensures
            n == self.nanos,
    {
        self.nanos
    }

    /// Whole seconds as a time; `None` where they do not fit.
    pub fn from_seconds(seconds: u64) -> (t: Option<ClockTime>)
        ensures
            seconds * NANOS_PER_SECOND <= u64::MAX ==> t == Some(
                ClockTime { nanos: (seconds * NANOS_PER_SECOND) as u64 },
            ),
            seconds * NANOS_PER_SECOND > u64::MAX ==> t.is_none(),
    {
        match seconds.checked_mul(NANOS_PER_SECOND) {
            Some(nanos) => Some(ClockTime { nanos }),
            None => None,
        }
    }

    /// The instant `frames` frames of `ft` before `self`, never before zero.
    pub fn step_back(&self, frames: u32, ft: FrameTime) -> (t: ClockTime)
        ensures
            t == step_back_target(*self, frames as nat, ft),
            t.nanos <= self.nanos,
    {
        if ft.denom == 0 {
            return ClockTime { nanos: 0 };
        }
        let denom: u128 = ft.denom as u128;
        let numer: u128 = ft.numer as u128;
        let count: u128 = frames as u128;
        let giga: u128 = NANOS_PER_SECOND as u128;
        let start: u128 = self.nanos as u128;
        assert(start * denom <= 0xffff_ffff_ffff_ffff * 0xffff_ffff) by (nonlinear_arith)
            requires
                start <= 0xffff_ffff_ffff_ffff,
                denom <= 0xffff_ffff,
        ;
        assert(count * numer <= 0xffff_ffff * 0xffff_ffff) by (nonlinear_arith)
            requires
                count <= 0xffff_ffff,
                numer <= 0xffff_ffff,
        ;
        let have: u128 = start * denom;
        let per_frames: u128 = count * numer;
        assert(per_frames * giga <= 0xffff_ffff * 0xffff_ffff * 1_000_000_000) by (nonlinear_arith)
            requires
                per_frames <= 0xffff_ffff * 0xffff_ffff,
                giga == 1_000_000_000,
        ;
        let back: u128 = per_frames * giga;
        if back >= have {
            return ClockTime { nanos: 0 };
        }
        let whole: u128 = (have - back) / denom;
        proof {
            let diff: int = have - back;
            let d: int = denom as int;
            assert(diff == step_back_numerator(*self, frames as nat, ft)) by (nonlinear_arith)
                requires
                    diff == start * denom - count * numer * giga,
                    start == self.nanos,
                    denom == ft.denom,
                    count == frames,
                    numer == ft.numer,
                    giga == NANOS_PER_SECOND,
            ;
            assert(diff / d <= start) by (nonlinear_arith)
                requires
                    0 < d,
                    0 <= diff <= start * d,
            ;
        }
        ClockTime { nanos: whole as u64 }
    }
}

impl FrameRate {
    /// The time one frame of this rate lasts: the rate turned upside down.
    pub fn frame_time(&self) -> (ft: FrameTime)
        ensures
            ft.numer == self.denom,
            ft.denom == self.numer,
    {
        FrameTime { numer: self.denom, denom: self.numer }
    }
}

/// A step back lands on the last whole nanosecond that is not after the exact
/// instant `start - frames * ft`, and on zero where that instant is not after
/// zero.
pub proof fn lemma_step_back_is_floor(start: ClockTime, frames: nat, ft: FrameTime)
    requires
        ft.denom > 0,
    ensures
        step_back_numerator(start, frames, ft) <= 0 ==> step_back_target(start, frames, ft).nanos
            == 0,
        step_back_numerator(start, frames, ft) > 0 ==> {
            let t = step_back_target(start, frames, ft).nanos;
            &&& t * ft.denom <= step_back_numerator(start, frames, ft)
            &&& step_back_numerator(start, frames, ft) < (t + 1) * ft.denom
        },
{
    let x = step_back_numerator(start, frames, ft);
    let d = ft.denom as int;
    if x > 0 {
        assert(x <= start.nanos * d) by (nonlinear_arith)
            requires
                x == start.nanos * d - frames * ft.numer * NANOS_PER_SECOND,
                d > 0,
        ;
        assert(0 <= x / d <= start.nanos && (x / d) * d <= x < (x / d + 1) * d)
            by (nonlinear_arith)
            requires
                0 < d,
                0 < x <= start.nanos * d,
        ;
    }
}

/// A step back never lands after where it began.
pub proof fn lemma_step_back_not_after_start(start: ClockTime, frames: nat, ft: FrameTime)
    ensures
        step_back_target(start, frames, ft).nanos <= start.nanos,
{
    if ft.denom > 0 {
        lemma_step_back_is_floor(start, frames, ft);
        let x = step_back_numerator(start, frames, ft);
        let d = ft.denom as int;
        let t = step_back_target(start, frames, ft).nanos as int;
        if x > 0 {
            assert(t <= start.nanos) by (nonlinear_arith)
                requires
                    d > 0,
                    t * d <= x,
                    x <= start.nanos * d,
            ;
        }
    }
}

} // verus!
