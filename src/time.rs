use vstd::prelude::*;

verus! {

/// Nanoseconds in one second.
pub const NANOS_PER_SEC: u64 = 1_000_000_000;

/// Frame clock and frames-per-second window. Instants are nanoseconds on a
/// monotonic clock; durations are nanoseconds.
#[derive(Clone, Copy, Debug, PartialEq, Eq, Structural)]
pub struct Time {
    pub last_frame: u64,
    pub last_fps_check: u64,
    pub fps_update_duration: u64,
    pub frame_since_last_fps_check: u32,
    pub start_time: u64,
    pub render_ticks: usize,
}

/// One frames-per-second report: `frames` displayed over a window of
/// `interval_ns` nanoseconds.
#[derive(Clone, Copy, Debug, PartialEq, Eq, Structural)]
pub struct FPSData {
    pub frames: u32,
    pub interval_ns: u64,
}

/// Time from `from` to `to`, or zero when `to` is earlier.
pub open spec fn elapsed_between(from: u64, to: u64) -> int {
    if to >= from {
        to - from
    } else {
        0
    }
}

impl FPSData {
    pub open spec fn valid(self) -> bool {
        self.interval_ns > 0
    }

    /// Frames per second, in thousandths, rounded down.
    pub open spec fn fps_milli(self) -> int {
        (self.frames as int * 1_000_000_000_000) / self.interval_ns as int
    }

    /// Frames per second, in thousandths, rounded down.
    pub fn render_fps_milli(&self) -> (r: u128)
        requires
            self.valid(),
        ensures
            r == self.fps_milli(),
    {
        self.frames as u128 * 1_000_000_000_000u128 / self.interval_ns as u128
    }
}

impl Time {
    pub open spec fn valid(self) -> bool {
        self.fps_update_duration > 0
    }

    /// The state after a frame is displayed at `now`. The frame count stops at
    /// its largest value rather than wrapping.
    pub open spec fn after_render_tick(self, now: u64) -> Time {
        Time {
            last_frame: now,
            frame_since_last_fps_check: if self.frame_since_last_fps_check < u32::MAX {
                (self.frame_since_last_fps_check + 1) as u32
            } else {
                u32::MAX
            },
            render_ticks: (self.render_ticks + 1) as usize,
            ..self
        }
    }

    /// The state and report of an FPS query at `now`: a report is due once more
    /// than the reporting interval has passed since the last one.
    pub open spec fn after_get_fps(self, now: u64) -> (Time, Option<FPSData>) {
        if elapsed_between(self.last_fps_check, now) > self.fps_update_duration {
            (
                Time { frame_since_last_fps_check: 0, last_fps_check: now, ..self },
                Some(FPSData { frames: self.frame_since_last_fps_check, interval_ns: self.fps_update_duration }),
            )
        } else {
            (self, None)
        }
    }

    /// A clock started at `now` that reports every `fps_update_duration`
    /// nanoseconds; none for an empty reporting interval.
    pub fn new(fps_update_duration: u64, now: u64) -> (r: Option<Time>)
        ensures
            r is None <==> fps_update_duration == 0,
            r matches Some(t) ==> t.valid() && t == (Time {
                last_frame: now,
                last_fps_check: now,
                fps_update_duration,
                frame_since_last_fps_check: 0,
                start_time: now,
                render_ticks: 0,
            }),
    {
        if fps_update_duration == 0 {
            return None;
        }
        Some(Time {
            last_frame: now,
            last_fps_check: now,
            fps_update_duration: fps_update_duration,
            frame_since_last_fps_check: 0,
            start_time: now,
            render_ticks: 0,
        })
    }

    /// Time since the clock started.
    pub fn get_elapsed(&self, now: u64) -> (r: u64)
        ensures
            r == elapsed_between(self.start_time, now),
    {
        now.saturating_sub(self.start_time)
    }

    /// Returns a report, and starts a new window, once more than the reporting
    /// interval has passed since the last report; returns None before that.
    pub fn get_fps(&mut self, now: u64) -> (r: Option<FPSData>)
        ensures
            (*final(self), r) == old(self).after_get_fps(now),
            old(self).valid() ==> final(self).valid(),
            r matches Some(d) ==> old(self).valid() ==> d.valid(),
    {
        let elapsed = now.saturating_sub(self.last_fps_check);
        if elapsed > self.fps_update_duration {
            let fps = FPSData { frames: self.frame_since_last_fps_check, interval_ns: self.fps_update_duration };
            self.frame_since_last_fps_check = 0;
            self.last_fps_check = now;
            return Some(fps);
        }
        None
    }

    /// Records a displayed frame at `now`.
    pub fn render_tick(&mut self, now: u64)
        requires
            old(self).render_ticks < usize::MAX,
        ensures
            *final(self) == old(self).after_render_tick(now),
    {
        self.last_frame = now;
        self.frame_since_last_fps_check = self.frame_since_last_fps_check.saturating_add(1);
        self.render_ticks += 1;
    }

    pub fn render_ticks(&self) -> (r: usize)
        ensures
            r == self.render_ticks,
    {
        self.render_ticks
    }
}

/// The clock after a frame is displayed at each instant of `times`, in order.
pub open spec fn after_frames(t: Time, times: Seq<u64>) -> Time
    decreases times.len(),
{
    if times.len() == 0 {
        t
    } else {
        after_frames(t, times.drop_last()).after_render_tick(times.last())
    }
}

proof fn lemma_frames_counted(t: Time, times: Seq<u64>)
    requires
        t.frame_since_last_fps_check == 0,
        times.len() < u32::MAX,
        t.render_ticks + times.len() <= usize::MAX,
    ensures
        after_frames(t, times).frame_since_last_fps_check == times.len(),
        after_frames(t, times).last_fps_check == t.last_fps_check,
        after_frames(t, times).fps_update_duration == t.fps_update_duration,
        after_frames(t, times).render_ticks == t.render_ticks + times.len(),
    decreases times.len(),
{
    if times.len() > 0 {
        lemma_frames_counted(t, times.drop_last());
    }
}

/// With a one-second reporting interval, `N` frames displayed after a report and
/// a query made more than a second after that report give a report of exactly
/// `N` frames per second, and the frame count starts again from zero.
pub proof fn lemma_fps_report(t: Time, times: Seq<u64>, now: u64)
    requires
        t.fps_update_duration == NANOS_PER_SEC,
        t.frame_since_last_fps_check == 0,
        times.len() < u32::MAX,
        t.render_ticks + times.len() <= usize::MAX,
        elapsed_between(t.last_fps_check, now) > NANOS_PER_SEC,
    ensures
        ({
            let (next, report) = after_frames(t, times).after_get_fps(now);
            &&& report == Some(FPSData { frames: times.len() as u32, interval_ns: NANOS_PER_SEC })
            &&& report.unwrap().fps_milli() == times.len() * 1000
            &&& next.frame_since_last_fps_check == 0
            &&& next.last_fps_check == now
        }),
{
    lemma_frames_counted(t, times);
    let n = times.len() as int;
    assert((n * 1_000_000_000_000) / 1_000_000_000 == n * 1000) by (nonlinear_arith)
        requires
            n >= 0,
    ;
}

} // verus!
