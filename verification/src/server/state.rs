//! Compositor bookkeeping that does not touch Wayland objects: telemetry
//! counters and the trivial tiling of committed surfaces.

use vstd::prelude::*;

use std::collections::HashMap;
use std::time::{Duration, Instant};

use crate::clock::{elapsed_nanos, instant_elapsed, instant_now};

verus! {

broadcast use vstd::std_specs::hash::group_hash_axioms;

/// Nanoseconds in one millisecond.
pub const NANOS_PER_MILLI: u128 = 1_000_000u128;

/// Inputs older than this (in nanoseconds) at the next commit are not paired with it.
pub const INPUT_LATENCY_LIMIT_NS: u128 = 5_000_000_000u128;

/// Length of the per-second rate window, in nanoseconds.
pub const RATE_WINDOW_NS: u128 = 1_000_000_000u128;

/// Server-side telemetry counters.
pub struct Telemetry {
    frames_total: u64,
    frames_this_second: u64,
    frame_bytes_total: u64,
    render_ns_this_second: u64,
    readback_ns_this_second: u64,
    commits_total: u64,
    input_events_total: u64,
    last_input_at: Option<Instant>,
    last_input_to_commit_ms: Option<u32>,
    errors_total: u64,
    second_start: Instant,
}

/// Mathematical value of [`Telemetry`]: its counters, and whether an input
/// is waiting to be paired with the next commit.
pub struct TelemetryV {
    pub frames_total: u64,
    pub frames_this_second: u64,
    pub frame_bytes_total: u64,
    pub render_ns_this_second: u64,
    pub readback_ns_this_second: u64,
    pub commits_total: u64,
    pub input_events_total: u64,
    pub input_pending: bool,
    pub last_input_to_commit_ms: Option<u32>,
    pub errors_total: u64,
}

impl View for Telemetry {
    type V = TelemetryV;

    closed spec fn view(&self) -> TelemetryV {
        TelemetryV {
            frames_total: self.frames_total,
            frames_this_second: self.frames_this_second,
            frame_bytes_total: self.frame_bytes_total,
            render_ns_this_second: self.render_ns_this_second,
            readback_ns_this_second: self.readback_ns_this_second,
            commits_total: self.commits_total,
            input_events_total: self.input_events_total,
            input_pending: self.last_input_at is Some,
            last_input_to_commit_ms: self.last_input_to_commit_ms,
            errors_total: self.errors_total,
        }
    }
}

/// A snapshot of telemetry for logging.
#[derive(Debug, Clone, Copy, PartialEq, Eq, Structural)]
pub struct TelemetrySnapshot {
    pub frames_per_sec: u64,
    pub frames_total: u64,
    pub frame_bytes_total: u64,
    pub render_ms: u64,
    pub readback_ms: u64,
    pub commits_total: u64,
    pub input_events_total: u64,
    pub last_input_to_commit_ms: Option<u32>,
    pub errors_total: u64,
}

/// The input-to-commit latency kept after a commit: the age of the pending
/// input in whole milliseconds when it is under 5 seconds old, else the
/// previous sample.
pub open spec fn latency_after(input_age_ns: Option<u128>, previous: Option<u32>) -> Option<u32> {
    match input_age_ns {
        Some(n) => if n < INPUT_LATENCY_LIMIT_NS {
            Some((n / NANOS_PER_MILLI) as u32)
        } else {
            previous
        },
        None => previous,
    }
}

/// The latency sample after a commit, given the age of the pending input
/// (if any) and the previous sample.
pub fn latency_after_commit(input_age_ns: Option<u128>, previous: Option<u32>) -> (r: Option<u32>)
    ensures
        r == latency_after(input_age_ns, previous),
{
    match input_age_ns {
        Some(n) => if n < INPUT_LATENCY_LIMIT_NS {
            Some((n / NANOS_PER_MILLI) as u32)
        } else {
            previous
        },
        None => previous,
    }
}

/// The per-second figures a snapshot publishes: when the window has run
/// a full second, the frame count and the render/readback time in whole
/// milliseconds; otherwise zeros.
pub open spec fn window_figures(window_age_ns: u128, frames: u64, render_ns: u64, readback_ns: u64) -> (u64, u64, u64) {
    if window_age_ns >= RATE_WINDOW_NS {
        (frames, render_ns / 1_000_000, readback_ns / 1_000_000)
    } else {
        (0, 0, 0)
    }
}

/// Compute the per-second figures for a rate window of the given age.
pub fn rate_window_figures(window_age_ns: u128, frames: u64, render_ns: u64, readback_ns: u64) -> (r: (u64, u64, u64))
    ensures
        r == window_figures(window_age_ns, frames, render_ns, readback_ns),
{
    if window_age_ns >= RATE_WINDOW_NS {
        (frames, render_ns / 1_000_000, readback_ns / 1_000_000)
    } else {
        (0, 0, 0)
    }
}

/// The telemetry after a commit, given the age of the pending input:
/// one more commit, the latency sample as [`latency_after`] says, and no
/// input pending.
pub open spec fn after_commit(t: TelemetryV, input_age_ns: Option<u128>) -> TelemetryV {
    TelemetryV {
        commits_total: (t.commits_total + 1) as u64,
        input_pending: false,
        last_input_to_commit_ms: latency_after(input_age_ns, t.last_input_to_commit_ms),
        ..t
    }
}

/// The telemetry after the rate window is rolled at age `age_ns`: reset
/// once it has run a full second, unchanged before.
pub open spec fn rolled(t: TelemetryV, age_ns: u128) -> TelemetryV {
    if age_ns >= RATE_WINDOW_NS {
        TelemetryV { frames_this_second: 0, render_ns_this_second: 0, readback_ns_this_second: 0, ..t }
    } else {
        t
    }
}

/// Each latency sample pairs one input with the next commit: an input
/// younger than 5 seconds at the commit gives its age in whole
/// milliseconds, an older one keeps the previous sample, and a commit with
/// no input pending since the previous commit leaves the sample as it was.
pub proof fn lemma_commit_pairs_one_input(t: TelemetryV, age: Option<u128>, next_age: Option<u128>)
    requires
        next_age is Some <==> after_commit(t, age).input_pending,
    ensures
        after_commit(t, age).last_input_to_commit_ms == (match age {
            Some(d) => if d < INPUT_LATENCY_LIMIT_NS {
                Some((d / NANOS_PER_MILLI) as u32)
            } else {
                t.last_input_to_commit_ms
            },
            None => t.last_input_to_commit_ms,
        }),
        !after_commit(t, age).input_pending,
        after_commit(after_commit(t, age), next_age).last_input_to_commit_ms == after_commit(
            t,
            age,
        ).last_input_to_commit_ms,
{
}

impl Telemetry {
    /// All counters zeroed, no pending input, the rate window starting now.
    pub fn new() -> (t: Self)
        ensures
            t@ == (TelemetryV {
                frames_total: 0,
                frames_this_second: 0,
                frame_bytes_total: 0,
                render_ns_this_second: 0,
                readback_ns_this_second: 0,
                commits_total: 0,
                input_events_total: 0,
                input_pending: false,
                last_input_to_commit_ms: None,
                errors_total: 0,
            }),
    {
        Self {
            frames_total: 0,
            frames_this_second: 0,
            frame_bytes_total: 0,
            render_ns_this_second: 0,
            readback_ns_this_second: 0,
            commits_total: 0,
            input_events_total: 0,
            last_input_at: None,
            last_input_to_commit_ms: None,
            errors_total: 0,
            second_start: instant_now(),
        }
    }

    /// Record a surface commit, given the age of the pending input in
    /// nanoseconds (`None` when no input is pending). An input younger than
    /// 5 seconds becomes the latency sample (its age in whole
    /// milliseconds); the pending input is cleared either way, so each
    /// sample pairs one input with the next commit.
    pub fn commit_with_input_age(&mut self, input_age_ns: Option<u128>)
        requires
            old(self)@.commits_total < u64::MAX,
        ensures
            final(self)@ == after_commit(old(self)@, input_age_ns),
    {
        self.commits_total = self.commits_total + 1;
        self.last_input_to_commit_ms = latency_after_commit(input_age_ns, self.last_input_to_commit_ms);
        self.last_input_at = None;
    }

    /// Record a surface commit: the age of the pending input, if any, is
    /// read from the clock and the commit is recorded as
    /// [`Telemetry::commit_with_input_age`] says.
    pub fn record_commit(&mut self)
        requires
            old(self)@.commits_total < u64::MAX,
        ensures
            exists|age: Option<u128>|
                (age is Some <==> old(self)@.input_pending) && final(self)@ == after_commit(
                    old(self)@,
                    age,
                ),
    {
        let age = match &self.last_input_at {
            Some(t) => Some(elapsed_nanos(t)),
            None => None,
        };
        self.commit_with_input_age(age);
    }

    /// Record a network input event and stamp its arrival time.
    pub fn record_input(&mut self)
        requires
            old(self)@.input_events_total < u64::MAX,
        ensures
            final(self)@ == (TelemetryV {
                input_events_total: (old(self)@.input_events_total + 1) as u64,
                input_pending: true,
                ..old(self)@
            }),
    {
        self.input_events_total = self.input_events_total + 1;
        self.last_input_at = Some(instant_now());
    }

    /// Record a streamed frame of `bytes` payload bytes with its render and
    /// readback timings (nanoseconds, 0 when not measured).
    pub fn record_frame(&mut self, bytes: usize, render_ns: u64, readback_ns: u64)
        requires
            old(self)@.frames_total < u64::MAX,
            old(self)@.frames_this_second < u64::MAX,
            old(self)@.frame_bytes_total + bytes <= u64::MAX,
            old(self)@.render_ns_this_second + render_ns <= u64::MAX,
            old(self)@.readback_ns_this_second + readback_ns <= u64::MAX,
        ensures
            final(self)@ == (TelemetryV {
                frames_total: (old(self)@.frames_total + 1) as u64,
                frames_this_second: (old(self)@.frames_this_second + 1) as u64,
                frame_bytes_total: (old(self)@.frame_bytes_total + bytes) as u64,
                render_ns_this_second: (old(self)@.render_ns_this_second + render_ns) as u64,
                readback_ns_this_second: (old(self)@.readback_ns_this_second + readback_ns) as u64,
                ..old(self)@
            }),
    {
        self.frames_total = self.frames_total + 1;
        self.frames_this_second = self.frames_this_second + 1;
        self.frame_bytes_total = self.frame_bytes_total + bytes as u64;
        self.render_ns_this_second = self.render_ns_this_second + render_ns;
        self.readback_ns_this_second = self.readback_ns_this_second + readback_ns;
    }

    /// Record a recoverable error.
    pub fn record_error(&mut self)
        requires
            old(self)@.errors_total < u64::MAX,
        ensures
            final(self)@ == (TelemetryV { errors_total: (old(self)@.errors_total + 1) as u64, ..old(self)@ }),
    {
        self.errors_total = self.errors_total + 1;
    }

    /// Time since the rate window started.
    pub fn second_start_elapsed(&self) -> Duration {
        instant_elapsed(&self.second_start)
    }

    /// Close the rate window if it has run `age_ns` nanoseconds: once it
    /// has run a full second, the per-second figures (frames, render and
    /// readback milliseconds) are returned and the window restarts now;
    /// before that the figures are 0 and the window keeps counting.
    pub fn roll_window(&mut self, age_ns: u128) -> (fig: (u64, u64, u64))
        ensures
            fig == window_figures(
                age_ns,
                old(self)@.frames_this_second,
                old(self)@.render_ns_this_second,
                old(self)@.readback_ns_this_second,
            ),
            final(self)@ == rolled(old(self)@, age_ns),
    {
        let fig = rate_window_figures(
            age_ns,
            self.frames_this_second,
            self.render_ns_this_second,
            self.readback_ns_this_second,
        );
        if age_ns >= RATE_WINDOW_NS {
            self.frames_this_second = 0;
            self.render_ns_this_second = 0;
            self.readback_ns_this_second = 0;
            self.second_start = instant_now();
        }
        fig
    }

    /// Snapshot the cumulative counters, and roll the rate window by its
    /// age read from the clock, as [`Telemetry::roll_window`] says.
    pub fn snapshot(&mut self) -> (s: TelemetrySnapshot)
        ensures
            s.frames_total == old(self)@.frames_total,
            s.frame_bytes_total == old(self)@.frame_bytes_total,
            s.commits_total == old(self)@.commits_total,
            s.input_events_total == old(self)@.input_events_total,
            s.last_input_to_commit_ms == old(self)@.last_input_to_commit_ms,
            s.errors_total == old(self)@.errors_total,
            exists|age: u128|
                (s.frames_per_sec, s.render_ms, s.readback_ms) == window_figures(
                    age,
                    old(self)@.frames_this_second,
                    old(self)@.render_ns_this_second,
                    old(self)@.readback_ns_this_second,
                ) && final(self)@ == rolled(old(self)@, age),
    {
        let age = elapsed_nanos(&self.second_start);
        let (frames_per_sec, render_ms, readback_ms) = self.roll_window(age);
        TelemetrySnapshot {
            frames_per_sec,
            frames_total: self.frames_total,
            frame_bytes_total: self.frame_bytes_total,
            render_ms,
            readback_ms,
            commits_total: self.commits_total,
            input_events_total: self.input_events_total,
            last_input_to_commit_ms: self.last_input_to_commit_ms,
            errors_total: self.errors_total,
        }
    }
}

impl Default for Telemetry {
    fn default() -> (t: Self)
        ensures
            t@ == (TelemetryV {
                frames_total: 0,
                frames_this_second: 0,
                frame_bytes_total: 0,
                render_ns_this_second: 0,
                readback_ns_this_second: 0,
                commits_total: 0,
                input_events_total: 0,
                input_pending: false,
                last_input_to_commit_ms: None,
                errors_total: 0,
            }),
    {
        Self::new()
    }
}

/// Render placement of a committed surface: its buffer (by key), layout
/// position and committed size.
#[derive(Debug, Clone, Copy, PartialEq, Eq, Structural)]
pub struct SurfaceInfo {
    /// The committed buffer, if the surface currently has one attached.
    pub buffer: Option<u64>,
    /// Layout x position in the offscreen frame.
    pub x: i32,
    /// Layout y position in the offscreen frame.
    pub y: i32,
    /// Committed buffer width in pixels.
    pub width: u32,
    /// Committed buffer height in pixels.
    pub height: u32,
}

/// The placement after a commit. A tracked surface keeps its slot; a new
/// one goes to the diagonal slot `(20·n, 20·n)` where `n` is the number of
/// tracked surfaces. A commit with a buffer records it and its size; one
/// without keeps the previous size and drops the buffer.
pub open spec fn placement_after_commit(
    existing: Option<SurfaceInfo>,
    count: nat,
    committed: Option<(u64, u32, u32)>,
) -> SurfaceInfo {
    let (x, y) = match existing {
        Some(e) => (e.x, e.y),
        None => ((count * 20) as i32, (count * 20) as i32),
    };
    match committed {
        Some((b, w, h)) => SurfaceInfo { buffer: Some(b), x, y, width: w, height: h },
        None => match existing {
            Some(e) => SurfaceInfo { buffer: None, ..e },
            None => SurfaceInfo { buffer: None, x, y, width: 0, height: 0 },
        },
    }
}

/// Committed surfaces by surface key, with their placements.
#[derive(Debug)]
pub struct SurfaceLayout {
    surfaces: HashMap<u64, SurfaceInfo>,
}

impl SurfaceLayout {
    /// Surface key → placement.
    pub closed spec fn placements(self) -> Map<u64, SurfaceInfo> {
        self.surfaces@
    }

    /// No surfaces.
    pub fn new() -> (l: Self)
        ensures
            l.placements() == Map::<u64, SurfaceInfo>::empty(),
    {
        Self { surfaces: HashMap::new() }
    }

    /// Record a commit of `surface_id`: `committed` is the attached buffer
    /// with its size, or `None` when no new buffer came with the commit.
    /// Returns the surface's placement afterwards.
    pub fn commit(&mut self, surface_id: u64, committed: Option<(u64, u32, u32)>) -> (info: SurfaceInfo)
        requires
            old(self).placements().len() * 20 <= i32::MAX,
        ensures
            info == placement_after_commit(
                if old(self).placements().contains_key(surface_id) {
                    Some(old(self).placements()[surface_id])
                } else {
                    None
                },
                old(self).placements().len(),
                committed,
            ),
            final(self).placements() == old(self).placements().insert(surface_id, info),
    {
        let existing = match self.surfaces.get(&surface_id) {
            Some(e) => Some(*e),
            None => None,
        };
        let (x, y) = match existing {
            Some(e) => (e.x, e.y),
            None => {
                let index = self.surfaces.len() as i32;
                (index * 20, index * 20)
            },
        };
        let info = match committed {
            Some((buffer, width, height)) => SurfaceInfo { buffer: Some(buffer), x, y, width, height },
            None => match existing {
                Some(prev) => SurfaceInfo { buffer: None, ..prev },
                None => SurfaceInfo { buffer: None, x, y, width: 0, height: 0 },
            },
        };
        self.surfaces.insert(surface_id, info);
        info
    }

    /// Forget a destroyed surface; whether it was tracked.
    pub fn destroyed(&mut self, surface_id: u64) -> (was_tracked: bool)
        ensures
            was_tracked == old(self).placements().contains_key(surface_id),
            final(self).placements() == old(self).placements().remove(surface_id),
    {
        match self.surfaces.remove(&surface_id) {
            Some(_) => true,
            None => false,
        }
    }

    /// Number of tracked surfaces.
    pub fn surface_count(&self) -> (n: usize)
        ensures
            n == self.placements().len(),
    {
        self.surfaces.len()
    }
}

/// A buffer dimension as the compositor stores it: negative sizes become 0.
pub fn buffer_dimension(v: i32) -> (r: u32)
    ensures
        r == (if v < 0 { 0 } else { v as u32 }),
{
    if v < 0 {
        0
    } else {
        v as u32
    }
}

/// A recommitted surface keeps its slot, whatever it commits.
pub proof fn lemma_recommit_keeps_slot(e: SurfaceInfo, count: nat, committed: Option<(u64, u32, u32)>)
    ensures
        placement_after_commit(Some(e), count, committed).x == e.x,
        placement_after_commit(Some(e), count, committed).y == e.y,
{
}

} // verus!
