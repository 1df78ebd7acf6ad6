use vstd::prelude::*;

use crate::render::VideoMode;

verus! {

/// Frames per 100 milliseconds, in tenths: 6 for 60 fields per second,
/// 5 for 50.
pub open spec fn spec_deci_frame_rate(mode: VideoMode) -> u64 {
    match mode {
        VideoMode::NTSC => 6,
        VideoMode::PAL => 5,
    }
}

/// Milliseconds elapsed after `frames` frames under `mode`, rounded down.
pub open spec fn spec_millis(mode: VideoMode, frames: u32) -> u64 {
    (frames as int * 100 / spec_deci_frame_rate(mode) as int) as u64
}

/// The frame rate of `mode` in tenths of frames per 100 milliseconds.
pub fn deci_frame_rate(mode: VideoMode) -> (r: u64)
    ensures
        r == spec_deci_frame_rate(mode),
{
    match mode {
        VideoMode::NTSC => 6,
        VideoMode::PAL => 5,
    }
}

/// Time derived from the number of frames shown, with no wall clock: a
/// millisecond count that a single writer updates once per frame.
pub struct VirtualClock {
    mode: VideoMode,
    milliseconds: u64,
}

impl VirtualClock {
    pub closed spec fn spec_mode(&self) -> VideoMode {
        self.mode
    }

    pub closed spec fn spec_elapsed(&self) -> u64 {
        self.milliseconds
    }

    /// A clock at zero for the video standard `mode`.
    pub fn new(mode: VideoMode) -> (r: VirtualClock)
        ensures
            r.spec_mode() == mode,
            r.spec_elapsed() == 0,
    {
        VirtualClock { mode, milliseconds: 0 }
    }

    pub fn mode(&self) -> (r: VideoMode)
        ensures
            r == self.spec_mode(),
    {
        self.mode
    }

    /// Milliseconds since start.
    pub fn elapsed(&self) -> (r: u64)
        ensures
            r == self.spec_elapsed(),
    {
        self.milliseconds
    }

    /// Sets the time to that of `frame_count` frames:
    /// `frame_count * 100 / deci_frame_rate`.
    pub fn update(&mut self, frame_count: u32)
        ensures
            final(self).spec_mode() == old(self).spec_mode(),
            final(self).spec_elapsed() == spec_millis(old(self).spec_mode(), frame_count),
    {
        let rate = deci_frame_rate(self.mode);
        self.milliseconds = frame_count as u64 * 100 / rate;
    }
}

/// The per-frame clock stage: updates `clock` from the frame count when
/// there is one, and leaves it as it is otherwise.
pub fn update_instant(clock: &mut VirtualClock, count: Option<u32>)
    ensures
        final(clock).spec_mode() == old(clock).spec_mode(),
        final(clock).spec_elapsed() == match count {
            Some(c) => spec_millis(old(clock).spec_mode(), c),
            None => old(clock).spec_elapsed(),
        },
{
    if let Some(c) = count {
        clock.update(c);
    }
}

/// Registers the clock stage: builds the clock for the video standard,
/// which is fixed at construction.
#[derive(Clone, Copy, PartialEq, Eq, Debug, Default, Structural)]
pub struct PSXTimePlugin;

impl PSXTimePlugin {
    /// The clock the stage keeps, at zero, for `mode`.
    pub fn clock(&self, mode: VideoMode) -> (r: VirtualClock)
        ensures
            r.spec_mode() == mode,
            r.spec_elapsed() == 0,
    {
        VirtualClock::new(mode)
    }
}

/// More frames never give less time.
pub proof fn lemma_millis_monotonic(mode: VideoMode, a: u32, b: u32)
    requires
        a <= b,
    ensures
        spec_millis(mode, a) <= spec_millis(mode, b),
{
    let r = spec_deci_frame_rate(mode) as int;
    assert((a as int * 100) / r <= (b as int * 100) / r) by (nonlinear_arith)
        requires
            a <= b,
            r > 0,
    ;
}

/// Updating the clock with a non-decreasing sequence of frame counts gives
/// a non-decreasing sequence of times.
pub proof fn lemma_clock_monotonic(mode: VideoMode, counts: Seq<u32>, i: int, j: int)
    requires
        forall|k: int, l: int| 0 <= k <= l < counts.len() ==> counts[k] <= counts[l],
        0 <= i <= j < counts.len(),
    ensures
        spec_millis(mode, counts[i]) <= spec_millis(mode, counts[j]),
{
    lemma_millis_monotonic(mode, counts[i], counts[j]);
}

} // verus!
