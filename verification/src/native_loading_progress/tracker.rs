//! Per-window tracker for the native gauge frame: when did the gauge last MOVE.

use vstd::prelude::*;

verus! {

/// The window-scoped gauge state. `usize::MAX` in `last_frame` (and in `epoch`) cannot equal a
/// real frame (or load epoch), so the first sample after a reset always establishes a baseline.
#[derive(Debug, Clone, Copy, PartialEq, Eq, Structural)]
pub struct GaugeTracker {
    /// The last gauge frame seen, or `usize::MAX` for "none since the reset".
    pub last_frame: usize,
    /// Epoch-ms at which the frame last CHANGED; 0 if it has not moved in this window.
    pub progress_ms: u64,
    /// The load epoch this window's state belongs to.
    pub epoch: usize,
}

/// A fresh window belonging to `epoch`.
pub open spec fn spec_reset(epoch: usize) -> GaugeTracker {
    GaugeTracker { last_frame: usize::MAX, progress_ms: 0, epoch }
}

/// One gauge sample: the frame is recorded; the time only when it actually CHANGED from a
/// baseline sample.
pub open spec fn spec_note_frame(t: GaugeTracker, now_ms: u64, bar_frame: usize) -> GaugeTracker {
    GaugeTracker {
        last_frame: bar_frame,
        progress_ms: if t.last_frame != usize::MAX && t.last_frame != bar_frame {
            now_ms
        } else {
            t.progress_ms
        },
        epoch: t.epoch,
    }
}

impl GaugeTracker {
    /// A tracker that has seen no epoch and no frame.
    pub fn new() -> (t: GaugeTracker)
        ensures
            t == spec_reset(usize::MAX),
    {
        GaugeTracker { last_frame: usize::MAX, progress_ms: 0, epoch: usize::MAX }
    }
}

/// Start a new cover window (the epoch is kept).
pub fn reset(t: &mut GaugeTracker)
    ensures
        *final(t) == spec_reset(old(t).epoch),
{
    t.last_frame = usize::MAX;
    t.progress_ms = 0;
}

/// Feed this frame's native gauge frame. Records the time only when it actually CHANGED; the
/// first sample after a reset is a baseline, not progress.
pub fn note_frame(t: &mut GaugeTracker, now_ms: u64, bar_frame: usize)
    ensures
        *final(t) == spec_note_frame(*old(t), now_ms, bar_frame),
{
    let prev = t.last_frame;
    t.last_frame = bar_frame;
    if prev != usize::MAX && prev != bar_frame {
        t.progress_ms = now_ms;
    }
}

/// Epoch-ms the gauge last moved; 0 if it has not moved in this window.
pub fn progress_ms(t: &GaugeTracker) -> (ms: u64)
    ensures
        ms == t.progress_ms,
{
    t.progress_ms
}

/// Observing a frame once is not evidence that it is changing: the first sample after a reset
/// leaves the progress clock at 0, and a repeated frame never stamps it.
pub proof fn lemma_first_sample_is_a_baseline(
    epoch: usize,
    now_ms: u64,
    bar_frame: usize,
    t: GaugeTracker,
    later_ms: u64,
)
    ensures
        spec_note_frame(spec_reset(epoch), now_ms, bar_frame).progress_ms == 0,
        spec_note_frame(spec_note_frame(t, now_ms, bar_frame), later_ms, bar_frame).progress_ms
            == spec_note_frame(t, now_ms, bar_frame).progress_ms,
{
}

} // verus!
