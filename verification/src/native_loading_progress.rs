//! Is the game's own loading screen still MAKING PROGRESS, or is it frozen? The release predicate's
//! "native done" half, and the composite cap's decision to fire or to defer while the native gauge
//! is demonstrably still moving or has demonstrably finished.

use vstd::prelude::*;
use crate::text::{push_digits, spec_digits, str_chars};

pub mod tracker;

verus! {

/// The native gauge frame must be FROZEN this long before an expired composite cap may fire.
pub const NATIVE_BAR_STALL_MS: u64 = 2_000;

/// Hard bound on how long the cap may be deferred past its nominal expiry.
pub const COMPOSITE_CAP_MAX_DEFER_MS: u64 = 15_000;

/// Permille at which the native bar counts as "essentially complete".
pub const NATIVE_BAR_TERMINAL_PERMILLE: usize = 998;

/// The gauge's playhead is at or past its last frame, or there is no gauge at all.
pub open spec fn spec_gauge_done(cur_frame: usize, max_frame: usize) -> bool {
    max_frame == 0 || cur_frame >= max_frame
}

/// The gauge exists and sits at (or past) its last frame.
pub open spec fn spec_gauge_terminal(cur_frame: usize, max_frame: usize) -> bool {
    max_frame != 0 && cur_frame >= max_frame
}

/// Has the native gauge finished? A screen with no gauge (`max_frame == 0`) counts as done.
pub fn gauge_done(cur_frame: usize, max_frame: usize) -> (done: bool)
    ensures
        done == spec_gauge_done(cur_frame, max_frame),
{
    max_frame == 0 || cur_frame >= max_frame
}

/// Is the gauge at its terminal frame -- COMPLETED rather than merely absent?
pub fn gauge_terminal(cur_frame: usize, max_frame: usize) -> (terminal: bool)
    ensures
        terminal == spec_gauge_terminal(cur_frame, max_frame),
{
    max_frame != 0 && cur_frame >= max_frame
}

/// The release predicate's native-done half: the bar's own fill reached the terminal permille, or
/// the screen sent its finish while its gauge was done.
pub open spec fn spec_release_native_done(
    close_hits: usize,
    permille: usize,
    cur_frame: usize,
    max_frame: usize,
) -> bool {
    permille >= NATIVE_BAR_TERMINAL_PERMILLE || (close_hits != 0 && spec_gauge_done(
        cur_frame,
        max_frame,
    ))
}

/// Has the game's own loading screen FINISHED?
pub fn release_native_done(
    close_hits: usize,
    permille: usize,
    cur_frame: usize,
    max_frame: usize,
) -> (done: bool)
    ensures
        done == spec_release_native_done(close_hits, permille, cur_frame, max_frame),
        done == (permille >= 998 || (close_hits != 0 && (max_frame == 0 || cur_frame
            >= max_frame))),
        close_hits == 0 && permille < 998 ==> !done,
{
    permille >= NATIVE_BAR_TERMINAL_PERMILLE || (close_hits != 0 && gauge_done(
        cur_frame,
        max_frame,
    ))
}

/// The cap's answer for one frame, with the numbers that justify it.
#[derive(Debug, Clone, Copy, PartialEq, Eq, Structural)]
pub struct CapDecision {
    /// Stop the cover now.
    pub fire: bool,
    /// The native gauge has not moved for at least [`NATIVE_BAR_STALL_MS`] (or has never moved)
    /// and is not parked on its last frame.
    pub bar_stalled: bool,
    /// How long the cap has already been deferred past its nominal expiry.
    pub deferred_ms: u64,
    /// How long since the gauge last moved; 0 when it has never moved.
    pub bar_stall_ms: u64,
    /// The gauge is sitting at its LAST frame.
    pub bar_terminal: bool,
    /// The gauge frame this decision saw; 0 from the pure form.
    pub bar_frame: usize,
}

/// Time since the gauge last moved: unbounded when it never moved in this window.
pub open spec fn spec_stall_clock(now_ms: u64, last_progress_ms: u64) -> int {
    if last_progress_ms == 0 {
        u64::MAX as int
    } else if now_ms >= last_progress_ms {
        now_ms - last_progress_ms
    } else {
        0
    }
}

/// The cap decision: defer only while the gauge is moving or finished, and only for a bounded
/// total; everything else fires once the cap has expired.
pub open spec fn spec_cap_decision(
    composite_ms: u64,
    cap_ms: u64,
    now_ms: u64,
    last_progress_ms: u64,
    bar_terminal: bool,
) -> CapDecision {
    let stall = spec_stall_clock(now_ms, last_progress_ms);
    let bar_stalled = !bar_terminal && stall >= NATIVE_BAR_STALL_MS;
    let deferred = if composite_ms >= cap_ms {
        (composite_ms - cap_ms) as u64
    } else {
        0u64
    };
    let defer = !bar_stalled && deferred < COMPOSITE_CAP_MAX_DEFER_MS;
    CapDecision {
        fire: composite_ms >= cap_ms && !defer,
        bar_stalled,
        deferred_ms: deferred,
        bar_stall_ms: if last_progress_ms == 0 {
            0u64
        } else {
            stall as u64
        },
        bar_terminal,
        bar_frame: 0,
    }
}

/// Decide whether an expired composite cap may fire this frame. `last_progress_ms` is when the
/// gauge frame last CHANGED, or 0 if it has not changed once in this window.
pub fn composite_cap_decision(
    composite_ms: u64,
    cap_ms: u64,
    now_ms: u64,
    last_progress_ms: u64,
    bar_terminal: bool,
) -> (d: CapDecision)
    ensures
        d == spec_cap_decision(composite_ms, cap_ms, now_ms, last_progress_ms, bar_terminal),
{
    let bar_stall_ms = if last_progress_ms == 0 {
        u64::MAX
    } else {
        now_ms.saturating_sub(last_progress_ms)
    };
    let bar_stalled = !bar_terminal && bar_stall_ms >= NATIVE_BAR_STALL_MS;
    let deferred_ms = composite_ms.saturating_sub(cap_ms);
    let defer = !bar_stalled && deferred_ms < COMPOSITE_CAP_MAX_DEFER_MS;
    CapDecision {
        fire: composite_ms >= cap_ms && !defer,
        bar_stalled,
        deferred_ms,
        bar_stall_ms: if last_progress_ms == 0 {
            0
        } else {
            bar_stall_ms
        },
        bar_terminal,
        bar_frame: 0,
    }
}

/// Feed the live gauge sample into the window tracker and get the cap's answer, in one call.
/// A change of `epoch` starts a new window first. `Some` ONLY when the cap should fire.
pub fn cap_fired(
    state: &mut tracker::GaugeTracker,
    epoch: usize,
    now_ms: u64,
    composite_ms: u64,
    cap_ms: u64,
    bar_frame: usize,
    bar_max: usize,
) -> (fired: Option<CapDecision>)
    ensures
        final(state).epoch == epoch,
        final(state).last_frame == bar_frame,
        ({
            let start = if old(state).epoch == epoch {
                *old(state)
            } else {
                tracker::spec_reset(epoch)
            };
            let after = tracker::spec_note_frame(start, now_ms, bar_frame);
            let d = spec_cap_decision(
                composite_ms,
                cap_ms,
                now_ms,
                after.progress_ms,
                spec_gauge_terminal(bar_frame, bar_max),
            );
            &&& *final(state) == after
            &&& fired == if d.fire {
                Some(CapDecision { bar_frame, ..d })
            } else {
                None
            }
        }),
{
    if state.epoch != epoch {
        tracker::reset(state);
        state.epoch = epoch;
    }
    tracker::note_frame(state, now_ms, bar_frame);
    let mut d = composite_cap_decision(
        composite_ms,
        cap_ms,
        now_ms,
        tracker::progress_ms(state),
        gauge_terminal(bar_frame, bar_max),
    );
    d.bar_frame = bar_frame;
    if d.fire {
        Some(d)
    } else {
        None
    }
}

/// The wording for the gauge state a bail saw.
pub open spec fn spec_bail_gauge_text(d: CapDecision) -> Seq<char> {
    if d.bar_stalled {
        "FROZEN (no Gauge_3 movement, short of its last frame), the frozen-load2 case this bail exists for"@
    } else if d.bar_terminal {
        "FINISHED (parked on its last frame), but the deferral bound ran out before the release fade landed"@
    } else {
        "still advancing, but the deferral bound ran out"@
    }
}

/// The diagnostic tail of the bail's log line, as a function of the decision's data.
pub open spec fn spec_bail_detail(d: CapDecision) -> Seq<char> {
    "deferred_ms="@ + spec_digits(d.deferred_ms as nat) + " native_bar_frame="@ + spec_digits(
        d.bar_frame as nat,
    ) + " bar_stall_ms="@ + spec_digits(d.bar_stall_ms as nat)
        + " -- the native loading gauge is "@ + spec_bail_gauge_text(d)
}

fn push_str(out: &mut Vec<char>, s: &str)
    ensures
        final(out)@ == old(out)@ + s@,
{
    let mut chars = str_chars(s);
    out.append(&mut chars);
}

/// The whole diagnostic tail of the bail's log line, built where the decision is made.
pub fn bail_detail(d: &CapDecision) -> (detail: String)
    ensures
        detail@ == spec_bail_detail(*d),
{
    let mut out: Vec<char> = Vec::new();
    push_str(&mut out, "deferred_ms=");
    push_digits(&mut out, d.deferred_ms);
    push_str(&mut out, " native_bar_frame=");
    push_digits(&mut out, d.bar_frame as u64);
    push_str(&mut out, " bar_stall_ms=");
    push_digits(&mut out, d.bar_stall_ms);
    push_str(&mut out, " -- the native loading gauge is ");
    if d.bar_stalled {
        push_str(
            &mut out,
            "FROZEN (no Gauge_3 movement, short of its last frame), the frozen-load2 case this bail exists for",
        );
    } else if d.bar_terminal {
        push_str(
            &mut out,
            "FINISHED (parked on its last frame), but the deferral bound ran out before the release fade landed",
        );
    } else {
        push_str(&mut out, "still advancing, but the deferral bound ran out");
    }
    crate::text::string_from_chars(&out)
}

/// A terminal gauge is done; a missing gauge is done but never terminal.
pub proof fn lemma_terminal_gauge_is_done(cur_frame: usize, max_frame: usize)
    ensures
        spec_gauge_terminal(cur_frame, max_frame) ==> spec_gauge_done(cur_frame, max_frame),
        spec_gauge_done(cur_frame, 0),
        !spec_gauge_terminal(cur_frame, 0),
{
}

/// A close alone never releases: it must come with a done gauge (or the permille must be terminal).
pub proof fn lemma_close_on_unfinished_gauge_is_not_done(
    close_hits: usize,
    permille: usize,
    cur_frame: usize,
    max_frame: usize,
)
    requires
        permille < NATIVE_BAR_TERMINAL_PERMILLE,
        !spec_gauge_done(cur_frame, max_frame),
    ensures
        !spec_release_native_done(close_hits, permille, cur_frame, max_frame),
{
}

/// Below the cap nothing fires, however the gauge behaves.
pub proof fn lemma_under_cap_never_fires(
    composite_ms: u64,
    cap_ms: u64,
    now_ms: u64,
    last_progress_ms: u64,
    bar_terminal: bool,
)
    requires
        composite_ms < cap_ms,
    ensures
        !spec_cap_decision(composite_ms, cap_ms, now_ms, last_progress_ms, bar_terminal).fire,
{
}

/// The deferral is bounded: at cap + the bound the cap fires, whatever the gauge does.
pub proof fn lemma_deferral_is_bounded(
    composite_ms: u64,
    cap_ms: u64,
    now_ms: u64,
    last_progress_ms: u64,
    bar_terminal: bool,
)
    requires
        composite_ms >= cap_ms + COMPOSITE_CAP_MAX_DEFER_MS,
    ensures
        spec_cap_decision(composite_ms, cap_ms, now_ms, last_progress_ms, bar_terminal).fire,
{
}

/// A gauge that never moved, short of its last frame, fires the instant the cap expires; a gauge
/// parked on its last frame is never called stalled.
pub proof fn lemma_frozen_gauge_fires_at_cap(
    composite_ms: u64,
    cap_ms: u64,
    now_ms: u64,
    last_progress_ms: u64,
    bar_terminal: bool,
)
    ensures
        (last_progress_ms == 0 && !bar_terminal && composite_ms >= cap_ms) ==> spec_cap_decision(
            composite_ms,
            cap_ms,
            now_ms,
            last_progress_ms,
            bar_terminal,
        ).fire,
        bar_terminal ==> !spec_cap_decision(
            composite_ms,
            cap_ms,
            now_ms,
            last_progress_ms,
            bar_terminal,
        ).bar_stalled,
{
}

/// The native screen is done only on its own say-so: without a close, only a terminal permille
/// releases, whatever the gauge frames read (a gauge-less screen that never closed is not done),
/// and with a close, a done gauge (none at all, or its playhead at or past its last frame)
/// releases too.
pub proof fn lemma_native_done_needs_a_close_or_terminal_permille(
    close_hits: usize,
    permille: usize,
    cur_frame: usize,
    max_frame: usize,
    other_cur: usize,
    other_max: usize,
)
    ensures
        spec_release_native_done(close_hits, permille, cur_frame, max_frame) == (permille >= 998 || (
        close_hits != 0 && (max_frame == 0 || cur_frame >= max_frame))),
        close_hits == 0 && permille < 998 ==> !spec_release_native_done(
            close_hits,
            permille,
            cur_frame,
            max_frame,
        ),
        close_hits == 0 ==> spec_release_native_done(close_hits, permille, cur_frame, max_frame)
            == spec_release_native_done(close_hits, permille, other_cur, other_max),
        permille >= 998 ==> spec_release_native_done(close_hits, permille, cur_frame, max_frame),
{
}

} // verus!
