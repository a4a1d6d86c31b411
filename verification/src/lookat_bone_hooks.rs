//! The decisions of the render-thread portrait draw tick: whether the tick runs at all this frame,
//! which slot incarnation it tags, which of the pump's gates block the live drive of the profile
//! renderer, whether the drive may touch the renderer once its busy flag is up, when the idle
//! animation must be bound again and whether a bind took, and when the model first goes live.
//! Reading game memory and calling into the engine are the caller's part; every function here
//! takes what was read as plain values.

use vstd::prelude::*;

verus! {

/// How the tick starts this frame.
#[derive(Debug, Clone, Copy, PartialEq, Eq, Structural)]
pub enum LookatTickStart {
    /// The overlay is off or the module base is unusable: nothing to do.
    Idle,
    /// The current switch epoch is already in the world: stop all per-frame work and clear the
    /// realtime flag so the push hook passes straight through.
    WorldLive,
    /// Set the realtime flag and run the tick.
    Run,
}

/// Decides how the tick starts. `fresh_deser_epoch` counts confirmed switch deserializations (0
/// during the boot screen, which is exempt from the in-world stop) and `world_live_epoch` is the
/// epoch whose world clock has gone live.
pub fn lookat_tick_start(
    overlay_enabled: bool,
    base: usize,
    null: usize,
    fresh_deser_epoch: usize,
    world_live_epoch: usize,
) -> (start: LookatTickStart)
    ensures
        start == (if !overlay_enabled || base == 0 || base == null {
            LookatTickStart::Idle
        } else if fresh_deser_epoch != 0 && world_live_epoch == fresh_deser_epoch {
            LookatTickStart::WorldLive
        } else {
            LookatTickStart::Run
        }),
{
    if !overlay_enabled || base == 0 || base == null {
        LookatTickStart::Idle
    } else if fresh_deser_epoch != 0 && world_live_epoch == fresh_deser_epoch {
        LookatTickStart::WorldLive
    } else {
        LookatTickStart::Run
    }
}

/// What a running tick does before the per-slot pump.
#[derive(Debug, Clone, Copy, PartialEq, Eq, Structural)]
pub struct LookatTickPlan {
    /// Run the engine's per-slot draw step (a clear of every profile target): only until our own
    /// loading-screen table is built, after which the clear would wipe the head we sample.
    pub draw_step: bool,
    /// Go on to the pump, copy, readback and publish: only once our table owns the renderer, so the
    /// menu's static renderer never becomes the visible source.
    pub pump: bool,
}

/// Plans the tick from the count of loading-screen table builds and whether the table is owned.
pub fn lookat_tick_plan(table_builds: usize, table_owned: usize) -> (plan: LookatTickPlan)
    ensures
        plan == (LookatTickPlan { draw_step: table_builds == 0, pump: table_owned != 0 }),
{
    LookatTickPlan { draw_step: table_builds == 0, pump: table_owned != 0 }
}

/// The live portrait incarnation tag of a target slot: the slot plus one, or 0 for no slot.
pub fn portrait_incarnation_tag(slot: i32) -> (tag: usize)
    ensures
        tag == (if slot >= 0 {
            slot + 1
        } else {
            0
        }),
{
    if slot >= 0 {
        let s: u32 = slot as u32;
        (s as usize) + 1
    } else {
        0
    }
}

/// Which gates of the per-slot pump hold this frame, and whether the live drive runs.
#[derive(Debug, Clone, Copy, PartialEq, Eq, Structural)]
pub struct PumpGates {
    /// The target slot's renderer pointer is null.
    pub block_renderer: bool,
    /// The renderer is there but its vtable is not the profile renderer's.
    pub block_vtable: bool,
    /// The renderer is valid but has no offscreen.
    pub block_offscreen: bool,
    /// The offscreen is there but the target is not the single live profile model.
    pub multi_model_skip: bool,
    /// More than one profile model is live (the menu's churn).
    pub block_multi: bool,
    /// The offscreen's native GX resources are not all there.
    pub block_offscreen_resource: bool,
    /// The loaded character is the single live profile model: rasterize, copy and publish.
    pub stable_target_only: bool,
    /// Run the state-machine pump (update and draw tasks) on the renderer.
    pub drive: bool,
}

/// The pump's gates over one frame's reads: the renderer pointer and the vtable it holds, the
/// expected profile renderer vtable, its offscreen pointer, the number of live profile models,
/// whether the offscreen's GX resources are ready, and whether render drive is enabled.
pub open spec fn spec_pump_gates(
    renderer: usize,
    null: usize,
    vtable: usize,
    expected_vtable: usize,
    offscreen: usize,
    live_models: usize,
    resources_ready: bool,
    render_drive_enabled: bool,
) -> PumpGates {
    let renderer_ok = renderer != 0 && renderer != null;
    let vtable_ok = renderer_ok && vtable == expected_vtable;
    let offscreen_ok = vtable_ok && offscreen != 0 && offscreen != null;
    let stable = offscreen_ok && live_models == 1;
    let ready = offscreen_ok && resources_ready;
    PumpGates {
        block_renderer: !renderer_ok,
        block_vtable: renderer_ok && !vtable_ok,
        block_offscreen: vtable_ok && !offscreen_ok,
        multi_model_skip: offscreen_ok && !stable,
        block_multi: offscreen_ok && live_models > 1,
        block_offscreen_resource: offscreen_ok && !ready,
        stable_target_only: stable,
        drive: render_drive_enabled && ready && live_models <= 1,
    }
}

/// Computes the pump's gates for one frame.
pub fn pump_gates(
    renderer: usize,
    null: usize,
    vtable: usize,
    expected_vtable: usize,
    offscreen: usize,
    live_models: usize,
    resources_ready: bool,
    render_drive_enabled: bool,
) -> (gates: PumpGates)
    ensures
        gates == spec_pump_gates(
            renderer,
            null,
            vtable,
            expected_vtable,
            offscreen,
            live_models,
            resources_ready,
            render_drive_enabled,
        ),
{
    let renderer_ok = renderer != 0 && renderer != null;
    let vtable_ok = renderer_ok && vtable == expected_vtable;
    let offscreen_ok = vtable_ok && offscreen != 0 && offscreen != null;
    let stable = offscreen_ok && live_models == 1;
    let ready = offscreen_ok && resources_ready;
    PumpGates {
        block_renderer: !renderer_ok,
        block_vtable: renderer_ok && !vtable_ok,
        block_offscreen: vtable_ok && !offscreen_ok,
        multi_model_skip: offscreen_ok && !stable,
        block_multi: offscreen_ok && live_models > 1,
        block_offscreen_resource: offscreen_ok && !ready,
        stable_target_only: stable,
        drive: render_drive_enabled && ready && live_models <= 1,
    }
}

/// The pump never drives a renderer that failed one of its gates, nor while the menu has more
/// than one profile model live; and at most one of the renderer, vtable and offscreen blocks holds.
pub proof fn lemma_drive_only_past_every_gate(
    renderer: usize,
    null: usize,
    vtable: usize,
    expected_vtable: usize,
    offscreen: usize,
    live_models: usize,
    resources_ready: bool,
    render_drive_enabled: bool,
)
    ensures
        ({
            let g = spec_pump_gates(
                renderer,
                null,
                vtable,
                expected_vtable,
                offscreen,
                live_models,
                resources_ready,
                render_drive_enabled,
            );
            &&& g.drive ==> !g.block_renderer && !g.block_vtable && !g.block_offscreen
                && !g.block_multi && !g.block_offscreen_resource && render_drive_enabled
            &&& g.stable_target_only ==> !g.multi_model_skip && !g.block_multi
            &&& !(g.block_renderer && g.block_vtable)
            &&& !(g.block_renderer && g.block_offscreen)
            &&& !(g.block_vtable && g.block_offscreen)
        }),
{
}

/// What the drive does once its busy flag is up.
#[derive(Debug, Clone, Copy, PartialEq, Eq, Structural)]
pub enum DriveGuard {
    /// A renderer teardown raised its fence first: drop the busy flag and stand down.
    FenceSkip,
    /// The world cloth manager is gone (shutdown): driving would run a cloth release on a null
    /// singleton, so drop the busy flag and stand down.
    ClothSkip,
    /// Run the update and draw tasks.
    Drive,
}

/// Decides the drive from the teardown fence and the cloth manager pointer, both read after the
/// busy flag was raised.
pub fn drive_guard(teardown_fence: usize, cloth_manager: usize, null: usize) -> (guard: DriveGuard)
    ensures
        guard == (if teardown_fence != 0 {
            DriveGuard::FenceSkip
        } else if cloth_manager == 0 || cloth_manager == null {
            DriveGuard::ClothSkip
        } else {
            DriveGuard::Drive
        }),
{
    if teardown_fence != 0 {
        DriveGuard::FenceSkip
    } else if cloth_manager == 0 || cloth_manager == null {
        DriveGuard::ClothSkip
    } else {
        DriveGuard::Drive
    }
}

/// The idle animation is bound per model incarnation: again whenever the renderer or its
/// animation holder is not the pair it was last bound on.
pub fn anim_rebind_due(bound_renderer: usize, bound_holder: usize, renderer: usize, holder: usize) -> (due:
    bool)
    ensures
        due <==> (bound_renderer != renderer || bound_holder != holder),
{
    bound_renderer != renderer || bound_holder != holder
}

/// A bind took when the animation handle (its low 32 bits) left both the engine's null sentinel
/// and the all-ones value.
pub fn idle_anim_bound(handle: usize, sentinel: usize) -> (bound: bool)
    ensures
        bound <==> (handle != sentinel && handle != 0xffff_ffff),
{
    handle != sentinel && handle != 0xffff_ffff
}

/// Whether the profile model is live now (its model instance pointer is set) and whether this
/// frame is its transition from not live.
pub fn model_live_transition(was_live: usize, model_ins: usize, null: usize) -> (r: (usize, bool))
    ensures
        r.0 == (if model_ins != 0 && model_ins != null {
            1usize
        } else {
            0usize
        }),
        r.1 <==> (r.0 == 1 && was_live == 0),
{
    let live_now: usize = if model_ins != 0 && model_ins != null {
        1
    } else {
        0
    };
    (live_now, live_now == 1 && was_live == 0)
}

/// A counter bumped the way an atomic `fetch_add(1)` bumps it: wrapping at the top.
pub open spec fn spec_tick_inc(x: usize) -> usize {
    if x == usize::MAX {
        0
    } else {
        (x + 1) as usize
    }
}

/// The draw tick's own state: the realtime flag the per-frame push hook is gated on, the published
/// look-at pose (the bit patterns of the yaw and pitch floats), the draw-frame count, and the busy
/// flag the drive holds while it touches the renderer.
#[derive(Debug, Clone, Copy, PartialEq, Eq, Structural)]
pub struct LookatTickState {
    pub realtime: bool,
    pub yaw_bits: usize,
    pub pitch_bits: usize,
    pub draw_frame: usize,
    pub in_our_drive: bool,
}

impl LookatTickState {
    /// Before any tick: realtime off, neutral pose, no frame drawn, not driving.
    pub fn new() -> (state: Self)
        ensures
            state == (LookatTickState {
                realtime: false,
                yaw_bits: 0,
                pitch_bits: 0,
                draw_frame: 0,
                in_our_drive: false,
            }),
    {
        LookatTickState { realtime: false, yaw_bits: 0, pitch_bits: 0, draw_frame: 0, in_our_drive: false }
    }
}

/// Starts one tick: decides it ([`lookat_tick_start`]) and applies it to the state. An idle tick
/// changes nothing; an in-world epoch clears the realtime flag so the push hook passes straight
/// through; a running tick sets the flag, publishes the neutral pose (yaw and pitch 0.0, whose bit
/// patterns are 0 -- cursor tracking is retired, the OS cursor is never read) and counts the frame.
pub fn lookat_tick_begin(
    state: &mut LookatTickState,
    overlay_enabled: bool,
    base: usize,
    null: usize,
    fresh_deser_epoch: usize,
    world_live_epoch: usize,
) -> (start: LookatTickStart)
    ensures
        start == (if !overlay_enabled || base == 0 || base == null {
            LookatTickStart::Idle
        } else if fresh_deser_epoch != 0 && world_live_epoch == fresh_deser_epoch {
            LookatTickStart::WorldLive
        } else {
            LookatTickStart::Run
        }),
        start is Idle ==> *final(state) == *old(state),
        start is WorldLive ==> *final(state) == (LookatTickState { realtime: false, ..*old(state) }),
        start is Run ==> *final(state) == (LookatTickState {
            realtime: true,
            yaw_bits: 0,
            pitch_bits: 0,
            draw_frame: spec_tick_inc(old(state).draw_frame),
            in_our_drive: old(state).in_our_drive,
        }),
{
    let start = lookat_tick_start(overlay_enabled, base, null, fresh_deser_epoch, world_live_epoch);
    match start {
        LookatTickStart::Idle => {},
        LookatTickStart::WorldLive => {
            state.realtime = false;
        },
        LookatTickStart::Run => {
            state.realtime = true;
            state.draw_frame = if state.draw_frame == usize::MAX {
                0
            } else {
                state.draw_frame + 1
            };
            state.yaw_bits = 0;
            state.pitch_bits = 0;
        },
    }
    start
}

/// Raises the drive's busy flag. It goes up before the teardown fence is read, so a teardown
/// either sees the drive busy and waits, or raised its fence first and the drive stands down.
pub fn drive_raise_busy(state: &mut LookatTickState)
    ensures
        *final(state) == (LookatTickState { in_our_drive: true, ..*old(state) }),
{
    state.in_our_drive = true;
}

/// With the busy flag up, decides the drive from the fence and the cloth manager read after it
/// ([`drive_guard`]); a skipped drive drops the busy flag at once.
pub fn drive_guard_after_busy(
    state: &mut LookatTickState,
    teardown_fence: usize,
    cloth_manager: usize,
    null: usize,
) -> (guard: DriveGuard)
    requires
        old(state).in_our_drive,
    ensures
        guard == (if teardown_fence != 0 {
            DriveGuard::FenceSkip
        } else if cloth_manager == 0 || cloth_manager == null {
            DriveGuard::ClothSkip
        } else {
            DriveGuard::Drive
        }),
        *final(state) == (LookatTickState { in_our_drive: guard is Drive, ..*old(state) }),
{
    let guard = drive_guard(teardown_fence, cloth_manager, null);
    if !(guard == DriveGuard::Drive) {
        state.in_our_drive = false;
    }
    guard
}

/// Ends a drive that ran: the busy flag drops.
pub fn drive_finish(state: &mut LookatTickState)
    ensures
        *final(state) == (LookatTickState { in_our_drive: false, ..*old(state) }),
{
    state.in_our_drive = false;
}

/// Whatever the guard decides, after the drive's end the busy flag is down: a drive that went
/// past the guard runs only with the flag up and the fence read as 0, and every path out of it
/// leaves the flag down.
pub proof fn lemma_drive_leaves_busy_flag_down(
    s0: LookatTickState,
    s1: LookatTickState,
    s2: LookatTickState,
    guard: DriveGuard,
    teardown_fence: usize,
    cloth_manager: usize,
    null: usize,
)
    requires
        s0.in_our_drive,
        guard == (if teardown_fence != 0 {
            DriveGuard::FenceSkip
        } else if cloth_manager == 0 || cloth_manager == null {
            DriveGuard::ClothSkip
        } else {
            DriveGuard::Drive
        }),
        s1 == (LookatTickState { in_our_drive: guard is Drive, ..s0 }),
        guard is Drive ==> s2 == (LookatTickState { in_our_drive: false, ..s1 }),
        !(guard is Drive) ==> s2 == s1,
    ensures
        !s2.in_our_drive,
        guard is Drive ==> teardown_fence == 0 && s1.in_our_drive,
{
}

} // verus!
