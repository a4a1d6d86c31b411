//! The loading-portrait window: the state that lives for one loading screen's portrait pipeline
//! (generation, pins, spared renderer, kick identity, animation binding, tear baseline, motion
//! history and the window's counters), its reset at the window's close, and the consume step that
//! judges a keyed frame and publishes it into the bridge only when every gate passed.

use vstd::prelude::*;
use crate::bridge::{spec_frame_masked, PortraitBridge, PublishedPortrait};
use crate::portrait_shared::{
    invalidate_portrait_depth_mask, loading_portrait_drop_published_bridge, spec_bridge_dropped,
    spec_inc, spec_window_failure_noted, BridgeHoldState, DepthMaskCache, WindowFailure,
    WindowPublishCounts, WindowPublishFailures,
};
use crate::portrait_worker::{
    portrait_mask_share, portrait_publish_class, portrait_publish_frame, spec_mask_share,
    spec_tear_limit, ConsumeRoute, MaskShare, MotionHistory, PublishClass, TearBaseline,
    TearVerdict, PORTRAIT_TEAR_SCORE_MAX,
};

verus! {

/// A counter bumped the way an atomic `fetch_add(1)` bumps it: wrapping at the top.
fn bump(x: usize) -> (y: usize)
    ensures
        y == spec_inc(x),
{
    if x == usize::MAX {
        0
    } else {
        x + 1
    }
}

/// One loading-portrait window's state.
pub struct PortraitWindowState {
    /// Bumped by every reset: a frame whose job carries an older generation belongs to a closed
    /// window and is never pinned or published.
    pub pipeline_gen: usize,
    /// A keyed frame has been published this window.
    pub bake_rgba_captured: bool,
    /// Our loading-screen renderer table owns the renderer.
    pub loadscreen_table_owned: bool,
    /// The pinned content render target (0 = none).
    pub rt_pin: usize,
    /// The depth pin and the cached depth mask.
    pub depth_mask: DepthMaskCache,
    /// The window's adaptive tear baseline.
    pub tear: TearBaseline,
    /// The renderer spared from the teardown (0 = none).
    pub spared_renderer: usize,
    /// A spared renderer a reset released, left for the teardown to reclaim.
    pub spare_orphan: usize,
    pub spare_candidate: usize,
    /// The idle-animation binding and the (renderer, holder) pair it was made on.
    pub anim_bind_state: usize,
    pub anim_bound_renderer: usize,
    pub anim_bound_holder: usize,
    /// The build kick's identity: slot key and renderer.
    pub kick_slot_key: usize,
    pub kick_renderer: usize,
    /// The window's committed target slot (0 = none).
    pub window_target_slot: usize,
    /// The target character's name hash (0 = unknown).
    pub target_name_hash: usize,
    /// The motion and flicker gauges.
    pub motion: MotionHistory,
    /// Frames the drive animated, frames displayed and render-target copies, this window.
    pub drive_frames: usize,
    pub display_frames: usize,
    pub rt_srv_copies: usize,
    /// The closed window's drive and display counts.
    pub drive_frames_last: usize,
    pub display_frames_last: usize,
    /// The display frame at which the first keyed frame was published (`usize::MAX` = none yet),
    /// and the closed window's (0 = none).
    pub first_keyed_display: usize,
    pub first_keyed_display_last: usize,
    /// The smallest keyed share published and the largest partial share held back
    /// (`usize::MAX` and 0 = none).
    pub publish_share_min: usize,
    pub lowmask_share_max: usize,
    /// Frames published this window.
    pub publish_clean_window: usize,
    /// The last frame's skip class (0 = published).
    pub last_skip_class: usize,
}

/// What a window reset read off the window it closed.
#[derive(Debug, Clone, Copy, PartialEq, Eq, Structural)]
pub struct WindowClose {
    pub drive_frames: usize,
    pub display_frames: usize,
    pub rt_srv_copies: usize,
    /// The display frame of the first keyed publish, when there was one.
    pub first_keyed_display: Option<usize>,
    /// The smallest keyed share published, when anything was.
    pub publish_share_min: Option<usize>,
    pub lowmask_share_max: usize,
    /// The spared renderer the reset released, when there was one.
    pub released_spare: Option<usize>,
}

/// The state a reset leaves: every per-window field back at its start, the generation bumped, the
/// closed window's counts kept as its last, and the released spare handed to the orphan slot.
/// The motion gauges' running values survive; only their previous frame is dropped.
pub open spec fn spec_window_after_reset(after: &PortraitWindowState, before: &PortraitWindowState) -> bool {
    &&& after.pipeline_gen == spec_inc(before.pipeline_gen)
    &&& !after.bake_rgba_captured
    &&& !after.loadscreen_table_owned
    &&& after.rt_pin == 0
    &&& after.depth_mask.depth_pin == 0
    &&& !after.depth_mask.has_mask
    &&& after.depth_mask.incarnation == 0
    &&& after.tear.ema == 0
    &&& after.spared_renderer == 0
    &&& after.spare_orphan == (if before.spared_renderer != 0 {
        before.spared_renderer
    } else {
        before.spare_orphan
    })
    &&& after.spare_candidate == 0
    &&& after.anim_bind_state == 0
    &&& after.anim_bound_renderer == 0
    &&& after.anim_bound_holder == 0
    &&& after.kick_slot_key == 0
    &&& after.kick_renderer == 0
    &&& after.window_target_slot == 0
    &&& after.target_name_hash == 0
    &&& after.motion.prev is None
    &&& after.motion.flicker_last == before.motion.flicker_last
    &&& after.motion.flicker_max == before.motion.flicker_max
    &&& after.motion.motion_last == before.motion.motion_last
    &&& after.motion.motion_max == before.motion.motion_max
    &&& after.drive_frames == 0
    &&& after.display_frames == 0
    &&& after.rt_srv_copies == 0
    &&& after.drive_frames_last == before.drive_frames
    &&& after.display_frames_last == before.display_frames
    &&& after.first_keyed_display == usize::MAX
    &&& after.first_keyed_display_last == (if before.first_keyed_display == usize::MAX {
        0
    } else {
        before.first_keyed_display
    })
    &&& after.publish_share_min == usize::MAX
    &&& after.lowmask_share_max == 0
    &&& after.publish_clean_window == 0
    &&& after.last_skip_class == 0
}

/// What a reset reports of the window it closed.
pub open spec fn spec_window_close(before: &PortraitWindowState) -> WindowClose {
    WindowClose {
        drive_frames: before.drive_frames,
        display_frames: before.display_frames,
        rt_srv_copies: before.rt_srv_copies,
        first_keyed_display: if before.first_keyed_display == usize::MAX {
            None
        } else {
            Some(before.first_keyed_display)
        },
        publish_share_min: if before.publish_share_min == usize::MAX {
            None
        } else {
            Some(before.publish_share_min)
        },
        lowmask_share_max: before.lowmask_share_max,
        released_spare: if before.spared_renderer != 0 {
            Some(before.spared_renderer)
        } else {
            None
        },
    }
}

impl PortraitWindowState {
    /// The state before any window: generation 0, nothing pinned, spared, bound or counted.
    pub fn new() -> (s: Self)
        ensures
            s.pipeline_gen == 0,
            !s.bake_rgba_captured,
            !s.loadscreen_table_owned,
            s.rt_pin == 0,
            s.depth_mask.depth_pin == 0 && !s.depth_mask.has_mask && s.depth_mask.incarnation == 0,
            s.tear.ema == 0,
            s.spared_renderer == 0 && s.spare_orphan == 0 && s.spare_candidate == 0,
            s.anim_bind_state == 0 && s.anim_bound_renderer == 0 && s.anim_bound_holder == 0,
            s.kick_slot_key == 0 && s.kick_renderer == 0,
            s.window_target_slot == 0 && s.target_name_hash == 0,
            s.motion.prev is None,
            s.motion.flicker_last == 0 && s.motion.flicker_max == 0,
            s.motion.motion_last == 0 && s.motion.motion_max == 0,
            s.drive_frames == 0 && s.display_frames == 0 && s.rt_srv_copies == 0,
            s.drive_frames_last == 0 && s.display_frames_last == 0,
            s.first_keyed_display == usize::MAX && s.first_keyed_display_last == 0,
            s.publish_share_min == usize::MAX && s.lowmask_share_max == 0,
            s.publish_clean_window == 0 && s.last_skip_class == 0,
    {
        PortraitWindowState {
            pipeline_gen: 0,
            bake_rgba_captured: false,
            loadscreen_table_owned: false,
            rt_pin: 0,
            depth_mask: DepthMaskCache { depth_pin: 0, has_mask: false, incarnation: 0 },
            tear: TearBaseline::new(),
            spared_renderer: 0,
            spare_orphan: 0,
            spare_candidate: 0,
            anim_bind_state: 0,
            anim_bound_renderer: 0,
            anim_bound_holder: 0,
            kick_slot_key: 0,
            kick_renderer: 0,
            window_target_slot: 0,
            target_name_hash: 0,
            motion: MotionHistory::new(),
            drive_frames: 0,
            display_frames: 0,
            rt_srv_copies: 0,
            drive_frames_last: 0,
            display_frames_last: 0,
            first_keyed_display: usize::MAX,
            first_keyed_display_last: 0,
            publish_share_min: usize::MAX,
            lowmask_share_max: 0,
            publish_clean_window: 0,
            last_skip_class: 0,
        }
    }

    /// Closes the window's pipeline state: bumps the generation so frames still in flight are
    /// stale, drops the pins, the cached depth mask, the spared renderer (handing it to the orphan
    /// slot), the kick identity, the animation binding, the target slot and name hash and the
    /// previous motion frame, and restarts the window's counters, keeping the closed window's
    /// drive, display and first-keyed counts as its last. The bridge is the caller's part.
    pub fn reset(&mut self) -> (close: WindowClose)
        ensures
            spec_window_after_reset(final(self), old(self)),
            close == spec_window_close(old(self)),
    {
        let close = WindowClose {
            drive_frames: self.drive_frames,
            display_frames: self.display_frames,
            rt_srv_copies: self.rt_srv_copies,
            first_keyed_display: if self.first_keyed_display == usize::MAX {
                None
            } else {
                Some(self.first_keyed_display)
            },
            publish_share_min: if self.publish_share_min == usize::MAX {
                None
            } else {
                Some(self.publish_share_min)
            },
            lowmask_share_max: self.lowmask_share_max,
            released_spare: if self.spared_renderer != 0 {
                Some(self.spared_renderer)
            } else {
                None
            },
        };
        self.pipeline_gen = bump(self.pipeline_gen);
        self.bake_rgba_captured = false;
        self.loadscreen_table_owned = false;
        self.rt_pin = 0;
        invalidate_portrait_depth_mask(&mut self.depth_mask);
        self.tear.reset();
        if self.spared_renderer != 0 {
            self.spare_orphan = self.spared_renderer;
        }
        self.spared_renderer = 0;
        self.spare_candidate = 0;
        self.anim_bind_state = 0;
        self.anim_bound_renderer = 0;
        self.anim_bound_holder = 0;
        self.kick_slot_key = 0;
        self.kick_renderer = 0;
        self.window_target_slot = 0;
        self.target_name_hash = 0;
        self.motion.prev = None;
        self.drive_frames_last = self.drive_frames;
        self.display_frames_last = self.display_frames;
        self.drive_frames = 0;
        self.display_frames = 0;
        self.rt_srv_copies = 0;
        self.first_keyed_display_last = if self.first_keyed_display == usize::MAX {
            0
        } else {
            self.first_keyed_display
        };
        self.first_keyed_display = usize::MAX;
        self.publish_share_min = usize::MAX;
        self.lowmask_share_max = 0;
        self.publish_clean_window = 0;
        self.last_skip_class = 0;
        close
    }
}

/// What closing a window reported: what the reset read off the window, how many frames the window
/// published, and the publish-failure verdict of a window that drove frames but published none.
#[derive(Debug, Clone, Copy, PartialEq, Eq, Structural)]
pub struct WindowCloseReport {
    pub close: WindowClose,
    pub published: usize,
    pub failure: Option<WindowFailure>,
}

/// A whole window reset: the window's pipeline state is reset, and the published head is dropped
/// unless an outstanding provisional hold (a switch in flight) keeps it.
#[derive(Debug, Clone, Copy, PartialEq, Eq, Structural)]
pub struct WindowReset {
    /// The bridge was kept for an outstanding hold.
    pub held: bool,
    pub report: WindowCloseReport,
}

/// Closes a loading-portrait window. A window that drove frames but published none is judged by
/// its publish counts ([`WindowPublishFailures::note_window_close`]): its dominant skip cause is
/// recorded and the failure counted once, and the failure latch re-arms for the next window. Then
/// the pipeline state is reset ([`PortraitWindowState::reset`]) and, unless `hold_bridge`, the
/// published head and its crop envelope are dropped so a later window cannot flash the previous
/// character.
pub fn loading_portrait_window_reset_inner(
    window: &mut PortraitWindowState,
    bridge: &mut PortraitBridge,
    failures: &mut WindowPublishFailures,
    counts: &WindowPublishCounts,
    hold_bridge: bool,
) -> (report: WindowCloseReport)
    ensures
        spec_window_after_reset(final(window), old(window)),
        report.close == spec_window_close(old(window)),
        report.published == old(window).publish_clean_window,
        spec_window_failure_noted(
            *final(failures),
            *old(failures),
            report.failure,
            old(window).publish_clean_window,
            old(window).drive_frames,
            *counts,
        ),
        hold_bridge ==> *final(bridge) == *old(bridge),
        !hold_bridge ==> spec_bridge_dropped(final(bridge), old(bridge)),
{
    let published = window.publish_clean_window;
    let failure = failures.note_window_close(published, window.drive_frames, counts);
    if !hold_bridge {
        loading_portrait_drop_published_bridge(bridge);
    }
    let close = window.reset();
    WindowCloseReport { close, published, failure }
}

/// Closes a loading-portrait window at a normal close: the bridge is held exactly while a
/// provisional hold is outstanding.
pub fn loading_portrait_window_reset(
    window: &mut PortraitWindowState,
    bridge: &mut PortraitBridge,
    hold: &BridgeHoldState,
    failures: &mut WindowPublishFailures,
    counts: &WindowPublishCounts,
) -> (reset: WindowReset)
    ensures
        reset.held == (hold.provisional != 0),
        spec_window_after_reset(final(window), old(window)),
        reset.report.close == spec_window_close(old(window)),
        reset.report.published == old(window).publish_clean_window,
        spec_window_failure_noted(
            *final(failures),
            *old(failures),
            reset.report.failure,
            old(window).publish_clean_window,
            old(window).drive_frames,
            *counts,
        ),
        reset.held ==> *final(bridge) == *old(bridge),
        !reset.held ==> spec_bridge_dropped(final(bridge), old(bridge)),
{
    let held = hold.provisional != 0;
    let report = loading_portrait_window_reset_inner(window, bridge, failures, counts, held);
    WindowReset { held, report }
}

/// Resetting a window that was just reset changes nothing but the generation and the closed
/// window's counts: pins, spares, depth mask, kick identity, binding, target slot, name hash,
/// motion frame, per-window counters and, without a hold, the dropped bridge all stay as the first
/// reset left them. Frames in flight across either reset are stale.
pub proof fn lemma_window_reset_idempotent(
    w0: PortraitWindowState,
    w1: PortraitWindowState,
    w2: PortraitWindowState,
    b0: PortraitBridge,
    b1: PortraitBridge,
    b2: PortraitBridge,
)
    requires
        spec_window_after_reset(&w1, &w0),
        spec_window_after_reset(&w2, &w1),
        spec_bridge_dropped(&b1, &b0),
        spec_bridge_dropped(&b2, &b1),
    ensures
        w2.pipeline_gen == spec_inc(w1.pipeline_gen),
        w2.pipeline_gen != w1.pipeline_gen,
        w2.bake_rgba_captured == w1.bake_rgba_captured,
        w2.loadscreen_table_owned == w1.loadscreen_table_owned,
        w2.rt_pin == w1.rt_pin,
        w2.depth_mask == w1.depth_mask,
        w2.tear == w1.tear,
        w2.spared_renderer == w1.spared_renderer,
        w2.spare_orphan == w1.spare_orphan,
        w2.spare_candidate == w1.spare_candidate,
        w2.anim_bind_state == w1.anim_bind_state,
        w2.anim_bound_renderer == w1.anim_bound_renderer,
        w2.anim_bound_holder == w1.anim_bound_holder,
        w2.kick_slot_key == w1.kick_slot_key,
        w2.kick_renderer == w1.kick_renderer,
        w2.window_target_slot == w1.window_target_slot,
        w2.target_name_hash == w1.target_name_hash,
        w2.motion.prev == w1.motion.prev,
        w2.drive_frames == w1.drive_frames,
        w2.display_frames == w1.display_frames,
        w2.rt_srv_copies == w1.rt_srv_copies,
        w2.first_keyed_display == w1.first_keyed_display,
        w2.publish_share_min == w1.publish_share_min,
        w2.lowmask_share_max == w1.lowmask_share_max,
        w2.publish_clean_window == w1.publish_clean_window,
        w2.last_skip_class == w1.last_skip_class,
        b2 == b1,
{
}

/// The skip class a frame's publish class records: 0 published, 1 torn, 2 unkeyed, 3 bad IoU,
/// 4 low mask.
pub open spec fn spec_skip_class(class: PublishClass) -> usize {
    match class {
        PublishClass::Publish => 0,
        PublishClass::Torn => 1,
        PublishClass::Unkeyed => 2,
        PublishClass::BadIou => 3,
        PublishClass::LowMask => 4,
    }
}

/// What the consume gates made of a keyed frame.
#[derive(Debug, Clone, Copy, PartialEq, Eq, Structural)]
pub struct ConsumeJudgement {
    pub share: MaskShare,
    pub tear: TearVerdict,
    pub class: PublishClass,
}

/// The publish gates in order over the mask share, the tear verdict and the IoU bar.
pub open spec fn spec_consume_class(share: MaskShare, clean: bool, iou_ok: bool) -> PublishClass {
    if share.keyed && clean && iou_ok {
        PublishClass::Publish
    } else if share.keyed && clean {
        PublishClass::BadIou
    } else if share.keyed {
        PublishClass::Torn
    } else if share.partial {
        PublishClass::LowMask
    } else {
        PublishClass::Unkeyed
    }
}

/// A keyed mask share passes the bridge's own admission rule.
proof fn lemma_keyed_share_is_masked(pixels: Seq<u8>)
    requires
        spec_mask_share(pixels).keyed,
    ensures
        spec_frame_masked(pixels),
{
}

/// Judges a keyed frame (after the depth key): its mask share, its tear score against the
/// window's baseline (an accepted frame moves the baseline), and the publish class. The window's
/// share evidence follows: the smallest keyed share and the largest partial share.
pub fn portrait_consume_judge(
    window: &mut PortraitWindowState,
    pixels: &[u8],
    tear: usize,
    tear_threshold: usize,
    iou_ok: bool,
) -> (judgement: ConsumeJudgement)
    requires
        tear <= PORTRAIT_TEAR_SCORE_MAX,
        tear_threshold <= PORTRAIT_TEAR_SCORE_MAX,
        old(window).tear.ema <= PORTRAIT_TEAR_SCORE_MAX,
    ensures
        judgement.share == spec_mask_share(pixels@),
        judgement.tear.limit == spec_tear_limit(old(window).tear.ema as int, tear_threshold as int),
        judgement.tear.clean == (tear <= judgement.tear.limit),
        judgement.class == spec_consume_class(judgement.share, judgement.tear.clean, iou_ok),
        judgement.class is Publish ==> spec_frame_masked(pixels@),
        final(window).tear.ema <= PORTRAIT_TEAR_SCORE_MAX,
        judgement.tear.clean ==> final(window).tear.ema == crate::portrait_worker::spec_tear_ema_next(
            old(window).tear.ema as int,
            tear as int,
        ),
        !judgement.tear.clean ==> final(window).tear == old(window).tear,
        final(window).publish_share_min == if judgement.share.keyed && judgement.share.share_pct
            < old(window).publish_share_min {
            judgement.share.share_pct
        } else {
            old(window).publish_share_min
        },
        final(window).lowmask_share_max == if judgement.share.partial && judgement.share.share_pct
            > old(window).lowmask_share_max {
            judgement.share.share_pct
        } else {
            old(window).lowmask_share_max
        },
        ({
            let w0 = *old(window);
            let w1 = *final(window);
            &&& w1.pipeline_gen == w0.pipeline_gen
            &&& w1.bake_rgba_captured == w0.bake_rgba_captured
            &&& w1.kick_slot_key == w0.kick_slot_key
            &&& w1.target_name_hash == w0.target_name_hash
            &&& w1.display_frames == w0.display_frames
            &&& w1.first_keyed_display == w0.first_keyed_display
            &&& w1.publish_clean_window == w0.publish_clean_window
            &&& w1.last_skip_class == w0.last_skip_class
        }),
{
    let share = portrait_mask_share(pixels);
    if share.keyed {
        if share.share_pct < window.publish_share_min {
            window.publish_share_min = share.share_pct;
        }
    } else if share.partial {
        if share.share_pct > window.lowmask_share_max {
            window.lowmask_share_max = share.share_pct;
        }
    }
    let verdict = window.tear.judge(tear, tear_threshold);
    let class = portrait_publish_class(share.keyed, verdict.clean, iou_ok, share.partial);
    proof {
        if class is Publish {
            lemma_keyed_share_is_masked(pixels@);
        }
    }
    ConsumeJudgement { share, tear: verdict, class }
}

/// Publishes a judged frame. The frame reaches the bridge only when it was routed on (not the
/// checker, paired with the scene bundle, and of the current window's generation), its class is
/// `Publish` (keyed, clean, IoU), and the host's readiness note accepted it. The window records the
/// class and, for a publishing class, counts the publish and stamps the first keyed display frame;
/// a frame that reaches the bridge also latches the window's capture.
pub fn portrait_consume_publish(
    window: &mut PortraitWindowState,
    bridge: &mut PortraitBridge,
    hold: &mut BridgeHoldState,
    route: ConsumeRoute,
    class: PublishClass,
    ready: bool,
    frame: PublishedPortrait,
) -> (published: bool)
    requires
        class is Publish ==> spec_frame_masked(frame.pixels@),
    ensures
        published <==> (route is Proceed && class is Publish && ready),
        published ==> spec_frame_masked(frame.pixels@),
        route is Proceed ==> final(window).last_skip_class == spec_skip_class(class),
        !(route is Proceed) ==> *final(window) == *old(window),
        (route is Proceed && class is Publish) ==> {
            &&& final(window).publish_clean_window == spec_inc(old(window).publish_clean_window)
            &&& final(window).first_keyed_display == if old(window).first_keyed_display
                == usize::MAX {
                old(window).display_frames
            } else {
                old(window).first_keyed_display
            }
        },
        !(route is Proceed && class is Publish) ==> {
            &&& final(window).publish_clean_window == old(window).publish_clean_window
            &&& final(window).first_keyed_display == old(window).first_keyed_display
        },
        final(window).bake_rgba_captured == (old(window).bake_rgba_captured || published),
        published ==> {
            &&& final(bridge).rgba == Some(frame)
            &&& final(bridge).rgba_version == spec_inc(old(bridge).rgba_version)
            &&& final(bridge).published_slot == old(window).kick_slot_key
            &&& final(bridge).published_name_hash == old(window).target_name_hash
            &&& final(bridge).have_keyed_frame
            &&& final(bridge).crop == old(bridge).crop
            &&& final(hold).provisional == 0
            &&& final(hold).same_identity_holds == old(hold).same_identity_holds
            &&& final(hold).revocations == old(hold).revocations
            &&& final(hold).unproven == old(hold).unproven
        },
        !published ==> *final(bridge) == *old(bridge) && *final(hold) == *old(hold),
        ({
            let w0 = *old(window);
            let w1 = *final(window);
            &&& w1.pipeline_gen == w0.pipeline_gen
            &&& w1.kick_slot_key == w0.kick_slot_key
            &&& w1.target_name_hash == w0.target_name_hash
            &&& w1.tear == w0.tear
            &&& w1.display_frames == w0.display_frames
            &&& w1.publish_share_min == w0.publish_share_min
            &&& w1.lowmask_share_max == w0.lowmask_share_max
        }),
{
    if !(route == ConsumeRoute::Proceed) {
        return false;
    }
    window.last_skip_class = class.skip_class();
    let publishing = class == PublishClass::Publish;
    if publishing {
        window.publish_clean_window = bump(window.publish_clean_window);
        if window.first_keyed_display == usize::MAX {
            window.first_keyed_display = window.display_frames;
        }
    }
    if publishing && ready {
        portrait_publish_frame(bridge, hold, frame, window.kick_slot_key, window.target_name_hash);
        window.bake_rgba_captured = true;
        return true;
    }
    false
}

} // verus!
