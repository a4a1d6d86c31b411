//! The consume worker's decisions over one read-back portrait frame: whether it may reach the
//! mask at all, how much of it the mask cut, whether its tear score is clean against the window's
//! adaptive baseline, which publish or skip class it lands in, the motion and flicker gauges over a
//! coarse grid, and the publish itself into the bridge. Mapping staging buffers and running the
//! depth key are the caller's part.

use vstd::prelude::*;
use crate::bridge::{
    spec_frame_masked, spec_transparent_texels, PortraitBridge, PublishedPortrait, PORTRAIT_ALPHA_OPAQUE_MIN,
    PORTRAIT_MIN_TRANSPARENT_PCT,
};
use crate::portrait_shared::BridgeHoldState;

pub mod staging;

verus! {

/// Where a read-back frame goes before the mask.
#[derive(Debug, Clone, Copy, PartialEq, Eq, Structural)]
pub enum ConsumeRoute {
    /// The readback is the checker placeholder, not a render.
    Checker,
    /// Real content, but its colour source was resolved by the scan rather than the scene bundle:
    /// never pinned, never displayed.
    Unpaired,
    /// A window reset happened while the frame was in flight: it belongs to the previous window.
    Stale,
    /// Goes on to the pin, the mask and the publish gates.
    Proceed,
}

/// Routes a read-back frame: the checker placeholder first, then frames without scene-bundle
/// provenance, then frames whose pipeline generation is no longer current.
pub fn portrait_consume_route(
    is_checker: bool,
    color_from_bundle: bool,
    pipeline_gen_now: usize,
    job_pipeline_gen: usize,
) -> (route: ConsumeRoute)
    ensures
        route == if is_checker {
            ConsumeRoute::Checker
        } else if !color_from_bundle {
            ConsumeRoute::Unpaired
        } else if pipeline_gen_now != job_pipeline_gen {
            ConsumeRoute::Stale
        } else {
            ConsumeRoute::Proceed
        },
{
    if is_checker {
        ConsumeRoute::Checker
    } else if !color_from_bundle {
        ConsumeRoute::Unpaired
    } else if pipeline_gen_now != job_pipeline_gen {
        ConsumeRoute::Stale
    } else {
        ConsumeRoute::Proceed
    }
}

/// Pinning `candidate` over the previous pin is a move to a new content render target (a new
/// model): the depth mask and the motion history must be dropped.
pub fn rt_pin_moved(previous_pin: usize, candidate: usize) -> (moved: bool)
    ensures
        moved == (previous_pin != 0 && previous_pin != candidate),
{
    previous_pin != 0 && previous_pin != candidate
}

/// How much of a whole RGBA8 frame the mask cut.
#[derive(Debug, Clone, Copy, PartialEq, Eq, Structural)]
pub struct MaskShare {
    /// Whole texels, at least 1.
    pub total_px: usize,
    /// Texels under the opaque floor.
    pub transparent_px: usize,
    /// Transparent percent, rounded down.
    pub share_pct: usize,
    /// The share reaches the keyed floor.
    pub keyed: bool,
    /// Something was cut, but less than the floor.
    pub partial: bool,
}

/// The mask share of the RGBA8 frame `pixels`.
pub open spec fn spec_mask_share(pixels: Seq<u8>) -> MaskShare {
    let texels = pixels.len() / 4;
    let total = if texels > 1 {
        texels
    } else {
        1
    };
    let transparent = spec_transparent_texels(pixels, texels as int);
    let share = transparent * 100 / total;
    MaskShare {
        total_px: total as usize,
        transparent_px: transparent as usize,
        share_pct: share as usize,
        keyed: share >= PORTRAIT_MIN_TRANSPARENT_PCT,
        partial: !(share >= PORTRAIT_MIN_TRANSPARENT_PCT) && transparent > 0,
    }
}

/// How much of the frame the mask cut: the keyed floor is a minimum transparent share, and a
/// frame with some cut below it is a partial mask rather than an unkeyed one.
pub fn portrait_mask_share(pixels: &[u8]) -> (share: MaskShare)
    ensures
        share == spec_mask_share(pixels@),
{
    let len = pixels.len();
    let texels = len / 4;
    let mut transparent: usize = 0;
    let mut i: usize = 0;
    while i < texels
        invariant
            len == pixels@.len(),
            texels == pixels@.len() / 4,
            i <= texels,
            transparent == spec_transparent_texels(pixels@, i as int),
            transparent <= i,
        decreases texels - i,
    {
        assert(4 * i + 3 < pixels@.len()) by (nonlinear_arith)
            requires
                i < texels,
                texels == pixels@.len() / 4,
        ;
        if pixels[4 * i + 3] < PORTRAIT_ALPHA_OPAQUE_MIN {
            transparent = transparent + 1;
        }
        i = i + 1;
    }
    let total = if texels > 1 {
        texels
    } else {
        1
    };
    assert((transparent as int) * 100 / (total as int) <= 100) by (nonlinear_arith)
        requires
            transparent <= total,
            total >= 1,
    ;
    // Taken in 128 bits so that no buffer length can carry `transparent * 100` out of range.
    let share_pct = ((transparent as u128) * 100 / (total as u128)) as usize;
    let keyed = share_pct >= PORTRAIT_MIN_TRANSPARENT_PCT;
    MaskShare {
        total_px: total,
        transparent_px: transparent,
        share_pct,
        keyed,
        partial: !keyed && transparent > 0,
    }
}

/// The tear limit against the window's baseline: five times the absolute threshold for the
/// window's first frame, then twice the threshold or one more than twice the baseline, whichever
/// is larger.
pub open spec fn spec_tear_limit(ema: int, threshold: int) -> int {
    if ema == 0 {
        threshold * 5
    } else if threshold * 2 > ema * 2 + 1 {
        threshold * 2
    } else {
        ema * 2 + 1
    }
}

/// The baseline after an accepted frame scoring `tear`: the score itself for a window's first
/// frame (at least 1), then a 7/8 exponential average rounded up.
pub open spec fn spec_tear_ema_next(ema: int, tear: int) -> int {
    let t = if tear > 1 {
        tear
    } else {
        1
    };
    if ema == 0 {
        t
    } else {
        (ema * 7 + t + 7) / 8
    }
}

/// The window's adaptive tear baseline: an average over accepted frames only, so a real tear never
/// feeds it. 0 means no frame has been accepted this window.
#[derive(Debug, Clone, Copy, PartialEq, Eq, Structural)]
pub struct TearBaseline {
    pub ema: usize,
}

/// The tear gate's answer for one frame.
#[derive(Debug, Clone, Copy, PartialEq, Eq, Structural)]
pub struct TearVerdict {
    pub limit: usize,
    pub clean: bool,
}

/// Scores at most this are what the tear metric produces (a luma difference).
pub const PORTRAIT_TEAR_SCORE_MAX: usize = 0xffff;

impl TearBaseline {
    /// A window with no accepted frame.
    pub fn new() -> (baseline: Self)
        ensures
            baseline.ema == 0,
    {
        TearBaseline { ema: 0 }
    }

    /// Judges a frame's tear score against the baseline; an accepted (clean) frame moves the
    /// baseline, a torn one does not.
    pub fn judge(&mut self, tear: usize, threshold: usize) -> (verdict: TearVerdict)
        requires
            tear <= PORTRAIT_TEAR_SCORE_MAX,
            threshold <= PORTRAIT_TEAR_SCORE_MAX,
            old(self).ema <= PORTRAIT_TEAR_SCORE_MAX,
        ensures
            verdict.limit == spec_tear_limit(old(self).ema as int, threshold as int),
            verdict.clean == (tear <= verdict.limit),
            final(self).ema == if verdict.clean {
                spec_tear_ema_next(old(self).ema as int, tear as int)
            } else {
                old(self).ema as int
            },
            final(self).ema <= PORTRAIT_TEAR_SCORE_MAX,
    {
        let ema = self.ema;
        let limit = if ema == 0 {
            threshold * 5
        } else if threshold * 2 > ema * 2 + 1 {
            threshold * 2
        } else {
            ema * 2 + 1
        };
        let clean = tear <= limit;
        if clean {
            let t = if tear > 1 {
                tear
            } else {
                1
            };
            self.ema = if ema == 0 {
                t
            } else {
                (ema * 7 + t + 7) / 8
            };
        }
        TearVerdict { limit, clean }
    }

    /// A new window starts with no baseline.
    pub fn reset(&mut self)
        ensures
            final(self).ema == 0,
    {
        self.ema = 0;
    }
}

/// What the publish gates make of a frame.
#[derive(Debug, Clone, Copy, PartialEq, Eq, Structural)]
pub enum PublishClass {
    /// Keyed, clean and masked in the right place: published.
    Publish,
    /// Keyed and clean, but the mask is in the wrong place.
    BadIou,
    /// Keyed but torn.
    Torn,
    /// Something was cut, but less than the floor.
    LowMask,
    /// Nothing was cut.
    Unkeyed,
}

impl PublishClass {
    /// The skip class recorded for the window's attribution: 0 published, 1 torn, 2 unkeyed,
    /// 3 bad IoU, 4 low mask.
    pub fn skip_class(self) -> (class: usize)
        ensures
            class == match self {
                PublishClass::Publish => 0usize,
                PublishClass::Torn => 1usize,
                PublishClass::Unkeyed => 2usize,
                PublishClass::BadIou => 3usize,
                PublishClass::LowMask => 4usize,
            },
    {
        match self {
            PublishClass::Publish => 0,
            PublishClass::Torn => 1,
            PublishClass::Unkeyed => 2,
            PublishClass::BadIou => 3,
            PublishClass::LowMask => 4,
        }
    }
}

/// The publish gates in order: a frame must be keyed, then clean, then masked in the right place;
/// an unkeyed frame is a partial mask when something was cut.
pub fn portrait_publish_class(keyed: bool, clean: bool, iou_ok: bool, partial: bool) -> (class:
    PublishClass)
    ensures
        class == if keyed && clean && iou_ok {
            PublishClass::Publish
        } else if keyed && clean {
            PublishClass::BadIou
        } else if keyed {
            PublishClass::Torn
        } else if partial {
            PublishClass::LowMask
        } else {
            PublishClass::Unkeyed
        },
{
    if keyed && clean && iou_ok {
        PublishClass::Publish
    } else if keyed && clean {
        PublishClass::BadIou
    } else if keyed {
        PublishClass::Torn
    } else if partial {
        PublishClass::LowMask
    } else {
        PublishClass::Unkeyed
    }
}

/// Publishes a keyed, clean frame into the bridge: the frame must pass the bridge's own admission
/// rule (writers apply it as readers do). It replaces the published head, bumps the
/// version, carries the identity tag the build kick stamped, opens the "have a keyed frame" gate,
/// and supersedes any provisional hold -- this window now owns the bridge content.
pub fn portrait_publish_frame(
    bridge: &mut PortraitBridge,
    hold: &mut BridgeHoldState,
    frame: PublishedPortrait,
    kick_slot_key: usize,
    target_name_hash: usize,
)
    requires
        spec_frame_masked(frame.pixels@),
    ensures
        final(bridge).rgba == Some(frame),
        final(bridge).rgba_version == if old(bridge).rgba_version == usize::MAX {
            0
        } else {
            (old(bridge).rgba_version + 1) as usize
        },
        final(bridge).published_slot == kick_slot_key,
        final(bridge).published_name_hash == target_name_hash,
        final(bridge).have_keyed_frame,
        final(bridge).crop == old(bridge).crop,
        final(hold).provisional == 0,
        final(hold).same_identity_holds == old(hold).same_identity_holds,
        final(hold).revocations == old(hold).revocations,
        final(hold).unproven == old(hold).unproven,
{
    bridge.rgba = Some(frame);
    bridge.rgba_version = if bridge.rgba_version == usize::MAX {
        0
    } else {
        bridge.rgba_version + 1
    };
    bridge.published_slot = kick_slot_key;
    bridge.published_name_hash = target_name_hash;
    bridge.have_keyed_frame = true;
    hold.provisional = 0;
}

/// The confirm-to-publish latency, measured once per confirm: `None` when no confirm is pending.
pub fn confirm_to_publish_latency(confirm_ms: usize, now_ms: u64) -> (latency: Option<usize>)
    ensures
        confirm_ms == 0 ==> latency is None,
        confirm_ms != 0 ==> latency == Some(({
            let now = if now_ms > 1 {
                now_ms as usize
            } else {
                1usize
            };
            if now >= confirm_ms {
                (now - confirm_ms) as usize
            } else {
                0usize
            }
        })),
{
    if confirm_ms == 0 {
        return None;
    }
    #[verifier::truncate]
    let now = if now_ms > 1 {
        now_ms as usize
    } else {
        1usize
    };
    Some(
        if now >= confirm_ms {
            now - confirm_ms
        } else {
            0
        },
    )
}

/// Side of the coarse grid the motion and flicker gauges sample.
pub const MOTION_GRID: usize = 32;

/// The texel grid cell `(gx, gy)` of a `w` x `h` frame samples.
pub open spec fn spec_grid_texel(w: int, h: int, gx: int, gy: int) -> int {
    (gy * h / 32) * w + gx * w / 32
}

/// Integer luma of an RGB triple (30/59/11 weights).
pub open spec fn spec_luma(r: u8, g: u8, b: u8) -> u8 {
    ((r * 30 + g * 59 + b * 11) / 100) as u8
}

/// The coarse alpha and luma planes of one frame, row-major over the grid.
#[derive(Debug, Clone)]
pub struct MotionPlanes {
    pub alpha: Vec<u8>,
    pub luma: Vec<u8>,
    /// Some grid cell is under the opaque floor: the frame carries a real cutout.
    pub keyed: bool,
}

/// `planes` is the grid sampling of the `w` x `h` frame `cpx`.
pub open spec fn spec_planes_of(planes: MotionPlanes, w: int, h: int, cpx: Seq<u8>) -> bool {
    &&& planes.alpha@.len() == MOTION_GRID * MOTION_GRID
    &&& planes.luma@.len() == MOTION_GRID * MOTION_GRID
    &&& forall|gy: int, gx: int|
        0 <= gy < 32 && 0 <= gx < 32 ==> {
            let p = spec_grid_texel(w, h, gx, gy) * 4;
            &&& #[trigger] planes.alpha@[gy * 32 + gx] == cpx[p + 3]
            &&& planes.luma@[gy * 32 + gx] == spec_luma(cpx[p], cpx[p + 1], cpx[p + 2])
        }
    &&& planes.keyed == exists|i: int|
        0 <= i < planes.alpha@.len() && #[trigger] planes.alpha@[i] < PORTRAIT_ALPHA_OPAQUE_MIN
}

/// Samples the frame's alpha and luma on a 32x32 grid; `None` for a frame smaller than the grid
/// or a short buffer. Motion is judged on the depth-keyed alpha silhouette (immune to the lighting,
/// which changes every frame); the luma plane is the flicker gauge.
#[verifier::spinoff_prover]
#[verifier::rlimit(40)]
pub fn portrait_motion_planes(cw: u32, ch: u32, cpx: &[u8]) -> (planes: Option<MotionPlanes>)
    requires
        (cw as int) * (ch as int) * 4 <= usize::MAX,
    ensures
        planes is Some <==> (cw >= 32 && ch >= 32 && cpx@.len() >= (cw as int) * (ch as int) * 4),
        planes matches Some(p) ==> spec_planes_of(p, cw as int, ch as int, cpx@),
{
    let w = cw as usize;
    let h = ch as usize;
    if w < MOTION_GRID || h < MOTION_GRID || cpx.len() < w * h * 4 {
        return None;
    }
    let ghost wi = cw as int;
    let ghost hi = ch as int;
    let n = cpx.len();
    let mut alpha: Vec<u8> = Vec::new();
    let mut luma: Vec<u8> = Vec::new();
    let mut keyed = false;
    let mut gy: usize = 0;
    while gy < MOTION_GRID
        invariant
            w == wi,
            h == hi,
            wi == cw as int,
            hi == ch as int,
            32 <= w,
            32 <= h,
            n == cpx@.len(),
            w * h * 4 <= n,
            gy <= 32,
            alpha@.len() == gy * 32,
            luma@.len() == gy * 32,
            forall|k: int|
                0 <= k < alpha@.len() ==> {
                    let p = spec_grid_texel(wi, hi, k % 32, k / 32) * 4;
                    &&& #[trigger] alpha@[k] == cpx@[p + 3]
                    &&& luma@[k] == spec_luma(cpx@[p], cpx@[p + 1], cpx@[p + 2])
                },
            keyed == exists|i: int| 0 <= i < alpha@.len() && #[trigger] alpha@[i]
                < PORTRAIT_ALPHA_OPAQUE_MIN,
        decreases 32 - gy,
    {
        let mut gx: usize = 0;
        while gx < MOTION_GRID
            invariant
                w == wi,
                h == hi,
                32 <= w,
                32 <= h,
                n == cpx@.len(),
                w * h * 4 <= n,
                gy < 32,
                gx <= 32,
                alpha@.len() == gy * 32 + gx,
                luma@.len() == gy * 32 + gx,
                forall|k: int|
                    0 <= k < alpha@.len() ==> {
                        let p = spec_grid_texel(wi, hi, k % 32, k / 32) * 4;
                        &&& #[trigger] alpha@[k] == cpx@[p + 3]
                        &&& luma@[k] == spec_luma(cpx@[p], cpx@[p + 1], cpx@[p + 2])
                    },
                keyed == exists|i: int| 0 <= i < alpha@.len() && #[trigger] alpha@[i]
                    < PORTRAIT_ALPHA_OPAQUE_MIN,
            decreases 32 - gx,
        {
            proof {
                assert(gy * h <= w * h && gx * w <= w * h) by (nonlinear_arith)
                    requires
                        gy < 32,
                        gx < 32,
                        32 <= w,
                        32 <= h,
                ;
                assert(gy * h / 32 < h) by (nonlinear_arith)
                    requires
                        gy < 32,
                        h >= 32,
                ;
                assert(gx * w / 32 < w) by (nonlinear_arith)
                    requires
                        gx < 32,
                        w >= 32,
                ;
                assert(((gy * h / 32) * w + gx * w / 32) * 4 + 3 < w * h * 4) by (nonlinear_arith)
                    requires
                        gy * h / 32 < h,
                        gx * w / 32 < w,
                        w >= 32,
                ;
            }
            let row = gy * h / MOTION_GRID;
            let col = gx * w / MOTION_GRID;
            let p = (row * w + col) * 4;
            let r = cpx[p] as u32;
            let g = cpx[p + 1] as u32;
            let b = cpx[p + 2] as u32;
            let l = ((r * 30 + g * 59 + b * 11) / 100) as u8;
            let a = cpx[p + 3];
            let ghost before_alpha = alpha@;
            let ghost before_luma = luma@;
            let ghost k_new = gy * 32 + gx;
            proof {
                assert(k_new % 32 == gx as int && k_new / 32 == gy as int) by (nonlinear_arith)
                    requires
                        k_new == gy * 32 + gx,
                        gx < 32,
                ;
                assert(p == spec_grid_texel(wi, hi, k_new % 32, k_new / 32) * 4);
                assert(l == spec_luma(cpx@[p as int], cpx@[p + 1], cpx@[p + 2]));
                assert(a == cpx@[p + 3]);
            }
            alpha.push(a);
            luma.push(l);
            if a < PORTRAIT_ALPHA_OPAQUE_MIN {
                keyed = true;
            }
            proof {
                assert forall|k: int| 0 <= k < alpha@.len() implies {
                    let q = spec_grid_texel(wi, hi, k % 32, k / 32) * 4;
                    &&& #[trigger] alpha@[k] == cpx@[q + 3]
                    &&& luma@[k] == spec_luma(cpx@[q], cpx@[q + 1], cpx@[q + 2])
                } by {
                    if k < before_alpha.len() {
                        assert(alpha@[k] == before_alpha[k]);
                        assert(luma@[k] == before_luma[k]);
                    } else {
                        assert(k == k_new);
                        assert(alpha@[k] == a);
                        assert(luma@[k] == l);
                    }
                }
                if !keyed {
                    assert forall|i: int| 0 <= i < alpha@.len() implies !(#[trigger] alpha@[i]
                        < PORTRAIT_ALPHA_OPAQUE_MIN) by {
                        if i < before_alpha.len() {
                            assert(alpha@[i] == before_alpha[i]);
                        }
                    }
                } else if a < PORTRAIT_ALPHA_OPAQUE_MIN {
                    assert(alpha@[k_new] < PORTRAIT_ALPHA_OPAQUE_MIN);
                } else {
                    let j = choose|i: int| 0 <= i < before_alpha.len() && #[trigger] before_alpha[i]
                        < PORTRAIT_ALPHA_OPAQUE_MIN;
                    assert(alpha@[j] == before_alpha[j]);
                }
            }
            gx = gx + 1;
        }
        gy = gy + 1;
    }
    let planes = MotionPlanes { alpha, luma, keyed };
    assert forall|qy: int, qx: int| 0 <= qy < 32 && 0 <= qx < 32 implies {
        let p = spec_grid_texel(cw as int, ch as int, qx, qy) * 4;
        &&& #[trigger] planes.alpha@[qy * 32 + qx] == cpx@[p + 3]
        &&& planes.luma@[qy * 32 + qx] == spec_luma(cpx@[p], cpx@[p + 1], cpx@[p + 2])
    } by {
        let k = qy * 32 + qx;
        assert(k % 32 == qx && k / 32 == qy) by (nonlinear_arith)
            requires
                k == qy * 32 + qx,
                0 <= qx < 32,
                0 <= qy,
        ;
        assert(0 <= k < 1024) by (nonlinear_arith)
            requires
                k == qy * 32 + qx,
                0 <= qx < 32,
                0 <= qy < 32,
        ;
        assert(planes.alpha@[k] == planes.alpha@[k]);
    }
    Some(planes)
}

/// Sum of absolute differences over the first `n` entries.
pub open spec fn spec_abs_diff_sum(a: Seq<u8>, b: Seq<u8>, n: int) -> nat
    decreases n,
{
    if n <= 0 {
        0
    } else {
        spec_abs_diff_sum(a, b, n - 1) + (if a[n - 1] >= b[n - 1] {
            a[n - 1] - b[n - 1]
        } else {
            b[n - 1] - a[n - 1]
        }) as nat
    }
}

/// Mean absolute difference of two planes, in thousandths of a level.
pub open spec fn spec_mad(a: Seq<u8>, b: Seq<u8>) -> int {
    (spec_abs_diff_sum(a, b, a.len() as int) * 1000) as int / (a.len() as int)
}

proof fn lemma_abs_diff_sum_bound(a: Seq<u8>, b: Seq<u8>, n: int)
    requires
        0 <= n,
    ensures
        spec_abs_diff_sum(a, b, n) <= 255 * n,
    decreases n,
{
    if n > 0 {
        lemma_abs_diff_sum_bound(a, b, n - 1);
    }
}

/// The mean absolute difference of two equally sized planes, in thousandths of a level.
pub fn plane_mad(a: &[u8], b: &[u8]) -> (mad: usize)
    requires
        a@.len() == b@.len(),
        0 < a@.len() <= 0x1_0000,
    ensures
        mad == spec_mad(a@, b@),
{
    let n = a.len();
    let mut sum: u64 = 0;
    let mut i: usize = 0;
    while i < n
        invariant
            n == a@.len(),
            n == b@.len(),
            n <= 0x1_0000,
            i <= n,
            sum == spec_abs_diff_sum(a@, b@, i as int),
        decreases n - i,
    {
        proof {
            lemma_abs_diff_sum_bound(a@, b@, i as int);
        }
        let d = if a[i] >= b[i] {
            a[i] - b[i]
        } else {
            b[i] - a[i]
        };
        sum = sum + d as u64;
        i = i + 1;
    }
    proof {
        lemma_abs_diff_sum_bound(a@, b@, n as int);
        assert(sum * 1000 / (n as int) <= 255 * 1000) by (nonlinear_arith)
            requires
                sum <= 255 * n,
                n > 0,
        ;
    }
    (sum * 1000 / (n as u64)) as usize
}

/// The motion and flicker gauges: each frame's planes against the previous frame's.
#[derive(Debug, Clone)]
pub struct MotionHistory {
    /// The previous frame's planes, `None` at the start of a window or after a model switch.
    pub prev: Option<MotionPlanes>,
    pub flicker_last: usize,
    pub flicker_max: usize,
    pub motion_last: usize,
    pub motion_max: usize,
}

impl MotionHistory {
    /// No history yet.
    pub fn new() -> (h: Self)
        ensures
            h.prev is None,
            h.flicker_last == 0 && h.flicker_max == 0 && h.motion_last == 0 && h.motion_max == 0,
    {
        MotionHistory { prev: None, flicker_last: 0, flicker_max: 0, motion_last: 0, motion_max: 0 }
    }

    /// Folds a frame's planes in: flicker is the luma change since the previous frame; motion is
    /// the alpha change, judged only when both frames carry a real cutout. The frame becomes the
    /// previous one.
    pub fn observe(&mut self, planes: MotionPlanes)
        requires
            planes.alpha@.len() == 1024,
            planes.luma@.len() == 1024,
            old(self).prev matches Some(p) ==> p.alpha@.len() == 1024 && p.luma@.len() == 1024,
        ensures
            final(self).prev == Some(planes),
            old(self).prev is None ==> {
                &&& final(self).flicker_last == old(self).flicker_last
                &&& final(self).flicker_max == old(self).flicker_max
                &&& final(self).motion_last == old(self).motion_last
                &&& final(self).motion_max == old(self).motion_max
            },
            old(self).prev matches Some(p) ==> {
                let flicker = spec_mad(p.luma@, planes.luma@);
                let motion = spec_mad(p.alpha@, planes.alpha@);
                &&& final(self).flicker_last == flicker
                &&& final(self).flicker_max == if flicker > old(self).flicker_max {
                    flicker
                } else {
                    old(self).flicker_max as int
                }
                &&& (planes.keyed && p.keyed) ==> {
                    &&& final(self).motion_last == motion
                    &&& final(self).motion_max == if motion > old(self).motion_max {
                        motion
                    } else {
                        old(self).motion_max as int
                    }
                }
                &&& !(planes.keyed && p.keyed) ==> {
                    &&& final(self).motion_last == old(self).motion_last
                    &&& final(self).motion_max == old(self).motion_max
                }
            },
    {
        match &self.prev {
            Some(p) => {
                let flicker = plane_mad(p.luma.as_slice(), planes.luma.as_slice());
                self.flicker_last = flicker;
                if flicker > self.flicker_max {
                    self.flicker_max = flicker;
                }
                if planes.keyed && p.keyed {
                    let motion = plane_mad(p.alpha.as_slice(), planes.alpha.as_slice());
                    self.motion_last = motion;
                    if motion > self.motion_max {
                        self.motion_max = motion;
                    }
                }
            },
            None => {},
        }
        self.prev = Some(planes);
    }
}

} // verus!
