//! Character-portrait compositor: a pure-CPU, nearest-neighbour, alpha-over scale-blit of the
//! published, alpha-keyed head onto an overlay's full-frame RGBA buffer. One strided pass over the
//! source's alpha finds the head's bounding box and the transparent share the mask gate judges; a
//! crop envelope seeded from the first frames of a window and then frozen keeps the head's rect
//! still while it sways inside it.

use vstd::prelude::*;
use vstd::arithmetic::div_mod::lemma_fundamental_div_mod_converse;
use crate::bridge::{
    spec_mask_share_ok, PortraitBridge, PublishedPortrait, PORTRAIT_ALPHA_OPAQUE_MIN,
    PORTRAIT_MIN_TRANSPARENT_PCT,
};

verus! {

/// Frames whose bounding box is folded into the crop envelope before it freezes.
pub const PORTRAIT_CROP_SEED_N: usize = 40;

/// Alpha above which a sampled texel belongs to the head's bounding box.
pub const PORTRAIT_ALPHA_BOX_MIN: u8 = 8;

/// The bounding-box scan samples every third column of every third row.
pub const PORTRAIT_SCAN_STRIDE: usize = 3;

/// The head's height on screen: 80% of the screen's, at least one row.
pub open spec fn spec_dst_h(h: int) -> int {
    spec_max(h * 80 / 100, 1)
}

/// The compositor's arithmetic stays inside `usize` for a `sw` x `sh` source on a `w` x `h`
/// screen, whatever the crop envelope holds: the crop's cover percentage, the head's height, its
/// width from the crop's aspect, and the source row and column each destination texel samples.
pub open spec fn spec_sizes_fit(sw: int, sh: int, w: int, h: int) -> bool {
    &&& sw * sh * 100 <= usize::MAX
    &&& h * 80 <= usize::MAX
    &&& spec_dst_h(h) * sw <= usize::MAX
    &&& spec_dst_h(h) * sh <= usize::MAX
    &&& w * sw <= usize::MAX
}

/// Alpha byte of texel `(x, y)` of a `sw`-wide RGBA8 image.
pub open spec fn spec_alpha(spx: Seq<u8>, sw: int, x: int, y: int) -> u8 {
    spx[(y * sw + x) * 4 + 3]
}

/// `(x, y)` is one of the scan's sample points.
pub open spec fn spec_sampled(sw: int, sh: int, x: int, y: int) -> bool {
    0 <= x < sw && 0 <= y < sh && x % 3 == 0 && y % 3 == 0
}

/// `(x, y)` is a sample point whose alpha puts it in the head's bounding box.
pub open spec fn spec_visible(spx: Seq<u8>, sw: int, sh: int, x: int, y: int) -> bool {
    spec_sampled(sw, sh, x, y) && spec_alpha(spx, sw, x, y) > PORTRAIT_ALPHA_BOX_MIN
}

/// Sample points of row `y` below column `x` whose alpha is under the opaque floor.
pub open spec fn spec_row_transparent(spx: Seq<u8>, sw: int, y: int, x: int) -> nat
    decreases x,
{
    if x <= 0 {
        0
    } else {
        spec_row_transparent(spx, sw, y, x - 1) + if (x - 1) % 3 == 0 && x - 1 < sw
            && spec_alpha(spx, sw, x - 1, y) < PORTRAIT_ALPHA_OPAQUE_MIN {
            1nat
        } else {
            0nat
        }
    }
}

/// Sample points in the rows below `y` whose alpha is under the opaque floor.
pub open spec fn spec_transparent_samples(spx: Seq<u8>, sw: int, sh: int, y: int) -> nat
    decreases y,
{
    if y <= 0 {
        0
    } else {
        spec_transparent_samples(spx, sw, sh, y - 1) + if (y - 1) % 3 == 0 && y - 1 < sh {
            spec_row_transparent(spx, sw, y - 1, sw)
        } else {
            0nat
        }
    }
}

/// Number of sample points of a `sw` x `sh` image.
pub open spec fn spec_sample_count(sw: int, sh: int) -> int {
    ((sw + 2) / 3) * ((sh + 2) / 3)
}

/// The strided alpha pass over the source: the head's bounding box and the mask-gate evidence.
#[derive(Debug, Clone, Copy, PartialEq, Eq, Structural)]
pub struct AlphaScan {
    /// Some sample point lies in the head's bounding box.
    pub any: bool,
    /// The box: smallest and largest column and row of such a sample point.
    pub minx: usize,
    pub miny: usize,
    pub maxx: usize,
    pub maxy: usize,
    /// Sample points read.
    pub counted: usize,
    /// Sample points under the opaque floor.
    pub transparent: usize,
}

/// `scan` is the alpha pass over the `sw` x `sh` image `spx`.
pub open spec fn spec_scan_of(scan: AlphaScan, spx: Seq<u8>, sw: int, sh: int) -> bool {
    &&& scan.counted == spec_sample_count(sw, sh)
    &&& scan.transparent == spec_transparent_samples(spx, sw, sh, sh)
    &&& scan.any == exists|x: int, y: int| spec_visible(spx, sw, sh, x, y)
    &&& scan.any ==> {
        &&& forall|x: int, y: int|
            spec_visible(spx, sw, sh, x, y) ==> scan.minx <= x <= scan.maxx && scan.miny <= y
                <= scan.maxy
        &&& exists|y: int| spec_visible(spx, sw, sh, scan.minx as int, y)
        &&& exists|y: int| spec_visible(spx, sw, sh, scan.maxx as int, y)
        &&& exists|x: int| spec_visible(spx, sw, sh, x, scan.miny as int)
        &&& exists|x: int| spec_visible(spx, sw, sh, x, scan.maxy as int)
    }
}

proof fn lemma_row_transparent_step(spx: Seq<u8>, sw: int, y: int, x: int)
    requires
        x >= 0,
        x % 3 == 0,
    ensures
        spec_row_transparent(spx, sw, y, x + 3) == spec_row_transparent(spx, sw, y, x) + if x < sw
            && spec_alpha(spx, sw, x, y) < PORTRAIT_ALPHA_OPAQUE_MIN {
            1nat
        } else {
            0nat
        },
{
    assert(spec_row_transparent(spx, sw, y, x + 1) == spec_row_transparent(spx, sw, y, x) + if x
        < sw && spec_alpha(spx, sw, x, y) < PORTRAIT_ALPHA_OPAQUE_MIN {
        1nat
    } else {
        0nat
    });
    assert(spec_row_transparent(spx, sw, y, x + 2) == spec_row_transparent(spx, sw, y, x + 1));
    assert(spec_row_transparent(spx, sw, y, x + 3) == spec_row_transparent(spx, sw, y, x + 2));
}

proof fn lemma_row_transparent_past_end(spx: Seq<u8>, sw: int, y: int, x: int)
    requires
        sw >= 0,
        x >= sw,
    ensures
        spec_row_transparent(spx, sw, y, x) == spec_row_transparent(spx, sw, y, sw),
    decreases x - sw,
{
    if x > sw {
        lemma_row_transparent_past_end(spx, sw, y, x - 1);
    }
}

proof fn lemma_transparent_samples_step(spx: Seq<u8>, sw: int, sh: int, y: int)
    requires
        y >= 0,
        y % 3 == 0,
    ensures
        spec_transparent_samples(spx, sw, sh, y + 3) == spec_transparent_samples(spx, sw, sh, y)
            + if y < sh {
            spec_row_transparent(spx, sw, y, sw)
        } else {
            0nat
        },
{
    assert(spec_transparent_samples(spx, sw, sh, y + 2) == spec_transparent_samples(
        spx,
        sw,
        sh,
        y + 1,
    ));
    assert(spec_transparent_samples(spx, sw, sh, y + 3) == spec_transparent_samples(
        spx,
        sw,
        sh,
        y + 2,
    ));
}

proof fn lemma_transparent_samples_past_end(spx: Seq<u8>, sw: int, sh: int, y: int)
    requires
        sh >= 0,
        y >= sh,
    ensures
        spec_transparent_samples(spx, sw, sh, y) == spec_transparent_samples(spx, sw, sh, sh),
    decreases y - sh,
{
    if y > sh {
        lemma_transparent_samples_past_end(spx, sw, sh, y - 1);
    }
}

/// One strided pass over the alpha of the `sw` x `sh` RGBA8 image `spx`: the head's bounding box
/// (sample points with alpha above [`PORTRAIT_ALPHA_BOX_MIN`]) and how many sample points are
/// under the opaque floor. With no visible sample the box is left at `(sw, sh)-(0, 0)`.
pub fn portrait_alpha_scan(spx: &[u8], sw: usize, sh: usize) -> (scan: AlphaScan)
    requires
        sw + 2 <= usize::MAX,
        sh + 2 <= usize::MAX,
        sw * sh * 4 <= spx@.len(),
    ensures
        spec_scan_of(scan, spx@, sw as int, sh as int),
        scan.transparent <= scan.counted,
        !scan.any ==> scan.minx == sw && scan.miny == sh && scan.maxx == 0 && scan.maxy == 0,
{
    let n = spx.len();
    let (mut minx, mut miny, mut maxx, mut maxy) = (sw, sh, 0usize, 0usize);
    let mut any = false;
    let mut counted: usize = 0;
    let mut transparent: usize = 0;
    let mut y: usize = 0;
    let ghost per_row = (sw + 2) / 3;
    while y < sh
        invariant
            sw + 2 <= usize::MAX,
            sh + 2 <= usize::MAX,
            sw * sh * 4 <= spx@.len(),
            n == spx@.len(),
            per_row == (sw + 2) / 3,
            y % 3 == 0,
            y <= sh + 2,
            counted == (y / 3) * per_row,
            transparent == spec_transparent_samples(spx@, sw as int, sh as int, y as int),
            transparent <= counted,
            any == exists|px: int, py: int| py < y && spec_visible(spx@, sw as int, sh as int, px, py),
            !any ==> minx == sw && miny == sh && maxx == 0 && maxy == 0,
            any ==> {
                &&& forall|px: int, py: int|
                    py < y && spec_visible(spx@, sw as int, sh as int, px, py) ==> minx <= px <= maxx
                        && miny <= py <= maxy
                &&& exists|py: int| py < y && spec_visible(spx@, sw as int, sh as int, minx as int, py)
                &&& exists|py: int| py < y && spec_visible(spx@, sw as int, sh as int, maxx as int, py)
                &&& exists|px: int| spec_visible(spx@, sw as int, sh as int, px, miny as int)
                &&& exists|px: int| spec_visible(spx@, sw as int, sh as int, px, maxy as int)
            },
        decreases sh + 3 - y,
    {
        let mut x: usize = 0;
        let ghost row_start = counted;
        let ghost before = transparent;
        while x < sw
            invariant
                sw + 2 <= usize::MAX,
                sh + 2 <= usize::MAX,
                sw * sh * 4 <= spx@.len(),
                n == spx@.len(),
                y < sh,
                y % 3 == 0,
                x % 3 == 0,
                x <= sw + 2,
                counted == row_start + x / 3,
                row_start == (y / 3) * per_row,
                per_row == (sw + 2) / 3,
                before == spec_transparent_samples(spx@, sw as int, sh as int, y as int),
                transparent == before + spec_row_transparent(spx@, sw as int, y as int, x as int),
                transparent <= counted,
                any == exists|px: int, py: int|
                    (py < y || (py == y && px < x)) && spec_visible(spx@, sw as int, sh as int, px, py),
                !any ==> minx == sw && miny == sh && maxx == 0 && maxy == 0,
                any ==> {
                    &&& forall|px: int, py: int|
                        (py < y || (py == y && px < x)) && spec_visible(
                            spx@,
                            sw as int,
                            sh as int,
                            px,
                            py,
                        ) ==> minx <= px <= maxx && miny <= py <= maxy
                    &&& exists|py: int| py <= y && spec_visible(spx@, sw as int, sh as int, minx as int, py)
                    &&& exists|py: int| py <= y && spec_visible(spx@, sw as int, sh as int, maxx as int, py)
                    &&& exists|px: int| spec_visible(spx@, sw as int, sh as int, px, miny as int)
                    &&& exists|px: int| spec_visible(spx@, sw as int, sh as int, px, maxy as int)
                },
            decreases sw + 3 - x,
        {
            proof {
                assert((y * sw + x) * 4 + 3 < sw * sh * 4) by (nonlinear_arith)
                    requires
                        y < sh,
                        x < sw,
                ;
                lemma_row_transparent_step(spx@, sw as int, y as int, x as int);
            }
            assert(counted < sw * sh) by (nonlinear_arith)
                requires
                    counted == row_start + x / 3,
                    row_start == (y / 3) * per_row,
                    per_row == (sw + 2) / 3,
                    x < sw,
                    y < sh,
            ;
            let a = spx[(y * sw + x) * 4 + 3];
            assert(a == spec_alpha(spx@, sw as int, x as int, y as int));
            counted = counted + 1;
            if a < PORTRAIT_ALPHA_OPAQUE_MIN {
                transparent = transparent + 1;
            }
            if a > PORTRAIT_ALPHA_BOX_MIN {
                assert(spec_visible(spx@, sw as int, sh as int, x as int, y as int));
                any = true;
                if x < minx {
                    minx = x;
                }
                if x > maxx {
                    maxx = x;
                }
                if y < miny {
                    miny = y;
                }
                if y > maxy {
                    maxy = y;
                }
            }
            x = x + PORTRAIT_SCAN_STRIDE;
            assert forall|px: int, py: int|
                (py < y || (py == y && px < x)) && spec_visible(spx@, sw as int, sh as int, px, py)
                    implies (py < y || (py == y && px < x - 3)) || (py == y && px == x - 3) by {
                if py == y && px < x && px >= x - 3 {
                    assert(px % 3 == 0);
                }
            }
        }
        proof {
            lemma_row_transparent_past_end(spx@, sw as int, y as int, x as int);
            lemma_transparent_samples_step(spx@, sw as int, sh as int, y as int);
            assert(x / 3 == per_row) by (nonlinear_arith)
                requires
                    x % 3 == 0,
                    x >= sw,
                    x <= sw + 2,
                    per_row == (sw + 2) / 3,
            ;
            assert(counted == (y / 3 + 1) * per_row) by (nonlinear_arith)
                requires
                    counted == row_start + per_row,
                    row_start == (y / 3) * per_row,
            ;
            assert forall|px: int, py: int|
                py < y + 3 && spec_visible(spx@, sw as int, sh as int, px, py) implies (py < y || (py
                == y && px < x)) by {
                if py > y {
                    assert(py % 3 == 0);
                }
            }
        }
        y = y + PORTRAIT_SCAN_STRIDE;
        proof {
            assert((y as int) / 3 == (y as int - 3) / 3 + 1);
        }
    }
    proof {
        lemma_transparent_samples_past_end(spx@, sw as int, sh as int, y as int);
        assert(y / 3 == (sh + 2) / 3) by (nonlinear_arith)
            requires
                y % 3 == 0,
                y >= sh,
                y <= sh + 2,
        ;
        assert(counted == spec_sample_count(sw as int, sh as int)) by (nonlinear_arith)
            requires
                counted == (y / 3) * per_row,
                per_row == (sw + 2) / 3,
                y / 3 == (sh + 2) / 3,
        ;
    }
    let scan = AlphaScan { any, minx, miny, maxx, maxy, counted, transparent };
    assert(scan.counted == spec_sample_count(sw as int, sh as int));
    assert(scan.transparent == spec_transparent_samples(spx@, sw as int, sh as int, sh as int));
    proof {
        let spx_v = spx@;
        assert forall|px: int, py: int| spec_visible(spx_v, sw as int, sh as int, px, py) implies py
            < y by {}
        if any {
            let (wx, wy) = choose|px: int, py: int|
                py < y && spec_visible(spx_v, sw as int, sh as int, px, py);
            assert(spec_visible(spx_v, sw as int, sh as int, wx, wy));
            let p1 = choose|py: int| py < y && spec_visible(spx_v, sw as int, sh as int, minx as int, py);
            assert(spec_visible(spx_v, sw as int, sh as int, minx as int, p1));
            let p2 = choose|py: int| py < y && spec_visible(spx_v, sw as int, sh as int, maxx as int, py);
            assert(spec_visible(spx_v, sw as int, sh as int, maxx as int, p2));
            assert forall|px: int, py: int| spec_visible(spx_v, sw as int, sh as int, px, py) implies minx
                <= px <= maxx && miny <= py <= maxy by {
                assert(py < y);
            }
        } else {
            assert forall|px: int, py: int| !spec_visible(spx_v, sw as int, sh as int, px, py) by {
                if spec_visible(spx_v, sw as int, sh as int, px, py) {
                    assert(py < y);
                }
            }
        }
    }
    assert(scan.any == exists|x: int, y: int| spec_visible(spx@, sw as int, sh as int, x, y));
    if any {
        assert(forall|x: int, y: int|
            spec_visible(spx@, sw as int, sh as int, x, y) ==> scan.minx <= x <= scan.maxx && scan.miny <= y
                <= scan.maxy);
        assert(exists|y: int| spec_visible(spx@, sw as int, sh as int, scan.minx as int, y));
        assert(exists|y: int| spec_visible(spx@, sw as int, sh as int, scan.maxx as int, y));
        assert(exists|x: int| spec_visible(spx@, sw as int, sh as int, x, scan.miny as int));
        assert(exists|x: int| spec_visible(spx@, sw as int, sh as int, x, scan.maxy as int));
    }
    scan
}

/// The crop envelope: the union of the head's box over a window's first frames, then frozen.
#[derive(Debug, Clone, Copy, PartialEq, Eq, Structural)]
pub struct PortraitCropEnvelope {
    pub minx: usize,
    pub miny: usize,
    pub maxx: usize,
    pub maxy: usize,
    /// Frames folded in so far; saturates at [`PORTRAIT_CROP_SEED_N`], where the envelope is frozen.
    pub seed_frames: usize,
    /// Folds that moved a bound this window.
    pub growth_events: usize,
}

impl PortraitCropEnvelope {
    /// The per-window start: an absent rect (`usize::MAX` minima, 0 maxima), nothing folded.
    pub open spec fn spec_is_reset(&self) -> bool {
        &&& self.minx == usize::MAX
        &&& self.miny == usize::MAX
        &&& self.maxx == 0
        &&& self.maxy == 0
        &&& self.seed_frames == 0
        &&& self.growth_events == 0
    }

    /// A fresh window's envelope.
    pub fn new() -> (env: Self)
        ensures
            env.spec_is_reset(),
    {
        PortraitCropEnvelope {
            minx: usize::MAX,
            miny: usize::MAX,
            maxx: 0,
            maxy: 0,
            seed_frames: 0,
            growth_events: 0,
        }
    }
}

/// The frame's box moves a bound of the envelope outward.
pub open spec fn spec_box_grows(env: PortraitCropEnvelope, scan: AlphaScan) -> bool {
    scan.minx < env.minx || scan.miny < env.miny || scan.maxx > env.maxx || scan.maxy > env.maxy
}

pub open spec fn spec_min(a: int, b: int) -> int {
    if a < b {
        a
    } else {
        b
    }
}

pub open spec fn spec_max(a: int, b: int) -> int {
    if a > b {
        a
    } else {
        b
    }
}

/// The envelope after folding in a frame's box: while seeding, the union of the two boxes, one more
/// seed frame, and one more growth event when a bound moved; once frozen, unchanged.
pub open spec fn spec_fold_envelope(env: PortraitCropEnvelope, scan: AlphaScan) -> PortraitCropEnvelope {
    if env.seed_frames < PORTRAIT_CROP_SEED_N {
        PortraitCropEnvelope {
            minx: spec_min(env.minx as int, scan.minx as int) as usize,
            miny: spec_min(env.miny as int, scan.miny as int) as usize,
            maxx: spec_max(env.maxx as int, scan.maxx as int) as usize,
            maxy: spec_max(env.maxy as int, scan.maxy as int) as usize,
            seed_frames: (env.seed_frames + 1) as usize,
            growth_events: if spec_box_grows(env, scan) {
                if env.growth_events == usize::MAX {
                    0
                } else {
                    (env.growth_events + 1) as usize
                }
            } else {
                env.growth_events
            },
        }
    } else {
        env
    }
}

/// Where the head goes: the envelope clamped into the source, and the destination rect -- the
/// upper-left `dst_w` x `dst_h` texels of the screen, 80% of its height with the crop's aspect.
#[derive(Debug, Clone, Copy, PartialEq, Eq, Structural)]
pub struct PortraitRect {
    pub cminx: usize,
    pub cminy: usize,
    pub cmaxx: usize,
    pub cmaxy: usize,
    pub crop_w: usize,
    pub crop_h: usize,
    /// Percent of the source area the crop covers.
    pub cover_pct: usize,
    pub dst_w: usize,
    pub dst_h: usize,
}

/// The rect for envelope `env`, a `sw` x `sh` source and a `w` x `h` screen.
pub open spec fn spec_rect(env: PortraitCropEnvelope, sw: int, sh: int, w: int, h: int) -> PortraitRect {
    let cminx = spec_min(env.minx as int, sw - 1);
    let cminy = spec_min(env.miny as int, sh - 1);
    let cmaxx = spec_max(spec_min(env.maxx as int, sw - 1), cminx);
    let cmaxy = spec_max(spec_min(env.maxy as int, sh - 1), cminy);
    let crop_w = cmaxx - cminx + 1;
    let crop_h = cmaxy - cminy + 1;
    let dst_h = spec_max(h * 80 / 100, 1);
    let dst_w = spec_max(dst_h * crop_w / crop_h, 1);
    PortraitRect {
        cminx: cminx as usize,
        cminy: cminy as usize,
        cmaxx: cmaxx as usize,
        cmaxy: cmaxy as usize,
        crop_w: crop_w as usize,
        crop_h: crop_h as usize,
        cover_pct: (crop_w * crop_h * 100 / (sw * sh)) as usize,
        dst_w: dst_w as usize,
        dst_h: dst_h as usize,
    }
}

/// Computes [`spec_rect`].
fn portrait_rect(env: &PortraitCropEnvelope, sw: usize, sh: usize, w: usize, h: usize) -> (rect:
    PortraitRect)
    requires
        0 < sw,
        0 < sh,
        0 < w,
        0 < h,
        spec_sizes_fit(sw as int, sh as int, w as int, h as int),
    ensures
        rect == spec_rect(*env, sw as int, sh as int, w as int, h as int),
        rect.cminx <= rect.cmaxx < sw,
        rect.cminy <= rect.cmaxy < sh,
        1 <= rect.crop_w <= sw,
        1 <= rect.crop_h <= sh,
        rect.dst_h == spec_dst_h(h as int),
        1 <= rect.dst_h <= h,
        1 <= rect.dst_w,
{
    let cminx = if env.minx < sw - 1 {
        env.minx
    } else {
        sw - 1
    };
    let cminy = if env.miny < sh - 1 {
        env.miny
    } else {
        sh - 1
    };
    let mx = if env.maxx < sw - 1 {
        env.maxx
    } else {
        sw - 1
    };
    let cmaxx = if mx > cminx {
        mx
    } else {
        cminx
    };
    let my = if env.maxy < sh - 1 {
        env.maxy
    } else {
        sh - 1
    };
    let cmaxy = if my > cminy {
        my
    } else {
        cminy
    };
    let crop_w = cmaxx - cminx + 1;
    let crop_h = cmaxy - cminy + 1;
    assert(crop_w * crop_h * 100 <= sw * sh * 100) by (nonlinear_arith)
        requires
            crop_w <= sw,
            crop_h <= sh,
    ;
    assert(sw * sh > 0) by (nonlinear_arith)
        requires
            sw > 0,
            sh > 0,
    ;
    assert(sw * sh <= sw * sh * 100) by (nonlinear_arith)
        requires
            sw > 0,
            sh > 0,
    ;
    let area = sw * sh;
    let cover_pct = crop_w * crop_h * 100 / area;
    let scaled_h = h * 80 / 100;
    let dst_h = if scaled_h > 1 {
        scaled_h
    } else {
        1
    };
    assert(dst_h * crop_w <= dst_h * sw) by (nonlinear_arith)
        requires
            crop_w <= sw,
            dst_h >= 1,
    ;
    let scaled_w = dst_h * crop_w / crop_h;
    let dst_w = if scaled_w > 1 {
        scaled_w
    } else {
        1
    };
    PortraitRect { cminx, cminy, cmaxx, cmaxy, crop_w, crop_h, cover_pct, dst_w, dst_h }
}

/// Channel `c` of texel `(x, y)` of a `sw`-wide RGBA8 image.
pub open spec fn spec_texel(spx: Seq<u8>, sw: int, x: int, y: int, c: int) -> u8 {
    spx[(y * sw + x) * 4 + c]
}

/// The source column destination column offset `dx` samples (nearest neighbour).
pub open spec fn spec_src_x(r: PortraitRect, sw: int, dx: int) -> int {
    spec_min(r.cminx + dx * r.crop_w / (r.dst_w as int), sw - 1)
}

/// The source row destination row offset `dy` samples (nearest neighbour).
pub open spec fn spec_src_y(r: PortraitRect, sh: int, dy: int) -> int {
    spec_min(r.cminy + dy * r.crop_h / (r.dst_h as int), sh - 1)
}

/// A colour channel after alpha-over of `src` at alpha `a` onto `dst`.
pub open spec fn spec_over(src: u8, dst: u8, a: u8) -> u8 {
    ((src * a + dst * (255 - a)) / 255) as u8
}

/// Byte `i` of a `w` x `h` frame `old` after the head is blitted into rect `r`: inside the rect, a
/// texel whose sampled source alpha is 0 is left alone (the keyed-out background shows through);
/// any other is alpha-over blended and made opaque. Every byte outside the rect is unchanged.
pub open spec fn spec_blit_byte(
    old: Seq<u8>,
    spx: Seq<u8>,
    sw: int,
    sh: int,
    w: int,
    h: int,
    r: PortraitRect,
    i: int,
) -> u8 {
    let p = i / 4;
    let c = i % 4;
    let ty = p / w;
    let tx = p % w;
    if p < w * h && ty < r.dst_h && tx < r.dst_w {
        let sx = spec_src_x(r, sw, tx);
        let sy = spec_src_y(r, sh, ty);
        let a = spec_texel(spx, sw, sx, sy, 3);
        if a == 0 {
            old[i]
        } else if c == 3 {
            255
        } else {
            spec_over(spec_texel(spx, sw, sx, sy, c), old[i], a)
        }
    } else {
        old[i]
    }
}

proof fn lemma_pixel_index(w: int, ty: int, tx: int, c: int)
    requires
        w > 0,
        ty >= 0,
        0 <= tx < w,
        0 <= c < 4,
    ensures
        ((ty * w + tx) * 4 + c) / 4 == ty * w + tx,
        ((ty * w + tx) * 4 + c) % 4 == c,
        (ty * w + tx) / w == ty,
        (ty * w + tx) % w == tx,
{
    lemma_fundamental_div_mod_converse((ty * w + tx) * 4 + c, 4, ty * w + tx, c);
    lemma_fundamental_div_mod_converse(ty * w + tx, w, ty, tx);
}

proof fn lemma_pixel_of(i: int, w: int)
    requires
        w > 0,
        i >= 0,
    ensures
        i == ((i / 4) / w * w + (i / 4) % w) * 4 + i % 4,
        0 <= (i / 4) % w < w,
        0 <= i % 4 < 4,
        (i / 4) / w >= 0,
{
    assert(i == (i / 4) * 4 + i % 4) by (nonlinear_arith);
    assert(i / 4 == (i / 4) / w * w + (i / 4) % w) by (nonlinear_arith)
        requires
            w > 0,
    ;
    assert(0 <= (i / 4) % w < w) by (nonlinear_arith)
        requires
            w > 0,
    ;
    assert((i / 4) / w >= 0) by (nonlinear_arith)
        requires
            w > 0,
            i >= 0,
    ;
}

/// The pixel a byte belongs to has been visited by a row-major walk that is at row `ty`, column
/// `tx` (rows above `ty` finished).
pub open spec fn spec_visited(i: int, w: int, h: int, ty: int, tx: int) -> bool {
    let p = i / 4;
    p < w * h && (p / w < ty || (p / w == ty && p % w < tx))
}

/// Blits the source `spx` (`sw` x `sh`) into rect `r` of the `w` x `h` frame `buf`.
fn portrait_blit(
    buf: &mut [u8],
    w: usize,
    h: usize,
    spx: &[u8],
    sw: usize,
    sh: usize,
    r: &PortraitRect,
)
    requires
        0 < sw,
        0 < sh,
        0 < w,
        0 < h,
        sw * sh * 4 <= spx@.len(),
        w * h * 4 <= old(buf)@.len(),
        r.cminx <= r.cmaxx < sw,
        r.cminy <= r.cmaxy < sh,
        1 <= r.crop_w <= sw,
        1 <= r.crop_h <= sh,
        1 <= r.dst_h <= h,
        1 <= r.dst_w,
        spec_sizes_fit(sw as int, sh as int, w as int, h as int),
        r.dst_h == spec_dst_h(h as int),
    ensures
        final(buf)@.len() == old(buf)@.len(),
        forall|i: int|
            0 <= i < old(buf)@.len() ==> final(buf)@[i] == spec_blit_byte(
                old(buf)@,
                spx@,
                sw as int,
                sh as int,
                w as int,
                h as int,
                *r,
                i,
            ),
{
    let ghost old_buf = buf@;
    let ghost rr = *r;
    let spx_len = spx.len();
    let buf_len = buf.len();
    let cols = if r.dst_w < w {
        r.dst_w
    } else {
        w
    };
    assert(sw * 100 <= sw * sh * 100 && sh * 100 <= sw * sh * 100) by (nonlinear_arith)
        requires
            sw >= 1,
            sh >= 1,
    ;
    let mut dy: usize = 0;
    while dy < r.dst_h
        invariant
            0 < sw,
            0 < sh,
            0 < w,
            0 < h,
            sw * sh * 4 <= spx@.len(),
            spx_len == spx@.len(),
            buf_len == old_buf.len(),
            w * h * 4 <= old_buf.len(),
            rr == *r,
            r.cminx <= r.cmaxx < sw,
            r.cminy <= r.cmaxy < sh,
            1 <= r.crop_w <= sw,
            1 <= r.crop_h <= sh,
            1 <= r.dst_h <= h,
            1 <= r.dst_w,
            spec_sizes_fit(sw as int, sh as int, w as int, h as int),
            r.dst_h == spec_dst_h(h as int),
            sw * 100 <= usize::MAX,
            sh * 100 <= usize::MAX,
            cols == if r.dst_w < w {
                r.dst_w
            } else {
                (w) as usize
            },
            dy <= r.dst_h,
            buf@.len() == old_buf.len(),
            forall|i: int|
                0 <= i < old_buf.len() ==> buf@[i] == if spec_visited(
                    i,
                    w as int,
                    h as int,
                    dy as int,
                    0,
                ) {
                    spec_blit_byte(old_buf, spx@, sw as int, sh as int, w as int, h as int, rr, i)
                } else {
                    old_buf[i]
                },
        decreases r.dst_h - dy,
    {
        let ty = dy;
        assert((dy as int) * (r.crop_h as int) / (r.dst_h as int) < r.crop_h) by (nonlinear_arith)
            requires
                dy < r.dst_h,
                r.dst_h >= 1,
                r.crop_h >= 1,
        ;
        assert((dy as int) * (r.crop_h as int) <= spec_dst_h(h as int) * sh) by (nonlinear_arith)
            requires
                dy < r.dst_h,
                r.dst_h == spec_dst_h(h as int),
                r.crop_h <= sh,
        ;
        assert((dy as int) * (r.crop_h as int) / (r.dst_h as int) >= 0) by (nonlinear_arith)
            requires
                dy >= 0,
                r.crop_h >= 1,
                r.dst_h >= 1,
        ;
        let sy_raw = r.cminy + dy * r.crop_h / r.dst_h;
        let sy = if sy_raw < sh - 1 {
            sy_raw
        } else {
            sh - 1
        };
        assert(sy == spec_src_y(rr, sh as int, dy as int));
        let mut dx: usize = 0;
        while dx < cols
            invariant
                0 < sw,
                0 < sh,
                0 < w,
                0 < h,
                sw * sh * 4 <= spx@.len(),
                spx_len == spx@.len(),
                buf_len == old_buf.len(),
                w * h * 4 <= old_buf.len(),
                rr == *r,
                r.cminx <= r.cmaxx < sw,
                1 <= r.crop_w <= sw,
                1 <= r.dst_w,
                spec_sizes_fit(sw as int, sh as int, w as int, h as int),
            r.dst_h == spec_dst_h(h as int),
            sw * 100 <= usize::MAX,
            sh * 100 <= usize::MAX,
                cols <= r.dst_w,
                cols <= w,
                cols == r.dst_w || cols == w,
                ty == dy,
                dy < r.dst_h,
                ty < h,
                sy < sh,
                sy == spec_src_y(rr, sh as int, dy as int),
                dx <= cols,
                buf@.len() == old_buf.len(),
                forall|i: int|
                    0 <= i < old_buf.len() ==> buf@[i] == if spec_visited(
                        i,
                        w as int,
                        h as int,
                        ty as int,
                        dx as int,
                    ) {
                        spec_blit_byte(old_buf, spx@, sw as int, sh as int, w as int, h as int, rr, i)
                    } else {
                        old_buf[i]
                    },
            decreases cols - dx,
        {
            let tx = dx;
            assert((dx as int) * (r.crop_w as int) / (r.dst_w as int) < r.crop_w) by (nonlinear_arith)
                requires
                    dx < r.dst_w,
                    r.dst_w >= 1,
                    r.crop_w >= 1,
            ;
            assert((dx as int) * (r.crop_w as int) <= (w as int) * (sw as int)) by (nonlinear_arith)
                requires
                    dx < w,
                    r.crop_w <= sw,
            ;
            assert((dx as int) * (r.crop_w as int) / (r.dst_w as int) >= 0) by (nonlinear_arith)
                requires
                    dx >= 0,
                    r.crop_w >= 1,
                    r.dst_w >= 1,
            ;
            let sx_raw = r.cminx + dx * r.crop_w / r.dst_w;
            let sx = if sx_raw < sw - 1 {
                sx_raw
            } else {
                sw - 1
            };
            assert(sx == spec_src_x(rr, sw as int, dx as int));
            proof {
                assert((sy * sw + sx) * 4 + 3 < sw * sh * 4) by (nonlinear_arith)
                    requires
                        sy < sh,
                        sx < sw,
                ;
                assert((ty * w + tx) * 4 + 3 < w * h * 4) by (nonlinear_arith)
                    requires
                        ty < h,
                        tx < w,
                ;
            }
            let si = (sy * sw + sx) * 4;
            let a = spx[si + 3] as u32;
            let ghost before = buf@;
            let di = (ty * w + tx) * 4;
            proof {
                lemma_pixel_index(w as int, ty as int, tx as int, 0);
                lemma_pixel_index(w as int, ty as int, tx as int, 1);
                lemma_pixel_index(w as int, ty as int, tx as int, 2);
                lemma_pixel_index(w as int, ty as int, tx as int, 3);
                assert(ty * w + tx < w * h) by (nonlinear_arith)
                    requires
                        ty < h,
                        tx < w,
                ;
            }
            if a != 0 {
                let ia = 255 - a;
                let s0 = spx[si] as u32;
                let s1 = spx[si + 1] as u32;
                let s2 = spx[si + 2] as u32;
                let d0 = buf[di] as u32;
                let d1 = buf[di + 1] as u32;
                let d2 = buf[di + 2] as u32;
                assert(s0 * a + d0 * ia <= 255 * 255) by (nonlinear_arith)
                    requires
                        s0 <= 255,
                        d0 <= 255,
                        a <= 255,
                        ia == 255 - a,
                ;
                assert(s1 * a + d1 * ia <= 255 * 255) by (nonlinear_arith)
                    requires
                        s1 <= 255,
                        d1 <= 255,
                        a <= 255,
                        ia == 255 - a,
                ;
                assert(s2 * a + d2 * ia <= 255 * 255) by (nonlinear_arith)
                    requires
                        s2 <= 255,
                        d2 <= 255,
                        a <= 255,
                        ia == 255 - a,
                ;
                buf[di] = ((s0 * a + d0 * ia) / 255) as u8;
                buf[di + 1] = ((s1 * a + d1 * ia) / 255) as u8;
                buf[di + 2] = ((s2 * a + d2 * ia) / 255) as u8;
                buf[di + 3] = 255;
            }
            proof {
                assert forall|i: int| 0 <= i < old_buf.len() implies buf@[i] == if spec_visited(
                    i,
                    w as int,
                    h as int,
                    ty as int,
                    dx + 1,
                ) {
                    spec_blit_byte(old_buf, spx@, sw as int, sh as int, w as int, h as int, rr, i)
                } else {
                    old_buf[i]
                } by {
                    lemma_pixel_of(i, w as int);
                    let p = i / 4;
                    let wi = w as int;
                    if p == ty * wi + tx {
                        assert(i == di + i % 4);
                        assert(!spec_visited(i, w as int, h as int, ty as int, dx as int));
                        assert(before[i] == old_buf[i]);
                    } else {
                        if p / wi == ty && p % wi == tx {
                            assert(p == (p / wi) * wi + p % wi) by (nonlinear_arith)
                                requires
                                    wi > 0,
                            ;
                        }
                        if a != 0 {
                            assert(i < di || i > di + 3);
                        }
                    }
                }
            }
            dx = dx + 1;
        }
        proof {
            assert forall|i: int| 0 <= i < old_buf.len() implies buf@[i] == if spec_visited(
                i,
                w as int,
                h as int,
                dy + 1,
                0,
            ) {
                spec_blit_byte(old_buf, spx@, sw as int, sh as int, w as int, h as int, rr, i)
            } else {
                old_buf[i]
            } by {
                lemma_pixel_of(i, w as int);
            }
        }
        dy = dy + 1;
    }
    proof {
        assert forall|i: int| 0 <= i < old_buf.len() implies buf@[i] == spec_blit_byte(
            old_buf,
            spx@,
            sw as int,
            sh as int,
            w as int,
            h as int,
            rr,
            i,
        ) by {
            lemma_pixel_of(i, w as int);
        }
    }
}

/// A published head exists and is worth laying the full-screen canvas out for.
pub open spec fn spec_has_head(bridge: &PortraitBridge) -> bool {
    bridge.rgba matches Some(p) && p.width > 0 && p.height > 0 && p.pixels@.len() > 0
}

/// True when the overlay should composite the captured portrait: a published head exists and the
/// save picker is not owning the screen. Deliberately does not judge the mask: this decides the
/// overlay's geometry, and [`portrait_onto`] refuses an unmasked frame at draw time.
pub fn portrait_overlay_active(save_picker_active: bool, bridge: &PortraitBridge) -> (active: bool)
    ensures
        active == (!save_picker_active && spec_has_head(bridge)),
{
    if save_picker_active {
        return false;
    }
    match &bridge.rgba {
        Some(p) => p.width > 0 && p.height > 0 && p.pixels.len() > 0,
        None => false,
    }
}

/// Counters of what the compositor did with the published head.
#[derive(Debug, Clone, Copy, PartialEq, Eq, Structural)]
pub struct PortraitOntoStats {
    /// Frames where the head was blended onto the canvas.
    pub draw_hits: usize,
    /// Frames refused because the published buffer was not masked.
    pub draw_refused_unmasked: usize,
    /// Percent of the source area the last drawn crop covered.
    pub alpha_cover_pct: usize,
}

impl PortraitOntoStats {
    /// Nothing drawn or refused yet.
    pub fn new() -> (stats: Self)
        ensures
            stats.draw_hits == 0,
            stats.draw_refused_unmasked == 0,
            stats.alpha_cover_pct == 0,
    {
        PortraitOntoStats { draw_hits: 0, draw_refused_unmasked: 0, alpha_cover_pct: 0 }
    }
}

/// A rect's four bounds.
#[derive(Debug, Clone, Copy, PartialEq, Eq, Structural)]
pub struct CropBounds {
    pub minx: usize,
    pub miny: usize,
    pub maxx: usize,
    pub maxy: usize,
}

/// What one drawn frame did, for the caller's crop diagnostics.
#[derive(Debug, Clone, Copy, PartialEq, Eq, Structural)]
pub struct PortraitDraw {
    pub source_w: usize,
    pub source_h: usize,
    /// This frame's own bounding box and mask evidence.
    pub frame_box: AlphaScan,
    /// The seed counter before this frame: below [`PORTRAIT_CROP_SEED_N`] the frame was folded in.
    pub seeded: usize,
    /// The envelope's bounds before this frame, when folding it moved one of them.
    pub grew_from: Option<CropBounds>,
    /// Growth events this window, after this frame.
    pub growth_events: usize,
    /// Where the head was drawn.
    pub rect: PortraitRect,
}

/// The compositor's answer for one frame.
#[derive(Debug, Clone, Copy, PartialEq, Eq, Structural)]
pub enum PortraitOnto {
    /// Nothing to draw: no canvas, no published head, a degenerate or short buffer, or no texel
    /// of the head above the box threshold.
    Absent,
    /// A head is published but its buffer is not masked; nothing was drawn or folded.
    RefusedUnmasked,
    /// The head was drawn.
    Drawn(PortraitDraw),
}

/// The published head is a well-formed frame of a drawable size.
pub open spec fn spec_source_ok(bridge: &PortraitBridge) -> bool {
    bridge.rgba matches Some(p) && p.width > 0 && p.height > 0 && (p.width as int) * (p.height
        as int) * 4 <= p.pixels@.len()
}

/// A published head reaches the blit on a `w` x `h` canvas: the canvas and the frame are
/// drawable, some sample of the frame is visible, and its mask passes the bridge's rule.
pub open spec fn spec_onto_passes_gate(bridge: &PortraitBridge, w: int, h: int) -> bool {
    &&& w > 0
    &&& h > 0
    &&& spec_source_ok(bridge)
    &&& exists|x: int, y: int|
        spec_visible(
            bridge.rgba->0.pixels@,
            bridge.rgba->0.width as int,
            bridge.rgba->0.height as int,
            x,
            y,
        )
    &&& spec_mask_share_ok(
        spec_transparent_samples(
            bridge.rgba->0.pixels@,
            bridge.rgba->0.width as int,
            bridge.rgba->0.height as int,
            bridge.rgba->0.height as int,
        ) as int,
        spec_sample_count(bridge.rgba->0.width as int, bridge.rgba->0.height as int),
    )
}

/// Composites the published head onto the `w` x `h` RGBA8 canvas `buf`.
///
/// The strided alpha pass finds the head's box and counts the transparent share; an unmasked
/// buffer is refused before anything is folded or drawn, so it can neither paint the character's
/// scene background nor widen the frozen crop envelope. A masked frame is folded into the envelope
/// while it is still seeding, and the head is scale-blitted (alpha-over) from the envelope's crop
/// into the screen's upper-left rect, 80% of the screen's height with the crop's aspect.
pub fn portrait_onto(
    bridge: &mut PortraitBridge,
    stats: &mut PortraitOntoStats,
    buf: &mut [u8],
    w: usize,
    h: usize,
) -> (onto: PortraitOnto)
    requires
        spec_onto_passes_gate(old(bridge), w as int, h as int) ==> {
            &&& w * h * 4 <= old(buf)@.len()
            &&& spec_sizes_fit(
                old(bridge).rgba->0.width as int,
                old(bridge).rgba->0.height as int,
                w as int,
                h as int,
            )
        },
    ensures
        final(buf)@.len() == old(buf)@.len(),
        final(bridge).rgba == old(bridge).rgba,
        final(bridge).rgba_version == old(bridge).rgba_version,
        final(bridge).have_keyed_frame == old(bridge).have_keyed_frame,
        final(bridge).published_slot == old(bridge).published_slot,
        final(bridge).published_name_hash == old(bridge).published_name_hash,
        (onto is Absent) <==> (w == 0 || h == 0 || !spec_source_ok(old(bridge)) || !(exists|
            x: int,
            y: int,
        |
            spec_visible(
                old(bridge).rgba->0.pixels@,
                old(bridge).rgba->0.width as int,
                old(bridge).rgba->0.height as int,
                x,
                y,
            ))),
        !(onto is Drawn) ==> {
            &&& final(buf)@ == old(buf)@
            &&& final(bridge).crop == old(bridge).crop
            &&& final(stats).draw_hits == old(stats).draw_hits
            &&& final(stats).alpha_cover_pct == old(stats).alpha_cover_pct
        },
        onto is Absent ==> final(stats).draw_refused_unmasked == old(stats).draw_refused_unmasked,
        !(onto is Absent) ==> {
            let p = old(bridge).rgba->0;
            let sw = p.width as int;
            let sh = p.height as int;
            &&& (onto is RefusedUnmasked) == !spec_mask_share_ok(
                spec_transparent_samples(p.pixels@, sw, sh, sh) as int,
                spec_sample_count(sw, sh),
            )
            &&& onto is RefusedUnmasked ==> final(stats).draw_refused_unmasked == if old(
                stats,
            ).draw_refused_unmasked == usize::MAX {
                0
            } else {
                (old(stats).draw_refused_unmasked + 1) as usize
            }
        },
        onto matches PortraitOnto::Drawn(d) ==> {
            let p = old(bridge).rgba->0;
            let sw = p.width as int;
            let sh = p.height as int;
            &&& d.source_w == sw
            &&& d.source_h == sh
            &&& spec_scan_of(d.frame_box, p.pixels@, sw, sh)
            &&& d.seeded == old(bridge).crop.seed_frames
            &&& final(bridge).crop == spec_fold_envelope(old(bridge).crop, d.frame_box)
            &&& d.grew_from == if old(bridge).crop.seed_frames < PORTRAIT_CROP_SEED_N
                && spec_box_grows(old(bridge).crop, d.frame_box) {
                Some(
                    CropBounds {
                        minx: old(bridge).crop.minx,
                        miny: old(bridge).crop.miny,
                        maxx: old(bridge).crop.maxx,
                        maxy: old(bridge).crop.maxy,
                    },
                )
            } else {
                None
            }
            &&& d.growth_events == final(bridge).crop.growth_events
            &&& d.rect == spec_rect(final(bridge).crop, sw, sh, w as int, h as int)
            &&& final(stats).alpha_cover_pct == d.rect.cover_pct
            &&& final(stats).draw_refused_unmasked == old(stats).draw_refused_unmasked
            &&& final(stats).draw_hits == if old(stats).draw_hits == usize::MAX {
                0
            } else {
                (old(stats).draw_hits + 1) as usize
            }
            &&& forall|i: int|
                0 <= i < old(buf)@.len() ==> final(buf)@[i] == spec_blit_byte(
                    old(buf)@,
                    p.pixels@,
                    sw,
                    sh,
                    w as int,
                    h as int,
                    d.rect,
                    i,
                )
        },
{
    if w == 0 || h == 0 {
        return PortraitOnto::Absent;
    }
    let (sw, sh) = match &bridge.rgba {
        Some(p) => (p.width as usize, p.height as usize),
        None => {
            return PortraitOnto::Absent;
        },
    };
    if sw == 0 || sh == 0 {
        return PortraitOnto::Absent;
    }
    let scan = match &bridge.rgba {
        Some(p) => {
            // Compared in 128 bits: the frame's sides come from 32-bit fields, and their product
            // need not fit a `usize`.
            assert((sw as int) * (sh as int) * 4 <= 0xffff_ffff * 0xffff_ffff * 4)
                by (nonlinear_arith)
                requires
                    sw <= 0xffff_ffff,
                    sh <= 0xffff_ffff,
            ;
            if (p.pixels.len() as u128) < (sw as u128) * (sh as u128) * 4 {
                return PortraitOnto::Absent;
            }
            assert(sw * 4 <= sw * sh * 4 && sh * 4 <= sw * sh * 4) by (nonlinear_arith)
                requires
                    sw >= 1,
                    sh >= 1,
            ;
            portrait_alpha_scan(p.pixels.as_slice(), sw, sh)
        },
        None => {
            return PortraitOnto::Absent;
        },
    };
    if !scan.any || scan.maxx < scan.minx || scan.maxy < scan.miny {
        return PortraitOnto::Absent;
    }
    // The mask gate, the bridge's rule on the sampled counts; the percentage is taken in 128 bits.
    let masked = scan.counted != 0 && (scan.transparent as u128) * 100 / (scan.counted as u128)
        >= PORTRAIT_MIN_TRANSPARENT_PCT as u128;
    if !masked {
        stats.draw_refused_unmasked = if stats.draw_refused_unmasked == usize::MAX {
            0
        } else {
            stats.draw_refused_unmasked + 1
        };
        return PortraitOnto::RefusedUnmasked;
    }
    assert(spec_onto_passes_gate(bridge, w as int, h as int));
    assert(sw * 100 <= sw * sh * 100 && sh * 100 <= sw * sh * 100) by (nonlinear_arith)
        requires
            sw >= 1,
            sh >= 1,
    ;
    let seeded = bridge.crop.seed_frames;
    let mut grew_from: Option<CropBounds> = None;
    if seeded < PORTRAIT_CROP_SEED_N {
        let prev = bridge.crop;
        let grows = scan.minx < prev.minx || scan.miny < prev.miny || scan.maxx > prev.maxx
            || scan.maxy > prev.maxy;
        bridge.crop = PortraitCropEnvelope {
            minx: if scan.minx < prev.minx {
                scan.minx
            } else {
                prev.minx
            },
            miny: if scan.miny < prev.miny {
                scan.miny
            } else {
                prev.miny
            },
            maxx: if scan.maxx > prev.maxx {
                scan.maxx
            } else {
                prev.maxx
            },
            maxy: if scan.maxy > prev.maxy {
                scan.maxy
            } else {
                prev.maxy
            },
            seed_frames: seeded + 1,
            growth_events: if grows {
                if prev.growth_events == usize::MAX {
                    0
                } else {
                    prev.growth_events + 1
                }
            } else {
                prev.growth_events
            },
        };
        if grows {
            grew_from = Some(
                CropBounds { minx: prev.minx, miny: prev.miny, maxx: prev.maxx, maxy: prev.maxy },
            );
        }
    }
    let rect = portrait_rect(&bridge.crop, sw, sh, w, h);
    stats.alpha_cover_pct = rect.cover_pct;
    match &bridge.rgba {
        Some(p) => {
            portrait_blit(buf, w, h, p.pixels.as_slice(), sw, sh, &rect);
        },
        None => {},
    }
    stats.draw_hits = if stats.draw_hits == usize::MAX {
        0
    } else {
        stats.draw_hits + 1
    };
    PortraitOnto::Drawn(
        PortraitDraw {
            source_w: sw,
            source_h: sh,
            frame_box: scan,
            seeded,
            grew_from,
            growth_events: bridge.crop.growth_events,
            rect,
        },
    )
}

/// The seed counter saturates: folding never takes it past [`PORTRAIT_CROP_SEED_N`], and once it
/// is there the envelope is frozen -- no later frame moves it.
pub proof fn lemma_frozen_envelope_never_moves(env: PortraitCropEnvelope, scan: AlphaScan)
    ensures
        env.seed_frames <= PORTRAIT_CROP_SEED_N ==> spec_fold_envelope(env, scan).seed_frames
            <= PORTRAIT_CROP_SEED_N,
        env.seed_frames >= PORTRAIT_CROP_SEED_N ==> spec_fold_envelope(env, scan) == env,
{
}

/// While seeding, the envelope only widens: every bound after a fold is at least as far out as
/// before, and covers the folded frame's box.
pub proof fn lemma_envelope_only_widens(env: PortraitCropEnvelope, scan: AlphaScan)
    requires
        env.seed_frames < PORTRAIT_CROP_SEED_N,
    ensures
        spec_fold_envelope(env, scan).minx <= env.minx,
        spec_fold_envelope(env, scan).miny <= env.miny,
        spec_fold_envelope(env, scan).maxx >= env.maxx,
        spec_fold_envelope(env, scan).maxy >= env.maxy,
        spec_fold_envelope(env, scan).minx <= scan.minx,
        spec_fold_envelope(env, scan).miny <= scan.miny,
        spec_fold_envelope(env, scan).maxx >= scan.maxx,
        spec_fold_envelope(env, scan).maxy >= scan.maxy,
{
}

/// An unchanging source moves the envelope once: after a frame's box has been folded in, folding
/// the same box again is not a growth event.
pub proof fn lemma_same_box_grows_once(env: PortraitCropEnvelope, scan: AlphaScan)
    requires
        env.seed_frames < PORTRAIT_CROP_SEED_N,
    ensures
        !spec_box_grows(spec_fold_envelope(env, scan), scan),
{
}

} // verus!
