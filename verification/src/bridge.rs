//! The portrait frame bridge's admission rule: has this RGBA8 buffer been masked at all? Writers and
//! readers of the bridge answer the same question against the pixels themselves, so an opaque
//! colour-only capture can never be drawn with its scene background.

use vstd::prelude::*;
use crate::portrait_overlay::PortraitCropEnvelope;

verus! {

/// Minimum percent of transparent texels a frame's mask must cut for the frame to count as keyed.
pub const PORTRAIT_MIN_TRANSPARENT_PCT: usize = 5;

/// Alpha at or above which a texel counts as opaque for the keyed/unkeyed decision.
pub const PORTRAIT_ALPHA_OPAQUE_MIN: u8 = 128;

/// The admission decision from counts: at least 5% of the counted texels were transparent. No
/// counted texel is an absent measurement, which admits nothing.
pub open spec fn spec_mask_share_ok(transparent_px: int, counted_px: int) -> bool {
    counted_px != 0 && transparent_px * 100 / counted_px >= PORTRAIT_MIN_TRANSPARENT_PCT
}

/// The admission decision from an already-counted sample: `transparent_px` of `counted_px` texels
/// were below [`PORTRAIT_ALPHA_OPAQUE_MIN`]. `counted_px == 0` answers false.
pub fn portrait_mask_share_ok(transparent_px: usize, counted_px: usize) -> (ok: bool)
    requires
        transparent_px * 100 <= usize::MAX,
    ensures
        ok == spec_mask_share_ok(transparent_px as int, counted_px as int),
{
    if counted_px == 0 {
        return false;
    }
    transparent_px * 100 / counted_px >= PORTRAIT_MIN_TRANSPARENT_PCT
}

/// Number of whole RGBA texels among the first `n` of `pixels` whose alpha is below the opaque
/// floor.
pub open spec fn spec_transparent_texels(pixels: Seq<u8>, n: int) -> nat
    decreases n,
{
    if n <= 0 {
        0
    } else {
        spec_transparent_texels(pixels, n - 1) + if pixels[4 * (n - 1) + 3]
            < PORTRAIT_ALPHA_OPAQUE_MIN {
            1nat
        } else {
            0nat
        }
    }
}

/// The bridge's admission rule over a whole RGBA8 buffer: [`spec_mask_share_ok`] over its whole
/// texels. A trailing partial texel carries no alpha and is not counted.
pub open spec fn spec_frame_masked(pixels: Seq<u8>) -> bool {
    spec_mask_share_ok(
        spec_transparent_texels(pixels, (pixels.len() / 4) as int) as int,
        (pixels.len() / 4) as int,
    )
}

/// Counting never finds more transparent texels than it looked at.
pub proof fn lemma_transparent_texels_bound(pixels: Seq<u8>, n: int)
    requires
        n >= 0,
    ensures
        spec_transparent_texels(pixels, n) <= n,
    decreases n,
{
    if n > 0 {
        lemma_transparent_texels_bound(pixels, n - 1);
    }
}

/// [`portrait_mask_share_ok`] over a whole RGBA8 buffer. A trailing partial texel carries no alpha
/// and is not counted; an empty buffer answers false.
pub fn portrait_frame_is_masked(pixels: &[u8]) -> (masked: bool)
    ensures
        masked == spec_frame_masked(pixels@),
{
    let len = pixels.len();
    let counted = len / 4;
    let mut transparent: usize = 0;
    let mut i: usize = 0;
    while i < counted
        invariant
            len == pixels@.len(),
            counted == pixels@.len() / 4,
            i <= counted,
            transparent == spec_transparent_texels(pixels@, i as int),
            transparent <= i,
        decreases counted - i,
    {
        assert(4 * i + 3 < pixels@.len()) by (nonlinear_arith)
            requires
                i < counted,
                counted == pixels@.len() / 4,
        ;
        if pixels[4 * i + 3] < PORTRAIT_ALPHA_OPAQUE_MIN {
            transparent = transparent + 1;
        }
        i = i + 1;
    }
    if counted == 0 {
        return false;
    }
    // The percentage is taken in 128 bits: a buffer of any length a machine can address keeps
    // `transparent * 100` in range there.
    (transparent as u128) * 100 / (counted as u128) >= PORTRAIT_MIN_TRANSPARENT_PCT as u128
}

/// A buffer with no transparent texel is never admitted, however large it is, and neither is an
/// empty one.
pub proof fn lemma_uncut_frame_is_refused(counted_px: int)
    ensures
        !spec_mask_share_ok(0, counted_px),
{
    if counted_px != 0 {
        assert(0int * 100 / counted_px == 0) by (nonlinear_arith)
            requires
                counted_px != 0,
        ;
    }
}

/// A frame whose every counted texel is cut is always admitted.
pub proof fn lemma_fully_cut_frame_is_admitted(counted_px: int)
    requires
        counted_px > 0,
    ensures
        spec_mask_share_ok(counted_px, counted_px),
{
    assert(counted_px * 100 / counted_px == 100) by (nonlinear_arith)
        requires
            counted_px > 0,
    ;
}

/// One published portrait frame: `width` x `height` tightly packed RGBA8 texels.
#[derive(Debug, Clone)]
pub struct PublishedPortrait {
    pub width: u32,
    pub height: u32,
    pub pixels: Vec<u8>,
}

/// The portrait bridge: the published head and what lives and dies with it -- the "have a keyed
/// frame" gate, the head's identity tag (slot + 1 and name hash, 0 = none) and the crop envelope
/// the compositor froze for it.
pub struct PortraitBridge {
    /// The published head, `None` until something publishes one.
    pub rgba: Option<PublishedPortrait>,
    /// Bumped on every replacement of `rgba` by a fresh capture.
    pub rgba_version: usize,
    pub have_keyed_frame: bool,
    pub published_slot: usize,
    pub published_name_hash: usize,
    pub crop: PortraitCropEnvelope,
}

impl PortraitBridge {
    /// Nothing published; a fresh crop envelope.
    pub fn new() -> (bridge: Self)
        ensures
            bridge.rgba is None,
            bridge.rgba_version == 0,
            !bridge.have_keyed_frame,
            bridge.published_slot == 0,
            bridge.published_name_hash == 0,
            bridge.crop.spec_is_reset(),
    {
        PortraitBridge {
            rgba: None,
            rgba_version: 0,
            have_keyed_frame: false,
            published_slot: 0,
            published_name_hash: 0,
            crop: PortraitCropEnvelope::new(),
        }
    }
}

} // verus!
