//! The portrait offscreen render target's size-table value: a constant height and a width that
//! follows the display's aspect, so the render is the same shape as the screen it is composited on.

use vstd::prelude::*;

verus! {

/// Threshold (px): a captured portrait whose larger side is at most this is "too small".
pub const LS_PORTRAIT_SMALL_MAX_SIDE: u32 = 512;

/// Height of the portrait offscreen render target, before the native supersample flag.
pub const PROFILE_OFFSCREEN_SIZE_HEIGHT: usize = 0x606;

/// Widest render this asks the engine for, as tenths of the height (3.6 clears 32:9).
pub const PROFILE_OFFSCREEN_MAX_ASPECT: usize = 36;

/// `CSMenuProfModelRend`'s model-instance pointer, non-null once the character has loaded.
pub const PROFILE_RENDERER_MODEL_INS_OFFSET: usize = 0x778;

/// `CSMenuProfModelRend`'s marked-for-delete byte.
pub const PROFILE_RENDERER_MARKED_DELETE_OFFSET: usize = 0x756;

/// The render width for a display of `w` x `h`: the height scaled to the display's aspect, never
/// narrower than square and never wider than the aspect cap. No usable display gives the square.
pub open spec fn spec_offscreen_width(display: Option<(usize, usize)>) -> int {
    let height = PROFILE_OFFSCREEN_SIZE_HEIGHT as int;
    let cap = height * PROFILE_OFFSCREEN_MAX_ASPECT / 10;
    match display {
        Some((w, h)) => if w > 0 && h > 0 {
            let scaled = (height * (w as int)) / (h as int);
            if scaled < height {
                height
            } else if scaled > cap {
                cap
            } else {
                scaled
            }
        } else {
            height
        },
        None => height,
    }
}

/// The size-table value to write: height in the high dword, width in the low dword.
pub open spec fn spec_offscreen_size(display: Option<(usize, usize)>) -> int {
    PROFILE_OFFSCREEN_SIZE_HEIGHT * 0x1_0000_0000 + spec_offscreen_width(display)
}

/// The size-table value for `display` (the primary display's pixel size, when there is one to ask):
/// `(height << 32) | width`, with the width following the display's aspect.
pub fn offscreen_size_for_display(display: Option<(usize, usize)>) -> (size: u64)
    requires
        display matches Some((w, h)) ==> w * PROFILE_OFFSCREEN_SIZE_HEIGHT <= usize::MAX,
    ensures
        size == spec_offscreen_size(display),
{
    let height = PROFILE_OFFSCREEN_SIZE_HEIGHT;
    let cap = height * PROFILE_OFFSCREEN_MAX_ASPECT / 10;
    let width: usize = match display {
        Some((w, h)) => {
            if w > 0 && h > 0 {
                let scaled = height * w / h;
                if scaled < height {
                    height
                } else if scaled > cap {
                    cap
                } else {
                    scaled
                }
            } else {
                height
            }
        },
        None => height,
    };
    assert(width <= 5551);
    let wide = width as u64;
    let high = (height as u64) << 32u64;
    assert(high == 0x0606_0000_0000u64) by (bit_vector)
        requires
            high == (0x606u64 << 32u64),
    ;
    assert(wide < 0x1_0000_0000u64 ==> 0x0606_0000_0000u64 | wide == 0x0606_0000_0000u64 + wide)
        by (bit_vector);
    high | wide
}

/// The render is never narrower than the square it replaced nor wider than the aspect cap, and the
/// height half is the constant whatever the display reports.
pub proof fn lemma_offscreen_size_bounds(display: Option<(usize, usize)>)
    ensures
        PROFILE_OFFSCREEN_SIZE_HEIGHT <= spec_offscreen_width(display) <= PROFILE_OFFSCREEN_SIZE_HEIGHT
            * PROFILE_OFFSCREEN_MAX_ASPECT / 10,
        spec_offscreen_size(display) / 0x1_0000_0000 == PROFILE_OFFSCREEN_SIZE_HEIGHT,
        spec_offscreen_size(display) % 0x1_0000_0000 == spec_offscreen_width(display),
{
    let width = spec_offscreen_width(display);
    assert(0 <= width < 0x1_0000_0000);
    assert((0x606 * 0x1_0000_0000 + width) / 0x1_0000_0000 == 0x606) by (nonlinear_arith)
        requires
            0 <= width < 0x1_0000_0000,
    ;
    assert((0x606 * 0x1_0000_0000 + width) % 0x1_0000_0000 == width) by (nonlinear_arith)
        requires
            0 <= width < 0x1_0000_0000,
    ;
}

} // verus!
