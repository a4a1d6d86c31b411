//! Shared portrait helpers: the identity tag of a character name (FNV-1a 64 over its UTF-16 units),
//! the publish-acceptance classifiers over a read-back RGBA8 image (a non-black centre, a
//! solid-colour checker placeholder), the bridge's same-identity hold and its revocation, and the
//! per-window publish-failure attribution.

use vstd::prelude::*;
use vstd::wrapping::u64_specs::wrapping_mul;
use crate::bridge::PortraitBridge;
use crate::portrait_identity::{
    bridge_hold_face_verdict, same_identity_bridge_hold, spec_bridge_hold_face_verdict,
    BridgeHoldVerdict,
};
use crate::portrait_overlay::PortraitCropEnvelope;
use crate::portrait_window::{
    loading_portrait_window_reset_inner, spec_window_after_reset, spec_window_close,
    PortraitWindowState, WindowCloseReport,
};

verus! {

/// Bytes per RGBA8 texel.
pub const RGBA8_BPP: usize = 4;

/// FNV-1a 64 offset basis: the hash of no bytes.
pub const FNV1A64_OFFSET_BASIS: u64 = 0xcbf2_9ce4_8422_2325;

/// FNV-1a 64 prime.
pub const FNV1A64_PRIME: u64 = 0x0000_0100_0000_01b3;

/// FNV-1a 64 folding `bytes` into the running hash `h`: xor each byte in, then multiply by the
/// prime modulo 2^64.
pub open spec fn spec_fnv1a64_extend(h: u64, bytes: Seq<u8>) -> u64
    decreases bytes.len(),
{
    if bytes.len() == 0 {
        h
    } else {
        spec_fnv1a64_extend(wrapping_mul(h ^ (bytes[0] as u64), FNV1A64_PRIME), bytes.drop_first())
    }
}

/// The little-endian bytes of UTF-16 units, in order.
pub open spec fn spec_utf16_le_bytes(units: Seq<u16>) -> Seq<u8>
    decreases units.len(),
{
    if units.len() == 0 {
        Seq::empty()
    } else {
        spec_utf16_le_bytes(units.drop_last()) + seq![
            (units.last() % 256) as u8,
            (units.last() / 256) as u8,
        ]
    }
}

/// The identity tag of a character name: FNV-1a 64 over its UTF-16 units' little-endian bytes,
/// truncated to `usize`, with 0 reserved for "unknown" (an empty name hashes to 0, a real hash of
/// 0 is moved to 1).
pub open spec fn spec_name_hash(units: Seq<u16>) -> usize {
    if units.len() == 0 {
        0
    } else {
        let h = spec_fnv1a64_extend(FNV1A64_OFFSET_BASIS, spec_utf16_le_bytes(units)) as usize;
        if h == 0 {
            1
        } else {
            h
        }
    }
}

proof fn lemma_fnv_extend_append(h: u64, a: Seq<u8>, b: Seq<u8>)
    ensures
        spec_fnv1a64_extend(h, a + b) == spec_fnv1a64_extend(spec_fnv1a64_extend(h, a), b),
    decreases a.len(),
{
    if a.len() == 0 {
        assert(a + b =~= b);
    } else {
        assert((a + b).drop_first() =~= a.drop_first() + b);
        lemma_fnv_extend_append(wrapping_mul(h ^ (a[0] as u64), FNV1A64_PRIME), a.drop_first(), b);
    }
}

/// FNV-1a 64 step over one byte.
fn fnv1a64_byte(h: u64, byte: u8) -> (next: u64)
    ensures
        next == spec_fnv1a64_extend(h, seq![byte]),
{
    let next = (h ^ (byte as u64)).wrapping_mul(FNV1A64_PRIME);
    assert(seq![byte].drop_first() =~= Seq::<u8>::empty());
    assert(seq![byte][0] == byte);
    assert(spec_fnv1a64_extend(next, Seq::<u8>::empty()) == next);
    next
}

/// FNV-1a 64 over a character name's UTF-16 units (little-endian bytes), truncated to `usize`.
/// The portrait identity tag: stamped at the build kick, copied next to the bridge at publish and
/// compared at the own-menu-switch rearm. 0 is reserved for "unknown/empty".
pub fn portrait_name_hash_utf16(units: &[u16]) -> (hash: usize)
    ensures
        hash == spec_name_hash(units@),
{
    if units.len() == 0 {
        return 0;
    }
    let mut h = FNV1A64_OFFSET_BASIS;
    let mut i: usize = 0;
    while i < units.len()
        invariant
            i <= units@.len(),
            h == spec_fnv1a64_extend(
                FNV1A64_OFFSET_BASIS,
                spec_utf16_le_bytes(units@.subrange(0, i as int)),
            ),
        decreases units@.len() - i,
    {
        let unit = units[i];
        let lo = (unit % 256) as u8;
        let hi = (unit / 256) as u8;
        proof {
            let prefix = units@.subrange(0, i as int);
            let next = units@.subrange(0, i + 1);
            assert(next.drop_last() =~= prefix);
            assert(next.last() == unit);
            lemma_fnv_extend_append(
                FNV1A64_OFFSET_BASIS,
                spec_utf16_le_bytes(prefix),
                seq![lo, hi],
            );
            lemma_fnv_extend_append(h, seq![lo], seq![hi]);
            assert(seq![lo] + seq![hi] =~= seq![lo, hi]);
        }
        h = fnv1a64_byte(fnv1a64_byte(h, lo), hi);
        i = i + 1;
    }
    assert(units@.subrange(0, units@.len() as int) =~= units@);
    let t = h as usize;
    if t == 0 {
        1
    } else {
        t
    }
}

/// An empty name is the "unknown" tag, and no non-empty name ever hashes to it.
pub proof fn lemma_only_the_empty_name_is_unknown(units: Seq<u16>)
    ensures
        (spec_name_hash(units) == 0) <==> (units.len() == 0),
{
}

/// The centre region of side `2 * half` of a `w` x `h` image, clipped to the image:
/// `(x0, x1, y0, y1)`, half-open.
pub open spec fn spec_center_region(w: int, h: int, half: int) -> (int, int, int, int) {
    let cx = w / 2;
    let cy = h / 2;
    (
        if cx >= half {
            cx - half
        } else {
            0
        },
        if cx + half < w {
            cx + half
        } else {
            w
        },
        if cy >= half {
            cy - half
        } else {
            0
        },
        if cy + half < h {
            cy + half
        } else {
            h
        },
    )
}

fn center_region(w: usize, h: usize, half: usize) -> (region: (usize, usize, usize, usize))
    requires
        w <= u32::MAX,
        h <= u32::MAX,
        half <= 64,
    ensures
        region.0 as int == spec_center_region(w as int, h as int, half as int).0,
        region.1 as int == spec_center_region(w as int, h as int, half as int).1,
        region.2 as int == spec_center_region(w as int, h as int, half as int).2,
        region.3 as int == spec_center_region(w as int, h as int, half as int).3,
        region.0 <= region.1 <= w,
        region.2 <= region.3 <= h,
        region.1 - region.0 <= 2 * half,
        region.3 - region.2 <= 2 * half,
{
    let cx = w / 2;
    let cy = h / 2;
    let x0 = if cx >= half {
        cx - half
    } else {
        0
    };
    let x1 = if cx + half < w {
        cx + half
    } else {
        w
    };
    let y0 = if cy >= half {
        cy - half
    } else {
        0
    };
    let y1 = if cy + half < h {
        cy + half
    } else {
        h
    };
    (x0, x1, y0, y1)
}

/// The image is a usable `w` x `h` RGBA8 frame.
pub open spec fn spec_image_ok(w: int, h: int, pixels: Seq<u8>) -> bool {
    w > 0 && h > 0 && pixels.len() >= w * h * 4
}

/// Channel `c` of texel `(x, y)`.
pub open spec fn spec_channel(pixels: Seq<u8>, w: int, x: int, y: int, c: int) -> u8 {
    pixels[(y * w + x) * 4 + c]
}

/// Texel `(x, y)` is not black: its brightest colour channel is above 24.
pub open spec fn spec_nonblack_texel(pixels: Seq<u8>, w: int, x: int, y: int) -> bool {
    spec_channel(pixels, w, x, y, 0) > 24 || spec_channel(pixels, w, x, y, 1) > 24
        || spec_channel(pixels, w, x, y, 2) > 24
}

/// Some texel of the centre 64x64 region is not black.
pub open spec fn spec_center_has_nonblack(w: int, h: int, pixels: Seq<u8>) -> bool {
    let r = spec_center_region(w, h, 32);
    exists|x: int, y: int|
        r.0 <= x < r.1 && r.2 <= y < r.3 && #[trigger] spec_nonblack_texel(pixels, w, x, y)
}

/// True when the read-back RGBA8 image has a non-black texel (`max(R, G, B) > 24`) inside its
/// centre 64x64 region: a captured head rather than a blank offscreen. An empty or short image
/// answers false.
pub fn portrait_center_nonblack(width: u32, height: u32, pixels: &[u8]) -> (nonblack: bool)
    requires
        (width as int) * (height as int) * 4 <= usize::MAX,
    ensures
        nonblack == (spec_image_ok(width as int, height as int, pixels@) && spec_center_has_nonblack(
            width as int,
            height as int,
            pixels@,
        )),
{
    let w = width as usize;
    let h = height as usize;
    if w == 0 || h == 0 || pixels.len() < w * h * RGBA8_BPP {
        return false;
    }
    let (x0, x1, y0, y1) = center_region(w, h, 32);
    let ghost reg = spec_center_region(w as int, h as int, 32);
    let n = pixels.len();
    let mut y = y0;
    while y < y1
        invariant
            w == width,
            h == height,
            n == pixels@.len(),
            w * h * 4 <= n,
            reg == spec_center_region(w as int, h as int, 32),
            x0 == reg.0,
            x1 == reg.1,
            y0 == reg.2,
            y1 == reg.3,
            x0 <= x1 <= w,
            y0 <= y <= y1,
            y1 <= h,
            forall|px: int, py: int|
                x0 <= px < x1 && y0 <= py < y ==> !spec_nonblack_texel(pixels@, w as int, px, py),
        decreases y1 - y,
    {
        let mut x = x0;
        while x < x1
            invariant
                w == width,
                h == height,
                n == pixels@.len(),
                w * h * 4 <= n,
                reg == spec_center_region(w as int, h as int, 32),
                x0 == reg.0,
                x1 == reg.1,
                y0 == reg.2,
                y1 == reg.3,
                x0 <= x <= x1,
                x1 <= w,
                y0 <= y < y1,
                y1 <= h,
                forall|px: int, py: int|
                    x0 <= px < x1 && y0 <= py < y ==> !spec_nonblack_texel(pixels@, w as int, px, py),
                forall|px: int| x0 <= px < x ==> !spec_nonblack_texel(pixels@, w as int, px, y as int),
            decreases x1 - x,
        {
            assert((y * w + x) * 4 + 3 < w * h * 4) by (nonlinear_arith)
                requires
                    y < h,
                    x < w,
            ;
            let idx = (y * w + x) * RGBA8_BPP;
            let r = pixels[idx];
            let g = pixels[idx + 1];
            let b = pixels[idx + 2];
            if r > 24 || g > 24 || b > 24 {
                assert(spec_nonblack_texel(pixels@, width as int, x as int, y as int));
                assert(reg == spec_center_region(width as int, height as int, 32));
                assert(reg.0 <= x < reg.1 && reg.2 <= y < reg.3);
                assert(spec_center_has_nonblack(width as int, height as int, pixels@));
                return true;
            }
            x = x + 1;
        }
        y = y + 1;
    }
    false
}

/// Number of 15-bit colour keys (5 bits per channel).
pub const CHECKER_KEY_COUNT: usize = 32768;

/// The 15-bit colour key of texel `(x, y)`: each channel quantized to its top 5 bits, red highest.
pub open spec fn spec_texel_key(pixels: Seq<u8>, w: int, x: int, y: int) -> int {
    (spec_channel(pixels, w, x, y, 0) / 8) * 1024 + (spec_channel(pixels, w, x, y, 1) / 8) * 32 + (
    spec_channel(pixels, w, x, y, 2) / 8)
}

/// A channel pinned near an extreme (0 or 255): the checker placeholder's hallmark.
pub open spec fn spec_pure_channel(c: u8) -> bool {
    c < 16 || c > 239
}

/// Every colour channel of texel `(x, y)` is pinned near an extreme.
pub open spec fn spec_pure_texel(pixels: Seq<u8>, w: int, x: int, y: int) -> bool {
    spec_pure_channel(spec_channel(pixels, w, x, y, 0)) && spec_pure_channel(
        spec_channel(pixels, w, x, y, 1),
    ) && spec_pure_channel(spec_channel(pixels, w, x, y, 2))
}

/// The texels `(x0, y)` .. `(x - 1, y)` of row `y`, in order.
pub open spec fn spec_row_texels(y: int, x0: int, x: int) -> Seq<(int, int)>
    decreases x - x0,
{
    if x <= x0 {
        Seq::empty()
    } else {
        spec_row_texels(y, x0, x - 1).push((x - 1, y))
    }
}

/// The texels of rows `y0 .. y`, columns `x0 .. x1`, row-major.
pub open spec fn spec_region_texels(x0: int, x1: int, y0: int, y: int) -> Seq<(int, int)>
    decreases y - y0,
{
    if y <= y0 {
        Seq::empty()
    } else {
        spec_region_texels(x0, x1, y0, y - 1) + spec_row_texels(y - 1, x0, x1)
    }
}

/// How many texels of `s` have colour key `k`.
pub open spec fn spec_key_count(pixels: Seq<u8>, w: int, s: Seq<(int, int)>, k: int) -> nat
    decreases s.len(),
{
    if s.len() == 0 {
        0
    } else {
        spec_key_count(pixels, w, s.drop_last(), k) + if spec_texel_key(
            pixels,
            w,
            s.last().0,
            s.last().1,
        ) == k {
            1nat
        } else {
            0nat
        }
    }
}

/// How many texels of `s` are pure.
pub open spec fn spec_pure_count(pixels: Seq<u8>, w: int, s: Seq<(int, int)>) -> nat
    decreases s.len(),
{
    if s.len() == 0 {
        0
    } else {
        spec_pure_count(pixels, w, s.drop_last()) + if spec_pure_texel(
            pixels,
            w,
            s.last().0,
            s.last().1,
        ) {
            1nat
        } else {
            0nat
        }
    }
}

/// `t` is the sum of the two largest entries of `c` (entries at two different indices).
pub open spec fn spec_is_top2(c: Seq<int>, t: int) -> bool {
    &&& exists|i: int, j: int| 0 <= i < j < c.len() && #[trigger] c[i] + #[trigger] c[j] == t
    &&& forall|i: int, j: int| 0 <= i < j < c.len() ==> #[trigger] c[i] + #[trigger] c[j] <= t
}

/// The texels of the centre 128x128 region.
pub open spec fn spec_checker_region(w: int, h: int) -> Seq<(int, int)> {
    let r = spec_center_region(w, h, 64);
    spec_region_texels(r.0, r.1, r.2, r.3)
}

/// Per-key counts over the centre region.
pub open spec fn spec_checker_counts(w: int, h: int, pixels: Seq<u8>) -> Seq<int> {
    Seq::new(
        CHECKER_KEY_COUNT as nat,
        |k: int| spec_key_count(pixels, w, spec_checker_region(w, h), k) as int,
    )
}

/// The centre region looks like a solid-colour checker: its two most common colour keys cover at
/// least 85% of it and at least 70% of its texels are pure.
pub open spec fn spec_looks_like_checker(w: int, h: int, pixels: Seq<u8>) -> bool {
    let s = spec_checker_region(w, h);
    let total = s.len() as int;
    &&& spec_image_ok(w, h, pixels)
    &&& total > 0
    &&& exists|t: int|
        spec_is_top2(spec_checker_counts(w, h, pixels), t) && #[trigger] (20 * t) >= 17 * total
    &&& 10 * spec_pure_count(pixels, w, s) >= 7 * total
}

proof fn lemma_key_count_le_len(pixels: Seq<u8>, w: int, s: Seq<(int, int)>, k: int)
    ensures
        spec_key_count(pixels, w, s, k) <= s.len(),
    decreases s.len(),
{
    if s.len() > 0 {
        lemma_key_count_le_len(pixels, w, s.drop_last(), k);
    }
}

proof fn lemma_pure_count_le_len(pixels: Seq<u8>, w: int, s: Seq<(int, int)>)
    ensures
        spec_pure_count(pixels, w, s) <= s.len(),
    decreases s.len(),
{
    if s.len() > 0 {
        lemma_pure_count_le_len(pixels, w, s.drop_last());
    }
}

proof fn lemma_row_texels_len(y: int, x0: int, x: int)
    requires
        x0 <= x,
    ensures
        spec_row_texels(y, x0, x).len() == x - x0,
    decreases x - x0,
{
    if x > x0 {
        lemma_row_texels_len(y, x0, x - 1);
    }
}

proof fn lemma_region_texels_len(x0: int, x1: int, y0: int, y: int)
    requires
        x0 <= x1,
        y0 <= y,
    ensures
        spec_region_texels(x0, x1, y0, y).len() == (y - y0) * (x1 - x0),
    decreases y - y0,
{
    if y > y0 {
        lemma_region_texels_len(x0, x1, y0, y - 1);
        lemma_row_texels_len(y - 1, x0, x1);
        assert((y - y0) * (x1 - x0) == (y - 1 - y0) * (x1 - x0) + (x1 - x0)) by (nonlinear_arith);
        assert(spec_region_texels(x0, x1, y0, y) == spec_region_texels(x0, x1, y0, y - 1)
            + spec_row_texels(y - 1, x0, x1));
    } else {
        assert((y - y0) * (x1 - x0) == 0) by (nonlinear_arith)
            requires
                y == y0,
        ;
    }
}

/// The sum of the two largest entries of `counts`, which has at least two.
fn top_two_sum(counts: &Vec<u32>) -> (t: u64)
    requires
        counts@.len() >= 2,
    ensures
        spec_is_top2(counts@.map(|i: int, v: u32| v as int), t as int),
{
    let ghost c = counts@.map(|i: int, v: u32| v as int);
    let n = counts.len();
    let (mut best, mut bi, mut second, mut si) = if counts[1] > counts[0] {
        (counts[1], 1usize, counts[0], 0usize)
    } else {
        (counts[0], 0usize, counts[1], 1usize)
    };
    let mut k: usize = 2;
    while k < n
        invariant
            n == counts@.len(),
            c == counts@.map(|i: int, v: u32| v as int),
            2 <= k <= n,
            bi < k,
            si < k,
            bi != si,
            counts@[bi as int] == best,
            counts@[si as int] == second,
            second <= best,
            forall|i: int| 0 <= i < k ==> counts@[i] <= best,
            forall|i: int| 0 <= i < k && i != bi ==> counts@[i] <= second,
        decreases n - k,
    {
        let v = counts[k];
        if v > best {
            second = best;
            si = bi;
            best = v;
            bi = k;
        } else if v > second {
            second = v;
            si = k;
        }
        k = k + 1;
    }
    let t = (best as u64) + (second as u64);
    proof {
        let (i, j) = if bi < si {
            (bi as int, si as int)
        } else {
            (si as int, bi as int)
        };
        assert(c[i] + c[j] == t);
        assert forall|i: int, j: int| 0 <= i < j < c.len() implies #[trigger] c[i] + #[trigger] c[j]
            <= t by {
            assert(c[i] == counts@[i] && c[j] == counts@[j]);
        }
    }
    t
}

proof fn lemma_top2_unique(c: Seq<int>, t1: int, t2: int)
    requires
        spec_is_top2(c, t1),
        spec_is_top2(c, t2),
    ensures
        t1 == t2,
{
    let (i1, j1) = choose|i: int, j: int| 0 <= i < j < c.len() && #[trigger] c[i] + #[trigger] c[j] == t1;
    let (i2, j2) = choose|i: int, j: int| 0 <= i < j < c.len() && #[trigger] c[i] + #[trigger] c[j] == t2;
    assert(c[i1] + c[j1] <= t2);
    assert(c[i2] + c[j2] <= t1);
}

/// True when the read-back RGBA8 image looks like a solid-colour checker placeholder (the magenta
/// cover, or an unrendered render target's clear pattern) rather than a shaded head: over the
/// centre 128x128 region, the two most common 15-bit colour keys cover at least 85% of the texels
/// and at least 70% of the texels have every channel below 16 or above 239.
///
/// The two shares are decided in integers (`20 * top2 >= 17 * total`, `10 * pure >= 7 * total`).
/// With at most 128 * 128 texels no share below a threshold lies within `f32` rounding of it, so
/// this is the same decision as comparing the `f32` fractions against `0.85` and `0.70`.
pub fn portrait_looks_like_checker(width: u32, height: u32, pixels: &[u8]) -> (checker: bool)
    requires
        (width as int) * (height as int) * 4 <= usize::MAX,
    ensures
        checker == spec_looks_like_checker(width as int, height as int, pixels@),
{
    let w = width as usize;
    let h = height as usize;
    if w == 0 || h == 0 || pixels.len() < w * h * RGBA8_BPP {
        return false;
    }
    let (x0, x1, y0, y1) = center_region(w, h, 64);
    let ghost reg = spec_center_region(w as int, h as int, 64);
    let n = pixels.len();
    let mut counts: Vec<u32> = vec![0u32; CHECKER_KEY_COUNT];
    let mut total: u32 = 0;
    let mut pure: u32 = 0;
    proof {
        assert forall|k: int| 0 <= k < CHECKER_KEY_COUNT implies counts@[k] == spec_key_count(
            pixels@,
            w as int,
            spec_region_texels(x0 as int, x1 as int, y0 as int, y0 as int),
            k,
        ) by {}
    }
    let mut y = y0;
    while y < y1
        invariant
            w == width,
            h == height,
            n == pixels@.len(),
            w * h * 4 <= n,
            reg == spec_center_region(w as int, h as int, 64),
            x0 == reg.0,
            x1 == reg.1,
            y0 == reg.2,
            y1 == reg.3,
            x0 <= x1 <= w,
            x1 - x0 <= 128,
            y1 - y0 <= 128,
            y0 <= y <= y1,
            y1 <= h,
            counts@.len() == CHECKER_KEY_COUNT,
            forall|k: int|
                0 <= k < CHECKER_KEY_COUNT ==> counts@[k] == spec_key_count(
                    pixels@,
                    w as int,
                    spec_region_texels(x0 as int, x1 as int, y0 as int, y as int),
                    k,
                ),
            total == spec_region_texels(x0 as int, x1 as int, y0 as int, y as int).len(),
            pure == spec_pure_count(
                pixels@,
                w as int,
                spec_region_texels(x0 as int, x1 as int, y0 as int, y as int),
            ),
        decreases y1 - y,
    {
        let ghost before = spec_region_texels(x0 as int, x1 as int, y0 as int, y as int);
        proof {
            lemma_region_texels_len(x0 as int, x1 as int, y0 as int, y as int);
            assert((y - y0) * (x1 - x0) <= 127 * 128) by (nonlinear_arith)
                requires
                    y - y0 < 128,
                    x1 - x0 <= 128,
                    y >= y0,
                    x1 >= x0,
            ;
            assert(before + spec_row_texels(y as int, x0 as int, x0 as int) =~= before);
        }
        let mut x = x0;
        while x < x1
            invariant
                w == width,
                h == height,
                n == pixels@.len(),
                w * h * 4 <= n,
                x0 <= x <= x1,
                x1 <= w,
                x1 - x0 <= 128,
                y0 <= y < y1,
                y1 <= h,
                before.len() <= 127 * 128,
                counts@.len() == CHECKER_KEY_COUNT,
                forall|k: int|
                    0 <= k < CHECKER_KEY_COUNT ==> counts@[k] == spec_key_count(
                        pixels@,
                        w as int,
                        before + spec_row_texels(y as int, x0 as int, x as int),
                        k,
                    ),
                total == (before + spec_row_texels(y as int, x0 as int, x as int)).len(),
                pure == spec_pure_count(
                    pixels@,
                    w as int,
                    before + spec_row_texels(y as int, x0 as int, x as int),
                ),
            decreases x1 - x,
        {
            let ghost done = before + spec_row_texels(y as int, x0 as int, x as int);
            let ghost next = before + spec_row_texels(y as int, x0 as int, x + 1);
            proof {
                lemma_row_texels_len(y as int, x0 as int, x as int);
                assert(next =~= done.push((x as int, y as int)));
                assert(next.drop_last() =~= done);
                assert((y * w + x) * 4 + 3 < w * h * 4) by (nonlinear_arith)
                    requires
                        y < h,
                        x < w,
                ;
            }
            let idx = (y * w + x) * RGBA8_BPP;
            let r = pixels[idx];
            let g = pixels[idx + 1];
            let b = pixels[idx + 2];
            let key = (r / 8) as usize * 1024 + (g / 8) as usize * 32 + (b / 8) as usize;
            assert(key == spec_texel_key(pixels@, w as int, x as int, y as int));
            proof {
                lemma_key_count_le_len(pixels@, w as int, done, key as int);
                lemma_pure_count_le_len(pixels@, w as int, done);
            }
            counts.set(key, counts[key] + 1);
            total = total + 1;
            if (r < 16 || r > 239) && (g < 16 || g > 239) && (b < 16 || b > 239) {
                pure = pure + 1;
            }
            proof {
                assert forall|k: int| 0 <= k < CHECKER_KEY_COUNT implies counts@[k] == spec_key_count(
                    pixels@,
                    w as int,
                    next,
                    k,
                ) by {}
            }
            x = x + 1;
        }
        proof {
            assert(before + spec_row_texels(y as int, x0 as int, x1 as int) =~= spec_region_texels(
                x0 as int,
                x1 as int,
                y0 as int,
                y + 1,
            ));
        }
        y = y + 1;
    }
    if total == 0 {
        return false;
    }
    let t = top_two_sum(&counts);
    let checker = 20 * t >= 17 * (total as u64) && 10 * (pure as u64) >= 7 * (total as u64);
    proof {
        let c = spec_checker_counts(w as int, h as int, pixels@);
        assert(counts@.map(|i: int, v: u32| v as int) =~= c);
        assert(reg == spec_center_region(width as int, height as int, 64));
        if checker {
            assert(spec_is_top2(c, t as int) && 20 * (t as int) >= 17 * (total as int));
        } else {
            if exists|t2: int| spec_is_top2(c, t2) && #[trigger] (20 * t2) >= 17 * (total as int) {
                let t2 = choose|t2: int| spec_is_top2(c, t2) && #[trigger] (20 * t2) >= 17 * (total as int);
                lemma_top2_unique(c, t as int, t2);
            }
        }
    }
    checker
}

/// Save slots the title screen's profile table holds.
pub const TITLE_PROFILE_SLOT_COUNT: usize = 10;

/// A counter bumped the way an atomic `fetch_add(1)` bumps it: wrapping at the top.
pub open spec fn spec_inc(x: usize) -> usize {
    if x == usize::MAX {
        0
    } else {
        (x + 1) as usize
    }
}

fn inc(x: usize) -> (y: usize)
    ensures
        y == spec_inc(x),
{
    if x == usize::MAX {
        0
    } else {
        x + 1
    }
}

/// The bridge after its published head has been dropped: no head, no "keyed frame" gate, no
/// identity tag, and a crop envelope re-seeded for the next character's silhouette.
pub open spec fn spec_bridge_dropped(after: &PortraitBridge, before: &PortraitBridge) -> bool {
    &&& after.rgba is None
    &&& !after.have_keyed_frame
    &&& after.published_slot == 0
    &&& after.published_name_hash == 0
    &&& after.crop.spec_is_reset()
    &&& after.rgba_version == before.rgba_version
}

/// Drops the published head and the frozen crop envelope: after this the loading screen has no
/// portrait to draw until something publishes a new one. The window reset's wrong-character clear
/// and a mid-window hold revocation both do exactly this.
pub fn loading_portrait_drop_published_bridge(bridge: &mut PortraitBridge)
    ensures
        spec_bridge_dropped(final(bridge), old(bridge)),
{
    bridge.rgba = None;
    bridge.have_keyed_frame = false;
    bridge.published_slot = 0;
    bridge.published_name_hash = 0;
    bridge.crop = PortraitCropEnvelope::new();
}

/// The depth-key masking plane's cache: the pinned depth candidate and the cached mask, tagged
/// with the character incarnation it was computed for.
#[derive(Debug, Clone, Copy, PartialEq, Eq, Structural)]
pub struct DepthMaskCache {
    pub depth_pin: usize,
    pub has_mask: bool,
    pub incarnation: usize,
}

/// Invalidates the depth-key masking plane for a new model: drops the cached mask and the pinned
/// depth candidate, so the next key recomputes the silhouette from the new model's own depth
/// instead of cutting the previous character's shape out of the new head.
pub fn invalidate_portrait_depth_mask(cache: &mut DepthMaskCache)
    ensures
        final(cache).depth_pin == 0,
        !final(cache).has_mask,
        final(cache).incarnation == 0,
{
    cache.depth_pin = 0;
    cache.has_mask = false;
    cache.incarnation = 0;
}

/// Same-identity bridge holds across own-menu-switch rearms, and what became of them.
#[derive(Debug, Clone, Copy, PartialEq, Eq, Structural)]
pub struct BridgeHoldState {
    /// The outstanding provisional hold's slot tag (slot + 1); 0 = none.
    pub provisional: usize,
    /// Holds taken.
    pub same_identity_holds: usize,
    /// Holds revoked by the record-vs-preview face fingerprint.
    pub revocations: usize,
    /// Holds that rode a whole window without publishing and without being revoked.
    pub unproven: usize,
}

impl BridgeHoldState {
    /// No hold taken yet.
    pub fn new() -> (state: Self)
        ensures
            state.provisional == 0,
            state.same_identity_holds == 0,
            state.revocations == 0,
            state.unproven == 0,
    {
        BridgeHoldState { provisional: 0, same_identity_holds: 0, revocations: 0, unproven: 0 }
    }
}

/// What the own-menu-switch rearm decided.
#[derive(Debug, Clone, Copy, PartialEq, Eq, Structural)]
pub struct SwitchReset {
    /// The incoming slot's tag (slot + 1), 0 for a slot outside the table.
    pub incoming_slot_tag: usize,
    /// The unproven count after this rearm, when the previous window's hold was still outstanding.
    pub unproven: Option<usize>,
    /// The outstanding hold's tag that was refused a second window (0 when there was none).
    pub refused_tag: usize,
    /// The hold count after this rearm, when it took a same-identity hold.
    pub held: Option<usize>,
    /// What closing the window reported.
    pub report: WindowCloseReport,
}

/// The incoming slot's identity tag: `slot + 1` for a slot inside the profile table, else 0.
pub open spec fn spec_slot_tag(slot: i32) -> usize {
    if 0 <= slot < TITLE_PROFILE_SLOT_COUNT {
        (slot + 1) as usize
    } else {
        0
    }
}

/// The own-menu-switch rearm: if the incoming target (`selected_slot` and its record's
/// `incoming_name_hash`) matches the published head's identity tag, keep the bridge and its crop
/// envelope and take a provisional hold that the face fingerprint can still revoke; otherwise clear
/// them. A hold still outstanding from the previous window is counted unproven and is never taken
/// again: an unproven head gets exactly one window. The window is then closed as at any close
/// ([`loading_portrait_window_reset_inner`]), holding the bridge exactly when the hold was taken.
pub fn loading_portrait_window_reset_for_switch(
    window: &mut PortraitWindowState,
    bridge: &mut PortraitBridge,
    hold: &mut BridgeHoldState,
    failures: &mut WindowPublishFailures,
    counts: &WindowPublishCounts,
    selected_slot: i32,
    incoming_name_hash: usize,
) -> (reset: SwitchReset)
    ensures
        reset.incoming_slot_tag == spec_slot_tag(selected_slot),
        reset.refused_tag == old(hold).provisional,
        spec_window_after_reset(final(window), old(window)),
        reset.report.close == spec_window_close(old(window)),
        reset.report.published == old(window).publish_clean_window,
        spec_window_failure_noted(
            *final(failures),
            *old(failures),
            reset.report.failure,
            old(window).publish_clean_window,
            old(window).drive_frames,
            *counts,
        ),
        old(hold).provisional != 0 ==> final(hold).unproven == spec_inc(old(hold).unproven)
            && reset.unproven == Some(final(hold).unproven),
        old(hold).provisional == 0 ==> final(hold).unproven == old(hold).unproven && reset.unproven
            is None,
        final(hold).revocations == old(hold).revocations,
        ({
            let take = old(hold).provisional == 0 && old(bridge).have_keyed_frame
                && spec_slot_tag(selected_slot) != 0 && spec_slot_tag(selected_slot)
                == old(bridge).published_slot && incoming_name_hash != 0 && incoming_name_hash
                == old(bridge).published_name_hash;
            &&& take ==> {
                &&& final(hold).provisional == spec_slot_tag(selected_slot)
                &&& final(hold).same_identity_holds == spec_inc(old(hold).same_identity_holds)
                &&& reset.held == Some(final(hold).same_identity_holds)
                &&& *final(bridge) == *old(bridge)
            }
            &&& !take ==> {
                &&& final(hold).provisional == 0
                &&& final(hold).same_identity_holds == old(hold).same_identity_holds
                &&& reset.held is None
                &&& spec_bridge_dropped(final(bridge), old(bridge))
            }
        }),
{
    let outstanding = hold.provisional;
    hold.provisional = 0;
    let mut unproven: Option<usize> = None;
    if outstanding != 0 {
        hold.unproven = inc(hold.unproven);
        unproven = Some(hold.unproven);
    }
    let incoming_slot_tag: usize = if 0 <= selected_slot && selected_slot < 10 {
        (selected_slot + 1) as usize
    } else {
        0
    };
    let take = outstanding == 0 && same_identity_bridge_hold(
        bridge.have_keyed_frame,
        incoming_slot_tag,
        incoming_name_hash,
        bridge.published_slot,
        bridge.published_name_hash,
    );
    let mut held: Option<usize> = None;
    if take {
        hold.same_identity_holds = inc(hold.same_identity_holds);
        hold.provisional = incoming_slot_tag;
        held = Some(hold.same_identity_holds);
    }
    let report = loading_portrait_window_reset_inner(window, bridge, failures, counts, take);
    SwitchReset { incoming_slot_tag, unproven, refused_tag: outstanding, held, report }
}

/// Resolves an outstanding provisional hold against the build kick's record-vs-preview face
/// fingerprint. When the fingerprint refutes the held head, the hold is cleared, the published
/// head and its crop envelope are dropped, the cached depth mask is invalidated, and the
/// revocation count is returned; otherwise nothing changes.
pub fn loading_portrait_bridge_hold_face_check(
    bridge: &mut PortraitBridge,
    hold: &mut BridgeHoldState,
    mask: &mut DepthMaskCache,
    kick_slot: i32,
    record_face_hash: usize,
    preview_face_hash: usize,
) -> (revoked: Option<usize>)
    ensures
        (revoked is Some) == (spec_bridge_hold_face_verdict(
            old(hold).provisional,
            kick_slot,
            record_face_hash,
            preview_face_hash,
        ) == BridgeHoldVerdict::Revoke),
        revoked is None ==> {
            &&& *final(bridge) == *old(bridge)
            &&& *final(hold) == *old(hold)
            &&& *final(mask) == *old(mask)
        },
        revoked matches Some(n) ==> {
            &&& final(hold).provisional == 0
            &&& final(hold).revocations == spec_inc(old(hold).revocations)
            &&& n == final(hold).revocations
            &&& final(hold).same_identity_holds == old(hold).same_identity_holds
            &&& final(hold).unproven == old(hold).unproven
            &&& spec_bridge_dropped(final(bridge), old(bridge))
            &&& final(mask).depth_pin == 0 && !final(mask).has_mask && final(mask).incarnation == 0
        },
{
    let verdict = bridge_hold_face_verdict(
        hold.provisional,
        kick_slot,
        record_face_hash,
        preview_face_hash,
    );
    if !verdict.revokes() {
        return None;
    }
    if hold.provisional == 0 {
        return None;
    }
    hold.provisional = 0;
    loading_portrait_drop_published_bridge(bridge);
    invalidate_portrait_depth_mask(mask);
    hold.revocations = inc(hold.revocations);
    Some(hold.revocations)
}

/// A publish of this window's own frame supersedes any provisional hold: nothing is left to revoke.
pub fn loading_portrait_bridge_hold_superseded_by_publish(hold: &mut BridgeHoldState)
    ensures
        final(hold).provisional == 0,
        final(hold).same_identity_holds == old(hold).same_identity_holds,
        final(hold).revocations == old(hold).revocations,
        final(hold).unproven == old(hold).unproven,
{
    hold.provisional = 0;
}

/// A refuted hold cannot survive: whatever the bridge held, a revoking fingerprint leaves no head,
/// no identity tag and no outstanding hold behind.
pub proof fn lemma_refuted_hold_leaves_no_head(
    held_tag: usize,
    kick_slot: i32,
    record_face_hash: usize,
    preview_face_hash: usize,
)
    requires
        spec_bridge_hold_face_verdict(held_tag, kick_slot, record_face_hash, preview_face_hash)
            == BridgeHoldVerdict::Revoke,
    ensures
        held_tag != 0,
        preview_face_hash != 0,
        record_face_hash != preview_face_hash,
{
}

/// A cumulative counter's share of the window since `mark`, and the mark moved to it: a counter
/// that went backwards (a reset elsewhere) reads as 0 rather than wrapping.
pub fn window_count_since(cumulative: usize, mark: &mut usize) -> (delta: usize)
    ensures
        delta == if cumulative >= *old(mark) {
            cumulative - *old(mark)
        } else {
            0
        },
        *final(mark) == cumulative,
{
    let delta = if cumulative >= *mark {
        cumulative - *mark
    } else {
        0
    };
    *mark = cumulative;
    delta
}

/// One window's publish and skip counts, each the window's share of its cumulative counter.
#[derive(Debug, Clone, Copy, PartialEq, Eq, Structural)]
pub struct WindowPublishCounts {
    /// Usable frames the tear metric rejected.
    pub torn: usize,
    /// Frames the depth mask never cut.
    pub unkeyed: usize,
    /// Frames refused by the IoU gross-mismatch bar.
    pub badiou: usize,
    /// Frames held back for a too-small transparent share.
    pub lowmask: usize,
    /// Readbacks that looked like the checker placeholder.
    pub checker: usize,
    /// Publishes skipped because several models were live.
    pub multi: usize,
    /// Frames held back for lacking scene-bundle provenance.
    pub unpaired: usize,
    /// Render-target copies made this window.
    pub copies: usize,
    /// Colour ticks resolved from the scene bundle / from the scan.
    pub color_from_bundle: usize,
    pub color_from_scan: usize,
    /// Depth resolved through the deterministic chain / the search.
    pub depth_from_chain: usize,
    pub depth_from_bfs: usize,
}

/// The dominant cause of a window that drove frames but published none: 1 torn, 2 unkeyed,
/// 3 badiou, 4 lowmask, 5 checker, 6 multi, 7 unpaired, 8 no render-target copy, 9 no source
/// provenance, 0 unknown. The skip classes are weighed against each other; the rest are checked
/// in order of how directly they explain an empty window.
pub open spec fn spec_publish_fail_cause(c: WindowPublishCounts) -> usize {
    if c.torn >= c.unkeyed && c.torn >= c.badiou && c.torn >= c.lowmask && c.torn > 0 {
        1
    } else if c.unkeyed >= c.badiou && c.unkeyed >= c.lowmask && c.unkeyed > 0 {
        2
    } else if c.badiou >= c.lowmask && c.badiou > 0 {
        3
    } else if c.lowmask > 0 {
        4
    } else if c.checker > 0 {
        5
    } else if c.multi > 0 {
        6
    } else if c.unpaired > 0 {
        7
    } else if c.copies == 0 {
        8
    } else if c.color_from_bundle == 0 && c.color_from_scan == 0 && c.depth_from_chain == 0
        && c.depth_from_bfs == 0 {
        9
    } else {
        0
    }
}

/// Names the dominant cause of a starved window, from its counts.
pub fn portrait_publish_fail_cause(c: &WindowPublishCounts) -> (cause: usize)
    ensures
        cause == spec_publish_fail_cause(*c),
{
    if c.torn >= c.unkeyed && c.torn >= c.badiou && c.torn >= c.lowmask && c.torn > 0 {
        1
    } else if c.unkeyed >= c.badiou && c.unkeyed >= c.lowmask && c.unkeyed > 0 {
        2
    } else if c.badiou >= c.lowmask && c.badiou > 0 {
        3
    } else if c.lowmask > 0 {
        4
    } else if c.checker > 0 {
        5
    } else if c.multi > 0 {
        6
    } else if c.unpaired > 0 {
        7
    } else if c.copies == 0 {
        8
    } else if c.color_from_bundle == 0 && c.color_from_scan == 0 && c.depth_from_chain == 0
        && c.depth_from_bfs == 0 {
        9
    } else {
        0
    }
}

/// The log name of a publish-failure cause.
pub open spec fn spec_publish_fail_cause_name(cause: usize) -> Seq<char> {
    if cause == 1 {
        "torn"@
    } else if cause == 2 {
        "unkeyed"@
    } else if cause == 3 {
        "badiou"@
    } else if cause == 4 {
        "lowmask"@
    } else if cause == 5 {
        "checker"@
    } else if cause == 6 {
        "multi"@
    } else if cause == 7 {
        "unpaired"@
    } else if cause == 8 {
        "no-copy"@
    } else if cause == 9 {
        "no-provenance"@
    } else {
        "unknown"@
    }
}

/// The log name of a publish-failure cause.
pub fn publish_fail_cause_name(cause: usize) -> (name: &'static str)
    ensures
        name@ == spec_publish_fail_cause_name(cause),
{
    if cause == 1 {
        "torn"
    } else if cause == 2 {
        "unkeyed"
    } else if cause == 3 {
        "badiou"
    } else if cause == 4 {
        "lowmask"
    } else if cause == 5 {
        "checker"
    } else if cause == 6 {
        "multi"
    } else if cause == 7 {
        "unpaired"
    } else if cause == 8 {
        "no-copy"
    } else if cause == 9 {
        "no-provenance"
    } else {
        "unknown"
    }
}

/// The window publish-failure semaphore: how many windows drove the model yet published nothing,
/// the last one's cause, and whether the draw tick's fast-fail already counted the current window.
#[derive(Debug, Clone, Copy, PartialEq, Eq, Structural)]
pub struct WindowPublishFailures {
    pub failures: usize,
    pub cause: usize,
    pub latched: bool,
}

/// What the window close made of the window's publishes.
#[derive(Debug, Clone, Copy, PartialEq, Eq, Structural)]
pub struct WindowFailure {
    /// The failure count to report.
    pub number: usize,
    /// The fast-fail had already counted this window.
    pub already_counted: bool,
    /// The dominant cause.
    pub cause: usize,
}

/// The window-close backstop's effect: the latch re-arms; a window that drove frames and published
/// none is a failure with its dominant cause, counted unless the fast-fail already counted it; any
/// other window leaves the count and cause alone.
pub open spec fn spec_window_failure_noted(
    after: WindowPublishFailures,
    before: WindowPublishFailures,
    failure: Option<WindowFailure>,
    published: usize,
    drive: usize,
    counts: WindowPublishCounts,
) -> bool {
    &&& !after.latched
    &&& (failure is Some) == (published == 0 && drive > 0)
    &&& failure is None ==> after.failures == before.failures && after.cause == before.cause
    &&& failure matches Some(f) ==> {
        &&& f.cause == spec_publish_fail_cause(counts)
        &&& after.cause == f.cause
        &&& f.already_counted == before.latched
        &&& after.failures == if before.latched {
            before.failures
        } else {
            spec_inc(before.failures)
        }
        &&& f.number == after.failures
    }
}

impl WindowPublishFailures {
    /// No failed window yet.
    pub fn new() -> (state: Self)
        ensures
            state.failures == 0,
            state.cause == 0,
            !state.latched,
    {
        WindowPublishFailures { failures: 0, cause: 0, latched: false }
    }

    /// The window-close backstop: a window that drove `drive` frames and published none is a
    /// failure, counted unless the fast-fail already counted it. The latch re-arms for the next
    /// window either way.
    pub fn note_window_close(&mut self, published: usize, drive: usize, counts: &WindowPublishCounts)
        -> (failure: Option<WindowFailure>)
        ensures
            spec_window_failure_noted(*final(self), *old(self), failure, published, drive, *counts),
    {
        let mut failure: Option<WindowFailure> = None;
        if published == 0 && drive > 0 {
            let cause = portrait_publish_fail_cause(counts);
            self.cause = cause;
            let already = self.latched;
            if !already {
                self.failures = inc(self.failures);
            }
            failure = Some(WindowFailure { number: self.failures, already_counted: already, cause });
        }
        self.latched = false;
        failure
    }
}

} // verus!
