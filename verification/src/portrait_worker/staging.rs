//! Unpacking a mapped readback staging buffer into plain frames: colour rows are copied out of
//! their 256-aligned pitch into a tightly packed RGBA8 frame (red and blue swapped for BGRA
//! formats), and depth rows into little-endian 32-bit words. Mapping the buffer is the caller's
//! part; these see its bytes as a slice.

use vstd::prelude::*;
use vstd::arithmetic::div_mod::lemma_fundamental_div_mod_converse;

verus! {

/// Bytes per texel of an RGBA8 frame.
pub const RGBA8_BPP: usize = 4;

/// `DXGI_FORMAT_B8G8R8A8_UNORM`.
pub const DXGI_FORMAT_B8G8R8A8_UNORM: u32 = 87;

/// `DXGI_FORMAT_B8G8R8A8_UNORM_SRGB`.
pub const DXGI_FORMAT_B8G8R8A8_UNORM_SRGB: u32 = 91;

/// Whether a staged colour format stores blue first, so that red and blue trade places on the way
/// out.
pub fn staged_format_is_bgra(format: u32) -> (swap_rb: bool)
    ensures
        swap_rb <==> (format == DXGI_FORMAT_B8G8R8A8_UNORM || format
            == DXGI_FORMAT_B8G8R8A8_UNORM_SRGB),
{
    format == DXGI_FORMAT_B8G8R8A8_UNORM || format == DXGI_FORMAT_B8G8R8A8_UNORM_SRGB
}

/// The smaller of two integers.
pub open spec fn spec_min(a: int, b: int) -> int {
    if a <= b {
        a
    } else {
        b
    }
}

/// How many bytes of staged row `y` reach the packed frame: none once the row starts at or past
/// the end of the buffer, else as much of the packed row as the pitch and the rest of the buffer
/// hold.
pub open spec fn spec_row_copy(total: int, w: int, row_pitch: int, y: int) -> int {
    let row_off = y * row_pitch;
    if row_off >= total {
        0
    } else {
        spec_min(spec_min(w * 4, row_pitch), total - row_off)
    }
}

/// Byte `j` of packed row `y`: the staged byte at the same place in its row, with bytes 0 and 2 of
/// each whole copied texel exchanged when `swap_rb`; zero past what the row copies.
pub open spec fn spec_color_byte(
    staged: Seq<u8>,
    w: int,
    row_pitch: int,
    swap_rb: bool,
    y: int,
    j: int,
) -> u8 {
    let row_off = y * row_pitch;
    let copy = spec_row_copy(staged.len() as int, w, row_pitch, y);
    if j >= copy {
        0
    } else if swap_rb && j < (copy / 4) * 4 && j % 4 == 0 {
        staged[row_off + j + 2]
    } else if swap_rb && j < (copy / 4) * 4 && j % 4 == 2 {
        staged[row_off + j - 2]
    } else {
        staged[row_off + j]
    }
}

/// Packs the `w` x `h` colour rows of a staging buffer laid out `row_pitch` bytes apart into a
/// tightly packed RGBA8 frame, row-major.
pub fn deswizzle_color_rows(staged: &[u8], w: usize, h: usize, row_pitch: usize, swap_rb: bool) -> (out:
    Vec<u8>)
    requires
        (w as int) * (h as int) * 4 <= usize::MAX,
    ensures
        out@.len() == w * h * 4,
        forall|k: int|
            0 <= k < out@.len() ==> #[trigger] out@[k] == spec_color_byte(
                staged@,
                w as int,
                row_pitch as int,
                swap_rb,
                k / (w as int * 4),
                k % (w as int * 4),
            ),
{
    let mut out: Vec<u8> = Vec::new();
    if w == 0 || h == 0 {
        assert((w as int) * (h as int) * 4 == 0) by (nonlinear_arith)
            requires
                w == 0 || h == 0,
        ;
        return out;
    }
    assert((w as int) * 4 <= (w as int) * (h as int) * 4) by (nonlinear_arith)
        requires
            h >= 1,
    ;
    let out_row = w * RGBA8_BPP;
    let total = staged.len();
    let ghost wi = w as int;
    let ghost rp = row_pitch as int;
    let mut y: usize = 0;
    let mut row_off: usize = 0;
    let mut exhausted = false;
    while y < h
        invariant
            wi == w as int,
            rp == row_pitch as int,
            out_row == wi * 4,
            0 < out_row,
            total == staged@.len(),
            y <= h,
            out@.len() == y * out_row,
            !exhausted ==> row_off == y * rp,
            exhausted ==> y * rp >= total,
            forall|k: int|
                0 <= k < out@.len() ==> #[trigger] out@[k] == spec_color_byte(
                    staged@,
                    wi,
                    rp,
                    swap_rb,
                    k / (wi * 4),
                    k % (wi * 4),
                ),
        decreases h - y,
    {
        let copy: usize = if exhausted || row_off >= total {
            0
        } else {
            let rest = total - row_off;
            let a = if out_row <= row_pitch {
                out_row
            } else {
                row_pitch
            };
            if a <= rest {
                a
            } else {
                rest
            }
        };
        assert(copy == spec_row_copy(total as int, wi, rp, y as int));
        let texel_bytes = copy / RGBA8_BPP * RGBA8_BPP;
        let mut j: usize = 0;
        while j < out_row
            invariant
                wi == w as int,
                rp == row_pitch as int,
                out_row == wi * 4,
                0 < out_row,
                total == staged@.len(),
                y < h,
                j <= out_row,
                out@.len() == y * out_row + j,
                copy == spec_row_copy(total as int, wi, rp, y as int),
                texel_bytes == (copy / 4) * 4,
                copy > 0 ==> row_off == y * rp && row_off + copy <= total,
                forall|k: int|
                    0 <= k < out@.len() ==> #[trigger] out@[k] == spec_color_byte(
                        staged@,
                        wi,
                        rp,
                        swap_rb,
                        k / (wi * 4),
                        k % (wi * 4),
                    ),
            decreases out_row - j,
        {
            let b: u8 = if j >= copy {
                0
            } else if swap_rb && j < texel_bytes && j % 4 == 0 {
                staged[row_off + j + 2]
            } else if swap_rb && j < texel_bytes && j % 4 == 2 {
                staged[row_off + j - 2]
            } else {
                staged[row_off + j]
            };
            proof {
                lemma_fundamental_div_mod_converse(y * out_row + j, out_row as int, y as int, j as int);
            }
            out.push(b);
            j += 1;
        }
        assert((y as int + 1) * out_row == y * out_row + out_row) by (nonlinear_arith);
        assert((y as int + 1) * rp == y * rp + rp) by (nonlinear_arith);
        if !exhausted {
            match row_off.checked_add(row_pitch) {
                Some(next) => {
                    row_off = next;
                },
                None => {
                    exhausted = true;
                },
            }
        }
        y += 1;
    }
    assert(h * out_row == (w as int) * (h as int) * 4) by (nonlinear_arith)
        requires
            out_row == (w as int) * 4,
    ;
    out
}

/// The little-endian 32-bit word of four bytes.
pub open spec fn spec_le_u32(b0: u8, b1: u8, b2: u8, b3: u8) -> u32 {
    (b0 + b1 * 0x100 + b2 * 0x1_0000 + b3 * 0x100_0000) as u32
}

/// Depth word `x` of row `y`: the little-endian word at that texel of the staged row when the
/// whole row of `w` words lies inside the buffer, else zero.
pub open spec fn spec_depth_word(staged: Seq<u8>, w: int, row_pitch: int, y: int, x: int) -> u32 {
    let row_off = y * row_pitch;
    if row_off + w * 4 <= staged.len() {
        let p = row_off + x * 4;
        spec_le_u32(staged[p], staged[p + 1], staged[p + 2], staged[p + 3])
    } else {
        0
    }
}

/// Reads the `w` x `h` depth texels of a staging buffer laid out `row_pitch` bytes apart as raw
/// 32-bit words, row-major; rows that run past the buffer stay zero.
pub fn deswizzle_depth_words(staged: &[u8], w: usize, h: usize, row_pitch: usize) -> (out: Vec<u32>)
    requires
        (w as int) * (h as int) * 4 <= usize::MAX,
    ensures
        out@.len() == w * h,
        forall|k: int|
            0 <= k < out@.len() ==> #[trigger] out@[k] == spec_depth_word(
                staged@,
                w as int,
                row_pitch as int,
                k / (w as int),
                k % (w as int),
            ),
{
    let mut out: Vec<u32> = Vec::new();
    if w == 0 || h == 0 {
        assert((w as int) * (h as int) == 0) by (nonlinear_arith)
            requires
                w == 0 || h == 0,
        ;
        return out;
    }
    assert((w as int) * 4 <= (w as int) * (h as int) * 4) by (nonlinear_arith)
        requires
            h >= 1,
    ;
    let row_bytes = w * 4;
    let total = staged.len();
    let ghost wi = w as int;
    let ghost rp = row_pitch as int;
    let mut y: usize = 0;
    let mut row_off: usize = 0;
    let mut exhausted = false;
    while y < h
        invariant
            wi == w as int,
            rp == row_pitch as int,
            0 < w,
            row_bytes == wi * 4,
            total == staged@.len(),
            y <= h,
            out@.len() == y * wi,
            !exhausted ==> row_off == y * rp,
            exhausted ==> y * rp >= total,
            forall|k: int|
                0 <= k < out@.len() ==> #[trigger] out@[k] == spec_depth_word(
                    staged@,
                    wi,
                    rp,
                    k / wi,
                    k % wi,
                ),
        decreases h - y,
    {
        let present = !exhausted && row_off <= total && row_bytes <= total - row_off;
        assert(present <==> y * rp + wi * 4 <= total);
        let mut x: usize = 0;
        while x < w
            invariant
                wi == w as int,
                rp == row_pitch as int,
                0 < w,
                row_bytes == wi * 4,
                total == staged@.len(),
                y < h,
                x <= w,
                out@.len() == y * wi + x,
                present <==> y * rp + wi * 4 <= total,
                present ==> row_off == y * rp,
                forall|k: int|
                    0 <= k < out@.len() ==> #[trigger] out@[k] == spec_depth_word(
                        staged@,
                        wi,
                        rp,
                        k / wi,
                        k % wi,
                    ),
            decreases w - x,
        {
            let word: u32 = if present {
                let p = row_off + x * 4;
                let b0 = staged[p] as u32;
                let b1 = staged[p + 1] as u32;
                let b2 = staged[p + 2] as u32;
                let b3 = staged[p + 3] as u32;
                b0 + b1 * 0x100 + b2 * 0x1_0000 + b3 * 0x100_0000
            } else {
                0
            };
            proof {
                lemma_fundamental_div_mod_converse(y * wi + x, wi, y as int, x as int);
            }
            out.push(word);
            x += 1;
        }
        assert((y as int + 1) * wi == y * wi + wi) by (nonlinear_arith);
        assert((y as int + 1) * rp == y * rp + rp) by (nonlinear_arith);
        if !exhausted {
            match row_off.checked_add(row_pitch) {
                Some(next) => {
                    row_off = next;
                },
                None => {
                    exhausted = true;
                },
            }
        }
        y += 1;
    }
    assert(h * wi == (w as int) * (h as int)) by (nonlinear_arith)
        requires
            wi == w as int,
    ;
    out
}

} // verus!
