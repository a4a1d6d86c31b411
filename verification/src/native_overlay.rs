//! The decisions of the native overlay's render loop: the window's size, when the window is shown
//! or hidden, and how the rasterized boot-view frame is laid into the pitched upload buffer that
//! the copy to the backbuffer reads. The window, device and swap chain are the caller's part.

use vstd::prelude::*;
use vstd::arithmetic::div_mod::lemma_fundamental_div_mod;
use crate::portrait_worker::staging::{spec_color_byte, spec_row_copy};

verus! {

/// The overlay window's size: the primary display's, or 1920 x 1080 when the display does not
/// answer with a positive size.
pub fn overlay_window_size(screen_w: i32, screen_h: i32) -> (size: (i32, i32))
    ensures
        size == (if screen_w > 0 && screen_h > 0 {
            (screen_w, screen_h)
        } else {
            (1920i32, 1080i32)
        }),
{
    if screen_w > 0 && screen_h > 0 {
        (screen_w, screen_h)
    } else {
        (1920, 1080)
    }
}

/// The window's show state changes only when the wanted state differs from the current one:
/// `Some(wanted)` then, `None` otherwise.
pub fn overlay_show_change(want_show: bool, shown: bool) -> (change: Option<bool>)
    ensures
        change == (if want_show != shown {
            Some(want_show)
        } else {
            None::<bool>
        }),
{
    if want_show != shown {
        Some(want_show)
    } else {
        None
    }
}

/// Row `y` of a `w`-texel-wide frame is copied only when it lies whole inside both the upload
/// buffer (at `y * row_pitch`) and the frame's pixels (at `y * w * 4`).
pub open spec fn spec_row_fits(dst_len: int, rgba_len: int, w: int, row_pitch: int, y: int) -> bool {
    &&& y * row_pitch + w * 4 <= dst_len
    &&& y * (w * 4) + w * 4 <= rgba_len
}

/// `s` with `src` written over it from position `at`.
pub open spec fn spec_splice(s: Seq<u8>, at: int, src: Seq<u8>) -> Seq<u8> {
    s.subrange(0, at) + src + s.subrange(at + src.len(), s.len() as int)
}

/// The upload buffer after rows `0..n` of the frame were laid into it, each row that fits written
/// at its pitch offset, later rows over earlier ones.
pub open spec fn spec_packed_rows(dst: Seq<u8>, rgba: Seq<u8>, w: int, row_pitch: int, n: nat) -> Seq<
    u8,
>
    decreases n,
{
    if n == 0 {
        dst
    } else {
        let y = n - 1;
        let prev = spec_packed_rows(dst, rgba, w, row_pitch, (n - 1) as nat);
        if spec_row_fits(dst.len() as int, rgba.len() as int, w, row_pitch, y) {
            spec_splice(prev, y * row_pitch, rgba.subrange(y * (w * 4), y * (w * 4) + w * 4))
        } else {
            prev
        }
    }
}

/// Laying rows never changes the buffer's length.
proof fn lemma_packed_rows_len(dst: Seq<u8>, rgba: Seq<u8>, w: int, row_pitch: int, n: nat)
    requires
        w >= 0,
        row_pitch >= 0,
    ensures
        spec_packed_rows(dst, rgba, w, row_pitch, n).len() == dst.len(),
    decreases n,
{
    if n > 0 {
        lemma_packed_rows_len(dst, rgba, w, row_pitch, (n - 1) as nat);
        let y = n - 1;
        assert(y * row_pitch >= 0) by (nonlinear_arith)
            requires
                y >= 0,
                row_pitch >= 0,
        ;
    }
}

/// Lays the `w` x `h` RGBA frame `rgba` into the upload buffer `dst` row by row, `row_pitch` bytes
/// apart, skipping any row that does not fit.
pub fn pack_frame_rows(dst: &mut [u8], rgba: &[u8], w: usize, h: usize, row_pitch: usize)
    ensures
        final(dst)@ == spec_packed_rows(old(dst)@, rgba@, w as int, row_pitch as int, h as nat),
{
    let ghost d0 = dst@;
    let ghost wi = w as int;
    let ghost rp = row_pitch as int;
    let dst_len = dst.len();
    let rgba_len = rgba.len();
    let mut y: usize = 0;
    while y < h
        invariant
            wi == w as int,
            rp == row_pitch as int,
            d0.len() == dst_len,
            rgba_len == rgba@.len(),
            y <= h,
            dst@.len() == dst_len,
            dst@ == spec_packed_rows(d0, rgba@, wi, rp, y as nat),
        decreases h - y,
    {
        let ghost prev = dst@;
        let mut fits = false;
        let mut d: usize = 0;
        let mut so: usize = 0;
        let mut src_row: usize = 0;
        match w.checked_mul(4) {
            Some(row_bytes) => {
                match (y.checked_mul(row_pitch), y.checked_mul(row_bytes)) {
                    (Some(dd), Some(ss)) => {
                        src_row = row_bytes;
                        d = dd;
                        so = ss;
                        fits = dd <= dst_len && row_bytes <= dst_len - dd && ss <= rgba_len
                            && row_bytes <= rgba_len - ss;
                    },
                    _ => {},
                }
            },
            None => {},
        }
        assert(fits <==> spec_row_fits(dst_len as int, rgba_len as int, wi, rp, y as int)) by {
            assert(wi * 4 >= 0);
            assert((y as int) * rp >= 0) by (nonlinear_arith)
                requires
                    y >= 0,
                    rp >= 0,
            ;
            assert((y as int) * (wi * 4) >= 0) by (nonlinear_arith)
                requires
                    y >= 0,
                    wi >= 0,
            ;
        }
        if fits {
            let mut j: usize = 0;
            while j < src_row
                invariant
                    fits,
                    src_row == wi * 4,
                    d == (y as int) * rp,
                    so == (y as int) * (wi * 4),
                    d + src_row <= dst_len,
                    so + src_row <= rgba_len,
                    rgba_len == rgba@.len(),
                    prev.len() == dst_len,
                    j <= src_row,
                    dst@ =~= spec_splice(prev, d as int, rgba@.subrange(so as int, so + j)),
                decreases src_row - j,
            {
                dst[d + j] = rgba[so + j];
                j += 1;
                assert(dst@ =~= spec_splice(prev, d as int, rgba@.subrange(so as int, so + j)));
            }
        } else {
        }
        proof {
            lemma_packed_rows_len(d0, rgba@, wi, rp, y as nat);
            if !fits {
                assert(dst@ =~= prev);
            }
            assert(spec_packed_rows(d0, rgba@, wi, rp, (y + 1) as nat) == (if spec_row_fits(
                d0.len() as int,
                rgba@.len() as int,
                wi,
                rp,
                y as int,
            ) {
                spec_splice(
                    prev,
                    (y as int) * rp,
                    rgba@.subrange((y as int) * (wi * 4), (y as int) * (wi * 4) + wi * 4),
                )
            } else {
                prev
            }));
        }
        y += 1;
    }
}

/// Byte `j` of row `y` of a packed buffer is byte `j` of the frame's row `y`, when the pitch holds a
/// whole row and every row up to `n` fits.
proof fn lemma_packed_row_byte(
    dst: Seq<u8>,
    rgba: Seq<u8>,
    w: int,
    row_pitch: int,
    n: nat,
    y: int,
    j: int,
)
    requires
        0 <= w,
        w * 4 <= row_pitch,
        0 <= y < n,
        0 <= j < w * 4,
        (n - 1) * row_pitch + w * 4 <= dst.len(),
        n * (w * 4) <= rgba.len(),
    ensures
        spec_packed_rows(dst, rgba, w, row_pitch, n)[y * row_pitch + j] == rgba[y * (w * 4) + j],
    decreases n,
{
    let last = n - 1;
    lemma_packed_rows_len(dst, rgba, w, row_pitch, last as nat);
    let prev = spec_packed_rows(dst, rgba, w, row_pitch, last as nat);
    assert(last * row_pitch >= 0) by (nonlinear_arith)
        requires
            last >= 0,
            row_pitch >= 0,
    ;
    assert(last * (w * 4) + w * 4 == n * (w * 4)) by (nonlinear_arith)
        requires
            last == n - 1,
    ;
    assert(last * (w * 4) >= 0) by (nonlinear_arith)
        requires
            last >= 0,
            w >= 0,
    ;
    assert(spec_row_fits(dst.len() as int, rgba.len() as int, w, row_pitch, last));
    if y == last {
    } else {
        assert(y * row_pitch + row_pitch <= last * row_pitch) by (nonlinear_arith)
            requires
                y < last,
                row_pitch >= 0,
        ;
        assert(y * row_pitch >= 0) by (nonlinear_arith)
            requires
                y >= 0,
                row_pitch >= 0,
        ;
        assert((last - 1) * row_pitch <= last * row_pitch) by (nonlinear_arith)
            requires
                row_pitch >= 0,
        ;
        assert((n - 1) * (w * 4) <= n * (w * 4)) by (nonlinear_arith)
            requires
                w >= 0,
        ;
        lemma_packed_row_byte(dst, rgba, w, row_pitch, last as nat, y, j);
    }
}

/// Laying a `w` x `h` frame into an upload buffer at a pitch that holds a whole row, into a buffer
/// that holds every row, and reading that buffer back at the same pitch without a red/blue swap
/// gives every byte of the frame back.
pub proof fn lemma_unpack_inverts_pack(dst: Seq<u8>, rgba: Seq<u8>, w: int, h: int, row_pitch: int)
    requires
        0 < w,
        0 < h,
        w * 4 <= row_pitch,
        (h - 1) * row_pitch + w * 4 <= dst.len(),
        rgba.len() == w * h * 4,
    ensures
        forall|k: int|
            0 <= k < w * h * 4 ==> #[trigger] spec_color_byte(
                spec_packed_rows(dst, rgba, w, row_pitch, h as nat),
                w,
                row_pitch,
                false,
                k / (w * 4),
                k % (w * 4),
            ) == rgba[k],
{
    let packed = spec_packed_rows(dst, rgba, w, row_pitch, h as nat);
    lemma_packed_rows_len(dst, rgba, w, row_pitch, h as nat);
    assert(h * (w * 4) == w * h * 4) by (nonlinear_arith);
    assert forall|k: int| 0 <= k < w * h * 4 implies #[trigger] spec_color_byte(
        packed,
        w,
        row_pitch,
        false,
        k / (w * 4),
        k % (w * 4),
    ) == rgba[k] by {
        let y = k / (w * 4);
        let j = k % (w * 4);
        lemma_fundamental_div_mod(k, w * 4);
        assert(0 <= j < w * 4) by (nonlinear_arith)
            requires
                j == k % (w * 4),
                w > 0,
        ;
        assert(0 <= y < h) by (nonlinear_arith)
            requires
                y == k / (w * 4),
                0 <= k < h * (w * 4),
                w > 0,
        ;
        assert(y * row_pitch <= (h - 1) * row_pitch) by (nonlinear_arith)
            requires
                y <= h - 1,
                row_pitch >= 0,
        ;
        assert(spec_row_copy(packed.len() as int, w, row_pitch, y) == w * 4);
        lemma_packed_row_byte(dst, rgba, w, row_pitch, h as nat, y, j);
        assert(k == y * (w * 4) + j);
    }
}

} // verus!
