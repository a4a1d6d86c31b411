//! The look-at diagnostics that run beside the draw tick: the live draw-phase selector (a single
//! integer, read from a text file next to the game, picks which of the engine's draw phases runs
//! the portrait tick), the render-target sample's choice of stream and its centre-window gauges,
//! and the GX pool's free-entry count. Reading the file and game memory is the caller's part.

use vstd::prelude::*;
use crate::text::{spec_trim, str_chars, trimmed_bounds};

verus! {

/// An ASCII decimal digit.
pub open spec fn spec_is_ascii_digit(c: char) -> bool {
    '0' <= c && c <= '9'
}

/// The value of a run of decimal digits, most significant first (0 for none).
pub open spec fn spec_digits_value(s: Seq<char>) -> int
    decreases s.len(),
{
    if s.len() == 0 {
        0
    } else {
        spec_digits_value(s.drop_last()) * 10 + (s.last() as int - 48)
    }
}

/// The digits of an unsigned integer literal: the text after one optional leading `+`.
pub open spec fn spec_unsigned_body(s: Seq<char>) -> Seq<char> {
    if s.len() > 0 && s[0] == '+' {
        s.drop_first()
    } else {
        s
    }
}

/// What `str::parse::<usize>` gives for `s`: the value of its digits when, after one optional
/// `+`, it is a non-empty run of ASCII digits whose value fits in `usize`; else nothing.
pub open spec fn spec_parse_usize(s: Seq<char>) -> Option<int> {
    let b = spec_unsigned_body(s);
    if b.len() > 0 && (forall|i: int| 0 <= i < b.len() ==> #[trigger] spec_is_ascii_digit(b[i]))
        && spec_digits_value(b) <= usize::MAX {
        Some(spec_digits_value(b))
    } else {
        None
    }
}

/// The phase a selector file's text picks: its trimmed text parsed as an unsigned integer, when
/// that is below the number of phases.
pub open spec fn spec_phase_selection(text: Seq<char>, phase_count: int) -> Option<int> {
    match spec_parse_usize(spec_trim(text)) {
        Some(v) => if v < phase_count {
            Some(v)
        } else {
            None
        },
        None => None,
    }
}

/// Extending a run of digits never lowers its value.
proof fn lemma_digits_value_grows(s: Seq<char>, k: int)
    requires
        0 <= k <= s.len(),
        forall|i: int| 0 <= i < s.len() ==> #[trigger] spec_is_ascii_digit(s[i]),
    ensures
        spec_digits_value(s.subrange(0, k)) <= spec_digits_value(s),
        0 <= spec_digits_value(s.subrange(0, k)),
    decreases s.len() - k,
{
    if k < s.len() {
        let t = s.subrange(0, k + 1);
        assert(t.drop_last() =~= s.subrange(0, k));
        assert(spec_is_ascii_digit(s[k]));
        lemma_digits_value_nonneg(s.subrange(0, k));
        lemma_digits_value_grows(s, k + 1);
    } else {
        assert(s.subrange(0, k) =~= s);
        lemma_digits_value_nonneg(s);
    }
}

/// A run of digits has a non-negative value.
proof fn lemma_digits_value_nonneg(s: Seq<char>)
    requires
        forall|i: int| 0 <= i < s.len() ==> #[trigger] spec_is_ascii_digit(s[i]),
    ensures
        0 <= spec_digits_value(s),
    decreases s.len(),
{
    if s.len() > 0 {
        assert(spec_is_ascii_digit(s[s.len() - 1]));
        lemma_digits_value_nonneg(s.drop_last());
    }
}

/// The phase the selector file's text picks, if any: `text` trimmed, parsed as an unsigned integer
/// and kept only when below `phase_count`.
pub fn lookat_phase_selection(text: &str, phase_count: usize) -> (phase: Option<usize>)
    ensures
        match phase {
            Some(p) => spec_phase_selection(text@, phase_count as int) == Some(p as int),
            None => spec_phase_selection(text@, phase_count as int) is None,
        },
{
    let chars = str_chars(text);
    let (lo, hi) = trimmed_bounds(&chars);
    let ghost t = spec_trim(text@);
    assert(t =~= chars@.subrange(lo as int, hi as int));
    let mut start = lo;
    if start < hi && chars[start] == '+' {
        start = start + 1;
    }
    let ghost b = spec_unsigned_body(t);
    assert(b =~= chars@.subrange(start as int, hi as int));
    if start == hi {
        return None;
    }
    let mut value: usize = 0;
    let mut overflow = false;
    let mut i = start;
    while i < hi
        invariant
            start <= i <= hi,
            hi <= chars@.len(),
            b =~= chars@.subrange(start as int, hi as int),
            b == spec_unsigned_body(t),
            t == spec_trim(text@),
            forall|k: int| 0 <= k < i - start ==> #[trigger] spec_is_ascii_digit(b[k]),
            !overflow ==> value == spec_digits_value(b.subrange(0, i - start)),
            overflow ==> spec_digits_value(b.subrange(0, i - start)) > usize::MAX,
        decreases hi - i,
    {
        let c = chars[i];
        if !('0' <= c && c <= '9') {
            assert(!spec_is_ascii_digit(b[i - start]));
            assert(spec_parse_usize(t) is None);
            return None;
        }
        let ghost prefix = b.subrange(0, i - start);
        let ghost next = b.subrange(0, i - start + 1);
        assert(next.drop_last() =~= prefix);
        proof {
            lemma_digits_value_nonneg(prefix);
        }
        let d = (c as u32 - 48) as usize;
        if !overflow {
            match value.checked_mul(10) {
                Some(m) => match m.checked_add(d) {
                    Some(v) => {
                        value = v;
                    },
                    None => {
                        overflow = true;
                    },
                },
                None => {
                    overflow = true;
                },
            }
        }
        i = i + 1;
    }
    assert(b.subrange(0, b.len() as int) =~= b);
    if overflow {
        return None;
    }
    if value < phase_count {
        Some(value)
    } else {
        None
    }
}

/// The GX draw pool's free entries: the 8-byte slots between its floor and top, when the floor is
/// set and the top has not fallen below it.
pub fn gx_pool_free(floor: usize, top: usize) -> (free: Option<usize>)
    ensures
        free == (if floor != 0 && top >= floor {
            Some(((top - floor) / 8) as usize)
        } else {
            None::<usize>
        }),
{
    if floor != 0 && top >= floor {
        Some((top - floor) / 8)
    } else {
        None
    }
}

/// Stream index of the spared renderer in the render-target sample (one past the table's slots).
pub const RT_SAMPLE_SPARED_STREAM: usize = 10;

/// Picks the render-target sample's stream from whether the spared renderer's chain (vtable,
/// model, offscreen) is live and the same for each table slot, in slot order.
pub fn rt_sample_stream(spared_live: bool, slots_live: &[bool]) -> (stream: Option<usize>)
    ensures
        spared_live ==> stream == Some(RT_SAMPLE_SPARED_STREAM),
        !spared_live ==> match stream {
            Some(i) => i < slots_live@.len() && slots_live@[i as int] && forall|j: int|
                0 <= j < i ==> !#[trigger] slots_live@[j],
            None => forall|j: int| 0 <= j < slots_live@.len() ==> !#[trigger] slots_live@[j],
        },
{
    if spared_live {
        return Some(RT_SAMPLE_SPARED_STREAM);
    }
    let mut i: usize = 0;
    while i < slots_live.len()
        invariant
            !spared_live,
            i <= slots_live@.len(),
            forall|j: int| 0 <= j < i ==> !#[trigger] slots_live@[j],
        decreases slots_live.len() - i,
    {
        if slots_live[i] {
            return Some(i);
        }
        i += 1;
    }
    None
}

/// The sample counts as motion only when the same stream was sampled on consecutive frames and
/// its content hash changed.
pub fn rt_sample_changed(last_stream: usize, stream: usize, last_hash: usize, hash: usize) -> (changed:
    bool)
    ensures
        changed <==> (last_stream == stream && hash != last_hash),
{
    last_stream == stream && hash != last_hash
}

/// The half-open range `[lo, hi)` of the 64-texel centre window along an axis of `n` texels,
/// clipped to the frame.
pub open spec fn spec_center_range(n: int) -> (int, int) {
    let c = n / 2;
    (if c >= 32 {
        c - 32
    } else {
        0
    }, if c + 32 <= n {
        c + 32
    } else {
        n
    })
}

/// Texel `(x, y)` lies in the centre window of a `w` x `h` frame.
pub open spec fn spec_in_center(w: int, h: int, x: int, y: int) -> bool {
    &&& spec_center_range(w).0 <= x < spec_center_range(w).1
    &&& spec_center_range(h).0 <= y < spec_center_range(h).1
}

/// Channel `c` of texel `(x, y)` of a row-major RGBA frame `w` texels wide.
pub open spec fn spec_texel_channel(px: Seq<u8>, w: int, x: int, y: int, c: int) -> u8 {
    px[(y * w + x) * 4 + c]
}

/// `m` is the largest colour channel over the centre window.
pub open spec fn spec_is_center_rgb_max(px: Seq<u8>, w: int, h: int, m: u8) -> bool {
    &&& forall|x: int, y: int, c: int|
        spec_in_center(w, h, x, y) && 0 <= c < 3 ==> #[trigger] spec_texel_channel(px, w, x, y, c)
            <= m
    &&& exists|x: int, y: int, c: int|
        spec_in_center(w, h, x, y) && 0 <= c < 3 && #[trigger] spec_texel_channel(px, w, x, y, c)
            == m
}

/// `m` is the largest alpha over the centre window.
pub open spec fn spec_is_center_alpha_max(px: Seq<u8>, w: int, h: int, m: u8) -> bool {
    &&& forall|x: int, y: int|
        spec_in_center(w, h, x, y) ==> #[trigger] spec_texel_channel(px, w, x, y, 3) <= m
    &&& exists|x: int, y: int|
        spec_in_center(w, h, x, y) && #[trigger] spec_texel_channel(px, w, x, y, 3) == m
}

/// The largest colour channel and the largest alpha over the 64 x 64 centre window of a `w` x `h`
/// RGBA frame; `None` for an empty frame or a buffer shorter than the frame.
pub fn rt_center_maxima(w: u32, h: u32, px: &[u8]) -> (maxima: Option<(u8, u8)>)
    ensures
        maxima is Some <==> (w > 0 && h > 0 && px@.len() >= (w as int) * (h as int) * 4),
        maxima matches Some((rgb, a)) ==> spec_is_center_rgb_max(px@, w as int, h as int, rgb)
            && spec_is_center_alpha_max(px@, w as int, h as int, a),
{
    let wq = w as usize;
    let hq = h as usize;
    if wq == 0 || hq == 0 {
        return None;
    }
    assert((w as int) * (h as int) * 4 <= 0xffff_ffff * 0xffff_ffff * 4) by (nonlinear_arith);
    if (px.len() as u128) < (wq as u128) * (hq as u128) * 4 {
        return None;
    }
    let ghost wi = w as int;
    let ghost hi = h as int;
    let cx = wq / 2;
    let cy = hq / 2;
    let x0 = if cx >= 32 {
        cx - 32
    } else {
        0
    };
    let x1 = if cx + 32 <= wq {
        cx + 32
    } else {
        wq
    };
    let y0 = if cy >= 32 {
        cy - 32
    } else {
        0
    };
    let y1 = if cy + 32 <= hq {
        cy + 32
    } else {
        hq
    };
    assert(spec_center_range(wi) == (x0 as int, x1 as int));
    assert(spec_center_range(hi) == (y0 as int, y1 as int));
    let n = px.len();
    let mut rgb_max: u8 = 0;
    let mut a_max: u8 = 0;
    let mut y = y0;
    while y < y1
        invariant
            wi == wq,
            hi == hq,
            0 < wq,
            0 < hq,
            px@.len() >= wi * hi * 4,
            spec_center_range(wi) == (x0 as int, x1 as int),
            spec_center_range(hi) == (y0 as int, y1 as int),
            x0 < x1 <= wq,
            y0 < y1 <= hq,
            y0 <= y <= y1,
            n == px@.len(),
            y == y0 ==> rgb_max == 0 && a_max == 0,
            forall|xx: int, yy: int, c: int|
                x0 <= xx < x1 && y0 <= yy < y && 0 <= c < 3 ==> #[trigger] spec_texel_channel(
                    px@,
                    wi,
                    xx,
                    yy,
                    c,
                ) <= rgb_max,
            forall|xx: int, yy: int|
                x0 <= xx < x1 && y0 <= yy < y ==> #[trigger] spec_texel_channel(px@, wi, xx, yy, 3)
                    <= a_max,
            y > y0 ==> exists|xx: int, yy: int, c: int|
                x0 <= xx < x1 && y0 <= yy < y && 0 <= c < 3 && #[trigger] spec_texel_channel(
                    px@,
                    wi,
                    xx,
                    yy,
                    c,
                ) == rgb_max,
            y > y0 ==> exists|xx: int, yy: int|
                x0 <= xx < x1 && y0 <= yy < y && #[trigger] spec_texel_channel(px@, wi, xx, yy, 3)
                    == a_max,
        decreases y1 - y,
    {
        let mut x = x0;
        while x < x1
            invariant
                wi == wq,
                hi == hq,
                0 < wq,
                0 < hq,
                px@.len() >= wi * hi * 4,
                x0 < x1 <= wq,
                y0 <= y < y1 <= hq,
                x0 <= x <= x1,
                n == px@.len(),
                y == y0 && x == x0 ==> rgb_max == 0 && a_max == 0,
                forall|xx: int, yy: int, c: int|
                    x0 <= xx < x1 && y0 <= yy < y && 0 <= c < 3 ==> #[trigger] spec_texel_channel(
                        px@,
                        wi,
                        xx,
                        yy,
                        c,
                    ) <= rgb_max,
                forall|xx: int, c: int|
                    x0 <= xx < x && 0 <= c < 3 ==> #[trigger] spec_texel_channel(
                        px@,
                        wi,
                        xx,
                        y as int,
                        c,
                    ) <= rgb_max,
                forall|xx: int, yy: int|
                    x0 <= xx < x1 && y0 <= yy < y ==> #[trigger] spec_texel_channel(
                        px@,
                        wi,
                        xx,
                        yy,
                        3,
                    ) <= a_max,
                forall|xx: int|
                    x0 <= xx < x ==> #[trigger] spec_texel_channel(px@, wi, xx, y as int, 3)
                        <= a_max,
                (y > y0 || x > x0) ==> exists|xx: int, yy: int, c: int|
                    x0 <= xx < x1 && y0 <= yy <= y && (yy < y || xx < x) && 0 <= c < 3
                        && #[trigger] spec_texel_channel(px@, wi, xx, yy, c) == rgb_max,
                (y > y0 || x > x0) ==> exists|xx: int, yy: int|
                    x0 <= xx < x1 && y0 <= yy <= y && (yy < y || xx < x)
                        && #[trigger] spec_texel_channel(px@, wi, xx, yy, 3) == a_max,
            decreases x1 - x,
        {
            assert((y as int * wi + x) * 4 + 3 < wi * hi * 4) by (nonlinear_arith)
                requires
                    0 <= y < hi,
                    0 <= x < wi,
            ;
            assert((y as int) * (wq as int) == (y as int) * wi);
            assert((y as int) * (wq as int) + x < wi * hi) by (nonlinear_arith)
                requires
                    0 <= y < hi,
                    0 <= x < wi,
                    wq == wi,
            ;
            let idx = (y * wq + x) * 4;
            let r = px[idx];
            let g = px[idx + 1];
            let b = px[idx + 2];
            let a = px[idx + 3];
            let ghost old_rgb = rgb_max;
            let ghost old_a = a_max;
            assert(spec_texel_channel(px@, wi, x as int, y as int, 0) == r);
            assert(spec_texel_channel(px@, wi, x as int, y as int, 1) == g);
            assert(spec_texel_channel(px@, wi, x as int, y as int, 2) == b);
            assert(spec_texel_channel(px@, wi, x as int, y as int, 3) == a);
            if r > rgb_max {
                rgb_max = r;
            }
            if g > rgb_max {
                rgb_max = g;
            }
            if b > rgb_max {
                rgb_max = b;
            }
            if a > a_max {
                a_max = a;
            }
            assert forall|xx: int, yy: int, c: int|
                x0 <= xx < x1 && y0 <= yy < y && 0 <= c < 3 implies #[trigger] spec_texel_channel(
                px@,
                wi,
                xx,
                yy,
                c,
            ) <= rgb_max by {}
            assert forall|xx: int, c: int| x0 <= xx < x + 1 && 0 <= c < 3 implies #[trigger]
                spec_texel_channel(px@, wi, xx, y as int, c) <= rgb_max by {}
            proof {
                if rgb_max == old_rgb && (y > y0 || x > x0) {
                } else if rgb_max == r {
                    assert(spec_texel_channel(px@, wi, x as int, y as int, 0) == rgb_max);
                } else if rgb_max == g {
                    assert(spec_texel_channel(px@, wi, x as int, y as int, 1) == rgb_max);
                } else if rgb_max == b {
                    assert(spec_texel_channel(px@, wi, x as int, y as int, 2) == rgb_max);
                } else {
                    assert(rgb_max == 0 && old_rgb == 0 && y == y0 && x == x0);
                    assert(r == 0);
                    assert(spec_texel_channel(px@, wi, x as int, y as int, 0) == rgb_max);
                }
                if a_max == old_a && (y > y0 || x > x0) {
                } else {
                    assert(spec_texel_channel(px@, wi, x as int, y as int, 3) == a_max);
                }
            }
            x += 1;
        }
        y += 1;
    }
    Some((rgb_max, a_max))
}

} // verus!
