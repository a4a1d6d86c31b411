//! Reading the game's loading-screen strings and the profile renderer table: where a slot's
//! renderer pointer lives, and the pure halves of the bounded string probes -- what a scanned run
//! of bytes or UTF-16 units contains, and how a preview renders each of them.

use vstd::prelude::*;

verus! {

/// Live table of the ten `CSMenuProfModelRend` pointers, relative to the module base.
pub const TITLE_CUSTOM_COVER_PROFILE_RENDERER_TABLE_RVA: usize = 0x3d6d8d0;

/// Stride of the renderer table: one 64-bit pointer per slot.
pub const PROFILE_RENDERER_TABLE_STRIDE: usize = 8;

/// Bytes of a narrow string the containment probe reads at most.
pub const ASCII_PROBE_MAX_BYTES: usize = 96;

/// The probe's sliding window: a needle longer than this can never be found.
pub const ASCII_PROBE_WINDOW: usize = 32;

/// UTF-16 units of a wide string the containment probe reads at most.
pub const WIDE_PROBE_MAX_UNITS: usize = 128;

/// Absolute address of the profile renderer table entry for `slot`. Slots outside the ten-entry
/// table fall back to entry 0.
pub fn portrait_renderer_table_entry(base: usize, slot: i32) -> (entry: usize)
    requires
        base + TITLE_CUSTOM_COVER_PROFILE_RENDERER_TABLE_RVA + 9 * PROFILE_RENDERER_TABLE_STRIDE
            <= usize::MAX,
    ensures
        entry == base + TITLE_CUSTOM_COVER_PROFILE_RENDERER_TABLE_RVA + (if 0 <= slot < 10 {
            slot as int
        } else {
            0
        }) * PROFILE_RENDERER_TABLE_STRIDE,
{
    let idx: usize = if 0 <= slot && slot < 10 {
        slot as usize
    } else {
        0
    };
    base + TITLE_CUSTOM_COVER_PROFILE_RENDERER_TABLE_RVA + idx * PROFILE_RENDERER_TABLE_STRIDE
}

/// ASCII lowercase of a byte; every other byte is unchanged.
pub open spec fn spec_ascii_lower(b: u8) -> u8 {
    if 65 <= b <= 90 {
        (b + 32) as u8
    } else {
        b
    }
}

fn ascii_lower(b: u8) -> (l: u8)
    ensures
        l == spec_ascii_lower(b),
{
    if 65 <= b && b <= 90 {
        b + 32
    } else {
        b
    }
}

/// `needle` occurs in `hay` starting at `i`.
pub open spec fn spec_occurs_at(hay: Seq<u8>, needle: Seq<u8>, i: int) -> bool {
    0 <= i && i + needle.len() <= hay.len() && forall|j: int|
        0 <= j < needle.len() ==> #[trigger] hay[i + j] == needle[j]
}

/// `needle` is non-empty and occurs somewhere in `hay`.
pub open spec fn spec_contains(hay: Seq<u8>, needle: Seq<u8>) -> bool {
    needle.len() > 0 && exists|i: int| spec_occurs_at(hay, needle, i)
}

/// Does `needle` (non-empty) occur in `hay`?
fn contains(hay: &Vec<u8>, needle: &[u8]) -> (found: bool)
    ensures
        found == spec_contains(hay@, needle@),
{
    let n = hay.len();
    let m = needle.len();
    if m == 0 || m > n {
        proof {
            if m > n && m > 0 {
                assert forall|i: int| !spec_occurs_at(hay@, needle@, i) by {}
            }
        }
        return false;
    }
    let mut i: usize = 0;
    while i <= n - m
        invariant
            n == hay@.len(),
            m == needle@.len(),
            0 < m <= n,
            i <= n - m + 1,
            forall|q: int| 0 <= q < i ==> !spec_occurs_at(hay@, needle@, q),
        decreases n - i,
    {
        let mut j: usize = 0;
        let mut same = true;
        while j < m
            invariant
                n == hay@.len(),
                m == needle@.len(),
                i + m <= n,
                j <= m,
                same == forall|q: int| 0 <= q < j ==> hay@[i + q] == needle@[q],
            decreases m - j,
        {
            if hay[i + j] != needle[j] {
                same = false;
            }
            j = j + 1;
        }
        if same {
            assert(spec_occurs_at(hay@, needle@, i as int));
            return true;
        }
        assert(!spec_occurs_at(hay@, needle@, i as int));
        i = i + 1;
    }
    assert forall|q: int| !spec_occurs_at(hay@, needle@, q) by {
        if 0 <= q && q + m <= n {
            assert(q < i);
        }
    }
    false
}

/// The bytes a narrow probe read (up to the first NUL or unreadable byte), lowercased.
pub open spec fn spec_lowercased(read: Seq<u8>) -> Seq<u8> {
    read.map_values(|b: u8| spec_ascii_lower(b))
}

/// The decision of the bounded narrow-string probe over the bytes it read: the probe slides a
/// 32-byte window of lowercased bytes along the string, so it finds a non-empty `needle` exactly
/// when the needle fits the window and occurs in the lowercased bytes.
pub fn bounded_ascii_window_contains(read: &[u8], needle: &[u8]) -> (found: bool)
    ensures
        found == (needle@.len() <= ASCII_PROBE_WINDOW && spec_contains(
            spec_lowercased(read@),
            needle@,
        )),
{
    if needle.len() == 0 || needle.len() > ASCII_PROBE_WINDOW {
        return false;
    }
    let mut hay: Vec<u8> = Vec::new();
    let mut k: usize = 0;
    while k < read.len()
        invariant
            k <= read@.len(),
            hay@ == spec_lowercased(read@.subrange(0, k as int)),
        decreases read@.len() - k,
    {
        hay.push(ascii_lower(read[k]));
        proof {
            assert(spec_lowercased(read@.subrange(0, k + 1)) =~= spec_lowercased(
                read@.subrange(0, k as int),
            ).push(spec_ascii_lower(read@[k as int])));
        }
        k = k + 1;
    }
    assert(read@.subrange(0, read@.len() as int) =~= read@);
    contains(&hay, needle)
}

/// A UTF-16 unit as the wide probe sees it: ASCII lowercased, anything else `?`.
pub open spec fn spec_wide_probe_byte(ch: u16) -> u8 {
    if ch <= 0x7f {
        spec_ascii_lower(ch as u8)
    } else {
        63
    }
}

/// The decision of the wide-string probe over the units it read (up to the first NUL or
/// unreadable unit): a non-empty `needle` occurs in the units mapped to lowercased ASCII.
pub fn wide_ascii_units_contain(units: &[u16], needle: &[u8]) -> (found: bool)
    ensures
        found == spec_contains(units@.map_values(|ch: u16| spec_wide_probe_byte(ch)), needle@),
{
    let mut hay: Vec<u8> = Vec::new();
    let mut k: usize = 0;
    while k < units.len()
        invariant
            k <= units@.len(),
            hay@ == units@.subrange(0, k as int).map_values(|ch: u16| spec_wide_probe_byte(ch)),
        decreases units@.len() - k,
    {
        let ch = units[k];
        let b = if ch <= 0x7f {
            ascii_lower(ch as u8)
        } else {
            63u8
        };
        hay.push(b);
        proof {
            assert(units@.subrange(0, k + 1).map_values(|ch: u16| spec_wide_probe_byte(ch))
                =~= units@.subrange(0, k as int).map_values(|ch: u16| spec_wide_probe_byte(ch)).push(
                spec_wide_probe_byte(units@[k as int]),
            ));
        }
        k = k + 1;
    }
    assert(units@.subrange(0, units@.len() as int) =~= units@);
    contains(&hay, needle)
}

/// How a narrow preview renders a byte: printable ASCII and space as themselves, anything else `?`.
pub open spec fn spec_ascii_preview_byte(b: u8) -> u8 {
    if 0x20 <= b <= 0x7e {
        b
    } else {
        63
    }
}

/// How a narrow preview renders a byte.
pub fn ascii_preview_byte(b: u8) -> (shown: u8)
    ensures
        shown == spec_ascii_preview_byte(b),
{
    if 0x20 <= b && b <= 0x7e {
        b
    } else {
        63u8
    }
}

/// How a wide preview renders a UTF-16 unit: printable ASCII and space as themselves, anything
/// else `?`.
pub fn wide_ascii_preview_byte(ch: u16) -> (shown: u8)
    ensures
        shown == if 0x20 <= ch <= 0x7e {
            ch as u8
        } else {
            63u8
        },
{
    if 0x20 <= ch && ch <= 0x7e {
        ch as u8
    } else {
        63u8
    }
}

/// Renders the bytes a narrow preview read into `out`, keeping room for a terminator and at most
/// 80 bytes; returns how many were written.
pub fn copy_ascii_preview_bytes(read: &[u8], out: &mut [u8]) -> (n: usize)
    ensures
        final(out)@.len() == old(out)@.len(),
        n == if old(out)@.len() == 0 {
            0
        } else {
            vstd::math::min(
                vstd::math::min(read@.len() as int, old(out)@.len() - 1),
                80,
            )
        },
        forall|i: int| 0 <= i < n ==> final(out)@[i] == spec_ascii_preview_byte(read@[i]),
        forall|i: int| n <= i < old(out)@.len() ==> final(out)@[i] == old(out)@[i],
{
    if out.len() == 0 {
        return 0;
    }
    let mut n: usize = 0;
    while n + 1 < out.len() && n < 80 && n < read.len()
        invariant
            out@.len() == old(out)@.len(),
            out@.len() > 0,
            n <= 80,
            n <= read@.len(),
            n < out@.len(),
            forall|i: int| 0 <= i < n ==> out@[i] == spec_ascii_preview_byte(read@[i]),
            forall|i: int| n <= i < out@.len() ==> out@[i] == old(out)@[i],
        decreases out@.len() - n,
    {
        out[n] = ascii_preview_byte(read[n]);
        n = n + 1;
    }
    n
}

/// The renderer the portrait texture capture reads: the spared renderer while one is held, else
/// the pointer read from the slot's table entry.
pub fn capture_renderer(spared: usize, table_entry_value: usize, null: usize) -> (renderer: usize)
    ensures
        renderer == (if spared != 0 && spared != null {
            spared
        } else {
            table_entry_value
        }),
{
    if spared != 0 && spared != null {
        spared
    } else {
        table_entry_value
    }
}

/// The capture keeps a renderer's portrait texture alive only when the renderer is not marked for
/// deletion and its model instance, GX texture and GPU resource are all set.
pub fn gx_capture_ready(marked_delete: u8, model: usize, gx: usize, gpu: usize, null: usize) -> (ready:
    bool)
    ensures
        ready <==> (marked_delete == 0 && model != 0 && model != null && gx != 0 && gx != null
            && gpu != 0 && gpu != null),
{
    marked_delete == 0 && model != 0 && model != null && gx != 0 && gx != null && gpu != 0 && gpu
        != null
}

} // verus!
