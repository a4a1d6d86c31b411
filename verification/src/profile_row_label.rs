//! The ProfileSelect row's merged header label: one text element carrying the character's name,
//! Rune Level and weapon level, expanded from a template with `%marker`s and optional `[ ... ]`
//! groups. The output is plain text (the native row writer does not enable markup on the field).

use vstd::prelude::*;
use crate::text::{push_decimal, spec_decimal, str_chars, string_from_chars};

verus! {

/// Marker for the character's name.
pub const MARKER_CHARACTER_NAME: &'static str = "%character_name";

/// Marker for the character's Rune Level.
pub const MARKER_RUNE_LEVEL: &'static str = "%rune_level";

/// Marker for the character's maximum weapon upgrade level.
pub const MARKER_WEAPON_LEVEL: &'static str = "%weapon_level";

/// The shipped row-header template. `[ ... ]` is an optional group, emitted only when every marker
/// inside it resolves; the leading space and the comma live inside the groups, so a dropped group
/// leaves no stray punctuation or whitespace behind.
pub const SHIPPED_ROW_HEADER_TEMPLATE: &'static str =
    "%character_name[, RL %rune_level][ WL %weapon_level]";

/// Rune Level plausibility window, matching the save decoder's own.
const RUNE_LEVEL_MIN: i32 = 1;

const RUNE_LEVEL_MAX: i32 = 713;

/// Weapon upgrade bounds: `+0..=+25` is the most any armament reaches.
const WEAPON_LEVEL_MIN: i32 = 0;

const WEAPON_LEVEL_MAX: i32 = 25;

/// The values a row header can interpolate. Every field is optional: a row that knows less renders
/// a shorter label, never a fabricated one.
#[derive(Clone, Debug, PartialEq, Eq)]
pub struct RowHeaderValues {
    /// The character name.
    pub character_name: Option<String>,
    /// Rune Level, dropped when outside the decoder's plausibility window.
    pub rune_level: Option<i32>,
    /// Highest weapon upgrade level on the character, dropped when outside `+0..=+25`.
    pub weapon_level: Option<i32>,
}

/// A Rune Level that can be rendered: inside the decoder's window `1..=713`.
pub open spec fn spec_rune_level_plausible(level: int) -> bool {
    1 <= level <= 713
}

/// A weapon upgrade level that can be rendered: `+0..=+25`.
pub open spec fn spec_weapon_level_plausible(level: int) -> bool {
    0 <= level <= 25
}

/// The characters of marker `k`: 0 is the name marker, 1 the Rune Level marker, anything else the
/// weapon level marker.
pub open spec fn spec_marker(k: int) -> Seq<char> {
    if k == 0 {
        seq!['%', 'c', 'h', 'a', 'r', 'a', 'c', 't', 'e', 'r', '_', 'n', 'a', 'm', 'e']
    } else if k == 1 {
        seq!['%', 'r', 'u', 'n', 'e', '_', 'l', 'e', 'v', 'e', 'l']
    } else {
        seq!['%', 'w', 'e', 'a', 'p', 'o', 'n', '_', 'l', 'e', 'v', 'e', 'l']
    }
}

/// `s` begins with `m`.
pub open spec fn spec_starts_with(s: Seq<char>, m: Seq<char>) -> bool {
    m.len() <= s.len() && s.take(m.len() as int) == m
}

/// The marker `s` begins with, tried in the order name, Rune Level, weapon level.
pub open spec fn spec_marker_at(s: Seq<char>) -> Option<int> {
    if spec_starts_with(s, spec_marker(0)) {
        Some(0)
    } else if spec_starts_with(s, spec_marker(1)) {
        Some(1)
    } else if spec_starts_with(s, spec_marker(2)) {
        Some(2)
    } else {
        None
    }
}

/// Number of characters before the first `]` of `s` (all of `s` when there is none).
pub open spec fn spec_close_offset(s: Seq<char>) -> nat
    decreases s.len(),
{
    if s.len() == 0 || s[0] == ']' {
        0
    } else {
        1 + spec_close_offset(s.drop_first())
    }
}

impl RowHeaderValues {
    /// What marker `k` expands to, or `None` when its value is absent.
    pub open spec fn spec_resolve(&self, k: int) -> Option<Seq<char>> {
        if k == 0 {
            match self.character_name {
                Some(name) => Some(name@),
                None => None,
            }
        } else if k == 1 {
            match self.rune_level {
                Some(level) => Some(spec_decimal(level as int)),
                None => None,
            }
        } else {
            match self.weapon_level {
                Some(level) => Some(spec_decimal(level as int)),
                None => None,
            }
        }
    }
}

/// Every marker is between 11 and 15 characters long.
pub proof fn lemma_marker_len(k: int)
    ensures
        11 <= spec_marker(k).len() <= 15,
{
}

/// The close offset stays inside `s`, and short of its end it lands on a `]`.
pub proof fn lemma_close_offset_bound(s: Seq<char>)
    ensures
        spec_close_offset(s) <= s.len(),
        spec_close_offset(s) < s.len() ==> s[spec_close_offset(s) as int] == ']',
    decreases s.len(),
{
    if s.len() > 0 && s[0] != ']' {
        lemma_close_offset_bound(s.drop_first());
    }
}

/// Expansion of an optional group's body: `None` as soon as one marker inside it does not resolve;
/// every other character is literal.
pub open spec fn spec_expand_group(body: Seq<char>, v: RowHeaderValues) -> Option<Seq<char>>
    decreases body.len(),
{
    if body.len() == 0 {
        Some(Seq::empty())
    } else {
        match spec_marker_at(body) {
            Some(k) => {
                proof {
                    lemma_marker_len(k);
                }
                match (v.spec_resolve(k), spec_expand_group(body.skip(spec_marker(k).len() as int), v)) {
                    (Some(text), Some(rest)) => Some(text + rest),
                    _ => None,
                }
            },
            None => match spec_expand_group(body.drop_first(), v) {
                Some(rest) => Some(seq![body[0]] + rest),
                None => None,
            },
        }
    }
}

/// Expansion of a template. A `[` opens a group that runs to the next `]` (or to the end of the
/// template) and is emitted whole or not at all; a stray `]` is literal; outside a group an
/// unresolved marker expands to nothing; every other character is copied.
pub open spec fn spec_expand(t: Seq<char>, v: RowHeaderValues) -> Seq<char>
    decreases t.len(),
{
    if t.len() == 0 {
        Seq::empty()
    } else if t[0] == '[' {
        let rest = t.drop_first();
        let end = spec_close_offset(rest) as int;
        proof {
            lemma_close_offset_bound(rest);
        }
        let group = match spec_expand_group(rest.take(end), v) {
            Some(text) => text,
            None => Seq::empty(),
        };
        let after = if end < rest.len() {
            rest.skip(end + 1)
        } else {
            Seq::empty()
        };
        group + spec_expand(after, v)
    } else if t[0] == ']' {
        seq![']'] + spec_expand(t.drop_first(), v)
    } else {
        match spec_marker_at(t) {
            Some(k) => {
                proof {
                    lemma_marker_len(k);
                }
                (match v.spec_resolve(k) {
                    Some(text) => text,
                    None => Seq::empty(),
                }) + spec_expand(t.skip(spec_marker(k).len() as int), v)
            },
            None => seq![t[0]] + spec_expand(t.drop_first(), v),
        }
    }
}

/// The marker constants spell the markers the expansion recognises.
pub proof fn lemma_marker_constants()
    ensures
        MARKER_CHARACTER_NAME@ == spec_marker(0),
        MARKER_RUNE_LEVEL@ == spec_marker(1),
        MARKER_WEAPON_LEVEL@ == spec_marker(2),
{
    reveal_strlit("%character_name");
    reveal_strlit("%rune_level");
    reveal_strlit("%weapon_level");
    assert(MARKER_CHARACTER_NAME@ =~= spec_marker(0));
    assert(MARKER_RUNE_LEVEL@ =~= spec_marker(1));
    assert(MARKER_WEAPON_LEVEL@ =~= spec_marker(2));
}

/// The three markers' characters, read once per expansion.
struct MarkerTable {
    name: Vec<char>,
    rune: Vec<char>,
    weapon: Vec<char>,
}

impl MarkerTable {
    spec fn wf(&self) -> bool {
        &&& self.name@ == spec_marker(0)
        &&& self.rune@ == spec_marker(1)
        &&& self.weapon@ == spec_marker(2)
    }

    fn new() -> (table: Self)
        ensures
            table.wf(),
    {
        proof {
            lemma_marker_constants();
        }
        MarkerTable {
            name: str_chars(MARKER_CHARACTER_NAME),
            rune: str_chars(MARKER_RUNE_LEVEL),
            weapon: str_chars(MARKER_WEAPON_LEVEL),
        }
    }

    /// The marker that `t[i..hi]` begins with.
    fn marker_at(&self, t: &Vec<char>, i: usize, hi: usize) -> (found: Option<usize>)
        requires
            self.wf(),
            i <= hi <= t@.len(),
        ensures
            match (found, spec_marker_at(t@.subrange(i as int, hi as int))) {
                (Some(k), Some(sk)) => k == sk,
                (None, None) => true,
                _ => false,
            },
    {
        if starts_with_at(t, i, hi, &self.name) {
            Some(0)
        } else if starts_with_at(t, i, hi, &self.rune) {
            Some(1)
        } else if starts_with_at(t, i, hi, &self.weapon) {
            Some(2)
        } else {
            None
        }
    }

    /// Length of marker `k`.
    fn len_of(&self, k: usize) -> (n: usize)
        requires
            self.wf(),
        ensures
            n == spec_marker(k as int).len(),
    {
        if k == 0 {
            self.name.len()
        } else if k == 1 {
            self.rune.len()
        } else {
            self.weapon.len()
        }
    }
}

/// Does `t[i..hi]` begin with `m`?
fn starts_with_at(t: &Vec<char>, i: usize, hi: usize, m: &Vec<char>) -> (b: bool)
    requires
        i <= hi <= t@.len(),
    ensures
        b == spec_starts_with(t@.subrange(i as int, hi as int), m@),
{
    let n = t.len();
    let mlen = m.len();
    if mlen > hi - i {
        return false;
    }
    let mut j: usize = 0;
    while j < mlen
        invariant
            n == t@.len(),
            mlen == m@.len(),
            i + mlen <= hi <= n,
            j <= mlen,
            forall|q: int| 0 <= q < j ==> t@[i + q] == m@[q],
        decreases mlen - j,
    {
        if t[i + j] != m[j] {
            assert(t@.subrange(i as int, hi as int).take(mlen as int)[j as int] != m@[j as int]);
            return false;
        }
        j = j + 1;
    }
    assert(t@.subrange(i as int, hi as int).take(mlen as int) =~= m@);
    true
}

/// Index of the first `]` at or after `start`, or the end of `t`.
fn close_index(t: &Vec<char>, start: usize) -> (end: usize)
    requires
        start <= t@.len(),
    ensures
        end == start + spec_close_offset(t@.skip(start as int)),
        end <= t@.len(),
{
    let n = t.len();
    let mut j: usize = start;
    while j < n && t[j] != ']'
        invariant
            n == t@.len(),
            start <= j <= n,
            spec_close_offset(t@.skip(start as int)) == (j - start) + spec_close_offset(
                t@.skip(j as int),
            ),
        decreases n - j,
    {
        assert(t@.skip(j as int).drop_first() =~= t@.skip(j + 1));
        j = j + 1;
    }
    j
}

impl RowHeaderValues {
    /// What marker `k` expands to.
    fn resolve(&self, k: usize) -> (text: Option<Vec<char>>)
        ensures
            match (text, self.spec_resolve(k as int)) {
                (Some(t), Some(s)) => t@ == s,
                (None, None) => true,
                _ => false,
            },
    {
        if k == 0 {
            match &self.character_name {
                Some(name) => Some(str_chars(name.as_str())),
                None => None,
            }
        } else {
            let level = if k == 1 {
                self.rune_level
            } else {
                self.weapon_level
            };
            match level {
                Some(n) => {
                    let mut digits: Vec<char> = Vec::new();
                    push_decimal(&mut digits, n as i64);
                    Some(digits)
                },
                None => None,
            }
        }
    }
}

/// Expands the group body `t[lo..hi]`, or `None` when a marker inside it does not resolve.
fn expand_group(t: &Vec<char>, lo: usize, hi: usize, values: &RowHeaderValues, table: &MarkerTable)
    -> (text: Option<Vec<char>>)
    requires
        table.wf(),
        lo <= hi <= t@.len(),
    ensures
        match (text, spec_expand_group(t@.subrange(lo as int, hi as int), *values)) {
            (Some(a), Some(b)) => a@ == b,
            (None, None) => true,
            _ => false,
        },
{
    let ghost v = *values;
    let mut out: Vec<char> = Vec::new();
    let mut i: usize = lo;
    while i < hi
        invariant
            table.wf(),
            lo <= i <= hi <= t@.len(),
            v == *values,
            spec_expand_group(t@.subrange(lo as int, hi as int), v) == (match spec_expand_group(
                t@.subrange(i as int, hi as int),
                v,
            ) {
                Some(rest) => Some(out@ + rest),
                None => None,
            }),
        decreases hi - i,
    {
        let ghost body = t@.subrange(i as int, hi as int);
        match table.marker_at(t, i, hi) {
            Some(k) => {
                let len = table.len_of(k);
                proof {
                    lemma_marker_len(k as int);
                    assert(body.skip(len as int) =~= t@.subrange(i + len, hi as int));
                }
                match values.resolve(k) {
                    Some(mut piece) => {
                        let ghost before = out@;
                        proof {
                            match spec_expand_group(t@.subrange(i + len, hi as int), v) {
                                Some(rest) => {
                                    assert(before + (piece@ + rest) =~= (before + piece@) + rest);
                                },
                                None => {},
                            }
                        }
                        out.append(&mut piece);
                        i = i + len;
                    },
                    None => {
                        return None;
                    },
                }
            },
            None => {
                let ghost before = out@;
                proof {
                    assert(body.drop_first() =~= t@.subrange(i + 1, hi as int));
                    match spec_expand_group(t@.subrange(i + 1, hi as int), v) {
                        Some(rest) => {
                            assert(before + (seq![t@[i as int]] + rest) =~= before.push(t@[i as int]) + rest);
                        },
                        None => {},
                    }
                }
                out.push(t[i]);
                i = i + 1;
            },
        }
    }
    assert(out@ + Seq::<char>::empty() =~= out@);
    Some(out)
}

/// Expands `template` against `values`.
///
/// Outside a group an unresolved marker expands to nothing. Inside `[ ... ]`, one unresolved marker
/// drops the whole group; a group with no markers is emitted verbatim. A `[` with no `]` opens a
/// group that runs to the end of the template, and a stray `]` is literal text: a template typo
/// degrades the label and never fails.
pub fn expand_row_header(template: &str, values: &RowHeaderValues) -> (label: String)
    ensures
        label@ == spec_expand(template@, *values),
{
    let table = MarkerTable::new();
    let t = str_chars(template);
    let n = t.len();
    let ghost v = *values;
    let mut out: Vec<char> = Vec::new();
    let mut i: usize = 0;
    assert(t@.skip(0) =~= t@);
    while i < n
        invariant
            table.wf(),
            n == t@.len(),
            i <= n,
            v == *values,
            out@ + spec_expand(t@.skip(i as int), v) == spec_expand(t@, v),
        decreases n - i,
    {
        let ghost rest_all = t@.skip(i as int);
        let ghost before = out@;
        let c = t[i];
        if c == '[' {
            let start = i + 1;
            let end = close_index(&t, start);
            let group = expand_group(&t, start, end, values, &table);
            let next = if end < n {
                end + 1
            } else {
                end
            };
            proof {
                let rest = rest_all.drop_first();
                assert(rest =~= t@.skip(start as int));
                assert(rest.take(end - start) =~= t@.subrange(start as int, end as int));
                if end < n {
                    assert(rest.skip(end - start + 1) =~= t@.skip(next as int));
                } else {
                    assert(Seq::<char>::empty() =~= t@.skip(next as int));
                }
            }
            match group {
                Some(mut text) => {
                    proof {
                        assert(before + (text@ + spec_expand(t@.skip(next as int), v)) =~= (before
                            + text@) + spec_expand(t@.skip(next as int), v));
                    }
                    out.append(&mut text);
                },
                None => {
                    assert(before + (Seq::<char>::empty() + spec_expand(t@.skip(next as int), v))
                        =~= before + spec_expand(t@.skip(next as int), v));
                },
            }
            i = next;
        } else if c == ']' {
            proof {
                assert(rest_all.drop_first() =~= t@.skip(i + 1));
                assert(before + (seq![']'] + spec_expand(t@.skip(i + 1), v)) =~= before.push(']')
                    + spec_expand(t@.skip(i + 1), v));
            }
            out.push(']');
            i = i + 1;
        } else {
            proof {
                assert(t@.subrange(i as int, n as int) =~= rest_all);
            }
            match table.marker_at(&t, i, n) {
                Some(k) => {
                    let len = table.len_of(k);
                    proof {
                        lemma_marker_len(k as int);
                        assert(rest_all.skip(len as int) =~= t@.skip(i + len));
                    }
                    match values.resolve(k) {
                        Some(mut text) => {
                            proof {
                                assert(before + (text@ + spec_expand(t@.skip(i + len), v)) =~= (
                                before + text@) + spec_expand(t@.skip(i + len), v));
                            }
                            out.append(&mut text);
                        },
                        None => {
                            assert(before + (Seq::<char>::empty() + spec_expand(
                                t@.skip(i + len),
                                v,
                            )) =~= before + spec_expand(t@.skip(i + len), v));
                        },
                    }
                    i = i + len;
                },
                None => {
                    proof {
                        assert(rest_all.drop_first() =~= t@.skip(i + 1));
                        assert(before + (seq![c] + spec_expand(t@.skip(i + 1), v)) =~= before.push(
                            c,
                        ) + spec_expand(t@.skip(i + 1), v));
                    }
                    out.push(c);
                    i = i + 1;
                },
            }
        }
    }
    assert(t@.skip(n as int) =~= Seq::<char>::empty());
    assert(out@ + Seq::<char>::empty() =~= out@);
    string_from_chars(&out)
}

/// The shipped row header for a character row: name, then the level and weapon-level groups when
/// their values are known.
pub fn row_header_label(values: &RowHeaderValues) -> (label: String)
    ensures
        label@ == spec_expand(SHIPPED_ROW_HEADER_TEMPLATE@, *values),
{
    expand_row_header(SHIPPED_ROW_HEADER_TEMPLATE, values)
}

impl Default for RowHeaderValues {
    /// A header that knows nothing.
    fn default() -> (values: Self)
        ensures
            values.character_name is None,
            values.rune_level is None,
            values.weapon_level is None,
    {
        RowHeaderValues { character_name: None, rune_level: None, weapon_level: None }
    }
}

impl RowHeaderValues {
    /// A header carrying just the name: what a row falls back to when nothing else decoded.
    pub fn from_name(name: &str) -> (values: Self)
        ensures
            values.character_name is Some,
            values.character_name->0@ == name@,
            values.rune_level is None,
            values.weapon_level is None,
    {
        RowHeaderValues { character_name: Some(name.to_owned()), rune_level: None, weapon_level: None }
    }

    /// Attaches a Rune Level; an implausible one (outside `1..=713`) clears the field instead.
    pub fn with_rune_level(self, level: i32) -> (values: Self)
        ensures
            values.character_name == self.character_name,
            values.weapon_level == self.weapon_level,
            values.rune_level == (if spec_rune_level_plausible(level as int) {
                Some(level)
            } else {
                None
            }),
    {
        let rune_level = if RUNE_LEVEL_MIN <= level && level <= RUNE_LEVEL_MAX {
            Some(level)
        } else {
            None
        };
        RowHeaderValues { rune_level, ..self }
    }

    /// Attaches a maximum weapon upgrade level; an implausible one (outside `0..=25`) clears the
    /// field instead.
    pub fn with_weapon_level(self, level: i32) -> (values: Self)
        ensures
            values.character_name == self.character_name,
            values.rune_level == self.rune_level,
            values.weapon_level == (if spec_weapon_level_plausible(level as int) {
                Some(level)
            } else {
                None
            }),
    {
        let weapon_level = if WEAPON_LEVEL_MIN <= level && level <= WEAPON_LEVEL_MAX {
            Some(level)
        } else {
            None
        };
        RowHeaderValues { weapon_level, ..self }
    }
}

/// What an optional value contributes when present: nothing when it is absent.
pub open spec fn spec_or_empty(text: Option<Seq<char>>) -> Seq<char> {
    match text {
        Some(t) => t,
        None => Seq::empty(),
    }
}

/// `s` holds no `]`.
pub open spec fn spec_no_closer(s: Seq<char>) -> bool {
    forall|j: int| 0 <= j < s.len() ==> s[j] != ']'
}

/// `s` holds no `%`, so no marker can start inside it.
pub open spec fn spec_no_marker_sign(s: Seq<char>) -> bool {
    forall|j: int| 0 <= j < s.len() ==> s[j] != '%'
}

proof fn lemma_close_offset_concat(body: Seq<char>, rest: Seq<char>)
    requires
        spec_no_closer(body),
    ensures
        spec_close_offset(body + seq![']'] + rest) == body.len(),
    decreases body.len(),
{
    let s = body + seq![']'] + rest;
    if body.len() == 0 {
        assert(s[0] == ']');
    } else {
        assert(s[0] == body[0]);
        assert(s.drop_first() =~= body.drop_first() + seq![']'] + rest);
        lemma_close_offset_concat(body.drop_first(), rest);
    }
}

proof fn lemma_marker_at_literal(s: Seq<char>)
    requires
        s.len() > 0,
        s[0] != '%',
    ensures
        spec_marker_at(s) is None,
{
    assert(spec_marker(0)[0] == '%');
    assert(spec_marker(1)[0] == '%');
    assert(spec_marker(2)[0] == '%');
    if spec_starts_with(s, spec_marker(0)) {
        assert(s.take(15)[0] == s[0]);
    }
    if spec_starts_with(s, spec_marker(1)) {
        assert(s.take(11)[0] == s[0]);
    }
    if spec_starts_with(s, spec_marker(2)) {
        assert(s.take(13)[0] == s[0]);
    }
}

proof fn lemma_marker_at_marker(k: int, rest: Seq<char>)
    requires
        0 <= k <= 2,
    ensures
        spec_marker_at(spec_marker(k) + rest) == Some(k),
{
    let s = spec_marker(k) + rest;
    lemma_marker_len(k);
    assert(s.take(spec_marker(k).len() as int) =~= spec_marker(k));
    if k >= 1 {
        assert(s[1] == spec_marker(k)[1]);
        if spec_starts_with(s, spec_marker(0)) {
            assert(s.take(15)[1] == s[1]);
        }
    }
    if k == 2 {
        if spec_starts_with(s, spec_marker(1)) {
            assert(s.take(11)[1] == s[1]);
        }
    }
}

proof fn lemma_group_literal_prefix(lit: Seq<char>, rest: Seq<char>, v: RowHeaderValues)
    requires
        spec_no_marker_sign(lit),
    ensures
        spec_expand_group(lit + rest, v) == (match spec_expand_group(rest, v) {
            Some(r) => Some(lit + r),
            None => None,
        }),
    decreases lit.len(),
{
    if lit.len() == 0 {
        assert(lit + rest =~= rest);
        match spec_expand_group(rest, v) {
            Some(r) => assert(lit + r =~= r),
            None => {},
        }
    } else {
        let s = lit + rest;
        assert(s[0] == lit[0]);
        lemma_marker_at_literal(s);
        assert(s.drop_first() =~= lit.drop_first() + rest);
        lemma_group_literal_prefix(lit.drop_first(), rest, v);
        match spec_expand_group(rest, v) {
            Some(r) => assert(seq![lit[0]] + (lit.drop_first() + r) =~= lit + r),
            None => {},
        }
    }
}

proof fn lemma_group_single_marker(k: int, v: RowHeaderValues)
    requires
        0 <= k <= 2,
    ensures
        spec_expand_group(spec_marker(k), v) == v.spec_resolve(k),
{
    lemma_marker_at_marker(k, Seq::empty());
    assert(spec_marker(k) + Seq::<char>::empty() =~= spec_marker(k));
    lemma_marker_len(k);
    assert(spec_marker(k).skip(spec_marker(k).len() as int) =~= Seq::<char>::empty());
    assert(spec_expand_group(Seq::<char>::empty(), v) == Some(Seq::<char>::empty()));
    assert(spec_marker(k).len() > 0);
    assert(spec_marker_at(spec_marker(k)) == Some(k));
    match v.spec_resolve(k) {
        Some(t) => assert(t + Seq::<char>::empty() =~= t),
        None => {},
    }
}

proof fn lemma_expand_marker_prefix(k: int, rest: Seq<char>, v: RowHeaderValues)
    requires
        0 <= k <= 2,
    ensures
        spec_expand(spec_marker(k) + rest, v) == spec_or_empty(v.spec_resolve(k)) + spec_expand(
            rest,
            v,
        ),
{
    let s = spec_marker(k) + rest;
    lemma_marker_at_marker(k, rest);
    lemma_marker_len(k);
    assert(s[0] == '%');
    assert(s.skip(spec_marker(k).len() as int) =~= rest);
}

proof fn lemma_expand_group_prefix(body: Seq<char>, rest: Seq<char>, v: RowHeaderValues)
    requires
        spec_no_closer(body),
    ensures
        spec_expand(seq!['['] + body + seq![']'] + rest, v) == spec_or_empty(
            spec_expand_group(body, v),
        ) + spec_expand(rest, v),
{
    let s = seq!['['] + body + seq![']'] + rest;
    assert(s[0] == '[');
    let tail = s.drop_first();
    assert(tail =~= body + seq![']'] + rest);
    lemma_close_offset_concat(body, rest);
    assert(tail.take(body.len() as int) =~= body);
    assert(tail.skip(body.len() as int + 1) =~= rest);
}

/// One template serves every row state: the shipped header is the name, then `, RL <level>` when
/// the Rune Level is known, then ` WL <level>` when the weapon level is known. A missing value
/// leaves no caption, comma or space behind.
pub proof fn lemma_shipped_row_header(v: RowHeaderValues)
    ensures
        spec_expand(SHIPPED_ROW_HEADER_TEMPLATE@, v) == spec_or_empty(v.spec_resolve(0)) + (
        match v.rune_level {
            Some(level) => seq![',', ' ', 'R', 'L', ' '] + spec_decimal(level as int),
            None => Seq::empty(),
        }) + (match v.weapon_level {
            Some(level) => seq![' ', 'W', 'L', ' '] + spec_decimal(level as int),
            None => Seq::empty(),
        }),
{
    let rl = seq![',', ' ', 'R', 'L', ' '];
    let wl = seq![' ', 'W', 'L', ' '];
    let g1 = rl + spec_marker(1);
    let g2 = wl + spec_marker(2);
    let b = seq!['['] + g2 + seq![']'] + Seq::<char>::empty();
    let a = seq!['['] + g1 + seq![']'] + b;
    reveal_strlit("%character_name[, RL %rune_level][ WL %weapon_level]");
    assert(SHIPPED_ROW_HEADER_TEMPLATE@ =~= spec_marker(0) + a);
    lemma_expand_marker_prefix(0, a, v);
    assert(spec_no_closer(g1)) by {
        assert forall|j: int| 0 <= j < g1.len() implies g1[j] != ']' by {
            if j >= 5 {
                assert(g1[j] == spec_marker(1)[j - 5]);
            }
        }
    }
    assert(spec_no_closer(g2)) by {
        assert forall|j: int| 0 <= j < g2.len() implies g2[j] != ']' by {
            if j >= 4 {
                assert(g2[j] == spec_marker(2)[j - 4]);
            }
        }
    }
    lemma_expand_group_prefix(g1, b, v);
    lemma_expand_group_prefix(g2, Seq::empty(), v);
    lemma_group_literal_prefix(rl, spec_marker(1), v);
    lemma_group_literal_prefix(wl, spec_marker(2), v);
    lemma_group_single_marker(1, v);
    lemma_group_single_marker(2, v);
    assert(spec_expand(Seq::<char>::empty(), v) =~= Seq::<char>::empty());
    let r1 = match v.rune_level {
        Some(level) => rl + spec_decimal(level as int),
        None => Seq::<char>::empty(),
    };
    let r2 = match v.weapon_level {
        Some(level) => wl + spec_decimal(level as int),
        None => Seq::<char>::empty(),
    };
    assert(spec_expand(b, v) =~= r2);
    assert(spec_expand(a, v) =~= r1 + r2);
    assert(spec_or_empty(v.spec_resolve(0)) + (r1 + r2) =~= spec_or_empty(v.spec_resolve(0)) + r1
        + r2);
}

/// A group whose body holds no marker is emitted verbatim, whatever the values.
pub proof fn lemma_literal_group_is_verbatim(body: Seq<char>, v: RowHeaderValues)
    requires
        spec_no_marker_sign(body),
    ensures
        spec_expand_group(body, v) == Some(body),
{
    lemma_group_literal_prefix(body, Seq::empty(), v);
    assert(body + Seq::<char>::empty() =~= body);
}

} // verus!
