//! Character-identity rules for the loading-screen portrait: map plausibility, record
//! classification, slot precedence, the per-window target latch and the bridge-hold verdicts.

use vstd::prelude::*;
use vstd::arithmetic::power2::{pow2, lemma_pow2_unfold};
use crate::text::{spec_trim, str_chars, trimmed_bounds};

verus! {

/// New-game / not-yet-resolved saved-map sentinel (`m10_01_00_00`).
pub const DEFAULT_MAP_C30: i32 = 0x0a01_0000;

/// Lowest areaId seen on a real map. The areaId is the HIGH byte of a packed `BlockId`.
pub const MAP_AREA_ID_MIN: u8 = 0x0a;

/// Highest areaId seen on a real map.
pub const MAP_AREA_ID_MAX: u8 = 0x3d;

/// The areaId of a packed map word: its high byte, read as an unsigned dword.
pub open spec fn spec_area_id(map: i32) -> int {
    (map as u32) as int / 0x0100_0000
}

/// A packed map word worth comparing: an areaId inside the real range, and not the sentinel.
pub open spec fn spec_map_plausible(map: i32) -> bool {
    &&& MAP_AREA_ID_MIN <= spec_area_id(map) <= MAP_AREA_ID_MAX
    &&& map != DEFAULT_MAP_C30
}

/// The areaId of a packed `BlockId` (its high byte).
pub fn packed_map_area_id(map: i32) -> (area: u8)
    ensures
        area == spec_area_id(map),
{
    let word = map as u32;
    assert((word >> 24u32) as u8 == word / 0x0100_0000u32) by (bit_vector);
    (word >> 24u32) as u8
}

/// True when `map` looks like a real packed `BlockId` worth comparing against another one.
pub fn packed_map_is_plausible(map: i32) -> (plausible: bool)
    ensures
        plausible == spec_map_plausible(map),
{
    let area = packed_map_area_id(map);
    area >= MAP_AREA_ID_MIN && area <= MAP_AREA_ID_MAX && map != DEFAULT_MAP_C30
}

/// Two map words that are both plausible and differ.
pub open spec fn spec_maps_disagree(ours: i32, live: i32) -> bool {
    spec_map_plausible(ours) && spec_map_plausible(live) && ours != live
}

/// Whether the two map ids are comparable AND disagree. An implausible value on either side means
/// "no map evidence", never "mismatch".
pub fn packed_maps_disagree(ours: i32, live: i32) -> (disagree: bool)
    ensures
        disagree == spec_maps_disagree(ours, live),
{
    packed_map_is_plausible(ours) && packed_map_is_plausible(live) && ours != live
}

/// Why a live profile record is, or is not, a CHARACTER.
#[derive(Debug, Clone, Copy, PartialEq, Eq, Structural)]
pub enum RecordCharacterVerdict {
    /// Name and level both present and self-consistent -- safe to render.
    Character,
    /// The name field is empty (or whitespace).
    EmptyName,
    /// `level <= 0`: every record the save picker stages is zeroed, so its level is 0.
    NoLevel,
    /// The name has the SHAPE of one of the save picker's own row labels.
    PickerRowLabel,
    /// The map word is populated but is not a packed `BlockId`.
    ImplausibleMap,
}

impl RecordCharacterVerdict {
    /// True only for [`Self::Character`].
    pub fn is_character(self) -> (b: bool)
        ensures
            b == (self == RecordCharacterVerdict::Character),
    {
        match self {
            RecordCharacterVerdict::Character => true,
            _ => false,
        }
    }

    /// Short stable tag for logs and telemetry.
    pub fn tag(self) -> (t: &'static str)
        ensures
            t@ == (match self {
                RecordCharacterVerdict::Character => "character"@,
                RecordCharacterVerdict::EmptyName => "empty-name"@,
                RecordCharacterVerdict::NoLevel => "no-level"@,
                RecordCharacterVerdict::PickerRowLabel => "picker-row-label"@,
                RecordCharacterVerdict::ImplausibleMap => "implausible-map"@,
            }),
    {
        match self {
            RecordCharacterVerdict::Character => "character",
            RecordCharacterVerdict::EmptyName => "empty-name",
            RecordCharacterVerdict::NoLevel => "no-level",
            RecordCharacterVerdict::PickerRowLabel => "picker-row-label",
            RecordCharacterVerdict::ImplausibleMap => "implausible-map",
        }
    }
}

/// The save picker's row-label shape: after trimming, the name opens with `[` or ends in a
/// directory separator (`/` or `\`).
pub open spec fn spec_looks_like_picker_row_label(name: Seq<char>) -> bool {
    let t = spec_trim(name);
    t.len() > 0 && (t[0] == '[' || t.last() == '/' || t.last() == '\\')
}

/// The classification of a live profile record, first failing test wins.
pub open spec fn spec_record_verdict(name: Seq<char>, level: i32, map: i32) -> RecordCharacterVerdict {
    if spec_trim(name).len() == 0 {
        RecordCharacterVerdict::EmptyName
    } else if level <= 0 {
        RecordCharacterVerdict::NoLevel
    } else if spec_looks_like_picker_row_label(name) {
        RecordCharacterVerdict::PickerRowLabel
    } else if map != 0 && map != DEFAULT_MAP_C30 && !spec_map_plausible(map) {
        RecordCharacterVerdict::ImplausibleMap
    } else {
        RecordCharacterVerdict::Character
    }
}

/// Does this live profile record describe a real character?
pub fn profile_record_character_verdict(name: &str, level: i32, map: i32) -> (verdict:
    RecordCharacterVerdict)
    ensures
        verdict == spec_record_verdict(name@, level, map),
{
    let chars = str_chars(name);
    let (lo, hi) = trimmed_bounds(&chars);
    if lo == hi {
        return RecordCharacterVerdict::EmptyName;
    }
    if level <= 0 {
        return RecordCharacterVerdict::NoLevel;
    }
    if name_looks_like_picker_row_label(name) {
        return RecordCharacterVerdict::PickerRowLabel;
    }
    if map != 0 && map != DEFAULT_MAP_C30 && !packed_map_is_plausible(map) {
        return RecordCharacterVerdict::ImplausibleMap;
    }
    RecordCharacterVerdict::Character
}

/// True when `name` has the SHAPE of one of the save picker's browse-row labels rather than a
/// character name. A bare filename is deliberately not matched: the level test rejects file rows.
pub fn name_looks_like_picker_row_label(name: &str) -> (label: bool)
    ensures
        label == spec_looks_like_picker_row_label(name@),
{
    let chars = str_chars(name);
    let (lo, hi) = trimmed_bounds(&chars);
    if lo == hi {
        return false;
    }
    let first = chars[lo];
    let last = chars[hi - 1];
    first == '[' || last == '/' || last == '\\'
}

/// One live profile slot as the scan reads it: the game's occupancy byte and the three record
/// fields the verdict judges.
#[derive(Debug, Clone, Copy, PartialEq, Eq)]
pub struct LiveRecordSample<'a> {
    /// The game's answer to "does this slot produce a row".
    pub occupied: bool,
    /// The record's name field, decoded by the caller.
    pub name: &'a str,
    /// The record's Rune Level.
    pub level: i32,
    /// The record's packed saved map.
    pub map: i32,
}

/// What one sweep of the live record table found.
#[derive(Debug, Clone, Copy, PartialEq, Eq, Default)]
pub struct LiveRecordScan {
    /// Bit N = slot N is marked OCCUPIED while holding something that is not a character.
    pub orphaned_mask: u32,
    /// How many slots held a real character. Zero is not a clean table: it may be an unread one.
    pub characters: usize,
}

/// The sample holds a character.
pub open spec fn spec_sample_is_character(sample: LiveRecordSample) -> bool {
    spec_record_verdict(sample.name@, sample.level, sample.map) == RecordCharacterVerdict::Character
}

/// The sample is occupied but holds no character.
pub open spec fn spec_sample_orphaned(sample: LiveRecordSample) -> bool {
    sample.occupied && !spec_sample_is_character(sample)
}

/// How many of the first `n` samples hold a character.
pub open spec fn spec_character_count(records: Seq<LiveRecordSample>, n: int) -> nat
    decreases n,
{
    if n <= 0 {
        0
    } else {
        spec_character_count(records, n - 1) + if spec_sample_is_character(records[n - 1]) {
            1nat
        } else {
            0nat
        }
    }
}

/// The orphaned-slot mask over the first `n` samples: bit `i` set for each orphaned sample `i`.
pub open spec fn spec_orphaned_mask(records: Seq<LiveRecordSample>, n: int) -> nat
    decreases n,
{
    if n <= 0 {
        0
    } else {
        spec_orphaned_mask(records, n - 1) + if spec_sample_orphaned(records[n - 1]) {
            pow2((n - 1) as nat)
        } else {
            0nat
        }
    }
}

/// The number of samples the scan looks at: the table, cut at the 32 slots a `u32` mask holds.
pub open spec fn spec_scanned_len(records: Seq<LiveRecordSample>) -> int {
    if records.len() < 32 {
        records.len() as int
    } else {
        32
    }
}

proof fn lemma_orphaned_mask_bound(records: Seq<LiveRecordSample>, n: int)
    requires
        0 <= n,
    ensures
        spec_orphaned_mask(records, n) < pow2(n as nat),
    decreases n,
{
    if n > 0 {
        lemma_orphaned_mask_bound(records, n - 1);
        lemma_pow2_unfold(n as nat);
    } else {
        vstd::arithmetic::power2::lemma2_to64();
    }
}

proof fn lemma_character_count_bound(records: Seq<LiveRecordSample>, n: int)
    requires
        0 <= n,
    ensures
        spec_character_count(records, n) <= n,
    decreases n,
{
    if n > 0 {
        lemma_character_count_bound(records, n - 1);
    }
}

/// Sweep the live record table: which slots are marked OCCUPIED while holding something that is not
/// a character. Slots past the 32 a `u32` can represent are ignored.
pub fn scan_live_records<'a>(records: &[LiveRecordSample<'a>]) -> (scan: LiveRecordScan)
    ensures
        scan.orphaned_mask == spec_orphaned_mask(records@, spec_scanned_len(records@)),
        scan.characters == spec_character_count(records@, spec_scanned_len(records@)),
{
    let n: usize = if records.len() < 32 {
        records.len()
    } else {
        32
    };
    let mut mask: u32 = 0;
    let mut characters: usize = 0;
    let mut index: usize = 0;
    while index < n
        invariant
            n == spec_scanned_len(records@),
            n <= 32,
            index <= n,
            mask == spec_orphaned_mask(records@, index as int),
            characters == spec_character_count(records@, index as int),
        decreases n - index,
    {
        let sample = records[index];
        let is_character = profile_record_character_verdict(
            sample.name,
            sample.level,
            sample.map,
        ).is_character();
        proof {
            lemma_character_count_bound(records@, index as int);
            lemma_orphaned_mask_bound(records@, index as int);
        }
        if is_character {
            characters = characters + 1;
        }
        if sample.occupied && !is_character {
            let bit = 1u32 << (index as u32);
            proof {
                let i = index as u32;
                let m = mask;
                vstd::bits::lemma_u32_pow2_no_overflow(i as nat);
                vstd::bits::lemma_u32_shl_is_mul(1u32, i);
                assert(m < (1u32 << i) ==> m | (1u32 << i) == m + (1u32 << i)) by (bit_vector)
                    requires
                        i < 32,
                ;
            }
            mask = mask | bit;
        }
        index = index + 1;
    }
    LiveRecordScan { orphaned_mask: mask, characters }
}

/// What the published loading-screen portrait was compared against: the character that loaded.
#[derive(Debug, Clone, Copy, PartialEq, Eq, Structural)]
pub enum PublishedIdentity {
    /// Nothing was published in this window -- not a mismatch, just no evidence.
    NothingPublished,
    /// No load completed to compare against.
    NoLoadedSlot,
    /// Published portrait belongs to the slot that loaded.
    Match,
    /// Published portrait belongs to a DIFFERENT slot than the one that loaded.
    SlotMismatch { published: i32, loaded: i32 },
}

impl PublishedIdentity {
    /// True only for a genuine wrong-character publish.
    pub fn is_mismatch(self) -> (b: bool)
        ensures
            b == (self is SlotMismatch),
    {
        match self {
            PublishedIdentity::SlotMismatch { .. } => true,
            _ => false,
        }
    }
}

/// The comparison of a published slot tag (slot + 1, 0 = never published) against the loaded slot.
pub open spec fn spec_published_identity(published_slot_tag: usize, loaded_slot: Option<i32>)
    -> PublishedIdentity {
    if published_slot_tag == 0 {
        PublishedIdentity::NothingPublished
    } else {
        match loaded_slot {
            None => PublishedIdentity::NoLoadedSlot,
            Some(loaded) => {
                let published = (published_slot_tag - 1) as i32;
                if published == loaded {
                    PublishedIdentity::Match
                } else {
                    PublishedIdentity::SlotMismatch { published, loaded }
                }
            },
        }
    }
}

/// Compare the published portrait's slot against the slot whose load actually completed.
/// `published_slot_tag` is the wire form: slot + 1, so 0 means "never published".
pub fn published_identity_verdict(published_slot_tag: usize, loaded_slot: Option<i32>) -> (verdict:
    PublishedIdentity)
    ensures
        verdict == spec_published_identity(published_slot_tag, loaded_slot),
{
    if published_slot_tag == 0 {
        return PublishedIdentity::NothingPublished;
    }
    let published_index = published_slot_tag - 1;
    match loaded_slot {
        None => PublishedIdentity::NoLoadedSlot,
        Some(loaded) => {
            let published = published_index as i32;
            if published == loaded {
                PublishedIdentity::Match
            } else {
                PublishedIdentity::SlotMismatch { published, loaded }
            }
        },
    }
}

/// WHICH source named a portrait target, ordered weakest evidence first.
#[derive(Debug, Clone, Copy, PartialEq, Eq, PartialOrd, Ord, Structural)]
pub enum PortraitSlotSource {
    /// `GameMan.save_slot`. Weakest: written for reasons unrelated to the question.
    SaveSlot,
    /// The native load-REQUEST register. A load for it is in flight.
    RequestSlot,
    /// The user's explicit on-screen pick. Nothing the game infers outranks it.
    UserPick,
}

/// The evidence rank of a source: 1 (weakest) to 3 (the user's pick).
pub open spec fn spec_rank(source: PortraitSlotSource) -> nat {
    match source {
        PortraitSlotSource::SaveSlot => 1,
        PortraitSlotSource::RequestSlot => 2,
        PortraitSlotSource::UserPick => 3,
    }
}

/// The source of a known rank, `None` for any other value.
pub open spec fn spec_from_rank(rank: usize) -> Option<PortraitSlotSource> {
    if rank == 1 {
        Some(PortraitSlotSource::SaveSlot)
    } else if rank == 2 {
        Some(PortraitSlotSource::RequestSlot)
    } else if rank == 3 {
        Some(PortraitSlotSource::UserPick)
    } else {
        None
    }
}

impl PortraitSlotSource {
    /// Wire form: 1-based rank, so the unset value 0 is never a real source.
    pub fn rank(self) -> (r: usize)
        ensures
            r == spec_rank(self),
    {
        match self {
            PortraitSlotSource::SaveSlot => 1,
            PortraitSlotSource::RequestSlot => 2,
            PortraitSlotSource::UserPick => 3,
        }
    }

    /// Inverse of [`Self::rank`]. `None` for `0` and for any value that is not a known rank.
    pub fn from_rank(rank: usize) -> (source: Option<Self>)
        ensures
            source == spec_from_rank(rank),
    {
        if rank == 1 {
            Some(PortraitSlotSource::SaveSlot)
        } else if rank == 2 {
            Some(PortraitSlotSource::RequestSlot)
        } else if rank == 3 {
            Some(PortraitSlotSource::UserPick)
        } else {
            None
        }
    }

    /// Short label for the debug log lines.
    pub fn label(self) -> (l: &'static str)
        ensures
            l@ == (match self {
                PortraitSlotSource::SaveSlot => "ac0"@,
                PortraitSlotSource::RequestSlot => "b78"@,
                PortraitSlotSource::UserPick => "pick"@,
            }),
    {
        match self {
            PortraitSlotSource::SaveSlot => "ac0",
            PortraitSlotSource::RequestSlot => "b78",
            PortraitSlotSource::UserPick => "pick",
        }
    }
}

/// A source names a valid slot: a value in `0..slot_count`.
pub open spec fn spec_names_slot(source: Option<i32>, slot_count: i32) -> bool {
    source matches Some(v) && 0 <= v < slot_count
}

/// Precedence over the three sources: the pick, then the request register, then `save_slot`;
/// each only when it names a valid slot.
pub open spec fn spec_target_attributed(
    picker_slot: Option<i32>,
    request_slot: Option<i32>,
    save_slot: Option<i32>,
    slot_count: i32,
) -> Option<(i32, PortraitSlotSource)> {
    if spec_names_slot(picker_slot, slot_count) {
        Some((picker_slot->0, PortraitSlotSource::UserPick))
    } else if spec_names_slot(request_slot, slot_count) {
        Some((request_slot->0, PortraitSlotSource::RequestSlot))
    } else if spec_names_slot(save_slot, slot_count) {
        Some((save_slot->0, PortraitSlotSource::SaveSlot))
    } else {
        None
    }
}

fn names_slot(source: Option<i32>, slot_count: i32) -> (valid: bool)
    ensures
        valid == spec_names_slot(source, slot_count),
{
    match source {
        Some(v) => 0 <= v && v < slot_count,
        None => false,
    }
}

/// The slot the portrait pipeline should TARGET while a load is in flight. `None` when no source
/// names a valid slot -- callers must NOT collapse that to slot 0.
pub fn portrait_target_slot_from_sources(
    picker_slot: Option<i32>,
    request_slot: Option<i32>,
    save_slot: Option<i32>,
    slot_count: i32,
) -> (slot: Option<i32>)
    ensures
        slot == (match spec_target_attributed(picker_slot, request_slot, save_slot, slot_count) {
            Some((s, _)) => Some(s),
            None => None,
        }),
{
    match portrait_target_slot_attributed(picker_slot, request_slot, save_slot, slot_count) {
        Some((s, _)) => Some(s),
        None => None,
    }
}

/// [`portrait_target_slot_from_sources`], keeping the source that won.
pub fn portrait_target_slot_attributed(
    picker_slot: Option<i32>,
    request_slot: Option<i32>,
    save_slot: Option<i32>,
    slot_count: i32,
) -> (target: Option<(i32, PortraitSlotSource)>)
    ensures
        target == spec_target_attributed(picker_slot, request_slot, save_slot, slot_count),
{
    if names_slot(picker_slot, slot_count) {
        Some((picker_slot.unwrap(), PortraitSlotSource::UserPick))
    } else if names_slot(request_slot, slot_count) {
        Some((request_slot.unwrap(), PortraitSlotSource::RequestSlot))
    } else if names_slot(save_slot, slot_count) {
        Some((save_slot.unwrap(), PortraitSlotSource::SaveSlot))
    } else {
        None
    }
}

/// Which source names the slot whose character the loading-screen STATS panel describes.
#[derive(Debug, Clone, Copy, PartialEq, Eq, Structural)]
pub enum StatsSlotSource {
    /// A System->Quit->Load switch selection, known at the confirm press.
    SwitchSelection(i32),
    /// This loading window's committed portrait target, i.e. the character on screen.
    PortraitWindow(i32),
    /// The slot this boot is CONFIGURED to autoload, before anything has observed a load.
    ConfiguredAutoload(i32),
    /// Nothing named a slot: the caller must scan for the best active one.
    BestActiveFallback,
}

/// The stats panel's source: the switch selection word (unset is `usize::MAX`), then the window
/// target, then the configured autoload slot, each only when it names a slot in `0..slot_count`.
pub open spec fn spec_stats_slot_source(
    switch_selected_wire: usize,
    window_target: Option<i32>,
    configured_autoload: Option<i32>,
    slot_count: i32,
) -> StatsSlotSource {
    if switch_selected_wire <= i32::MAX && switch_selected_wire < slot_count {
        StatsSlotSource::SwitchSelection(switch_selected_wire as i32)
    } else if spec_names_slot(window_target, slot_count) {
        StatsSlotSource::PortraitWindow(window_target->0)
    } else if spec_names_slot(configured_autoload, slot_count) {
        StatsSlotSource::ConfiguredAutoload(configured_autoload->0)
    } else {
        StatsSlotSource::BestActiveFallback
    }
}

/// Resolve the stats panel's slot source. `switch_selected_wire` is the raw switch selection word,
/// whose unset form is `usize::MAX`.
pub fn loading_screen_stats_slot_source(
    switch_selected_wire: usize,
    window_target: Option<i32>,
    configured_autoload: Option<i32>,
    slot_count: i32,
) -> (source: StatsSlotSource)
    ensures
        source == spec_stats_slot_source(
            switch_selected_wire,
            window_target,
            configured_autoload,
            slot_count,
        ),
{
    if switch_selected_wire <= 0x7fff_ffffusize {
        let selected = switch_selected_wire as i32;
        if 0 <= selected && selected < slot_count {
            return StatsSlotSource::SwitchSelection(selected);
        }
    }
    if names_slot(window_target, slot_count) {
        return StatsSlotSource::PortraitWindow(window_target.unwrap());
    }
    if names_slot(configured_autoload, slot_count) {
        StatsSlotSource::ConfiguredAutoload(configured_autoload.unwrap())
    } else {
        StatsSlotSource::BestActiveFallback
    }
}

/// STABILITY over freshness for one loading window: a committed target is kept, and a resolved
/// slot is adopted only while the window has no target yet. Returns the slot and whether this call
/// commits it.
pub fn portrait_window_target_slot(latched: Option<i32>, resolved: Option<i32>) -> (target: (
    Option<i32>,
    bool,
))
    ensures
        target == (match (latched, resolved) {
            (Some(held), _) => (Some(held), false),
            (None, Some(fresh)) => (Some(fresh), true),
            (None, None) => (None, false),
        }),
{
    portrait_window_target_slot_authoritative(latched, false, resolved, false).into_pair()
}

/// What one window's portrait target should be, and whether it is newly latching.
#[derive(Debug, Clone, Copy, PartialEq, Eq, Structural)]
pub struct PortraitWindowTarget {
    /// The slot this window should use, or `None` while nothing has named one.
    pub slot: Option<i32>,
    /// True when this call is what commits the window to `slot`.
    pub latching: bool,
    /// True when the commit replaced an earlier latch because the user has now explicitly picked.
    pub promoted_by_pick: bool,
    /// The evidence the window's target now rests on. The caller must store this every call.
    pub source: Option<PortraitSlotSource>,
}

impl PortraitWindowTarget {
    /// The legacy `(slot, latching)` pair.
    pub fn into_pair(self) -> (pair: (Option<i32>, bool))
        ensures
            pair == (self.slot, self.latching),
    {
        (self.slot, self.latching)
    }
}

/// The stronger of two sources by rank.
pub open spec fn spec_stronger(a: PortraitSlotSource, b: PortraitSlotSource) -> PortraitSlotSource {
    if spec_rank(b) > spec_rank(a) {
        b
    } else {
        a
    }
}

/// The rank a latch is defended with: its recorded source, or the weakest rank when none is
/// recorded.
pub open spec fn spec_held_source(latched_source: Option<PortraitSlotSource>) -> PortraitSlotSource {
    match latched_source {
        Some(s) => s,
        None => PortraitSlotSource::SaveSlot,
    }
}

/// A window defends its commitment against evidence of equal or lower rank; strictly better
/// evidence naming a different slot always wins.
pub open spec fn spec_window_target(
    latched: Option<i32>,
    latched_source: Option<PortraitSlotSource>,
    resolved: Option<(i32, PortraitSlotSource)>,
) -> PortraitWindowTarget {
    match (latched, resolved) {
        (Some(held), Some((fresh, fresh_source))) => {
            let held_source = spec_held_source(latched_source);
            if held != fresh && spec_rank(fresh_source) > spec_rank(held_source) {
                PortraitWindowTarget {
                    slot: Some(fresh),
                    latching: true,
                    promoted_by_pick: fresh_source == PortraitSlotSource::UserPick,
                    source: Some(fresh_source),
                }
            } else {
                PortraitWindowTarget {
                    slot: Some(held),
                    latching: false,
                    promoted_by_pick: false,
                    source: Some(
                        if held == fresh {
                            spec_stronger(held_source, fresh_source)
                        } else {
                            held_source
                        },
                    ),
                }
            }
        },
        (Some(held), None) => PortraitWindowTarget {
            slot: Some(held),
            latching: false,
            promoted_by_pick: false,
            source: latched_source,
        },
        (None, Some((fresh, fresh_source))) => PortraitWindowTarget {
            slot: Some(fresh),
            latching: true,
            promoted_by_pick: false,
            source: Some(fresh_source),
        },
        (None, None) => PortraitWindowTarget {
            slot: None,
            latching: false,
            promoted_by_pick: false,
            source: None,
        },
    }
}

/// [`portrait_window_target_slot`] with the pick/not-pick boolean for each side: a latch adopted
/// from a guess yields to the user's own pick, once.
pub fn portrait_window_target_slot_authoritative(
    latched: Option<i32>,
    latched_from_pick: bool,
    resolved: Option<i32>,
    resolved_from_pick: bool,
) -> (target: PortraitWindowTarget)
    ensures
        target == spec_window_target(
            latched,
            match latched {
                Some(_) => Some(
                    if latched_from_pick {
                        PortraitSlotSource::UserPick
                    } else {
                        PortraitSlotSource::SaveSlot
                    },
                ),
                None => None,
            },
            match resolved {
                Some(slot) => Some(
                    (
                        slot,
                        if resolved_from_pick {
                            PortraitSlotSource::UserPick
                        } else {
                            PortraitSlotSource::SaveSlot
                        },
                    ),
                ),
                None => None,
            },
        ),
{
    let latched_as = if latched_from_pick {
        PortraitSlotSource::UserPick
    } else {
        PortraitSlotSource::SaveSlot
    };
    let resolved_as = if resolved_from_pick {
        PortraitSlotSource::UserPick
    } else {
        PortraitSlotSource::SaveSlot
    };
    let latched_source = match latched {
        Some(_) => Some(latched_as),
        None => None,
    };
    let resolved_attributed = match resolved {
        Some(slot) => Some((slot, resolved_as)),
        None => None,
    };
    portrait_window_target_slot_by_evidence(latched, latched_source, resolved_attributed)
}

/// STABILITY over freshness, except against strictly better evidence: a committed target yields
/// only to a source that outranks the one it was committed from, and only when the slot differs.
pub fn portrait_window_target_slot_by_evidence(
    latched: Option<i32>,
    latched_source: Option<PortraitSlotSource>,
    resolved: Option<(i32, PortraitSlotSource)>,
) -> (target: PortraitWindowTarget)
    ensures
        target == spec_window_target(latched, latched_source, resolved),
{
    match (latched, resolved) {
        (Some(held), Some((fresh, fresh_source))) => {
            let held_source = match latched_source {
                Some(s) => s,
                None => PortraitSlotSource::SaveSlot,
            };
            if held != fresh && fresh_source.rank() > held_source.rank() {
                PortraitWindowTarget {
                    slot: Some(fresh),
                    latching: true,
                    promoted_by_pick: fresh_source.rank() == 3,
                    source: Some(fresh_source),
                }
            } else {
                let kept = if held == fresh {
                    if fresh_source.rank() > held_source.rank() {
                        fresh_source
                    } else {
                        held_source
                    }
                } else {
                    held_source
                };
                PortraitWindowTarget {
                    slot: Some(held),
                    latching: false,
                    promoted_by_pick: false,
                    source: Some(kept),
                }
            }
        },
        (Some(held), None) => PortraitWindowTarget {
            slot: Some(held),
            latching: false,
            promoted_by_pick: false,
            source: latched_source,
        },
        (None, Some((fresh, fresh_source))) => PortraitWindowTarget {
            slot: Some(fresh),
            latching: true,
            promoted_by_pick: false,
            source: Some(fresh_source),
        },
        (None, None) => PortraitWindowTarget {
            slot: None,
            latching: false,
            promoted_by_pick: false,
            source: None,
        },
    }
}

/// The same-identity bridge hold predicate. Tags are slot + 1 (0 = no slot); a 0 hash is an
/// unknown name and never counts as agreement.
pub fn same_identity_bridge_hold(
    have_head: bool,
    incoming_slot_tag: usize,
    incoming_name_hash: usize,
    published_slot_tag: usize,
    published_name_hash: usize,
) -> (hold: bool)
    ensures
        hold == (have_head && incoming_slot_tag != 0 && incoming_slot_tag == published_slot_tag
            && incoming_name_hash != 0 && incoming_name_hash == published_name_hash),
{
    have_head && incoming_slot_tag != 0 && incoming_slot_tag == published_slot_tag
        && incoming_name_hash != 0 && incoming_name_hash == published_name_hash
}

/// What an independent identity signal says about an outstanding provisional bridge hold.
#[derive(Debug, Clone, Copy, PartialEq, Eq, Structural)]
pub enum BridgeHoldVerdict {
    /// No provisional hold is outstanding.
    NoHold,
    /// The signal is about a different slot than the held head.
    OtherSlot,
    /// No fingerprint exists for this slot; the hold stays up, still unproven.
    NoEvidence,
    /// The record agrees with its fingerprint.
    Unrefuted,
    /// The record is a DIFFERENT character than the fingerprinted one: drop the held head.
    Revoke,
}

/// The face-fingerprint verdict on a hold tagged `held_slot_tag` (slot + 1, 0 = none).
pub open spec fn spec_bridge_hold_face_verdict(
    held_slot_tag: usize,
    kick_slot: i32,
    record_face_hash: usize,
    preview_face_hash: usize,
) -> BridgeHoldVerdict {
    if held_slot_tag == 0 {
        BridgeHoldVerdict::NoHold
    } else if kick_slot < 0 || held_slot_tag != kick_slot + 1 {
        BridgeHoldVerdict::OtherSlot
    } else if preview_face_hash == 0 {
        BridgeHoldVerdict::NoEvidence
    } else if record_face_hash == preview_face_hash {
        BridgeHoldVerdict::Unrefuted
    } else {
        BridgeHoldVerdict::Revoke
    }
}

/// Judge an outstanding provisional hold against the record-vs-preview FACE fingerprint taken at
/// the build kick. `kick_slot` is the raw slot the kick builds; a 0 preview hash is no fingerprint.
pub fn bridge_hold_face_verdict(
    held_slot_tag: usize,
    kick_slot: i32,
    record_face_hash: usize,
    preview_face_hash: usize,
) -> (verdict: BridgeHoldVerdict)
    ensures
        verdict == spec_bridge_hold_face_verdict(
            held_slot_tag,
            kick_slot,
            record_face_hash,
            preview_face_hash,
        ),
{
    if held_slot_tag == 0 {
        return BridgeHoldVerdict::NoHold;
    }
    if kick_slot < 0 || held_slot_tag != (kick_slot as usize) + 1 {
        return BridgeHoldVerdict::OtherSlot;
    }
    if preview_face_hash == 0 {
        return BridgeHoldVerdict::NoEvidence;
    }
    if record_face_hash == preview_face_hash {
        BridgeHoldVerdict::Unrefuted
    } else {
        BridgeHoldVerdict::Revoke
    }
}

impl BridgeHoldVerdict {
    /// True only when the held head must be dropped.
    pub fn revokes(self) -> (b: bool)
        ensures
            b == (self == BridgeHoldVerdict::Revoke),
    {
        match self {
            BridgeHoldVerdict::Revoke => true,
            _ => false,
        }
    }
}

/// The new-game sentinel is never a plausible map, so it can never be one side of a mismatch.
pub proof fn lemma_new_game_sentinel_is_never_plausible(other: i32)
    ensures
        !spec_map_plausible(DEFAULT_MAP_C30),
        !spec_maps_disagree(DEFAULT_MAP_C30, other),
        !spec_maps_disagree(other, DEFAULT_MAP_C30),
{
}

/// Map disagreement is symmetric, and no map disagrees with itself.
pub proof fn lemma_maps_disagree_symmetric_irreflexive(a: i32, b: i32)
    ensures
        spec_maps_disagree(a, b) == spec_maps_disagree(b, a),
        !spec_maps_disagree(a, a),
{
}

/// A record that has no level, or whose name has the picker's row-label shape, is never read as a
/// character, whatever its map.
pub proof fn lemma_picker_rows_are_never_characters(name: Seq<char>, level: i32, map: i32)
    requires
        level <= 0 || spec_looks_like_picker_row_label(name),
    ensures
        spec_record_verdict(name, level, map) != RecordCharacterVerdict::Character,
{
}

/// Unoccupied slots never contribute a bit: a table with no occupied slot has an empty mask.
pub proof fn lemma_unoccupied_table_has_no_orphans(records: Seq<LiveRecordSample>, n: int)
    requires
        forall|i: int| 0 <= i < records.len() ==> !(#[trigger] records[i]).occupied,
        0 <= n <= records.len(),
    ensures
        spec_orphaned_mask(records, n) == 0,
    decreases n,
{
    if n > 0 {
        lemma_unoccupied_table_has_no_orphans(records, n - 1);
    }
}

/// The wire rank round-trips, ranks are ordered weakest first, and 0 is never a source.
pub proof fn lemma_rank_round_trip(source: PortraitSlotSource)
    ensures
        spec_from_rank(spec_rank(source) as usize) == Some(source),
        spec_from_rank(0) is None,
        spec_rank(PortraitSlotSource::SaveSlot) < spec_rank(PortraitSlotSource::RequestSlot),
        spec_rank(PortraitSlotSource::RequestSlot) < spec_rank(PortraitSlotSource::UserPick),
{
}

/// `latching` is exactly "this call changed the window's slot".
pub proof fn lemma_latching_iff_slot_changes(
    latched: Option<i32>,
    latched_source: Option<PortraitSlotSource>,
    resolved: Option<(i32, PortraitSlotSource)>,
)
    ensures
        spec_window_target(latched, latched_source, resolved).latching == (spec_window_target(
            latched,
            latched_source,
            resolved,
        ).slot != latched),
{
}

/// A committed window stays committed: once a slot is latched, no resolution (not even "nothing
/// names a slot") un-commits it.
pub proof fn lemma_committed_window_stays_committed(
    held: i32,
    latched_source: Option<PortraitSlotSource>,
    resolved: Option<(i32, PortraitSlotSource)>,
)
    ensures
        spec_window_target(Some(held), latched_source, resolved).slot is Some,
{
}

/// Equal or weaker evidence never moves a committed window.
pub proof fn lemma_weaker_evidence_never_moves_the_window(
    held: i32,
    latched_source: Option<PortraitSlotSource>,
    fresh: i32,
    fresh_source: PortraitSlotSource,
)
    requires
        spec_rank(fresh_source) <= spec_rank(spec_held_source(latched_source)),
    ensures
        spec_window_target(Some(held), latched_source, Some((fresh, fresh_source))).slot == Some(
            held,
        ),
        !spec_window_target(Some(held), latched_source, Some((fresh, fresh_source))).latching,
{
}

/// A window committed from the user's pick never yields.
pub proof fn lemma_pick_latch_never_yields(
    held: i32,
    resolved: Option<(i32, PortraitSlotSource)>,
)
    ensures
        spec_window_target(Some(held), Some(PortraitSlotSource::UserPick), resolved).slot == Some(
            held,
        ),
{
}

/// Every retarget of a committed window is a strict improvement in evidence, and a promotion by
/// pick is a retarget onto the pick.
pub proof fn lemma_retarget_strictly_improves_evidence(
    held: i32,
    latched_source: Option<PortraitSlotSource>,
    resolved: Option<(i32, PortraitSlotSource)>,
)
    ensures
        ({
            let t = spec_window_target(Some(held), latched_source, resolved);
            t.latching ==> (t.source matches Some(s) && spec_rank(s) > spec_rank(
                spec_held_source(latched_source),
            ))
        }),
        ({
            let t = spec_window_target(Some(held), latched_source, resolved);
            t.promoted_by_pick ==> t.latching && t.source == Some(PortraitSlotSource::UserPick)
        }),
{
}

/// The recorded evidence of a committed window never gets weaker.
pub proof fn lemma_latch_rank_never_drops(
    held: i32,
    source: PortraitSlotSource,
    resolved: Option<(i32, PortraitSlotSource)>,
)
    ensures
        spec_window_target(Some(held), Some(source), resolved).source matches Some(s) && spec_rank(
            s,
        ) >= spec_rank(source),
{
}

/// The stats panel never disagrees with the face: with no switch selection, a window target that
/// names a slot is the panel's slot.
pub proof fn lemma_stats_follow_the_window(
    switch_selected_wire: usize,
    window_slot: i32,
    configured_autoload: Option<i32>,
    slot_count: i32,
)
    requires
        switch_selected_wire > i32::MAX || switch_selected_wire >= slot_count,
        0 <= window_slot < slot_count,
    ensures
        spec_stats_slot_source(
            switch_selected_wire,
            Some(window_slot),
            configured_autoload,
            slot_count,
        ) == StatsSlotSource::PortraitWindow(window_slot),
{
}

/// A hold is revoked only on a positive refutation: a fingerprint exists for the held slot's own
/// kick, and the record disagrees with it. Absent evidence never revokes.
pub proof fn lemma_revocation_needs_a_refuting_fingerprint(
    held_slot_tag: usize,
    kick_slot: i32,
    record_face_hash: usize,
    preview_face_hash: usize,
)
    ensures
        spec_bridge_hold_face_verdict(held_slot_tag, kick_slot, record_face_hash, preview_face_hash)
            == BridgeHoldVerdict::Revoke <==> (held_slot_tag != 0 && kick_slot >= 0
            && held_slot_tag == kick_slot + 1 && preview_face_hash != 0 && record_face_hash
            != preview_face_hash),
{
}

/// A window before any resolution: no slot, no evidence.
pub open spec fn spec_window_start() -> PortraitWindowTarget {
    PortraitWindowTarget { slot: None, latching: false, promoted_by_pick: false, source: None }
}

/// The window's target after the first `n` resolutions, each call passing the previous call's
/// slot and evidence back in as the latch.
pub open spec fn spec_window_after(
    resolved: Seq<Option<(i32, PortraitSlotSource)>>,
    n: nat,
) -> PortraitWindowTarget
    decreases n,
{
    if n == 0 {
        spec_window_start()
    } else {
        let prev = spec_window_after(resolved, (n - 1) as nat);
        spec_window_target(prev.slot, prev.source, resolved[n - 1])
    }
}

/// How many of the first `n` calls moved an already committed window to another slot.
pub open spec fn spec_retargets(resolved: Seq<Option<(i32, PortraitSlotSource)>>, n: nat) -> nat
    decreases n,
{
    if n == 0 {
        0
    } else {
        let prev = spec_window_after(resolved, (n - 1) as nat);
        let cur = spec_window_after(resolved, n);
        spec_retargets(resolved, (n - 1) as nat) + if cur.latching && prev.slot is Some {
            1nat
        } else {
            0nat
        }
    }
}

/// Along a window's calls, a committed window always records its evidence, and each retarget so
/// far has raised that evidence's rank by at least one above its first latch.
proof fn lemma_retargets_bounded_by_rank(resolved: Seq<Option<(i32, PortraitSlotSource)>>, n: nat)
    requires
        n <= resolved.len(),
    ensures
        ({
            let t = spec_window_after(resolved, n);
            &&& t.slot is None ==> t.source is None && spec_retargets(resolved, n) == 0
            &&& t.slot is Some ==> t.source is Some && spec_retargets(resolved, n) + 1
                <= spec_rank(t.source->0)
        }),
    decreases n,
{
    if n > 0 {
        lemma_retargets_bounded_by_rank(resolved, (n - 1) as nat);
    }
}

/// At most two retargets per window: a committed window moves to another slot only on strictly
/// better evidence, and there are only three ranks of evidence. Every call that changes the slot
/// is a latching call, and the recorded evidence never gets weaker from one call to the next.
pub proof fn lemma_at_most_two_retargets_per_window(
    resolved: Seq<Option<(i32, PortraitSlotSource)>>,
    n: nat,
)
    requires
        n <= resolved.len(),
    ensures
        spec_retargets(resolved, n) <= 2,
        forall|k: nat|
            1 <= k <= n ==> (#[trigger] spec_window_after(resolved, k)).slot != spec_window_after(
                resolved,
                (k - 1) as nat,
            ).slot ==> spec_window_after(resolved, k).latching,
        forall|k: nat|
            1 <= k <= n ==> (spec_window_after(resolved, (k - 1) as nat).source matches Some(a) ==> (
            #[trigger] spec_window_after(resolved, k)).source matches Some(b) && spec_rank(b)
                >= spec_rank(a)),
{
    lemma_retargets_bounded_by_rank(resolved, n);
    assert forall|k: nat| 1 <= k <= n implies ((#[trigger] spec_window_after(resolved, k)).slot
        != spec_window_after(resolved, (k - 1) as nat).slot ==> spec_window_after(
        resolved,
        k,
    ).latching) by {
        lemma_retargets_bounded_by_rank(resolved, (k - 1) as nat);
    }
    assert forall|k: nat| 1 <= k <= n implies (spec_window_after(resolved, (k - 1) as nat).source
        matches Some(a) ==> (#[trigger] spec_window_after(resolved, k)).source matches Some(b)
        && spec_rank(b) >= spec_rank(a)) by {
        lemma_retargets_bounded_by_rank(resolved, (k - 1) as nat);
    }
}

} // verus!
