//! What the native profile feed did to a character's equipment array, and what writing the
//! record's own param ids back changes: which indices differ, and what to report about them.
//! Also the idle-animation choice for the portrait, by the record's arm style.

use vstd::prelude::*;
use crate::portrait_equip::{PORTRAIT_EQUIP_SLOT_HANDS, PORTRAIT_EQUIP_SLOT_LEGS};

verus! {

/// Entries in the `ChrAsm` equipment param-id array.
pub const PORTRAIT_EQUIP_ENTRY_COUNT: usize = 22;

/// First index of the six armament slots (left even, right odd).
pub const PORTRAIT_EQUIP_WEAPON_FIRST: usize = 0;

pub const PORTRAIT_EQUIP_WEAPON_COUNT: usize = 6;

/// First index of the six ammunition slots.
pub const PORTRAIT_EQUIP_AMMO_FIRST: usize = 6;

pub const PORTRAIT_EQUIP_AMMO_COUNT: usize = 6;

/// First index of the four protector slots (head, chest, hands, legs).
pub const PORTRAIT_EQUIP_PROTECTOR_FIRST: usize = 12;

/// An empty slot, in both the record and the fed array.
pub const PORTRAIT_EQUIP_EMPTY_ID: i32 = -1;

/// What the feed did to one character's equipment, and what putting it back changes.
#[derive(Clone, Copy, Debug, Default, Eq, PartialEq, Structural)]
pub struct PortraitEquipRestore {
    /// Armament indices where the fed array disagrees with the record.
    pub weapon_slots_restored: usize,
    /// Ammunition indices where the fed array disagrees with the record.
    pub ammo_slots_restored: usize,
    /// Protector indices where the fed array disagrees with the record.
    pub protector_slots_restored: usize,
    /// The record's first non-empty right-hand armament (odd indices), or the empty id.
    pub right_weapon_id: i32,
    /// The record's first non-empty left-hand armament (even indices), or the empty id.
    pub left_weapon_id: i32,
    /// The record's own hands row.
    pub hands_id: i32,
    /// The record's own legs row.
    pub legs_id: i32,
}

/// How many indices in `lo..hi` hold different values in the two arrays.
pub open spec fn spec_diff_count(record: Seq<i32>, fed: Seq<i32>, lo: int, hi: int) -> nat
    decreases hi - lo,
{
    if hi <= lo {
        0
    } else {
        spec_diff_count(record, fed, lo, hi - 1) + if record[hi - 1] != fed[hi - 1] {
            1nat
        } else {
            0nat
        }
    }
}

/// The first non-empty entry of `record` at an index in `lo..hi` with the given parity, or the
/// empty id.
pub open spec fn spec_first_non_empty(record: Seq<i32>, lo: int, hi: int, parity: int) -> i32
    decreases hi - lo,
{
    if hi <= lo {
        PORTRAIT_EQUIP_EMPTY_ID
    } else if lo % 2 == parity && record[lo] != PORTRAIT_EQUIP_EMPTY_ID {
        record[lo]
    } else {
        spec_first_non_empty(record, lo + 1, hi, parity)
    }
}

/// The report for two whole 22-entry arrays.
pub open spec fn spec_restore_report(record: Seq<i32>, fed: Seq<i32>) -> PortraitEquipRestore {
    PortraitEquipRestore {
        weapon_slots_restored: spec_diff_count(record, fed, 0, 6) as usize,
        ammo_slots_restored: spec_diff_count(record, fed, 6, 12) as usize,
        protector_slots_restored: spec_diff_count(record, fed, 12, 16) as usize,
        right_weapon_id: spec_first_non_empty(record, 0, 6, 1),
        left_weapon_id: spec_first_non_empty(record, 0, 6, 0),
        hands_id: record[14],
        legs_id: record[15],
    }
}

proof fn lemma_diff_count_bound(record: Seq<i32>, fed: Seq<i32>, lo: int, hi: int)
    ensures
        spec_diff_count(record, fed, lo, hi) <= if hi > lo {
            hi - lo
        } else {
            0
        },
    decreases hi - lo,
{
    if hi > lo {
        lemma_diff_count_bound(record, fed, lo, hi - 1);
    }
}

fn count_differences(record: &[i32], fed: &[i32], lo: usize, hi: usize) -> (n: usize)
    requires
        lo <= hi <= record@.len(),
        hi <= fed@.len(),
    ensures
        n == spec_diff_count(record@, fed@, lo as int, hi as int),
{
    let mut n: usize = 0;
    let mut i: usize = lo;
    while i < hi
        invariant
            lo <= i <= hi,
            hi <= record@.len(),
            hi <= fed@.len(),
            n == spec_diff_count(record@, fed@, lo as int, i as int),
        decreases hi - i,
    {
        proof {
            lemma_diff_count_bound(record@, fed@, lo as int, i as int);
        }
        if record[i] != fed[i] {
            n = n + 1;
        }
        i = i + 1;
    }
    n
}

fn first_non_empty(record: &[i32], lo: usize, hi: usize, parity: usize) -> (id: i32)
    requires
        lo <= hi <= record@.len(),
        parity < 2,
    ensures
        id == spec_first_non_empty(record@, lo as int, hi as int, parity as int),
{
    let mut i: usize = lo;
    while i < hi
        invariant
            lo <= i <= hi,
            hi <= record@.len(),
            parity < 2,
            spec_first_non_empty(record@, lo as int, hi as int, parity as int)
                == spec_first_non_empty(record@, i as int, hi as int, parity as int),
        decreases hi - i,
    {
        if i % 2 == parity && record[i] != PORTRAIT_EQUIP_EMPTY_ID {
            return record[i];
        }
        i = i + 1;
    }
    PORTRAIT_EQUIP_EMPTY_ID
}

/// Compare the record's equipment param ids against the array the native feed left behind.
/// `None` when either is not a whole 22-entry array, so a short read cannot pass as "nothing to
/// restore".
pub fn portrait_equip_restore_report(record: &[i32], fed: &[i32]) -> (report: Option<
    PortraitEquipRestore,
>)
    ensures
        report == if record@.len() == PORTRAIT_EQUIP_ENTRY_COUNT && fed@.len()
            == PORTRAIT_EQUIP_ENTRY_COUNT {
            Some(spec_restore_report(record@, fed@))
        } else {
            None
        },
{
    if record.len() != PORTRAIT_EQUIP_ENTRY_COUNT || fed.len() != PORTRAIT_EQUIP_ENTRY_COUNT {
        return None;
    }
    let hands = PORTRAIT_EQUIP_PROTECTOR_FIRST + PORTRAIT_EQUIP_SLOT_HANDS;
    let legs = PORTRAIT_EQUIP_PROTECTOR_FIRST + PORTRAIT_EQUIP_SLOT_LEGS;
    Some(
        PortraitEquipRestore {
            weapon_slots_restored: count_differences(
                record,
                fed,
                PORTRAIT_EQUIP_WEAPON_FIRST,
                PORTRAIT_EQUIP_WEAPON_FIRST + PORTRAIT_EQUIP_WEAPON_COUNT,
            ),
            ammo_slots_restored: count_differences(
                record,
                fed,
                PORTRAIT_EQUIP_AMMO_FIRST,
                PORTRAIT_EQUIP_AMMO_FIRST + PORTRAIT_EQUIP_AMMO_COUNT,
            ),
            protector_slots_restored: count_differences(
                record,
                fed,
                PORTRAIT_EQUIP_PROTECTOR_FIRST,
                PORTRAIT_EQUIP_PROTECTOR_FIRST + 4,
            ),
            right_weapon_id: first_non_empty(
                record,
                PORTRAIT_EQUIP_WEAPON_FIRST,
                PORTRAIT_EQUIP_WEAPON_FIRST + PORTRAIT_EQUIP_WEAPON_COUNT,
                1,
            ),
            left_weapon_id: first_non_empty(
                record,
                PORTRAIT_EQUIP_WEAPON_FIRST,
                PORTRAIT_EQUIP_WEAPON_FIRST + PORTRAIT_EQUIP_WEAPON_COUNT,
                0,
            ),
            hands_id: record[hands],
            legs_id: record[legs],
        },
    )
}

/// True when the repair has anything to do.
pub fn portrait_equip_restore_is_material(report: &PortraitEquipRestore) -> (material: bool)
    ensures
        material == (report.weapon_slots_restored > 0 || report.ammo_slots_restored > 0
            || report.protector_slots_restored > 0),
{
    report.weapon_slots_restored > 0 || report.ammo_slots_restored > 0
        || report.protector_slots_restored > 0
}

/// The one-handed idle list: the standing idle first, then its fallbacks.
pub const PORTRAIT_IDLE_ANIM_IDS: [i32; 3] = [3000000, 100022, 99900];

/// The two-handed idle in front of the same list, so an unresolvable leading id falls through to
/// the one-handed idle.
pub const PORTRAIT_IDLE_ANIM_IDS_TWO_HANDED: [i32; 4] = [12000000, 3000000, 100022, 99900];

/// Arm-style values that mean two-handing: exactly `{2, 3}`.
pub const CHR_ASM_ARM_STYLE_TWO_HANDED: [i32; 2] = [2, 3];

/// Which idle list to try on the portrait, given the arm style of the record it is built from.
pub fn portrait_idle_anim_ids(arm_style: i32) -> (ids: &'static [i32])
    ensures
        ids@ == if arm_style == 2 || arm_style == 3 {
            seq![12000000i32, 3000000, 100022, 99900]
        } else {
            seq![3000000i32, 100022, 99900]
        },
{
    if arm_style == CHR_ASM_ARM_STYLE_TWO_HANDED[0] || arm_style == CHR_ASM_ARM_STYLE_TWO_HANDED[1] {
        let ids: &'static [i32] = &PORTRAIT_IDLE_ANIM_IDS_TWO_HANDED;
        ids
    } else {
        let ids: &'static [i32] = &PORTRAIT_IDLE_ANIM_IDS;
        ids
    }
}

/// A character whose fed array equals its record needs no repair: every count is 0.
pub proof fn lemma_identical_arrays_need_no_repair(record: Seq<i32>, lo: int, hi: int)
    ensures
        spec_diff_count(record, record, lo, hi) == 0,
    decreases hi - lo,
{
    if hi > lo {
        lemma_identical_arrays_need_no_repair(record, lo, hi - 1);
    }
}

} // verus!
