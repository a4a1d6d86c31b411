//! Putting the character's own equipment back into the `ChrAsm` the native feed just stripped: which
//! dwords to write, and what the restore counters make of each kick. Reading and writing the
//! renderer's memory is the caller's part.

use vstd::prelude::*;
use crate::chr_asm_layout::{CHR_ASM_EQUIPMENT_PARAM_IDS_OFFSET, CHR_ASM_PARAM_ID_SIZE};
use crate::portrait_equip::{portrait_equip_latch_first, portrait_equip_pack, spec_pack};
use crate::portrait_equip_oracle::{spec_bump, spec_latch};
use crate::portrait_equip_restore::{portrait_equip_restore_is_material, PortraitEquipRestore};

verus! {

/// Kicks whose restore is logged; the counters carry every kick.
pub const RESTORE_LOG_KICK_LIMIT: usize = 4;

/// Byte offset of `equipment_param_ids[index]` within a `ChrAsm`.
pub fn chr_asm_param_id_offset(index: usize) -> (offset: usize)
    requires
        index < 0x1000,
    ensures
        offset == CHR_ASM_EQUIPMENT_PARAM_IDS_OFFSET + index * CHR_ASM_PARAM_ID_SIZE,
{
    CHR_ASM_EQUIPMENT_PARAM_IDS_OFFSET + index * CHR_ASM_PARAM_ID_SIZE
}

/// The indices below `hi` at which `have` differs from `wanted`, ascending: the dwords a restore
/// writes. An index whose read failed on either side (`None`) is skipped.
pub open spec fn spec_restore_writes(wanted: Seq<Option<i32>>, have: Seq<Option<i32>>, hi: int)
    -> Seq<usize>
    decreases hi,
{
    if hi <= 0 {
        Seq::empty()
    } else {
        spec_restore_writes(wanted, have, hi - 1) + match (wanted[hi - 1], have[hi - 1]) {
            (Some(w), Some(h)) => if w != h {
                seq![(hi - 1) as usize]
            } else {
                Seq::empty()
            },
            _ => Seq::empty(),
        }
    }
}

/// The dwords a restore writes: every index where both reads succeeded and the fed value differs
/// from the record's, in ascending order. Equal dwords and unreadable ones are left alone.
pub fn portrait_equip_restore_writes(wanted: &[Option<i32>], have: &[Option<i32>]) -> (writes: Vec<
    usize,
>)
    requires
        wanted@.len() == have@.len(),
    ensures
        writes@ == spec_restore_writes(wanted@, have@, wanted@.len() as int),
{
    let n = wanted.len();
    let mut writes: Vec<usize> = Vec::new();
    let mut i: usize = 0;
    while i < n
        invariant
            n == wanted@.len(),
            n == have@.len(),
            i <= n,
            writes@ == spec_restore_writes(wanted@, have@, i as int),
        decreases n - i,
    {
        match (wanted[i], have[i]) {
            (Some(w), Some(h)) => {
                if w != h {
                    writes.push(i);
                } else {
                    assert(writes@ + Seq::<usize>::empty() =~= writes@);
                }
            },
            _ => {
                assert(writes@ + Seq::<usize>::empty() =~= writes@);
            },
        }
        i = i + 1;
    }
    writes
}

/// Every index a restore writes is one where both sides were read and disagree, and every such
/// index is written: after the writes, the inbox holds the record's value wherever both were read.
pub proof fn lemma_restore_writes_exactly_the_differences(
    wanted: Seq<Option<i32>>,
    have: Seq<Option<i32>>,
    hi: int,
)
    requires
        0 <= hi <= wanted.len(),
        hi <= have.len(),
        hi <= usize::MAX,
    ensures
        forall|i: int|
            0 <= i < hi ==> (spec_restore_writes(wanted, have, hi).contains(i as usize) <==> (
            wanted[i] is Some && have[i] is Some && wanted[i] != have[i])),
        forall|j: int|
            0 <= j < spec_restore_writes(wanted, have, hi).len() ==> spec_restore_writes(
                wanted,
                have,
                hi,
            )[j] < hi,
    decreases hi,
{
    if hi > 0 {
        lemma_restore_writes_exactly_the_differences(wanted, have, hi - 1);
        let prev = spec_restore_writes(wanted, have, hi - 1);
        let cur = spec_restore_writes(wanted, have, hi);
        let last = match (wanted[hi - 1], have[hi - 1]) {
            (Some(w), Some(h)) => if w != h {
                seq![(hi - 1) as usize]
            } else {
                Seq::<usize>::empty()
            },
            _ => Seq::<usize>::empty(),
        };
        assert(cur == prev + last);
        assert forall|i: int| 0 <= i < hi implies (cur.contains(i as usize) <==> (wanted[i] is Some
            && have[i] is Some && wanted[i] != have[i])) by {
            if i < hi - 1 {
                if prev.contains(i as usize) {
                    let j = choose|j: int| 0 <= j < prev.len() && prev[j] == i as usize;
                    assert(cur[j] == prev[j]);
                }
                if cur.contains(i as usize) {
                    let j = choose|j: int| 0 <= j < cur.len() && cur[j] == i as usize;
                    if j >= prev.len() {
                        assert(cur[j] == last[j - prev.len()]);
                    } else {
                        assert(prev[j] == cur[j]);
                    }
                }
            } else {
                if wanted[i] is Some && have[i] is Some && wanted[i] != have[i] {
                    assert(cur[prev.len() as int] == (hi - 1) as usize);
                }
                if cur.contains(i as usize) {
                    let j = choose|j: int| 0 <= j < cur.len() && cur[j] == i as usize;
                    if j < prev.len() {
                        assert(prev[j] == cur[j]);
                        assert(prev[j] < hi - 1);
                    }
                }
            }
        }
        assert forall|j: int| 0 <= j < cur.len() implies cur[j] < hi by {
            if j < prev.len() {
                assert(cur[j] == prev[j]);
            }
        }
    }
}

/// A counter advanced the way an atomic `fetch_add(n)` advances it: wrapping at the top.
pub open spec fn spec_advance(x: usize, n: usize) -> usize {
    if x + n > usize::MAX {
        (x + n - usize::MAX - 1) as usize
    } else {
        (x + n) as usize
    }
}

fn advance(x: usize, n: usize) -> (y: usize)
    ensures
        y == spec_advance(x, n),
{
    if n > usize::MAX - x {
        n - (usize::MAX - x) - 1
    } else {
        x + n
    }
}

/// The restore semaphores: how many kicks were repaired, how many slots each class got back, how
/// many kicks had nothing to do or failed, and the values the first restore latched.
#[derive(Debug, Clone, Copy)]
pub struct PortraitEquipRestoreCounters {
    /// Restores that could not read one of the arrays whole.
    pub failures: usize,
    /// Restores applied.
    pub kicks: usize,
    /// Kicks whose arrays already agreed.
    pub noop_kicks: usize,
    /// Armament slots put back, over all kicks.
    pub weapon_slots: usize,
    /// Ammunition slots put back, over all kicks.
    pub ammo_slots: usize,
    /// Protector slots put back, over all kicks.
    pub protector_slots: usize,
    /// First restore's record right weapon, left weapon, hands and legs, packed.
    pub record_id: [u64; 4],
    /// The last kick's record arm style, packed; 0 before any was read.
    pub record_arm_style: u64,
}

impl PortraitEquipRestoreCounters {
    /// No restore has happened yet.
    pub fn new() -> (counters: Self)
        ensures
            counters.failures == 0,
            counters.kicks == 0,
            counters.noop_kicks == 0,
            counters.weapon_slots == 0,
            counters.ammo_slots == 0,
            counters.protector_slots == 0,
            counters.record_id@ == seq![0u64, 0, 0, 0],
            counters.record_arm_style == 0,
    {
        let counters = PortraitEquipRestoreCounters {
            failures: 0,
            kicks: 0,
            noop_kicks: 0,
            weapon_slots: 0,
            ammo_slots: 0,
            protector_slots: 0,
            record_id: [0, 0, 0, 0],
            record_arm_style: 0,
        };
        assert(counters.record_id@ =~= seq![0u64, 0, 0, 0]);
        counters
    }

    /// Counts a restore that could not read one of the arrays whole; nothing else changes.
    pub fn note_failure(&mut self)
        ensures
            final(self).failures == spec_bump(old(self).failures),
            final(self).kicks == old(self).kicks,
            final(self).noop_kicks == old(self).noop_kicks,
            final(self).weapon_slots == old(self).weapon_slots,
            final(self).ammo_slots == old(self).ammo_slots,
            final(self).protector_slots == old(self).protector_slots,
            final(self).record_id == old(self).record_id,
            final(self).record_arm_style == old(self).record_arm_style,
    {
        self.failures = advance(self.failures, 1);
    }

    /// Stores the arm style read from this kick's record. Stored per kick, not latched: each kick
    /// may be a different character, and the next model build reads it.
    pub fn note_record_arm_style(&mut self, arm_style: i32)
        ensures
            final(self).record_arm_style == spec_pack(arm_style),
            final(self).failures == old(self).failures,
            final(self).kicks == old(self).kicks,
            final(self).noop_kicks == old(self).noop_kicks,
            final(self).weapon_slots == old(self).weapon_slots,
            final(self).ammo_slots == old(self).ammo_slots,
            final(self).protector_slots == old(self).protector_slots,
            final(self).record_id == old(self).record_id,
    {
        self.record_arm_style = portrait_equip_pack(arm_style);
    }

    /// Counts an applied restore described by `report`, and says whether it is one of the first
    /// [`RESTORE_LOG_KICK_LIMIT`] kicks, whose restore is logged.
    pub fn note_applied(&mut self, report: &PortraitEquipRestore) -> (log_it: bool)
        ensures
            final(self).kicks == spec_bump(old(self).kicks),
            final(self).failures == old(self).failures,
            final(self).record_arm_style == old(self).record_arm_style,
            (report.weapon_slots_restored > 0 || report.ammo_slots_restored > 0
                || report.protector_slots_restored > 0) ==> {
                &&& final(self).weapon_slots == spec_advance(
                    old(self).weapon_slots,
                    report.weapon_slots_restored,
                )
                &&& final(self).ammo_slots == spec_advance(
                    old(self).ammo_slots,
                    report.ammo_slots_restored,
                )
                &&& final(self).protector_slots == spec_advance(
                    old(self).protector_slots,
                    report.protector_slots_restored,
                )
                &&& final(self).noop_kicks == old(self).noop_kicks
            },
            !(report.weapon_slots_restored > 0 || report.ammo_slots_restored > 0
                || report.protector_slots_restored > 0) ==> {
                &&& final(self).weapon_slots == old(self).weapon_slots
                &&& final(self).ammo_slots == old(self).ammo_slots
                &&& final(self).protector_slots == old(self).protector_slots
                &&& final(self).noop_kicks == spec_bump(old(self).noop_kicks)
            },
            final(self).record_id@[0] == spec_latch(old(self).record_id@[0], report.right_weapon_id),
            final(self).record_id@[1] == spec_latch(old(self).record_id@[1], report.left_weapon_id),
            final(self).record_id@[2] == spec_latch(old(self).record_id@[2], report.hands_id),
            final(self).record_id@[3] == spec_latch(old(self).record_id@[3], report.legs_id),
            log_it == (final(self).kicks <= RESTORE_LOG_KICK_LIMIT),
    {
        self.kicks = advance(self.kicks, 1);
        if portrait_equip_restore_is_material(report) {
            self.weapon_slots = advance(self.weapon_slots, report.weapon_slots_restored);
            self.ammo_slots = advance(self.ammo_slots, report.ammo_slots_restored);
            self.protector_slots = advance(self.protector_slots, report.protector_slots_restored);
        } else {
            self.noop_kicks = advance(self.noop_kicks, 1);
        }
        let mut ids = self.record_id;
        let mut cell = ids[0];
        portrait_equip_latch_first(&mut cell, report.right_weapon_id);
        ids[0] = cell;
        let mut cell = ids[1];
        portrait_equip_latch_first(&mut cell, report.left_weapon_id);
        ids[1] = cell;
        let mut cell = ids[2];
        portrait_equip_latch_first(&mut cell, report.hands_id);
        ids[2] = cell;
        let mut cell = ids[3];
        portrait_equip_latch_first(&mut cell, report.legs_id);
        ids[3] = cell;
        self.record_id = ids;
        self.kicks <= RESTORE_LOG_KICK_LIMIT
    }
}

} // verus!
