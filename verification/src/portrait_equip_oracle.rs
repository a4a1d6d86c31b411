//! The loading-screen portrait armor oracle's accumulators: one load window's sampled and bad frame
//! counts, the OR-ed failure mask, the first values each window saw, the capture-frame verdict, and
//! the session totals nothing resets. Reading the renderer's memory is the caller's part; this module
//! decides what a sample does to the accumulators and what deserves a log line.

use vstd::prelude::*;
use crate::chr_asm_layout::{
    CHR_ASM_EQUIPMENT_PARAM_IDS_OFFSET, CHR_ASM_PARAM_ID_SIZE, CHR_ASM_PROTECTOR_HEAD_INDEX,
};
use crate::portrait_equip::{
    portrait_effective_protector_id, portrait_equip_latch_first, portrait_equip_pack,
    portrait_equip_sample_bad_mask, portrait_equip_unpack, spec_bad_mask,
    spec_effective_protector_id, spec_pack, spec_unpack, PortraitEquipSample,
    PORTRAIT_EQUIP_CAPTURE_BAD, PORTRAIT_EQUIP_CAPTURE_CLEAN, PORTRAIT_EQUIP_CAPTURE_NOT_SAMPLED,
};

verus! {

/// Byte offset of protector `slot`'s entry within a `ChrAsm`'s `equipment_param_ids` array, as
/// `CS::ChrAsm::GetProtectorParamIdBySlot` indexes it.
pub fn chr_asm_protector_param_id_offset(slot: usize) -> (offset: usize)
    requires
        slot < 0x1000,
    ensures
        offset == CHR_ASM_EQUIPMENT_PARAM_IDS_OFFSET + (CHR_ASM_PROTECTOR_HEAD_INDEX + slot)
            * CHR_ASM_PARAM_ID_SIZE,
{
    CHR_ASM_EQUIPMENT_PARAM_IDS_OFFSET + (CHR_ASM_PROTECTOR_HEAD_INDEX + slot) * CHR_ASM_PARAM_ID_SIZE
}

/// A counter bumped the way an atomic `fetch_add(1)` bumps it: wrapping at the top.
pub open spec fn spec_bump(x: usize) -> usize {
    if x == usize::MAX {
        0
    } else {
        (x + 1) as usize
    }
}

fn bump(x: usize) -> (y: usize)
    ensures
        y == spec_bump(x),
{
    if x == usize::MAX {
        0
    } else {
        x + 1
    }
}

/// Stage 0 has never been fed: every protector id is still the constructor's negative value.
pub open spec fn spec_ctor_fresh(param_ids: [i32; 4]) -> bool {
    forall|s: int| 0 <= s < 4 ==> param_ids@[s] < 0
}

/// Assembles one frame's sample from the live stage-0 reads, resolving each slot's effective id
/// through the renderer's override arithmetic. `None` while stage 0 is still ctor-fresh: a renderer
/// that has not been fed yet is not a failure to count.
pub fn portrait_equip_assemble_sample(
    unk0: i32,
    unkd4: i32,
    unkd8: i32,
    param_ids: [i32; 4],
    record_ids: [i32; 4],
    model_ins: usize,
) -> (sample: Option<PortraitEquipSample>)
    requires
        !spec_ctor_fresh(param_ids) ==> forall|s: int|
            0 <= s < 4 ==> spec_effective_protector_id(
                s as usize,
                #[trigger] param_ids@[s],
                unk0,
                unkd4,
                unkd8,
            ) <= i32::MAX,
    ensures
        sample is None <==> spec_ctor_fresh(param_ids),
        sample matches Some(s) ==> {
            &&& s.unk0 == unk0
            &&& s.unkd4 == unkd4
            &&& s.unkd8 == unkd8
            &&& s.record == record_ids
            &&& s.model_ins == model_ins
            &&& forall|k: int|
                0 <= k < 4 ==> s.effective@[k] == spec_effective_protector_id(
                    k as usize,
                    param_ids@[k],
                    unk0,
                    unkd4,
                    unkd8,
                )
        },
{
    let mut k: usize = 0;
    let mut any_fed = false;
    while k < 4
        invariant
            k <= 4,
            any_fed <==> exists|q: int| 0 <= q < k && param_ids@[q] >= 0,
        decreases 4 - k,
    {
        if param_ids[k] >= 0 {
            any_fed = true;
        }
        k = k + 1;
    }
    if !any_fed {
        return None;
    }
    let mut effective: [i32; 4] = [-1, -1, -1, -1];
    let mut slot: usize = 0;
    while slot < 4
        invariant
            slot <= 4,
            !spec_ctor_fresh(param_ids),
            !spec_ctor_fresh(param_ids) ==> forall|s: int|
                0 <= s < 4 ==> spec_effective_protector_id(
                    s as usize,
                    #[trigger] param_ids@[s],
                    unk0,
                    unkd4,
                    unkd8,
                ) <= i32::MAX,
            forall|q: int|
                0 <= q < slot ==> effective@[q] == spec_effective_protector_id(
                    q as usize,
                    param_ids@[q],
                    unk0,
                    unkd4,
                    unkd8,
                ),
        decreases 4 - slot,
    {
        assert(spec_effective_protector_id(slot, param_ids@[slot as int], unk0, unkd4, unkd8)
            <= i32::MAX);
        effective[slot] = portrait_effective_protector_id(slot, param_ids[slot], unk0, unkd4, unkd8);
        slot = slot + 1;
    }
    Some(PortraitEquipSample { unk0, unkd4, unkd8, effective, record: record_ids, model_ins })
}

/// What one folded sample asks the caller to report.
#[derive(Debug, Clone, Copy, PartialEq, Eq, Structural)]
pub struct OracleFold {
    /// The sample's failure mask; 0 when the frame renders the character's own armor.
    pub mask: usize,
    /// This window's sampled-frame count after the fold.
    pub sampled: usize,
    /// This was the window's first bad frame: the one that gets the failure line.
    pub first_bad_frame: bool,
    /// The capture-frame verdict was latched by this sample.
    pub capture_latched: bool,
}

/// One load window's oracle accumulators, plus the session totals that nothing decrements.
#[derive(Debug, Clone, Copy)]
pub struct PortraitEquipOracle {
    /// The load window the accumulators belong to.
    pub window: usize,
    /// Frames sampled this window.
    pub sampled_frames: usize,
    /// Frames whose mask was non-zero this window.
    pub bad_frames: usize,
    /// OR of every bad frame's mask this window.
    pub bad_mask: usize,
    /// Tri-state verdict of the capture frame.
    pub capture_verdict: usize,
    /// `target_slot + 1` of the window's first sample; 0 before it.
    pub oracle_slot: usize,
    /// First `unk0` / `unkd4` / `unkd8` this window saw, packed.
    pub first_unk0: u64,
    pub first_unkd4: u64,
    pub first_unkd8: u64,
    /// First effective protector id per slot, packed.
    pub first_effective_id: [u64; 4],
    /// Effective protector ids of the capture frame, packed.
    pub capture_effective_id: [u64; 4],
    /// The target record's protector ids, latched once per window, packed.
    pub record_param_id: [u64; 4],
    /// The model instance the window opened against.
    pub window_open_model_ins: usize,
    /// Session total: windows that produced at least one sample.
    pub windows_sampled: usize,
    /// Session total: windows with at least one bad frame.
    pub windows_bad: usize,
    /// Session total: bad frames.
    pub bad_frames_total: usize,
}

impl PortraitEquipOracle {
    /// The per-window accumulators are at their window-start values.
    pub open spec fn spec_window_cleared(&self) -> bool {
        &&& self.sampled_frames == 0
        &&& self.bad_frames == 0
        &&& self.bad_mask == 0
        &&& self.capture_verdict == PORTRAIT_EQUIP_CAPTURE_NOT_SAMPLED
        &&& self.oracle_slot == 0
        &&& self.first_unk0 == 0
        &&& self.first_unkd4 == 0
        &&& self.first_unkd8 == 0
        &&& self.first_effective_id@ == seq![0u64, 0, 0, 0]
        &&& self.capture_effective_id@ == seq![0u64, 0, 0, 0]
        &&& self.record_param_id@ == seq![0u64, 0, 0, 0]
    }

    /// `self` and `other` agree on everything a window roll keeps: the model the last window opened
    /// against and the session totals.
    pub open spec fn spec_session_kept(&self, other: &Self) -> bool {
        &&& self.window_open_model_ins == other.window_open_model_ins
        &&& self.windows_sampled == other.windows_sampled
        &&& self.windows_bad == other.windows_bad
        &&& self.bad_frames_total == other.bad_frames_total
    }

    /// A session before its first window: every accumulator and total at zero.
    pub fn new() -> (oracle: Self)
        ensures
            oracle.window == 0,
            oracle.spec_window_cleared(),
            oracle.window_open_model_ins == 0,
            oracle.windows_sampled == 0,
            oracle.windows_bad == 0,
            oracle.bad_frames_total == 0,
    {
        let oracle = PortraitEquipOracle {
            window: 0,
            sampled_frames: 0,
            bad_frames: 0,
            bad_mask: 0,
            capture_verdict: PORTRAIT_EQUIP_CAPTURE_NOT_SAMPLED,
            oracle_slot: 0,
            first_unk0: 0,
            first_unkd4: 0,
            first_unkd8: 0,
            first_effective_id: [0, 0, 0, 0],
            capture_effective_id: [0, 0, 0, 0],
            record_param_id: [0, 0, 0, 0],
            window_open_model_ins: 0,
            windows_sampled: 0,
            windows_bad: 0,
            bad_frames_total: 0,
        };
        assert(oracle.first_effective_id@ =~= seq![0u64, 0, 0, 0]);
        oracle
    }

    /// Rolls the per-window accumulators over when `window` (the loading-owned profile table build
    /// count) moves on. The same window again changes nothing.
    pub fn portrait_equip_roll_window(&mut self, window: usize)
        ensures
            old(self).window == window ==> *final(self) == *old(self),
            old(self).window != window ==> {
                &&& final(self).window == window
                &&& final(self).spec_window_cleared()
                &&& final(self).spec_session_kept(old(self))
            },
    {
        if self.window == window {
            return;
        }
        self.window = window;
        self.sampled_frames = 0;
        self.bad_frames = 0;
        self.bad_mask = 0;
        self.capture_verdict = PORTRAIT_EQUIP_CAPTURE_NOT_SAMPLED;
        self.oracle_slot = 0;
        self.first_unk0 = 0;
        self.first_unkd4 = 0;
        self.first_unkd8 = 0;
        self.first_effective_id = [0, 0, 0, 0];
        self.capture_effective_id = [0, 0, 0, 0];
        self.record_param_id = [0, 0, 0, 0];
        assert(self.first_effective_id@ =~= seq![0u64, 0, 0, 0]);
    }

    /// The target record's protector ids as latched this window, or `None` before the first
    /// latch, when the caller must read them from the record.
    pub fn cached_record_ids(&self) -> (ids: Option<[i32; 4]>)
        ensures
            ids is Some <==> self.record_param_id@[0] != 0,
            ids matches Some(r) ==> forall|k: int|
                0 <= k < 4 ==> r@[k] == spec_unpack(self.record_param_id@[k]),
    {
        if self.record_param_id[0] == 0 {
            return None;
        }
        let mut ids: [i32; 4] = [0, 0, 0, 0];
        let mut k: usize = 0;
        while k < 4
            invariant
                k <= 4,
                forall|q: int| 0 <= q < k ==> ids@[q] == spec_unpack(self.record_param_id@[q]),
            decreases 4 - k,
        {
            ids[k] = portrait_equip_unpack(self.record_param_id[k]);
            k = k + 1;
        }
        Some(ids)
    }
}

/// Latches `values[k]` into `cells[k]` for every slot that has not latched yet.
fn latch_row(cells: &mut [u64; 4], values: &[i32; 4])
    ensures
        forall|k: int|
            0 <= k < 4 ==> final(cells)@[k] == if old(cells)@[k] == 0 {
                spec_pack(values@[k])
            } else {
                old(cells)@[k]
            },
{
    let mut k: usize = 0;
    while k < 4
        invariant
            k <= 4,
            forall|q: int|
                0 <= q < k ==> cells@[q] == if old(cells)@[q] == 0 {
                    spec_pack(values@[q])
                } else {
                    old(cells)@[q]
                },
            forall|q: int| k <= q < 4 ==> cells@[q] == old(cells)@[q],
        decreases 4 - k,
    {
        let mut cell = cells[k];
        portrait_equip_latch_first(&mut cell, values[k]);
        cells[k] = cell;
        k = k + 1;
    }
}

/// A first-writer-wins cell after latching `value`.
pub open spec fn spec_latch(cell: u64, value: i32) -> u64 {
    if cell == 0 {
        spec_pack(value)
    } else {
        cell
    }
}

impl PortraitEquipOracle {
    /// Folds one sample of `target_slot`'s renderer into this window's accumulators.
    ///
    /// The window's first sample records the slot and the model the window opened against and
    /// counts the window as sampled; first values latch (a later frame never erases an earlier one);
    /// a bad frame ORs its mask in and counts toward the window and the session, and the window's
    /// first bad frame is flagged for the failure line. Once the captured-frame flag is up, the first
    /// sample after it latches the capture verdict and the capture frame's effective ids.
    pub fn fold_sample(&mut self, sample: &PortraitEquipSample, target_slot: i32, rgba_captured: bool)
        -> (fold: OracleFold)
        requires
            0 <= target_slot < i32::MAX,
        ensures
            fold.mask == spec_bad_mask(*sample),
            final(self).window == old(self).window,
            final(self).sampled_frames == spec_bump(old(self).sampled_frames),
            fold.sampled == final(self).sampled_frames,
            final(self).sampled_frames == 1 ==> {
                &&& final(self).windows_sampled == spec_bump(old(self).windows_sampled)
                &&& final(self).oracle_slot == target_slot + 1
                &&& final(self).window_open_model_ins == sample.model_ins
            },
            final(self).sampled_frames != 1 ==> {
                &&& final(self).windows_sampled == old(self).windows_sampled
                &&& final(self).oracle_slot == old(self).oracle_slot
                &&& final(self).window_open_model_ins == old(self).window_open_model_ins
            },
            final(self).first_unk0 == spec_latch(old(self).first_unk0, sample.unk0),
            final(self).first_unkd4 == spec_latch(old(self).first_unkd4, sample.unkd4),
            final(self).first_unkd8 == spec_latch(old(self).first_unkd8, sample.unkd8),
            forall|k: int|
                0 <= k < 4 ==> {
                    &&& final(self).first_effective_id@[k] == spec_latch(
                        old(self).first_effective_id@[k],
                        sample.effective@[k],
                    )
                    &&& final(self).record_param_id@[k] == spec_latch(
                        old(self).record_param_id@[k],
                        sample.record@[k],
                    )
                },
            fold.mask == 0 ==> {
                &&& final(self).bad_mask == old(self).bad_mask
                &&& final(self).bad_frames == old(self).bad_frames
                &&& final(self).bad_frames_total == old(self).bad_frames_total
                &&& final(self).windows_bad == old(self).windows_bad
                &&& !fold.first_bad_frame
            },
            fold.mask != 0 ==> {
                &&& final(self).bad_mask == old(self).bad_mask | fold.mask
                &&& final(self).bad_frames == spec_bump(old(self).bad_frames)
                &&& final(self).bad_frames_total == spec_bump(old(self).bad_frames_total)
                &&& fold.first_bad_frame == (final(self).bad_frames == 1)
                &&& final(self).windows_bad == if fold.first_bad_frame {
                    spec_bump(old(self).windows_bad)
                } else {
                    old(self).windows_bad
                }
            },
            fold.capture_latched == (rgba_captured && old(self).capture_verdict
                == PORTRAIT_EQUIP_CAPTURE_NOT_SAMPLED),
            fold.capture_latched ==> {
                &&& final(self).capture_verdict == if fold.mask == 0 {
                    PORTRAIT_EQUIP_CAPTURE_CLEAN
                } else {
                    PORTRAIT_EQUIP_CAPTURE_BAD
                }
                &&& forall|k: int|
                    0 <= k < 4 ==> final(self).capture_effective_id@[k] == spec_pack(
                        sample.effective@[k],
                    )
            },
            !fold.capture_latched ==> {
                &&& final(self).capture_verdict == old(self).capture_verdict
                &&& final(self).capture_effective_id == old(self).capture_effective_id
            },
    {
        let mask = portrait_equip_sample_bad_mask(sample);
        self.sampled_frames = bump(self.sampled_frames);
        let sampled = self.sampled_frames;
        if sampled == 1 {
            self.windows_sampled = bump(self.windows_sampled);
            self.oracle_slot = (target_slot + 1) as usize;
            self.window_open_model_ins = sample.model_ins;
        }
        portrait_equip_latch_first(&mut self.first_unk0, sample.unk0);
        portrait_equip_latch_first(&mut self.first_unkd4, sample.unkd4);
        portrait_equip_latch_first(&mut self.first_unkd8, sample.unkd8);
        latch_row(&mut self.first_effective_id, &sample.effective);
        latch_row(&mut self.record_param_id, &sample.record);
        let mut first_bad_frame = false;
        if mask != 0 {
            self.bad_mask = self.bad_mask | mask;
            self.bad_frames = bump(self.bad_frames);
            self.bad_frames_total = bump(self.bad_frames_total);
            if self.bad_frames == 1 {
                self.windows_bad = bump(self.windows_bad);
                first_bad_frame = true;
            }
        }
        let mut capture_latched = false;
        if rgba_captured && self.capture_verdict == PORTRAIT_EQUIP_CAPTURE_NOT_SAMPLED {
            let mut captured: [u64; 4] = [0, 0, 0, 0];
            let mut k: usize = 0;
            while k < 4
                invariant
                    k <= 4,
                    forall|q: int| 0 <= q < k ==> captured@[q] == spec_pack(sample.effective@[q]),
                decreases 4 - k,
            {
                captured[k] = portrait_equip_pack(sample.effective[k]);
                k = k + 1;
            }
            self.capture_effective_id = captured;
            self.capture_verdict = if mask == 0 {
                PORTRAIT_EQUIP_CAPTURE_CLEAN
            } else {
                PORTRAIT_EQUIP_CAPTURE_BAD
            };
            capture_latched = true;
        }
        OracleFold { mask, sampled, first_bad_frame, capture_latched }
    }
}

/// A window's first-seen values are never overwritten: once a cell has latched, no later sample of
/// the same window changes it, whatever that sample holds.
pub proof fn lemma_window_first_values_stick(cell: u64, later: i32)
    requires
        cell != 0,
    ensures
        spec_latch(cell, later) == cell,
{
}

/// A later clean frame cannot erase an earlier bad one: folding any mask into the window's OR keeps
/// every bit already set.
pub proof fn lemma_bad_mask_only_grows(before: usize, mask: usize)
    ensures
        (before | mask) & before == before,
        (before | mask) & mask == mask,
{
    assert((before | mask) & before == before) by (bit_vector);
    assert((before | mask) & mask == mask) by (bit_vector);
}

} // verus!
