//! The loading-portrait equipment oracle's deterministic half: how the renderer resolves protector
//! row ids from the live `ChrAsm`, how one sample is classified, and how first-sample values are
//! packed and latched without losing a real zero id.

use vstd::prelude::*;

verus! {

/// Protector (armor) slots covered by the oracle: head, chest, hands, legs.
pub const PORTRAIT_EQUIP_PROTECTOR_SLOT_COUNT: usize = 4;

/// The value the override fields hold when the renderer dresses a character from its per-slot ids.
pub const PORTRAIT_EQUIP_OVERRIDE_ABSENT: i32 = -1;

/// Whole-outfit override category addends.
pub const PORTRAIT_EQUIP_OVERRIDE_CHEST_ADDEND: i32 = 100;

pub const PORTRAIT_EQUIP_OVERRIDE_HANDS_ADDEND: i32 = 200;

pub const PORTRAIT_EQUIP_OVERRIDE_LEGS_ADDEND: i32 = 300;

/// `GetDefaultProtectorParamId`: slot `n` maps to `10000 + 100 * n`.
pub const PORTRAIT_EQUIP_PROTECTOR_DEFAULT_PARAM_ID_BASE: i32 = 10000;

pub const PORTRAIT_EQUIP_PROTECTOR_DEFAULT_PARAM_ID_STRIDE: i32 = 100;

/// Presence bit for a packed `i32` oracle value: a raw 0 means NEVER SAMPLED, which matters
/// because 0 is also a representable param id.
pub const PORTRAIT_EQUIP_VALUE_PRESENT: u64 = 0x1_0000_0000;

/// What a packed slot decodes to when it was never sampled.
pub const PORTRAIT_EQUIP_VALUE_UNSAMPLED: i32 = i32::MIN;

/// A non-negative override field -- the forced whole-outfit override.
pub const PORTRAIT_EQUIP_BAD_OVERRIDE_ACTIVE: usize = 1;

/// The effective HEAD id is not the one the target record carries.
pub const PORTRAIT_EQUIP_BAD_HEAD: usize = 2;

/// The effective CHEST id is not the one the target record carries.
pub const PORTRAIT_EQUIP_BAD_CHEST: usize = 4;

/// The effective HANDS id is not the bare-body default.
pub const PORTRAIT_EQUIP_BAD_HANDS: usize = 8;

/// The effective LEGS id is not the bare-body default.
pub const PORTRAIT_EQUIP_BAD_LEGS: usize = 16;

/// Protector slot indices within the four the oracle covers.
pub const PORTRAIT_EQUIP_SLOT_HEAD: usize = 0;

pub const PORTRAIT_EQUIP_SLOT_CHEST: usize = 1;

pub const PORTRAIT_EQUIP_SLOT_HANDS: usize = 2;

pub const PORTRAIT_EQUIP_SLOT_LEGS: usize = 3;

/// Verdict values for the capture-frame oracle; "never sampled" is not a pass.
pub const PORTRAIT_EQUIP_CAPTURE_NOT_SAMPLED: usize = 0;

pub const PORTRAIT_EQUIP_CAPTURE_CLEAN: usize = 1;

pub const PORTRAIT_EQUIP_CAPTURE_BAD: usize = 2;

/// One frame's reading of the live stage-0 `ChrAsm`, reduced to what the renderer will act on.
#[derive(Clone, Copy, Debug, Eq, PartialEq)]
pub struct PortraitEquipSample {
    /// The three override fields, verbatim.
    pub unk0: i32,
    pub unkd4: i32,
    pub unkd8: i32,
    /// The four protector row ids the renderer will request, head/chest/hands/legs.
    pub effective: [i32; 4],
    /// The same four slots as the TARGET save record carries them.
    pub record: [i32; 4],
    /// The model instance this sample was taken against; never an input to the classification.
    pub model_ins: usize,
}

/// The bare-body row for a protector slot.
pub open spec fn spec_default_param_id(slot: usize) -> int {
    PORTRAIT_EQUIP_PROTECTOR_DEFAULT_PARAM_ID_BASE + PORTRAIT_EQUIP_PROTECTOR_DEFAULT_PARAM_ID_STRIDE
        * (slot as i32)
}

/// The bare-body row the renderer's default-protector lookup returns for a protector slot.
pub fn protector_default_param_id(slot: usize) -> (id: i32)
    requires
        i32::MIN <= PORTRAIT_EQUIP_PROTECTOR_DEFAULT_PARAM_ID_STRIDE * (slot as i32) <= i32::MAX,
        spec_default_param_id(slot) <= i32::MAX,
    ensures
        id == spec_default_param_id(slot),
{
    let s = #[verifier::truncate] (slot as i32);
    PORTRAIT_EQUIP_PROTECTOR_DEFAULT_PARAM_ID_BASE + PORTRAIT_EQUIP_PROTECTOR_DEFAULT_PARAM_ID_STRIDE
        * s
}

/// The renderer's protector resolution for one slot: the per-slot id, unless a non-negative
/// override field replaces it.
pub open spec fn spec_effective_protector_id(
    slot: usize,
    param_id: i32,
    unk0: i32,
    unkd4: i32,
    unkd8: i32,
) -> int {
    if slot == PORTRAIT_EQUIP_SLOT_HEAD && unkd4 >= 0 {
        unkd4 as int
    } else if slot == PORTRAIT_EQUIP_SLOT_CHEST && unkd8 >= 0 {
        unkd8 + PORTRAIT_EQUIP_OVERRIDE_CHEST_ADDEND
    } else if slot == PORTRAIT_EQUIP_SLOT_HANDS && unkd8 >= 0 {
        unkd8 + PORTRAIT_EQUIP_OVERRIDE_HANDS_ADDEND
    } else if slot == PORTRAIT_EQUIP_SLOT_HANDS && unk0 >= 0 {
        unk0 + PORTRAIT_EQUIP_OVERRIDE_HANDS_ADDEND
    } else if slot == PORTRAIT_EQUIP_SLOT_LEGS && unkd8 >= 0 {
        unkd8 + PORTRAIT_EQUIP_OVERRIDE_LEGS_ADDEND
    } else {
        param_id as int
    }
}

/// The protector row the renderer will request for `slot`.
pub fn portrait_effective_protector_id(
    slot: usize,
    param_id: i32,
    unk0: i32,
    unkd4: i32,
    unkd8: i32,
) -> (id: i32)
    requires
        spec_effective_protector_id(slot, param_id, unk0, unkd4, unkd8) <= i32::MAX,
    ensures
        id == spec_effective_protector_id(slot, param_id, unk0, unkd4, unkd8),
{
    if slot == PORTRAIT_EQUIP_SLOT_HEAD && unkd4 >= 0 {
        unkd4
    } else if slot == PORTRAIT_EQUIP_SLOT_CHEST && unkd8 >= 0 {
        unkd8 + PORTRAIT_EQUIP_OVERRIDE_CHEST_ADDEND
    } else if slot == PORTRAIT_EQUIP_SLOT_HANDS && unkd8 >= 0 {
        unkd8 + PORTRAIT_EQUIP_OVERRIDE_HANDS_ADDEND
    } else if slot == PORTRAIT_EQUIP_SLOT_HANDS && unk0 >= 0 {
        unk0 + PORTRAIT_EQUIP_OVERRIDE_HANDS_ADDEND
    } else if slot == PORTRAIT_EQUIP_SLOT_LEGS && unkd8 >= 0 {
        unkd8 + PORTRAIT_EQUIP_OVERRIDE_LEGS_ADDEND
    } else {
        param_id
    }
}

/// The failure mask of one sample: one bit per failed condition.
pub open spec fn spec_bad_mask(sample: PortraitEquipSample) -> nat {
    (if sample.unk0 >= 0 || sample.unkd4 >= 0 || sample.unkd8 >= 0 {
        PORTRAIT_EQUIP_BAD_OVERRIDE_ACTIVE as nat
    } else {
        0nat
    }) + (if sample.effective@[0] != sample.record@[0] {
        PORTRAIT_EQUIP_BAD_HEAD as nat
    } else {
        0nat
    }) + (if sample.effective@[1] != sample.record@[1] {
        PORTRAIT_EQUIP_BAD_CHEST as nat
    } else {
        0nat
    }) + (if sample.effective@[2] != spec_default_param_id(PORTRAIT_EQUIP_SLOT_HANDS) {
        PORTRAIT_EQUIP_BAD_HANDS as nat
    } else {
        0nat
    }) + (if sample.effective@[3] != spec_default_param_id(PORTRAIT_EQUIP_SLOT_LEGS) {
        PORTRAIT_EQUIP_BAD_LEGS as nat
    } else {
        0nat
    })
}

/// Classify one sample: the OR of the `PORTRAIT_EQUIP_BAD_*` bits; 0 = this frame would render the
/// character's own armor. Head and chest are compared against the record; hands and legs against
/// the bare-body defaults the native feed equips there.
pub fn portrait_equip_sample_bad_mask(sample: &PortraitEquipSample) -> (mask: usize)
    ensures
        mask == spec_bad_mask(*sample),
        mask % 2 == 1 <==> (sample.unk0 >= 0 || sample.unkd4 >= 0 || sample.unkd8 >= 0),
        (mask / 2) % 2 == 1 <==> sample.effective[0] != sample.record[0],
        (mask / 4) % 2 == 1 <==> sample.effective[1] != sample.record[1],
        (mask / 8) % 2 == 1 <==> sample.effective[2] != 10200,
        (mask / 16) % 2 == 1 <==> sample.effective[3] != 10300,
        mask < 32,
{
    proof {
        lemma_bad_mask_bits(*sample);
    }
    let mut mask = 0usize;
    if sample.unk0 >= 0 || sample.unkd4 >= 0 || sample.unkd8 >= 0 {
        mask = PORTRAIT_EQUIP_BAD_OVERRIDE_ACTIVE;
    }
    assert(mask < 2);
    if sample.effective[PORTRAIT_EQUIP_SLOT_HEAD] != sample.record[PORTRAIT_EQUIP_SLOT_HEAD] {
        assert(mask < 2 ==> mask | 2 == mask + 2) by (bit_vector);
        mask = mask | PORTRAIT_EQUIP_BAD_HEAD;
    }
    assert(mask < 4);
    if sample.effective[PORTRAIT_EQUIP_SLOT_CHEST] != sample.record[PORTRAIT_EQUIP_SLOT_CHEST] {
        assert(mask < 4 ==> mask | 4 == mask + 4) by (bit_vector);
        mask = mask | PORTRAIT_EQUIP_BAD_CHEST;
    }
    assert(mask < 8);
    if sample.effective[PORTRAIT_EQUIP_SLOT_HANDS] != protector_default_param_id(
        PORTRAIT_EQUIP_SLOT_HANDS,
    ) {
        assert(mask < 8 ==> mask | 8 == mask + 8) by (bit_vector);
        mask = mask | PORTRAIT_EQUIP_BAD_HANDS;
    }
    assert(mask < 16);
    if sample.effective[PORTRAIT_EQUIP_SLOT_LEGS] != protector_default_param_id(
        PORTRAIT_EQUIP_SLOT_LEGS,
    ) {
        assert(mask < 16 ==> mask | 16 == mask + 16) by (bit_vector);
        mask = mask | PORTRAIT_EQUIP_BAD_LEGS;
    }
    mask
}

/// The packed form of a sampled value: the presence bit plus the value's 32 bits.
pub open spec fn spec_pack(value: i32) -> u64 {
    (PORTRAIT_EQUIP_VALUE_PRESENT + (value as u32)) as u64
}

/// The decoded form of a packed slot: the unsampled marker when the presence bit is clear.
pub open spec fn spec_unpack(raw: u64) -> i32 {
    if (raw / PORTRAIT_EQUIP_VALUE_PRESENT) % 2 == 0 {
        PORTRAIT_EQUIP_VALUE_UNSAMPLED
    } else {
        (raw as u32) as i32
    }
}

/// Pack a sampled value so that a real 0 is distinguishable from "never sampled".
pub fn portrait_equip_pack(value: i32) -> (raw: u64)
    ensures
        raw == spec_pack(value),
{
    let low = value as u32 as u64;
    assert(low < 0x1_0000_0000u64 ==> 0x1_0000_0000u64 | low == 0x1_0000_0000u64 + low)
        by (bit_vector);
    PORTRAIT_EQUIP_VALUE_PRESENT | low
}

/// Decode a packed slot: [`PORTRAIT_EQUIP_VALUE_UNSAMPLED`] when nothing was ever latched.
pub fn portrait_equip_unpack(raw: u64) -> (value: i32)
    ensures
        value == spec_unpack(raw),
{
    assert((raw & 0x1_0000_0000u64 == 0) == ((raw / 0x1_0000_0000u64) % 2 == 0)) by (bit_vector);
    if raw & PORTRAIT_EQUIP_VALUE_PRESENT == 0 {
        PORTRAIT_EQUIP_VALUE_UNSAMPLED
    } else {
        raw as u32 as i32
    }
}

/// First writer wins: the cell takes the packed value only while it is still 0 (never sampled).
pub fn portrait_equip_latch_first(cell: &mut u64, value: i32)
    ensures
        *final(cell) == if *old(cell) == 0 {
            spec_pack(value)
        } else {
            *old(cell)
        },
{
    if *cell == 0 {
        *cell = portrait_equip_pack(value);
    }
}

/// Packing round-trips every value, negative ids and a real 0 included, and a never-written cell
/// decodes to the unsampled marker rather than to a plausible id.
pub proof fn lemma_pack_round_trip(value: i32)
    ensures
        spec_unpack(spec_pack(value)) == value,
        spec_pack(value) != 0,
        spec_unpack(0) == PORTRAIT_EQUIP_VALUE_UNSAMPLED,
{
    let low = value as u32 as u64;
    assert(((0x1_0000_0000u64 + low) as u64 / 0x1_0000_0000u64) % 2 == 1 && ((0x1_0000_0000u64
        + low) as u64 as u32) as i32 == value) by (bit_vector)
        requires
            low == value as u32 as u64,
    ;
}

/// The first latched value survives every later latch.
pub proof fn lemma_first_latch_wins(first: i32, later: i32)
    ensures
        ({
            let after_first = if 0u64 == 0 {
                spec_pack(first)
            } else {
                0u64
            };
            let after_later = if after_first == 0 {
                spec_pack(later)
            } else {
                after_first
            };
            spec_unpack(after_later) == first
        }),
{
    lemma_pack_round_trip(first);
}

/// Each bit of a sample's failure mask answers one question, and no other bit: an override field is
/// set (bit 1); the head or the chest differs from the record's (bits 2 and 4); the hands or the
/// legs are not the bare-body rows 10200 and 10300 the native feed equips (bits 8 and 16). The
/// record's own hands and legs are never consulted: wearing the record's gauntlets is itself the
/// deviation.
pub proof fn lemma_bad_mask_bits(sample: PortraitEquipSample)
    ensures
        spec_bad_mask(sample) % 2 == 1 <==> (sample.unk0 >= 0 || sample.unkd4 >= 0 || sample.unkd8
            >= 0),
        (spec_bad_mask(sample) / 2) % 2 == 1 <==> sample.effective@[0] != sample.record@[0],
        (spec_bad_mask(sample) / 4) % 2 == 1 <==> sample.effective@[1] != sample.record@[1],
        (spec_bad_mask(sample) / 8) % 2 == 1 <==> sample.effective@[2] != 10200,
        (spec_bad_mask(sample) / 16) % 2 == 1 <==> sample.effective@[3] != 10300,
        spec_bad_mask(sample) < 32,
{
}

/// Two samples that differ only in the record's hands and legs get the same failure mask: the
/// mask reads the record for the head and the chest alone.
pub proof fn lemma_bad_mask_ignores_record_hands_and_legs(
    a: PortraitEquipSample,
    b: PortraitEquipSample,
)
    requires
        a.unk0 == b.unk0,
        a.unkd4 == b.unkd4,
        a.unkd8 == b.unkd8,
        a.effective == b.effective,
        a.record@[0] == b.record@[0],
        a.record@[1] == b.record@[1],
    ensures
        spec_bad_mask(a) == spec_bad_mask(b),
{
}

} // verus!
