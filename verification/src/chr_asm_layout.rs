//! `CS::ChrAsm` member offsets the loading-portrait pipeline reads out of live game memory, as the
//! game's own constructor lays the object out.

use vstd::prelude::*;

verus! {

/// Size of a `CS::ChrAsm`.
pub const CHR_ASM_SIZE: usize = 0xe8;

/// `ChrAsm::equipment` (the `ChrAsmEquipment` block that starts with the arm style).
pub const CHR_ASM_EQUIPMENT_OFFSET: usize = 0x08;

/// `ChrAsm::gaitem_handles`.
pub const CHR_ASM_GAITEM_HANDLES_OFFSET: usize = 0x24;

/// `ChrAsm::equipment_param_ids`.
pub const CHR_ASM_EQUIPMENT_PARAM_IDS_OFFSET: usize = 0x7c;

/// Index of `ProtectorHead` within `gaitem_handles` / `equipment_param_ids`; head, chest, hands and
/// legs follow at `+0..+3`.
pub const CHR_ASM_PROTECTOR_HEAD_INDEX: usize = 12;

/// Number of protector slots the portrait oracle covers: head, chest, hands, legs.
pub const CHR_ASM_PROTECTOR_SLOT_COUNT: usize = 4;

/// Entries in `gaitem_handles` and in `equipment_param_ids`.
pub const CHR_ASM_EQUIPMENT_ENTRY_COUNT: usize = 22;

/// `ChrAsm::unk0`, the hands whole-outfit override fallback.
pub const CHR_ASM_UNK0_OFFSET: usize = 0x00;

/// `ChrAsm::unkd4`, the head whole-outfit override: one array past the param ids.
pub const CHR_ASM_UNKD4_OFFSET: usize = 0xd4;

/// `ChrAsm::unkd8`, the chest/hands/legs whole-outfit override.
pub const CHR_ASM_UNKD8_OFFSET: usize = 0xd8;

/// The value `unk0`/`unkd4`/`unkd8` hold when no whole-outfit override is forced.
pub const CHR_ASM_OVERRIDE_ABSENT: i32 = -1;

/// `CSMenuProfModelRend` -> its live stage-0 `ChrAsm`, the one the model build reads every frame.
pub const PROFILE_RENDERER_CHR_ASM_LIVE_OFFSET: usize = 0x130;

/// Byte size of one `equipment_param_ids` entry.
pub const CHR_ASM_PARAM_ID_SIZE: usize = 4;

} // verus!
