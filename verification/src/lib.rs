//! Decision logic for the loading-screen character portrait and its stats panel: which save slot
//! the portrait targets, whether a published head matches the character that loaded, whether the
//! native loading gauge is still advancing, the equipment oracle's classification, the merged row
//! header label, and the pixel-level admission rules for captured frames.

use vstd::prelude::*;

pub mod bridge;
pub mod chr_asm_layout;
pub mod dlstring_lookat_math;
pub mod gpu_draw_shared;
pub mod host;
pub mod lookat_bone_hooks;
pub mod lookat_stage_camera;
pub mod native_loading_progress;
pub mod native_overlay;
pub mod portrait_equip;
pub mod portrait_equip_apply;
pub mod portrait_equip_oracle;
pub mod portrait_equip_restore;
pub mod portrait_identity;
pub mod portrait_overlay;
pub mod portrait_semaphores;
pub mod portrait_shared;
pub mod portrait_window;
pub mod portrait_worker;
pub mod profile_row_label;
pub mod text;
