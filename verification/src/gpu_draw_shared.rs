//! The decision of the shared overlay texture slot: whether a requested size may have a texture at
//! all, and whether the slot's cached texture and upload buffer can be kept for it. Creating the
//! D3D12 resources is the caller's part.

use vstd::prelude::*;

verus! {

/// What to do with an overlay texture slot for a requested size.
#[derive(Debug, Clone, Copy, PartialEq, Eq, Structural)]
pub enum TextureSlotPlan {
    /// An empty size or one past the render-target limit: no texture.
    Refuse,
    /// The slot already holds a texture and an upload buffer of exactly this size.
    Reuse,
    /// (Re)create the texture, its upload buffer and its view.
    Create,
}

/// Plans the slot for a `sw` x `sh` texture, given the slot's cached texture and upload pointers and
/// the size the cached texture was made for.
pub fn overlay_texture_slot_plan(
    sw: u32,
    sh: u32,
    max_dim: u32,
    texture: usize,
    upload: usize,
    tex_w: usize,
    tex_h: usize,
) -> (plan: TextureSlotPlan)
    ensures
        plan == (if sw == 0 || sh == 0 || sw > max_dim || sh > max_dim {
            TextureSlotPlan::Refuse
        } else if texture != 0 && upload != 0 && tex_w == sw && tex_h == sh {
            TextureSlotPlan::Reuse
        } else {
            TextureSlotPlan::Create
        }),
{
    if sw == 0 || sh == 0 || sw > max_dim || sh > max_dim {
        TextureSlotPlan::Refuse
    } else if texture != 0 && upload != 0 && tex_w == sw as usize && tex_h == sh as usize {
        TextureSlotPlan::Reuse
    } else {
        TextureSlotPlan::Create
    }
}

} // verus!
