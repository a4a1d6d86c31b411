//! The plain values that cross the seam between this library and the host that embeds it. The
//! seam itself, a table of callbacks installed once, belongs to the host side.

use vstd::prelude::*;

verus! {

/// The rendered boot/loading frame: CPU RGBA plus where to place it on a `bw` x `bh` backbuffer.
#[derive(Debug, Clone)]
pub struct BootViewFrame {
    pub rgba: Vec<u8>,
    pub w: usize,
    pub h: usize,
    pub dx: usize,
    pub dy: usize,
}

impl BootViewFrame {
    /// A frame that draws nothing: no pixels, no extent, placed at the origin.
    pub open spec fn spec_is_empty(&self) -> bool {
        &&& self.rgba@.len() == 0
        &&& self.w == 0
        &&& self.h == 0
        &&& self.dx == 0
        &&& self.dy == 0
    }
}

/// What the seam answers for the boot-view rasterizer until a host installs one: an empty frame,
/// whatever the backbuffer size.
pub fn default_boot_view_render_frame(_bw: usize, _bh: usize) -> (frame: BootViewFrame)
    ensures
        frame.spec_is_empty(),
{
    BootViewFrame { rgba: Vec::new(), w: 0, h: 0, dx: 0, dy: 0 }
}

} // verus!
