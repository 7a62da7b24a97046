//! VRAM display: the screen shows a 256x192 bitmap straight from one of the
//! VRAM blocks that the LCDC maps.
use vstd::prelude::*;

use crate::nds::bits::field32;
use crate::nds::bytes::{halfword_from_le, le_halfword_at};
use crate::nds::gpus::gpu2d::rendering::graphics::SCREEN_PIXELS;
use crate::nds::gpus::gpu2d::Gpu2d;

verus! {

/// The size of one VRAM block as the LCDC maps it.
pub const VRAM_BLOCK_SIZE: usize = 0x20000;

impl<const ENGINE_A: bool> Gpu2d<ENGINE_A> {
    /// Where the bitmap of the block that DISPCNT selects starts in the LCDC
    /// memory.
    pub open spec fn vram_display_base(&self) -> int {
        field32(self.dispcnt@, 18, 19) * VRAM_BLOCK_SIZE
    }

    /// VRAM display: the screen, row by row, as the BGR555 colours stored
    /// one after the other, little-endian, from the start of the VRAM block
    /// that DISPCNT selects in the LCDC memory `vram_lcdc`.
    pub fn render_vram(&self, vram_lcdc: &[u8]) -> (r: Vec<u16>)
        requires
            self.vram_display_base() + 2 * SCREEN_PIXELS <= vram_lcdc@.len(),
        ensures
            r@.len() == SCREEN_PIXELS,
            forall|p: int|
                0 <= p < SCREEN_PIXELS ==> #[trigger] r@[p] == le_halfword_at(
                    vram_lcdc@,
                    self.vram_display_base() + 2 * p,
                ),
    {
        let block = self.dispcnt.get_vram_block() as usize;
        let base: usize = block * VRAM_BLOCK_SIZE;
        let mut pixels: Vec<u16> = Vec::new();
        let mut p: usize = 0;
        while p < SCREEN_PIXELS
            invariant
                p <= SCREEN_PIXELS,
                base == self.vram_display_base(),
                base + 2 * SCREEN_PIXELS <= vram_lcdc@.len(),
                pixels@.len() == p,
                forall|q: int|
                    0 <= q < p ==> #[trigger] pixels@[q] == le_halfword_at(
                        vram_lcdc@,
                        base + 2 * q,
                    ),
            decreases SCREEN_PIXELS - p,
        {
            let addr: usize = base + p * 2;
            pixels.push(halfword_from_le(vram_lcdc[addr], vram_lcdc[addr + 1]));
            p = p + 1;
        }
        pixels
    }
}

} // verus!
