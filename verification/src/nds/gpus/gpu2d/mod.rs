//! A 2D graphics engine: engine A (`ENGINE_A`) or engine B.
use vstd::prelude::*;

pub mod models;
pub mod rendering;

use models::bgxcnt::BGxCNT;
use models::colorfx::{BldAlpha, BldCnt};
use models::dispcnt::{display_mode_of, DispCnt, DisplayMode};
use rendering::graphics::{GraphicsFrame, SCREEN_PIXELS};

use crate::nds::bits::field32;
use crate::nds::bytes::le_halfword_at;
use crate::nds::gpus::vram::VramBanks;

verus! {

pub struct Gpu2d<const ENGINE_A: bool> {
    pub dispcnt: DispCnt,
    pub bgxcnt: [BGxCNT; 4],
    pub bldcnt: BldCnt,
    pub bldalpha: [BldAlpha; 2],
    /// BGxHOFS and BGxVOFS of each background: the horizontal scroll in
    /// bits 0-15, the vertical in bits 16-31.
    pub bgofs: [u32; 4],
    pub bg_vram: Vec<u8>,
    pub palette: Vec<u8>,
    pub oam: Vec<u8>,
    /// Which backgrounds the debugging view lets through.
    pub show_bgs: [bool; 4],
    /// Which sprite priority slots the debugging view lets through.
    pub show_objs: [bool; 4],
}

/// The size in bytes of an engine's BG VRAM.
pub open spec fn bg_vram_size(engine_a: bool) -> nat {
    if engine_a {
        512 * 1024
    } else {
        128 * 1024
    }
}

impl<const ENGINE_A: bool> Default for Gpu2d<ENGINE_A> {
    /// An engine at reset: all registers zero, BG VRAM (512 KiB for engine A,
    /// 128 KiB for engine B), palette and OAM (1 KiB each) all zeros, and
    /// every layer shown.
    fn default() -> (r: Self)
        ensures
            r.initial(),
    {
        let vram_len: usize = if ENGINE_A {
            512 * 1024
        } else {
            128 * 1024
        };
        let r = Gpu2d {
            dispcnt: DispCnt::default(),
            bgxcnt: [BGxCNT::default(), BGxCNT::default(), BGxCNT::default(), BGxCNT::default()],
            bldcnt: BldCnt::default(),
            bldalpha: [BldAlpha::default(), BldAlpha::default()],
            bgofs: [0u32; 4],
            bg_vram: vec![0u8; vram_len],
            palette: vec![0u8; 1024],
            oam: vec![0u8; 1024],
            show_bgs: [true; 4],
            show_objs: [true; 4],
        };
        assert(r.bg_vram@ =~= Seq::new(bg_vram_size(ENGINE_A), |i: int| 0u8));
        assert(r.palette@ =~= Seq::new(1024, |i: int| 0u8));
        assert(r.oam@ =~= Seq::new(1024, |i: int| 0u8));
        r
    }
}

impl<const ENGINE_A: bool> Gpu2d<ENGINE_A> {
    /// The engine at reset: all registers zero, BG VRAM (512 KiB for engine A,
    /// 128 KiB for engine B), palette and OAM (1 KiB each) all zeros, and
    /// every layer shown.
    pub open spec fn initial(&self) -> bool {
        &&& forall|i: int| 0 <= i < 4 ==> #[trigger] self.bgofs[i] == 0
        &&& forall|i: int| 0 <= i < 4 ==> #[trigger] self.show_bgs[i]
        &&& forall|i: int| 0 <= i < 4 ==> #[trigger] self.show_objs[i]
        &&& self.dispcnt@ == 0
        &&& forall|i: int| 0 <= i < 4 ==> #[trigger] self.bgxcnt[i]@ == 0
        &&& self.bldcnt.0 == 0
        &&& self.bldalpha[0]@ == 0 && self.bldalpha[1]@ == 0
        &&& self.bg_vram@ == Seq::new(bg_vram_size(ENGINE_A), |i: int| 0u8)
        &&& self.palette@ == Seq::new(1024, |i: int| 0u8)
        &&& self.oam@ == Seq::new(1024, |i: int| 0u8)
    }
}

/// What a 2D engine shows on its screen.
pub enum Frame {
    /// Display off: the screen is white.
    White,
    /// Graphics display.
    Graphics(GraphicsFrame),
    /// VRAM display: the screen row by row.
    Vram(Vec<u16>),
    /// Main memory display, which is not drawn: the screen is dark red.
    MainMemory,
}

impl<const ENGINE_A: bool> Gpu2d<ENGINE_A> {
    /// The display mode that DISPCNT selects.
    pub open spec fn display_mode(&self) -> DisplayMode {
        display_mode_of(field32(self.dispcnt@, 16, 17))
    }

    /// Renders the screen as DISPCNT's display mode asks: white when the
    /// display is off, graphics display, a bitmap from the LCDC memory
    /// `vram_lcdc` in VRAM display, and dark red for main memory display.
    pub fn render(&self, vram_banks: &VramBanks, vram_lcdc: &[u8]) -> (r: Frame)
        requires
            self.display_mode() == DisplayMode::GraphicsDisplay && field32(self.dispcnt@, 0, 2)
                == 0 ==> self.graphics_readable(vram_banks),
            self.display_mode() == DisplayMode::VramDisplay ==> self.vram_display_base() + 2
                * SCREEN_PIXELS <= vram_lcdc@.len(),
        ensures
            self.display_mode() == DisplayMode::DisplayOff ==> r == Frame::White,
            self.display_mode() == DisplayMode::GraphicsDisplay ==> (r matches Frame::Graphics(g)
                && self.graphics_frame(vram_banks, g)),
            self.display_mode() == DisplayMode::VramDisplay ==> (r matches Frame::Vram(pixels) && {
                &&& pixels@.len() == SCREEN_PIXELS
                &&& forall|p: int|
                    0 <= p < SCREEN_PIXELS ==> #[trigger] pixels@[p] == le_halfword_at(
                        vram_lcdc@,
                        self.vram_display_base() + 2 * p,
                    )
            }),
            self.display_mode() == DisplayMode::MainMemoryDisplay ==> r == Frame::MainMemory,
    {
        match self.dispcnt.get_display_mode() {
            DisplayMode::DisplayOff => Frame::White,
            DisplayMode::GraphicsDisplay => Frame::Graphics(self.render_graphics(vram_banks)),
            DisplayMode::VramDisplay => Frame::Vram(self.render_vram(vram_lcdc)),
            DisplayMode::MainMemoryDisplay => Frame::MainMemory,
        }
    }
}

} // verus!
