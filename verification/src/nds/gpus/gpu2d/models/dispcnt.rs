//! DISPCNT: the display control register of a 2D engine.
use vstd::prelude::*;

use crate::nds::bits::{bit32, field32, get_bit_u32, get_bits_u32};

verus! {

pub struct DispCnt(u32);

impl View for DispCnt {
    type V = u32;

    closed spec fn view(&self) -> u32 {
        self.0
    }
}

impl Default for DispCnt {
    fn default() -> (r: Self)
        ensures
            r@ == 0,
    {
        DispCnt(0)
    }
}

impl From<u32> for DispCnt {
    fn from(value: u32) -> (r: Self) {
        DispCnt(value)
    }
}

impl vstd::std_specs::convert::FromSpecImpl<u32> for DispCnt {
    open spec fn obeys_from_spec() -> bool {
        true
    }

    open spec fn from_spec(v: u32) -> Self {
        DispCnt::from_value(v)
    }
}

/// The display mode of DISPCNT bits 16-17.
#[derive(PartialEq, Eq, Structural, Clone, Copy, Debug)]
pub enum DisplayMode {
    /// The screen becomes white.
    DisplayOff,
    /// Normal BG and OBJ layers.
    GraphicsDisplay,
    /// Engine A only: a bitmap from the VRAM block of DISPCNT bits 18-19.
    VramDisplay,
    /// Engine A only: a bitmap sent by DMA from main memory.
    MainMemoryDisplay,
}

/// The display mode numbered `n`, for `n <= 3`.
pub open spec fn display_mode_of(n: u32) -> DisplayMode {
    if n == 0 {
        DisplayMode::DisplayOff
    } else if n == 1 {
        DisplayMode::GraphicsDisplay
    } else if n == 2 {
        DisplayMode::VramDisplay
    } else {
        DisplayMode::MainMemoryDisplay
    }
}

impl DispCnt {
    /// The register holding `v`.
    pub closed spec fn from_value(v: u32) -> Self {
        DispCnt(v)
    }

    pub proof fn lemma_from_value(v: u32)
        ensures
            Self::from_value(v)@ == v,
    {
    }

    pub fn value(&self) -> (r: u32)
        ensures
            r == self@,
    {
        self.0
    }

    /// Bits 0-2: the BG mode.
    pub fn get_bg_mode(&self) -> (r: u8)
        ensures
            r as u32 == field32(self@, 0, 2),
            r <= 7,
    {
        proof {
            let v = self.0;
            assert(field32(v, 0, 2) <= 7) by (bit_vector);
        }
        get_bits_u32(self.0, 0, 2) as u8
    }

    /// Bit 3: BG0 shows 3D graphics rather than a 2D layer.
    pub fn get_bg0_2d_3d_selection(&self) -> (r: bool)
        ensures
            r == bit32(self@, 3),
    {
        get_bit_u32(self.0, 3)
    }

    /// Bit 8: BG0 is shown.
    pub fn get_screen_display_bg0(&self) -> (r: bool)
        ensures
            r == bit32(self@, 8),
    {
        get_bit_u32(self.0, 8)
    }

    /// Bit 9: BG1 is shown.
    pub fn get_screen_display_bg1(&self) -> (r: bool)
        ensures
            r == bit32(self@, 9),
    {
        get_bit_u32(self.0, 9)
    }

    /// Bit 10: BG2 is shown.
    pub fn get_screen_display_bg2(&self) -> (r: bool)
        ensures
            r == bit32(self@, 10),
    {
        get_bit_u32(self.0, 10)
    }

    /// Bit 11: BG3 is shown.
    pub fn get_screen_display_bg3(&self) -> (r: bool)
        ensures
            r == bit32(self@, 11),
    {
        get_bit_u32(self.0, 11)
    }

    /// Bits 16-17: the display mode.
    pub fn get_display_mode(&self) -> (r: DisplayMode)
        ensures
            r == display_mode_of(field32(self@, 16, 17)),
    {
        let n = get_bits_u32(self.0, 16, 17);
        if n == 0 {
            DisplayMode::DisplayOff
        } else if n == 1 {
            DisplayMode::GraphicsDisplay
        } else if n == 2 {
            DisplayMode::VramDisplay
        } else {
            DisplayMode::MainMemoryDisplay
        }
    }

    /// Bits 18-19: the VRAM block shown in VRAM display mode.
    pub fn get_vram_block(&self) -> (r: u32)
        ensures
            r == field32(self@, 18, 19),
            r <= 3,
    {
        proof {
            let v = self.0;
            assert(field32(v, 18, 19) <= 3) by (bit_vector);
        }
        get_bits_u32(self.0, 18, 19)
    }

    /// Bits 24-26: the character base, in units of 64 KiB (engine A).
    pub fn get_character_base(&self) -> (r: u32)
        ensures
            r == field32(self@, 24, 26),
            r <= 7,
    {
        proof {
            let v = self.0;
            assert(field32(v, 24, 26) <= 7) by (bit_vector);
        }
        get_bits_u32(self.0, 24, 26)
    }

    /// Bits 27-29: the screen base, in units of 64 KiB (engine A).
    pub fn get_screen_base(&self) -> (r: u32)
        ensures
            r == field32(self@, 27, 29),
            r <= 7,
    {
        proof {
            let v = self.0;
            assert(field32(v, 27, 29) <= 7) by (bit_vector);
        }
        get_bits_u32(self.0, 27, 29)
    }

    /// Bit 30: BG extended palettes are enabled.
    pub fn get_bg_extended_palettes(&self) -> (r: bool)
        ensures
            r == bit32(self@, 30),
    {
        get_bit_u32(self.0, 30)
    }
}

} // verus!
