//! BGxCNT: the control register of one background layer.
use vstd::prelude::*;

use crate::nds::bits::{bit16, field16, get_bit_u16, get_bits_u16};

verus! {

pub struct BGxCNT(u16);

impl View for BGxCNT {
    type V = u16;

    closed spec fn view(&self) -> u16 {
        self.0
    }
}

impl Default for BGxCNT {
    fn default() -> (r: Self)
        ensures
            r@ == 0,
    {
        BGxCNT(0)
    }
}

impl From<u16> for BGxCNT {
    fn from(value: u16) -> (r: Self) {
        BGxCNT(value)
    }
}

impl vstd::std_specs::convert::FromSpecImpl<u16> for BGxCNT {
    open spec fn obeys_from_spec() -> bool {
        true
    }

    open spec fn from_spec(v: u16) -> Self {
        BGxCNT::from_value(v)
    }
}

#[derive(PartialEq, Eq, Structural, Clone, Copy)]
pub enum ColorPalette {
    Is16x16,  // 0
    Is256x1,  // 1
}

/// The palette mode that bit 7 of BGxCNT selects.
pub open spec fn color_palette_of(v: u16) -> ColorPalette {
    if bit16(v, 7) {
        ColorPalette::Is256x1
    } else {
        ColorPalette::Is16x16
    }
}

impl BGxCNT {
    /// The register holding `v`.
    pub closed spec fn from_value(v: u16) -> Self {
        BGxCNT(v)
    }

    pub proof fn lemma_from_value(v: u16)
        ensures
            Self::from_value(v)@ == v,
    {
    }

    pub fn value(&self) -> (r: u16)
        ensures
            r == self@,
    {
        self.0
    }

    /// Bits 0-1: the priority of the layer, 0 being the front.
    pub fn get_priority(&self) -> (r: u16)
        ensures
            r == field16(self@, 0, 1),
            r <= 3,
    {
        proof {
            let v = self.0;
            assert(field16(v, 0, 1) <= 3) by (bit_vector);
        }
        get_bits_u16(self.0, 0, 1)
    }

    /// Bits 2-5: the character base block, in units of 16 KiB.
    pub fn get_character_base_block(&self) -> (r: u16)
        ensures
            r == field16(self@, 2, 5),
            r < 16,
    {
        proof {
            let v = self.0;
            assert(field16(v, 2, 5) < 16) by (bit_vector);
        }
        get_bits_u16(self.0, 2, 5)
    }

    /// Bit 7: 16 palettes of 16 colours, or one palette of 256 colours.
    pub fn get_color_palette(&self) -> (r: ColorPalette)
        ensures
            r == color_palette_of(self@),
    {
        if get_bit_u16(self.0, 7) {
            ColorPalette::Is256x1
        } else {
            ColorPalette::Is16x16
        }
    }

    /// Bits 8-12: the screen base block, in units of 2 KiB.
    pub fn get_screen_base_block(&self) -> (r: u16)
        ensures
            r == field16(self@, 8, 12),
            r < 32,
    {
        proof {
            let v = self.0;
            assert(field16(v, 8, 12) < 32) by (bit_vector);
        }
        get_bits_u16(self.0, 8, 12)
    }

    /// Bits 14-15: the screen size selection.
    pub fn get_screen_size(&self) -> (r: u8)
        ensures
            r as u16 == field16(self@, 14, 15),
            r <= 3,
    {
        proof {
            let v = self.0;
            assert(field16(v, 14, 15) <= 3) by (bit_vector);
        }
        get_bits_u16(self.0, 14, 15) as u8
    }
}

} // verus!
