//! DISPSTAT: display status and interrupt control, shared by both engines.
use vstd::prelude::*;

use crate::nds::bits::{bit16, field16, get_bit_u16, get_bits_u16, set_bit_u16, with_bit16};

verus! {

pub struct DispStat(u16);

impl View for DispStat {
    type V = u16;

    closed spec fn view(&self) -> u16 {
        self.0
    }
}

impl Default for DispStat {
    fn default() -> (r: Self)
        ensures
            r@ == 0,
    {
        DispStat(0)
    }
}

impl From<u16> for DispStat {
    fn from(value: u16) -> (r: Self) {
        DispStat(value)
    }
}

impl vstd::std_specs::convert::FromSpecImpl<u16> for DispStat {
    open spec fn obeys_from_spec() -> bool {
        true
    }

    open spec fn from_spec(v: u16) -> Self {
        DispStat::from_value(v)
    }
}

pub const VBLANK_FLAG_OFFSET: u16 = 0;

pub const HBLANK_FLAG_OFFSET: u16 = 1;

pub const VCOUNTER_FLAG_OFFSET: u16 = 2;

pub const VBLANK_IRQ_ENABLE_OFFSET: u16 = 3;

pub const HBLANK_IRQ_ENABLE_OFFSET: u16 = 4;

pub const VCOUNTER_IRQ_ENABLE_OFFSET: u16 = 5;

/// The nine-bit line number that raises the V-counter match: bits 8-15 are
/// its low bits and bit 7 its high bit.
pub open spec fn vcount_setting_of(v: u16) -> u16 {
    (field16(v, 8, 15) + (if bit16(v, 7) {
        256int
    } else {
        0
    })) as u16
}

impl DispStat {
    /// The register holding `v`.
    pub closed spec fn from_value(v: u16) -> Self {
        DispStat(v)
    }

    pub proof fn lemma_from_value(v: u16)
        ensures
            Self::from_value(v)@ == v,
    {
    }

    pub fn value(&self) -> (r: u16)
        ensures
            r == self@,
    {
        self.0
    }

    pub fn set_vblank_flag(&mut self, value: bool)
        ensures
            final(self)@ == with_bit16(old(self)@, VBLANK_FLAG_OFFSET, value),
    {
        self.0 = set_bit_u16(self.0, VBLANK_FLAG_OFFSET, value);
    }

    pub fn set_hblank_flag(&mut self, value: bool)
        ensures
            final(self)@ == with_bit16(old(self)@, HBLANK_FLAG_OFFSET, value),
    {
        self.0 = set_bit_u16(self.0, HBLANK_FLAG_OFFSET, value);
    }

    pub fn set_vcounter_flag(&mut self, value: bool)
        ensures
            final(self)@ == with_bit16(old(self)@, VCOUNTER_FLAG_OFFSET, value),
    {
        self.0 = set_bit_u16(self.0, VCOUNTER_FLAG_OFFSET, value);
    }

    pub fn get_vblank_irq_enable(&self) -> (r: bool)
        ensures
            r == bit16(self@, VBLANK_IRQ_ENABLE_OFFSET),
    {
        get_bit_u16(self.0, VBLANK_IRQ_ENABLE_OFFSET)
    }

    pub fn get_hblank_irq_enable(&self) -> (r: bool)
        ensures
            r == bit16(self@, HBLANK_IRQ_ENABLE_OFFSET),
    {
        get_bit_u16(self.0, HBLANK_IRQ_ENABLE_OFFSET)
    }

    pub fn get_vcounter_irq_enable(&self) -> (r: bool)
        ensures
            r == bit16(self@, VCOUNTER_IRQ_ENABLE_OFFSET),
    {
        get_bit_u16(self.0, VCOUNTER_IRQ_ENABLE_OFFSET)
    }

    pub fn get_vcount_setting(&self) -> (r: u16)
        ensures
            r == vcount_setting_of(self@),
    {
        proof {
            let v = self.0;
            assert(field16(v, 8, 15) < 256) by (bit_vector);
        }
        let low = get_bits_u16(self.0, 8, 15);
        if get_bit_u16(self.0, 7) {
            low + 256
        } else {
            low
        }
    }
}

} // verus!
