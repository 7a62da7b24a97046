//! POWCNT1: graphics power control.
use vstd::prelude::*;

use crate::nds::bits::{bit32, get_bit_u32};

verus! {

pub struct PowCnt1(u32);

impl View for PowCnt1 {
    type V = u32;

    closed spec fn view(&self) -> u32 {
        self.0
    }
}

impl Default for PowCnt1 {
    fn default() -> (r: Self)
        ensures
            r@ == 0,
    {
        PowCnt1(0)
    }
}

impl From<u32> for PowCnt1 {
    fn from(value: u32) -> (r: Self) {
        PowCnt1(value)
    }
}

impl vstd::std_specs::convert::FromSpecImpl<u32> for PowCnt1 {
    open spec fn obeys_from_spec() -> bool {
        true
    }

    open spec fn from_spec(v: u32) -> Self {
        PowCnt1::from_value(v)
    }
}

pub const DISPLAY_SWAP_OFFSET: u32 = 15;

impl PowCnt1 {
    /// The register holding `v`.
    pub closed spec fn from_value(v: u32) -> Self {
        PowCnt1(v)
    }

    pub proof fn lemma_from_value(v: u32)
        ensures
            Self::from_value(v)@ == v,
    {
    }

    pub fn value(&self) -> (r: u32)
        ensures
            r == self@,
    {
        self.0
    }

    /// Bit 15: which engine drives the top screen.
    pub fn get_display_swap(&self) -> (r: bool)
        ensures
            r == bit32(self@, DISPLAY_SWAP_OFFSET),
    {
        get_bit_u32(self.0, DISPLAY_SWAP_OFFSET)
    }
}

} // verus!
