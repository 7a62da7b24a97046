//! EXTKEYIN: the X and Y buttons; a cleared bit means that the button is pressed.
use vstd::prelude::*;

use crate::nds::bits::{bit16, get_bit_u16, set_bit_u16, with_bit16};

verus! {

pub struct ExtKeyIn(u16);

impl View for ExtKeyIn {
    type V = u16;

    closed spec fn view(&self) -> u16 {
        self.0
    }
}

impl Default for ExtKeyIn {
    /// The seven low bits set: X and Y released, pen up, hinge open.
    fn default() -> (r: Self)
        ensures
            r@ == 0b111_1111,
    {
        ExtKeyIn(0b111_1111)
    }
}

impl From<u16> for ExtKeyIn {
    fn from(value: u16) -> (r: Self) {
        ExtKeyIn(value)
    }
}

impl vstd::std_specs::convert::FromSpecImpl<u16> for ExtKeyIn {
    open spec fn obeys_from_spec() -> bool {
        true
    }

    open spec fn from_spec(v: u16) -> Self {
        ExtKeyIn::from_value(v)
    }
}

pub const BUTTON_X_OFFSET: u16 = 0;

pub const BUTTON_Y_OFFSET: u16 = 1;

impl ExtKeyIn {
    /// The register holding `v`.
    pub closed spec fn from_value(v: u16) -> Self {
        ExtKeyIn(v)
    }

    pub proof fn lemma_from_value(v: u16)
        ensures
            Self::from_value(v)@ == v,
    {
    }

    pub fn value(&self) -> (r: u16)
        ensures
            r == self@,
    {
        self.0
    }

    /// Whether button X is released.
    pub fn get_button_x(&self) -> (r: bool)
        ensures
            r == bit16(self@, BUTTON_X_OFFSET),
    {
        get_bit_u16(self.0, BUTTON_X_OFFSET)
    }

    /// Records button X as released (`true`) or pressed.
    pub fn set_button_x(&mut self, released: bool)
        ensures
            final(self)@ == with_bit16(old(self)@, BUTTON_X_OFFSET, released),
    {
        self.0 = set_bit_u16(self.0, BUTTON_X_OFFSET, released);
    }

    /// Whether button Y is released.
    pub fn get_button_y(&self) -> (r: bool)
        ensures
            r == bit16(self@, BUTTON_Y_OFFSET),
    {
        get_bit_u16(self.0, BUTTON_Y_OFFSET)
    }

    /// Records button Y as released (`true`) or pressed.
    pub fn set_button_y(&mut self, released: bool)
        ensures
            final(self)@ == with_bit16(old(self)@, BUTTON_Y_OFFSET, released),
    {
        self.0 = set_bit_u16(self.0, BUTTON_Y_OFFSET, released);
    }
}

} // verus!
