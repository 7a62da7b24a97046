//! KEYINPUT: the state of the ten main buttons, one bit each; a cleared bit
//! means that the button is pressed.
use vstd::prelude::*;

use crate::nds::bits::{bit16, get_bit_u16, set_bit_u16, with_bit16};

verus! {

/// Recording a button reads back as recorded, and leaves every other button
/// as it was.
pub proof fn lemma_button_write(v: u16, button: u16, released: bool, other: u16)
    requires
        button < 10,
        other < 16,
    ensures
        bit16(with_bit16(v, button, released), button) == released,
        other != button ==> bit16(with_bit16(v, button, released), other) == bit16(v, other),
{
    crate::nds::bits::lemma_bit16_after_write(v, button, released, other);
}

pub struct KeyInput(u16);

impl View for KeyInput {
    type V = u16;

    closed spec fn view(&self) -> u16 {
        self.0
    }
}

impl Default for KeyInput {
    /// All ten buttons released.
    fn default() -> (r: Self)
        ensures
            r@ == 0b11_1111_1111,
    {
        KeyInput(0b11_1111_1111)
    }
}

impl From<u16> for KeyInput {
    fn from(value: u16) -> (r: Self) {
        KeyInput(value)
    }
}

impl vstd::std_specs::convert::FromSpecImpl<u16> for KeyInput {
    open spec fn obeys_from_spec() -> bool {
        true
    }

    open spec fn from_spec(v: u16) -> Self {
        KeyInput::from_value(v)
    }
}
pub const BUTTON_A_OFFSET: u16 = 0;
pub const BUTTON_B_OFFSET: u16 = 1;
pub const BUTTON_SELECT_OFFSET: u16 = 2;
pub const BUTTON_START_OFFSET: u16 = 3;
pub const BUTTON_RIGHT_OFFSET: u16 = 4;
pub const BUTTON_LEFT_OFFSET: u16 = 5;
pub const BUTTON_UP_OFFSET: u16 = 6;
pub const BUTTON_DOWN_OFFSET: u16 = 7;
pub const BUTTON_R_OFFSET: u16 = 8;
pub const BUTTON_L_OFFSET: u16 = 9;

impl KeyInput {
    /// The register holding `v`.
    pub closed spec fn from_value(v: u16) -> Self {
        KeyInput(v)
    }

    pub proof fn lemma_from_value(v: u16)
        ensures
            Self::from_value(v)@ == v,
    {
    }

    pub fn value(&self) -> (r: u16)
        ensures
            r == self@,
    {
        self.0
    }

    /// Whether button A is released.
    pub fn get_button_a(&self) -> (r: bool)
        ensures
            r == bit16(self@, BUTTON_A_OFFSET),
    {
        get_bit_u16(self.0, BUTTON_A_OFFSET)
    }

    /// Records button A as released (`true`) or pressed.
    pub fn set_button_a(&mut self, released: bool)
        ensures
            final(self)@ == with_bit16(old(self)@, BUTTON_A_OFFSET, released),
    {
        self.0 = set_bit_u16(self.0, BUTTON_A_OFFSET, released);
    }

    /// Whether button B is released.
    pub fn get_button_b(&self) -> (r: bool)
        ensures
            r == bit16(self@, BUTTON_B_OFFSET),
    {
        get_bit_u16(self.0, BUTTON_B_OFFSET)
    }

    /// Records button B as released (`true`) or pressed.
    pub fn set_button_b(&mut self, released: bool)
        ensures
            final(self)@ == with_bit16(old(self)@, BUTTON_B_OFFSET, released),
    {
        self.0 = set_bit_u16(self.0, BUTTON_B_OFFSET, released);
    }

    /// Whether button SELECT is released.
    pub fn get_button_select(&self) -> (r: bool)
        ensures
            r == bit16(self@, BUTTON_SELECT_OFFSET),
    {
        get_bit_u16(self.0, BUTTON_SELECT_OFFSET)
    }

    /// Records button SELECT as released (`true`) or pressed.
    pub fn set_button_select(&mut self, released: bool)
        ensures
            final(self)@ == with_bit16(old(self)@, BUTTON_SELECT_OFFSET, released),
    {
        self.0 = set_bit_u16(self.0, BUTTON_SELECT_OFFSET, released);
    }

    /// Whether button START is released.
    pub fn get_button_start(&self) -> (r: bool)
        ensures
            r == bit16(self@, BUTTON_START_OFFSET),
    {
        get_bit_u16(self.0, BUTTON_START_OFFSET)
    }

    /// Records button START as released (`true`) or pressed.
    pub fn set_button_start(&mut self, released: bool)
        ensures
            final(self)@ == with_bit16(old(self)@, BUTTON_START_OFFSET, released),
    {
        self.0 = set_bit_u16(self.0, BUTTON_START_OFFSET, released);
    }

    /// Whether button RIGHT is released.
    pub fn get_button_right(&self) -> (r: bool)
        ensures
            r == bit16(self@, BUTTON_RIGHT_OFFSET),
    {
        get_bit_u16(self.0, BUTTON_RIGHT_OFFSET)
    }

    /// Records button RIGHT as released (`true`) or pressed.
    pub fn set_button_right(&mut self, released: bool)
        ensures
            final(self)@ == with_bit16(old(self)@, BUTTON_RIGHT_OFFSET, released),
    {
        self.0 = set_bit_u16(self.0, BUTTON_RIGHT_OFFSET, released);
    }

    /// Whether button LEFT is released.
    pub fn get_button_left(&self) -> (r: bool)
        ensures
            r == bit16(self@, BUTTON_LEFT_OFFSET),
    {
        get_bit_u16(self.0, BUTTON_LEFT_OFFSET)
    }

    /// Records button LEFT as released (`true`) or pressed.
    pub fn set_button_left(&mut self, released: bool)
        ensures
            final(self)@ == with_bit16(old(self)@, BUTTON_LEFT_OFFSET, released),
    {
        self.0 = set_bit_u16(self.0, BUTTON_LEFT_OFFSET, released);
    }

    /// Whether button UP is released.
    pub fn get_button_up(&self) -> (r: bool)
        ensures
            r == bit16(self@, BUTTON_UP_OFFSET),
    {
        get_bit_u16(self.0, BUTTON_UP_OFFSET)
    }

    /// Records button UP as released (`true`) or pressed.
    pub fn set_button_up(&mut self, released: bool)
        ensures
            final(self)@ == with_bit16(old(self)@, BUTTON_UP_OFFSET, released),
    {
        self.0 = set_bit_u16(self.0, BUTTON_UP_OFFSET, released);
    }

    /// Whether button DOWN is released.
    pub fn get_button_down(&self) -> (r: bool)
        ensures
            r == bit16(self@, BUTTON_DOWN_OFFSET),
    {
        get_bit_u16(self.0, BUTTON_DOWN_OFFSET)
    }

    /// Records button DOWN as released (`true`) or pressed.
    pub fn set_button_down(&mut self, released: bool)
        ensures
            final(self)@ == with_bit16(old(self)@, BUTTON_DOWN_OFFSET, released),
    {
        self.0 = set_bit_u16(self.0, BUTTON_DOWN_OFFSET, released);
    }

    /// Whether button R is released.
    pub fn get_button_r(&self) -> (r: bool)
        ensures
            r == bit16(self@, BUTTON_R_OFFSET),
    {
        get_bit_u16(self.0, BUTTON_R_OFFSET)
    }

    /// Records button R as released (`true`) or pressed.
    pub fn set_button_r(&mut self, released: bool)
        ensures
            final(self)@ == with_bit16(old(self)@, BUTTON_R_OFFSET, released),
    {
        self.0 = set_bit_u16(self.0, BUTTON_R_OFFSET, released);
    }

    /// Whether button L is released.
    pub fn get_button_l(&self) -> (r: bool)
        ensures
            r == bit16(self@, BUTTON_L_OFFSET),
    {
        get_bit_u16(self.0, BUTTON_L_OFFSET)
    }

    /// Records button L as released (`true`) or pressed.
    pub fn set_button_l(&mut self, released: bool)
        ensures
            final(self)@ == with_bit16(old(self)@, BUTTON_L_OFFSET, released),
    {
        self.0 = set_bit_u16(self.0, BUTTON_L_OFFSET, released);
    }
}

} // verus!
