//! The fields of a VRAMCNT register: the bank's use (MST) and its offset.
use vstd::prelude::*;

verus! {

#[derive(Clone, Copy, Debug, PartialEq, Eq, Structural)]
pub enum Mst {
    A,
    B,
    C,
    D,
    E,
    F,
}

impl Mst {
    /// The number that selects this use in VRAMCNT bits 0-2.
    pub open spec fn bits(self) -> u8 {
        match self {
            Mst::A => 0,
            Mst::B => 1,
            Mst::C => 2,
            Mst::D => 3,
            Mst::E => 4,
            Mst::F => 5,
        }
    }

    /// The use selected by `value`, which must be at most 5.
    pub fn from_bits(value: u8) -> (r: Self)
        requires
            value <= 5,
        ensures
            r.bits() == value,
    {
        if value == 0 {
            Mst::A
        } else if value == 1 {
            Mst::B
        } else if value == 2 {
            Mst::C
        } else if value == 3 {
            Mst::D
        } else if value == 4 {
            Mst::E
        } else {
            Mst::F
        }
    }

    pub fn to_bits(self) -> (r: u8)
        ensures
            r == self.bits(),
    {
        match self {
            Mst::A => 0,
            Mst::B => 1,
            Mst::C => 2,
            Mst::D => 3,
            Mst::E => 4,
            Mst::F => 5,
        }
    }
}

impl Default for Mst {
    fn default() -> (r: Self)
        ensures
            r == Mst::A,
    {
        Mst::A
    }
}

#[derive(Clone, Copy, Debug, PartialEq, Eq, Structural)]
pub enum Offset {
    A,
    B,
    C,
    D,
}

impl Offset {
    /// The number that selects this offset in VRAMCNT bits 3-4.
    pub open spec fn bits(self) -> u8 {
        match self {
            Offset::A => 0,
            Offset::B => 1,
            Offset::C => 2,
            Offset::D => 3,
        }
    }

    /// The offset selected by `value`, which must be at most 3.
    pub fn from_bits(value: u8) -> (r: Self)
        requires
            value <= 3,
        ensures
            r.bits() == value,
    {
        if value == 0 {
            Offset::A
        } else if value == 1 {
            Offset::B
        } else if value == 2 {
            Offset::C
        } else {
            Offset::D
        }
    }

    pub fn to_bits(self) -> (r: u8)
        ensures
            r == self.bits(),
    {
        match self {
            Offset::A => 0,
            Offset::B => 1,
            Offset::C => 2,
            Offset::D => 3,
        }
    }
}

impl Default for Offset {
    fn default() -> (r: Self)
        ensures
            r == Offset::A,
    {
        Offset::A
    }
}

} // verus!
