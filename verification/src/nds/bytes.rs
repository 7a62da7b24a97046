//! Little-endian words and halfwords from bytes.
use vstd::prelude::*;

verus! {

/// The little-endian value of a byte sequence.
pub open spec fn le_value(s: Seq<u8>) -> int
    decreases s.len(),
{
    if s.len() == 0 {
        0
    } else {
        s[0] + 256 * le_value(s.drop_first())
    }
}

/// The value of at most four bytes, least significant first.
pub fn into_word(bytes: &[u8]) -> (r: u32)
    requires
        bytes@.len() <= 4,
    ensures
        r as int == le_value(bytes@),
{
    let s = Ghost(bytes@);
    proof {
        reveal_with_fuel(le_value, 5);
        assert(s@.drop_first().drop_first().drop_first().drop_first().len() == 0 || s@.len() < 4);
    }
    let len = bytes.len();
    let b0: u32 = if len > 0 {
        bytes[0] as u32
    } else {
        0
    };
    let b1: u32 = if len > 1 {
        bytes[1] as u32
    } else {
        0
    };
    let b2: u32 = if len > 2 {
        bytes[2] as u32
    } else {
        0
    };
    let b3: u32 = if len > 3 {
        bytes[3] as u32
    } else {
        0
    };
    proof {
        if len == 0 {
        } else if len == 1 {
            assert(s@.drop_first().len() == 0);
        } else if len == 2 {
            assert(s@.drop_first()[0] == s@[1]);
            assert(s@.drop_first().drop_first().len() == 0);
        } else if len == 3 {
            assert(s@.drop_first()[0] == s@[1]);
            assert(s@.drop_first().drop_first()[0] == s@[2]);
            assert(s@.drop_first().drop_first().drop_first().len() == 0);
        } else {
            assert(s@.drop_first()[0] == s@[1]);
            assert(s@.drop_first().drop_first()[0] == s@[2]);
            assert(s@.drop_first().drop_first().drop_first()[0] == s@[3]);
            assert(s@.drop_first().drop_first().drop_first().drop_first().len() == 0);
        }
    }
    b0 + b1 * 0x100 + b2 * 0x1_0000 + b3 * 0x100_0000
}

/// The little-endian halfword at `addr` of a byte sequence.
pub open spec fn le_halfword_at(s: Seq<u8>, addr: int) -> u16 {
    (s[addr] + 256 * s[addr + 1]) as u16
}

/// The little-endian word at `addr` of a byte sequence.
pub open spec fn le_word_at(s: Seq<u8>, addr: int) -> u32 {
    (s[addr] + 0x100 * s[addr + 1] + 0x1_0000 * s[addr + 2] + 0x100_0000 * s[addr + 3]) as u32
}

/// The halfword made of two bytes, least significant first.
pub fn halfword_from_le(lo: u8, hi: u8) -> (r: u16)
    ensures
        r == (lo + 256 * hi) as u16,
        r as int == lo + 256 * hi,
{
    lo as u16 + (hi as u16) * 256
}

} // verus!
