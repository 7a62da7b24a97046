//! Bit and bit-field access on the register widths of the console.
//!
//! Every hardware register of the library is an unsigned integer whose bits
//! and inclusive bit ranges carry meaning. The spec functions here say what a
//! bit or a field of a value is, and what a value becomes when a bit or a field
//! is written; the executable functions compute exactly that.
use vstd::prelude::*;

verus! {

/// Bit `n` of a 32-bit value.
pub open spec fn bit32(v: u32, n: u32) -> bool {
    (v >> n) & 1u32 == 1u32
}

/// The mask of the low `e - s + 1` bits, for `s <= e < 32`.
pub open spec fn mask32(s: u32, e: u32) -> u32 {
    0xFFFF_FFFFu32 >> ((31 - (e - s)) as u32)
}

/// Bits `s..=e` of a 32-bit value, shifted down to bit 0.
pub open spec fn field32(v: u32, s: u32, e: u32) -> u32 {
    (v >> s) & mask32(s, e)
}

/// `v` with bit `n` set to `b`.
pub open spec fn with_bit32(v: u32, n: u32, b: bool) -> u32 {
    if b {
        v | (1u32 << n)
    } else {
        v & !(1u32 << n)
    }
}

/// `v` with bits `s..=e` replaced by the low bits of `x`.
pub open spec fn with_field32(v: u32, s: u32, e: u32, x: u32) -> u32 {
    (v & !(mask32(s, e) << s)) | ((x & mask32(s, e)) << s)
}

/// Bit `n` of a 16-bit value.
pub open spec fn bit16(v: u16, n: u16) -> bool {
    (v >> n) & 1u16 == 1u16
}

/// The mask of the low `e - s + 1` bits, for `s <= e < 16`.
pub open spec fn mask16(s: u16, e: u16) -> u16 {
    0xFFFFu16 >> ((15 - (e - s)) as u16)
}

/// Bits `s..=e` of a 16-bit value, shifted down to bit 0.
pub open spec fn field16(v: u16, s: u16, e: u16) -> u16 {
    (v >> s) & mask16(s, e)
}

/// `v` with bit `n` set to `b`.
pub open spec fn with_bit16(v: u16, n: u16, b: bool) -> u16 {
    if b {
        v | (1u16 << n)
    } else {
        v & !(1u16 << n)
    }
}

/// `v` with bits `s..=e` replaced by the low bits of `x`.
pub open spec fn with_field16(v: u16, s: u16, e: u16, x: u16) -> u16 {
    (v & !(mask16(s, e) << s)) | ((x & mask16(s, e)) << s)
}

/// Bit `n` of an 8-bit value.
pub open spec fn bit8(v: u8, n: u8) -> bool {
    (v >> n) & 1u8 == 1u8
}

/// The mask of the low `e - s + 1` bits, for `s <= e < 8`.
pub open spec fn mask8(s: u8, e: u8) -> u8 {
    0xFFu8 >> ((7 - (e - s)) as u8)
}

/// Bits `s..=e` of an 8-bit value, shifted down to bit 0.
pub open spec fn field8(v: u8, s: u8, e: u8) -> u8 {
    (v >> s) & mask8(s, e)
}

/// `v` with bit `n` set to `b`.
pub open spec fn with_bit8(v: u8, n: u8, b: bool) -> u8 {
    if b {
        v | (1u8 << n)
    } else {
        v & !(1u8 << n)
    }
}

/// `v` with bits `s..=e` replaced by the low bits of `x`.
pub open spec fn with_field8(v: u8, s: u8, e: u8, x: u8) -> u8 {
    (v & !(mask8(s, e) << s)) | ((x & mask8(s, e)) << s)
}

pub fn get_bit_u32(v: u32, n: u32) -> (r: bool)
    requires
        n < 32,
    ensures
        r == bit32(v, n),
{
    (v >> n) & 1 == 1
}

pub fn set_bit_u32(v: u32, n: u32, b: bool) -> (r: u32)
    requires
        n < 32,
    ensures
        r == with_bit32(v, n, b),
{
    if b {
        v | (1u32 << n)
    } else {
        v & !(1u32 << n)
    }
}

pub fn get_bits_u32(v: u32, s: u32, e: u32) -> (r: u32)
    requires
        s <= e < 32,
    ensures
        r == field32(v, s, e),
{
    (v >> s) & (0xFFFF_FFFFu32 >> (31 - (e - s)))
}

pub fn set_bits_u32(v: u32, s: u32, e: u32, x: u32) -> (r: u32)
    requires
        s <= e < 32,
    ensures
        r == with_field32(v, s, e, x),
{
    let m = 0xFFFF_FFFFu32 >> (31 - (e - s));
    (v & !(m << s)) | ((x & m) << s)
}

pub fn get_bit_u16(v: u16, n: u16) -> (r: bool)
    requires
        n < 16,
    ensures
        r == bit16(v, n),
{
    (v >> n) & 1 == 1
}

pub fn set_bit_u16(v: u16, n: u16, b: bool) -> (r: u16)
    requires
        n < 16,
    ensures
        r == with_bit16(v, n, b),
{
    if b {
        v | (1u16 << n)
    } else {
        v & !(1u16 << n)
    }
}

pub fn get_bits_u16(v: u16, s: u16, e: u16) -> (r: u16)
    requires
        s <= e < 16,
    ensures
        r == field16(v, s, e),
{
    (v >> s) & (0xFFFFu16 >> (15 - (e - s)))
}

pub fn set_bits_u16(v: u16, s: u16, e: u16, x: u16) -> (r: u16)
    requires
        s <= e < 16,
    ensures
        r == with_field16(v, s, e, x),
{
    let m = 0xFFFFu16 >> (15 - (e - s));
    (v & !(m << s)) | ((x & m) << s)
}

pub fn get_bit_u8(v: u8, n: u8) -> (r: bool)
    requires
        n < 8,
    ensures
        r == bit8(v, n),
{
    (v >> n) & 1 == 1
}

pub fn set_bit_u8(v: u8, n: u8, b: bool) -> (r: u8)
    requires
        n < 8,
    ensures
        r == with_bit8(v, n, b),
{
    if b {
        v | (1u8 << n)
    } else {
        v & !(1u8 << n)
    }
}

pub fn get_bits_u8(v: u8, s: u8, e: u8) -> (r: u8)
    requires
        s <= e < 8,
    ensures
        r == field8(v, s, e),
{
    (v >> s) & (0xFFu8 >> (7 - (e - s)))
}

pub fn set_bits_u8(v: u8, s: u8, e: u8, x: u8) -> (r: u8)
    requires
        s <= e < 8,
    ensures
        r == with_field8(v, s, e, x),
{
    let m = 0xFFu8 >> (7 - (e - s));
    (v & !(m << s)) | ((x & m) << s)
}

/// Writing a bit and reading it back gives the written value; the other bits
/// are left as they were.
pub proof fn lemma_bit32_after_write(v: u32, n: u32, b: bool, k: u32)
    requires
        n < 32,
        k < 32,
    ensures
        bit32(with_bit32(v, n, b), n) == b,
        k != n ==> bit32(with_bit32(v, n, b), k) == bit32(v, k),
{
    if b {
        assert(((v | (1u32 << n)) >> n) & 1u32 == 1u32) by (bit_vector)
            requires n < 32;
        assert(k != n ==> ((v | (1u32 << n)) >> k) & 1u32 == (v >> k) & 1u32) by (bit_vector)
            requires n < 32, k < 32;
    } else {
        assert(((v & !(1u32 << n)) >> n) & 1u32 == 0u32) by (bit_vector)
            requires n < 32;
        assert(k != n ==> ((v & !(1u32 << n)) >> k) & 1u32 == (v >> k) & 1u32) by (bit_vector)
            requires n < 32, k < 32;
    }
}

/// Writing a bit and reading it back gives the written value; the other bits
/// are left as they were.
pub proof fn lemma_bit16_after_write(v: u16, n: u16, b: bool, k: u16)
    requires
        n < 16,
        k < 16,
    ensures
        bit16(with_bit16(v, n, b), n) == b,
        k != n ==> bit16(with_bit16(v, n, b), k) == bit16(v, k),
{
    if b {
        assert(((v | (1u16 << n)) >> n) & 1u16 == 1u16) by (bit_vector)
            requires n < 16;
        assert(k != n ==> ((v | (1u16 << n)) >> k) & 1u16 == (v >> k) & 1u16) by (bit_vector)
            requires n < 16, k < 16;
    } else {
        assert(((v & !(1u16 << n)) >> n) & 1u16 == 0u16) by (bit_vector)
            requires n < 16;
        assert(k != n ==> ((v & !(1u16 << n)) >> k) & 1u16 == (v >> k) & 1u16) by (bit_vector)
            requires n < 16, k < 16;
    }
}

/// The bit fields of a halfword as arithmetic on its value: a field is the
/// value divided by the weight of its lowest bit, modulo the number of values
/// that the field can take; setting or clearing bit 15 adds or takes away
/// 32768.
pub proof fn lemma_fields16(v: u16)
    by (bit_vector)
    ensures
        field16(v, 0, 1) == v % 4,
        field16(v, 0, 4) == v % 32,
        field16(v, 0, 7) == v % 256,
        field16(v, 0, 8) == v % 512,
        field16(v, 5, 9) == (v / 32) % 32,
        field16(v, 6, 7) == (v / 64) % 4,
        field16(v, 10, 14) == (v / 1024) % 32,
        field16(v, 12, 15) == v / 4096,
        field16(v, 14, 15) == v / 16384,
        bit16(v, 2) == ((v / 4) % 2 == 1),
        bit16(v, 7) == ((v / 128) % 2 == 1),
        bit16(v, 9) == ((v / 512) % 2 == 1),
        bit16(v, 10) == ((v / 1024) % 2 == 1),
        bit16(v, 11) == ((v / 2048) % 2 == 1),
        bit16(v, 15) == (v >= 32768),
        with_bit16(v, 15, true) == v % 32768 + 32768,
        with_bit16(v, 15, false) == v % 32768,
{
}

/// The two halves of a word as arithmetic on its value.
pub proof fn lemma_fields32(v: u32)
    by (bit_vector)
    ensures
        field32(v, 0, 15) == v % 65536,
        field32(v, 16, 31) == v / 65536,
{
}

} // verus!
