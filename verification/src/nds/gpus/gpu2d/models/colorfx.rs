//! BLDCNT and BLDALPHA: colour special effects of a 2D engine.
use vstd::prelude::*;

use crate::nds::bits::{bit16, field16, field8, get_bit_u16, get_bits_u16, get_bits_u8, set_bit_u16, set_bits_u16, with_bit16, with_field16};

verus! {

pub struct BldCnt(pub u16);

impl Default for BldCnt {
    fn default() -> (r: Self)
        ensures
            r.0 == 0,
    {
        BldCnt(0)
    }
}

impl From<u16> for BldCnt {
    fn from(value: u16) -> (r: Self)
        ensures
            r.0 == value,
    {
        BldCnt(value)
    }
}

impl vstd::std_specs::convert::FromSpecImpl<u16> for BldCnt {
    open spec fn obeys_from_spec() -> bool {
        true
    }

    open spec fn from_spec(v: u16) -> Self {
        BldCnt(v)
    }
}

#[derive(PartialEq, Eq, Structural, Clone, Copy, Debug)]
pub enum ColorSpecialEffect {
    NoEffect,
    AlphaBlending,
    BrightnessIncrease,
    BrightnessDecrease,
}

/// The effect numbered `n`, for `n <= 3`.
pub open spec fn special_effect_of(n: u16) -> ColorSpecialEffect {
    if n == 0 {
        ColorSpecialEffect::NoEffect
    } else if n == 1 {
        ColorSpecialEffect::AlphaBlending
    } else if n == 2 {
        ColorSpecialEffect::BrightnessIncrease
    } else {
        ColorSpecialEffect::BrightnessDecrease
    }
}

impl BldCnt {
    pub fn value(&self) -> (r: u16)
        ensures
            r == self.0,
    {
        self.0
    }

    /// Bits 0-5: whether layer `target` is a first target of the effect.
    pub fn get_first_target_pixel(&self, target: u16) -> (r: bool)
        requires
            target < 16,
        ensures
            r == bit16(self.0, target),
    {
        get_bit_u16(self.0, target)
    }

    /// Bits 6-7: the colour special effect.
    pub fn get_color_special_effect(&self) -> (r: ColorSpecialEffect)
        ensures
            r == special_effect_of(field16(self.0, 6, 7)),
    {
        let value = get_bits_u16(self.0, 6, 7);
        if value == 0 {
            ColorSpecialEffect::NoEffect
        } else if value == 1 {
            ColorSpecialEffect::AlphaBlending
        } else if value == 2 {
            ColorSpecialEffect::BrightnessIncrease
        } else {
            ColorSpecialEffect::BrightnessDecrease
        }
    }

    /// Bits 8-13: whether layer `target` is a second target of the effect.
    pub fn get_second_target_pixel(&self, target: u16) -> (r: bool)
        requires
            target < 8,
        ensures
            r == bit16(self.0, (target + 8) as u16),
    {
        get_bit_u16(self.0, target + 8)
    }
}

/// One colour channel of an alpha blend: the weighted sum of the two
/// channels, with the weights in sixteenths, rounded down and capped at 31.
pub open spec fn blend_channel(first: u16, second: u16, eva: u16, evb: u16) -> u16 {
    let sum = (first * evb + second * eva) / 16;
    if sum > 31 {
        31
    } else {
        sum as u16
    }
}

/// The alpha blend of two BGR555 colours. A `first` colour without bit 15 is
/// transparent and leaves `second`; otherwise each channel is blended and
/// bit 15 of the result is clear.
pub open spec fn alpha_blend_spec(first: u16, second: u16, eva: u16, evb: u16) -> u16 {
    if !bit16(first, 15) {
        second
    } else {
        with_bit16(
            with_field16(
                with_field16(
                    with_field16(
                        0,
                        0,
                        4,
                        blend_channel(field16(first, 0, 4), field16(second, 0, 4), eva, evb),
                    ),
                    5,
                    9,
                    blend_channel(field16(first, 5, 9), field16(second, 5, 9), eva, evb),
                ),
                10,
                14,
                blend_channel(field16(first, 10, 14), field16(second, 10, 14), eva, evb),
            ),
            15,
            false,
        )
    }
}

fn blend_channel_exec(first: u16, second: u16, eva: u16, evb: u16) -> (r: u16)
    requires
        first < 32,
        second < 32,
        eva <= 16,
        evb <= 16,
    ensures
        r == blend_channel(first, second, eva, evb),
{
    assert(first * evb <= 31 * 16) by (nonlinear_arith)
        requires
            first < 32,
            evb <= 16,
    ;
    assert(second * eva <= 31 * 16) by (nonlinear_arith)
        requires
            second < 32,
            eva <= 16,
    ;
    let sum = (first * evb + second * eva) / 16;
    if sum > 31 {
        31
    } else {
        sum
    }
}

impl ColorSpecialEffect {
    /// The alpha blend of two BGR555 colours with weights `eva` (for
    /// `second`) and `evb` (for `first`) given in sixteenths, as BLDALPHA
    /// holds them.
    pub fn alpha_blend_sixteenths(first: u16, second: u16, eva: u16, evb: u16) -> (r: u16)
        requires
            eva <= 16,
            evb <= 16,
        ensures
            r == alpha_blend_spec(first, second, eva, evb),
    {
        if !get_bit_u16(first, 15) {
            return second;
        }
        proof {
            assert(field16(first, 0, 4) < 32 && field16(first, 5, 9) < 32 && field16(first, 10, 14) < 32) by (bit_vector);
            assert(field16(second, 0, 4) < 32 && field16(second, 5, 9) < 32 && field16(second, 10, 14) < 32) by (bit_vector);
        }
        let r = blend_channel_exec(get_bits_u16(first, 0, 4), get_bits_u16(second, 0, 4), eva, evb);
        let g = blend_channel_exec(get_bits_u16(first, 5, 9), get_bits_u16(second, 5, 9), eva, evb);
        let b = blend_channel_exec(get_bits_u16(first, 10, 14), get_bits_u16(second, 10, 14), eva, evb);
        let mut result: u16 = 0;
        result = set_bits_u16(result, 0, 4, r);
        result = set_bits_u16(result, 5, 9, g);
        result = set_bits_u16(result, 10, 14, b);
        result = set_bit_u16(result, 15, false);
        result
    }
}

/// Alpha blending mixes two BGR555 colours channel by channel: with `first`
/// drawn (bit 15 set), each of red (bits 0-4), green (bits 5-9) and blue
/// (bits 10-14) of the result is `first`'s channel times `evb` plus
/// `second`'s times `eva`, in sixteenths, rounded down and at most 31, and
/// bit 15 of the result is clear. A transparent `first` leaves `second`.
pub proof fn lemma_alpha_blend_channels(first: u16, second: u16, eva: u16, evb: u16)
    requires
        eva <= 16,
        evb <= 16,
    ensures
        first < 32768 ==> alpha_blend_spec(first, second, eva, evb) == second,
        first >= 32768 ==> {
            let r = alpha_blend_spec(first, second, eva, evb);
            let mix = |k: int|
                {
                    let m = (((first as int) / k) % 32 * evb + ((second as int) / k) % 32 * eva) / 16;
                    if m > 31 {
                        31
                    } else {
                        m
                    }
                };
            &&& r % 32 == mix(1)
            &&& (r / 32) % 32 == mix(32)
            &&& (r / 1024) % 32 == mix(1024)
            &&& r < 32768
        },
{
    crate::nds::bits::lemma_fields16(first);
    crate::nds::bits::lemma_fields16(second);
    if first >= 32768 {
        let r0 = blend_channel(field16(first, 0, 4), field16(second, 0, 4), eva, evb);
        let g0 = blend_channel(field16(first, 5, 9), field16(second, 5, 9), eva, evb);
        let b0 = blend_channel(field16(first, 10, 14), field16(second, 10, 14), eva, evb);
        assert(r0 <= 31 && g0 <= 31 && b0 <= 31);
        let r = with_bit16(with_field16(with_field16(with_field16(0, 0, 4, r0), 5, 9, g0), 10, 14, b0), 15, false);
        assert(r % 32 == r0 && (r / 32) % 32 == g0 && (r / 1024) % 32 == b0 && r < 32768) by (bit_vector)
            requires
                r == with_bit16(with_field16(with_field16(with_field16(0, 0, 4, r0), 5, 9, g0), 10, 14, b0), 15, false),
                r0 <= 31,
                g0 <= 31,
                b0 <= 31,
        ;
    }
}

/// The blend coefficient that BLDALPHA value `v` gives, in sixteenths: bits
/// 0-4, capped at 16.
pub open spec fn ev_of(v: u8) -> u16 {
    if field8(v, 0, 4) > 16 {
        16
    } else {
        field8(v, 0, 4) as u16
    }
}

pub struct BldAlpha(u8);

impl View for BldAlpha {
    type V = u8;

    closed spec fn view(&self) -> u8 {
        self.0
    }
}

impl Default for BldAlpha {
    fn default() -> (r: Self)
        ensures
            r@ == 0,
    {
        BldAlpha(0)
    }
}

impl From<u8> for BldAlpha {
    fn from(value: u8) -> (r: Self) {
        BldAlpha(value)
    }
}

impl vstd::std_specs::convert::FromSpecImpl<u8> for BldAlpha {
    open spec fn obeys_from_spec() -> bool {
        true
    }

    open spec fn from_spec(v: u8) -> Self {
        BldAlpha::from_value(v)
    }
}

impl BldAlpha {
    /// The register holding `v`.
    pub closed spec fn from_value(v: u8) -> Self {
        BldAlpha(v)
    }

    pub proof fn lemma_from_value(v: u8)
        ensures
            Self::from_value(v)@ == v,
    {
    }

    pub fn value(&self) -> (r: u8)
        ensures
            r == self@,
    {
        self.0
    }

    /// The blend coefficient in sixteenths: bits 0-4, capped at 16.
    pub fn ev_sixteenths(&self) -> (r: u16)
        ensures
            r == ev_of(self@),
            r <= 16,
    {
        let ev = get_bits_u8(self.0, 0, 4) as u16;
        if ev > 16 {
            16
        } else {
            ev
        }
    }
}

} // verus!
