//! The two 2D engines, the display timing they share, and the VRAM banks.
use vstd::prelude::*;

pub mod gpu2d;
pub mod models;
pub mod vram;

use gpu2d::Gpu2d;
use models::{
    vcount_setting_of, DispStat, HBLANK_FLAG_OFFSET, HBLANK_IRQ_ENABLE_OFFSET,
    VBLANK_FLAG_OFFSET, VBLANK_IRQ_ENABLE_OFFSET, VCOUNTER_FLAG_OFFSET,
    VCOUNTER_IRQ_ENABLE_OFFSET,
};
use vram::VramBanks;

use crate::nds::bits::{bit16, field16, with_bit16};
use crate::nds::interrupts::{
    raised32, Interrupts, LCD_HBLANK_OFFSET, LCD_VBLANK_OFFSET, LCD_VCOUNTER_MATCH_OFFSET,
};

verus! {

/// Dots per line, visible (256) and blanking (99).
pub const DOTS_PER_LINE: u32 = 256 + 99;

/// Lines per frame, visible (192) and blanking (71).
pub const LINES_PER_FRAME: u16 = 192 + 71;

pub struct Gpus {
    pub dispstat: DispStat,  // 0x04000004
    pub vcount: u16,  // 0x04000006
    pub a: Gpu2d<true>,
    pub b: Gpu2d<false>,
    pub vram_banks: VramBanks,
    /// The dot within the current line.
    pub x: u32,
}

/// The dot after `x`.
pub open spec fn next_dot(x: u32) -> u32 {
    ((x + 1) % (DOTS_PER_LINE as int)) as u32
}

/// The line after a clock at dot `x` of line `vcount`.
pub open spec fn next_line(x: u32, vcount: u16) -> u16 {
    ((vcount + if next_dot(x) == 0 {
        1int
    } else {
        0
    }) % (LINES_PER_FRAME as int)) as u16
}

/// DISPSTAT after a clock that lands on dot `x` of line `vcount`: the
/// H-blank, V-blank and V-counter flags follow the position.
pub open spec fn dispstat_at(d: u16, x: u32, vcount: u16) -> u16 {
    with_bit16(
        with_bit16(
            with_bit16(d, HBLANK_FLAG_OFFSET, x >= 256),
            VBLANK_FLAG_OFFSET,
            vcount >= 192 && vcount != 262,
        ),
        VCOUNTER_FLAG_OFFSET,
        vcount_setting_of(d) == vcount,
    )
}

/// IF (of either processor) after a clock that lands on dot `x` of line
/// `vcount`, with DISPSTAT `d` before the clock.
pub open spec fn lcd_flags_at(f: u32, d: u16, x: u32, vcount: u16) -> u32 {
    raised32(
        raised32(
            raised32(f, LCD_HBLANK_OFFSET, x == 256 && bit16(d, HBLANK_IRQ_ENABLE_OFFSET)),
            LCD_VBLANK_OFFSET,
            vcount == 192 && bit16(d, VBLANK_IRQ_ENABLE_OFFSET),
        ),
        LCD_VCOUNTER_MATCH_OFFSET,
        vcount_setting_of(d) == vcount && bit16(d, VCOUNTER_IRQ_ENABLE_OFFSET),
    )
}

/// The place of a dot in the frame, counted from the first dot of line 0.
pub open spec fn frame_position(x: u32, vcount: u16) -> int {
    vcount * (DOTS_PER_LINE as int) + x
}

/// Each clock moves the display one dot on through the frame, and after the
/// last dot of the last line it starts the frame again.
pub proof fn lemma_clock_advances_position(x: u32, vcount: u16)
    requires
        x < DOTS_PER_LINE,
        vcount < LINES_PER_FRAME,
    ensures
        next_dot(x) < DOTS_PER_LINE,
        next_line(x, vcount) < LINES_PER_FRAME,
        frame_position(next_dot(x), next_line(x, vcount)) == (frame_position(x, vcount) + 1) % (
        DOTS_PER_LINE as int * LINES_PER_FRAME as int),
{
    let total = DOTS_PER_LINE as int * LINES_PER_FRAME as int;
    assert(DOTS_PER_LINE == 355 && LINES_PER_FRAME == 263);
    assert(total == 93365) by (nonlinear_arith)
        requires
            total == DOTS_PER_LINE as int * LINES_PER_FRAME as int,
            DOTS_PER_LINE == 355,
            LINES_PER_FRAME == 263,
    ;
    if x + 1 < DOTS_PER_LINE {
        assert(next_dot(x) == x + 1);
        assert(next_line(x, vcount) == vcount);
        assert(frame_position(x, vcount) + 1 < total) by (nonlinear_arith)
            requires
                x + 1 < 355,
                vcount < 263,
                frame_position(x, vcount) == vcount * 355 + x,
                total == 93365,
        ;
    } else if vcount + 1 < LINES_PER_FRAME {
        assert(next_dot(x) == 0);
        assert(next_line(x, vcount) == vcount + 1);
        assert(frame_position(x, vcount) + 1 < total) by (nonlinear_arith)
            requires
                x == 354,
                vcount + 1 < 263,
                frame_position(x, vcount) == vcount * 355 + x,
                total == 93365,
        ;
        assert(frame_position(0, (vcount + 1) as u16) == frame_position(x, vcount) + 1) by (
        nonlinear_arith)
            requires
                x == 354,
                frame_position(x, vcount) == vcount * 355 + x,
                frame_position(0, (vcount + 1) as u16) == (vcount + 1) * 355,
        ;
    } else {
        assert(next_dot(x) == 0);
        assert(next_line(x, vcount) == 0);
        assert(frame_position(x, vcount) + 1 == total);
    }
}

/// The dot and line after `n` clocks from dot `x` of line `vcount`.
pub open spec fn position_after(x: u32, vcount: u16, n: nat) -> (u32, u16)
    decreases n,
{
    if n == 0 {
        (x, vcount)
    } else {
        let (x0, v0) = position_after(x, vcount, (n - 1) as nat);
        (next_dot(x0), next_line(x0, v0))
    }
}

/// After `n` clocks the display has moved `n` dots on through the frame,
/// modulo the frame: counting from the first dot of line 0, the dot is the
/// position modulo 355 and the line the position divided by 355, modulo 263.
/// From power on (dot 0 of line 0) that is dot `n % 355` of line
/// `(n / 355) % 263`.
pub proof fn lemma_clock_n_times(x: u32, vcount: u16, n: nat)
    requires
        x < DOTS_PER_LINE,
        vcount < LINES_PER_FRAME,
    ensures
        ({
            let (x1, v1) = position_after(x, vcount, n);
            let p = frame_position(x, vcount) + n;
            &&& x1 < DOTS_PER_LINE
            &&& v1 < LINES_PER_FRAME
            &&& frame_position(x1, v1) == p % (DOTS_PER_LINE as int * LINES_PER_FRAME as int)
            &&& x1 == p % (DOTS_PER_LINE as int)
            &&& v1 == (p / (DOTS_PER_LINE as int)) % (LINES_PER_FRAME as int)
        }),
    decreases n,
{
    let total = DOTS_PER_LINE as int * LINES_PER_FRAME as int;
    let p0 = frame_position(x, vcount);
    assert(total == 355 * 263);
    let (x1, v1) = position_after(x, vcount, n);
    if n == 0 {
        assert(p0 < total) by (nonlinear_arith)
            requires
                p0 == vcount * 355 + x,
                x < 355,
                vcount < 263,
                total == 355 * 263,
        ;
        assert(p0 % total == p0) by {
            vstd::arithmetic::div_mod::lemma_small_mod(p0 as nat, total as nat);
        }
    } else {
        lemma_clock_n_times(x, vcount, (n - 1) as nat);
        let (x0, v0) = position_after(x, vcount, (n - 1) as nat);
        lemma_clock_advances_position(x0, v0);
        assert(p0 >= 0);
        vstd::arithmetic::div_mod::lemma_add_mod_noop(p0 + n - 1, 1, total);
        assert(1int % total == 1);
        assert(frame_position(x1, v1) == (p0 + n) % total);
    }
    let p = p0 + n;
    assert(p >= 0);
    vstd::arithmetic::div_mod::lemma_mod_breakdown(p, 355, 263);
    assert(frame_position(x1, v1) == v1 * 355 + x1);
    assert(0 <= p % 355 < 355) by {
        vstd::arithmetic::div_mod::lemma_mod_bound(p, 355);
    }
    vstd::arithmetic::div_mod::lemma_fundamental_div_mod_converse(
        frame_position(x1, v1),
        355,
        v1 as int,
        x1 as int,
    );
    vstd::arithmetic::div_mod::lemma_fundamental_div_mod_converse(
        frame_position(x1, v1),
        355,
        (p / 355) % 263,
        p % 355,
    );
}

/// After a clock, DISPSTAT's flags tell where the display is: H-blank on the
/// blanking dots of a line, V-blank on lines 192 to 261, and the V-counter
/// flag on the line that DISPSTAT names; the V-count setting is kept.
pub proof fn lemma_dispstat_follows_position(d: u16, x: u32, vcount: u16)
    ensures
        bit16(dispstat_at(d, x, vcount), HBLANK_FLAG_OFFSET) == (x >= 256),
        bit16(dispstat_at(d, x, vcount), VBLANK_FLAG_OFFSET) == (vcount >= 192 && vcount != 262),
        bit16(dispstat_at(d, x, vcount), VCOUNTER_FLAG_OFFSET) == (vcount_setting_of(d) == vcount),
        vcount_setting_of(dispstat_at(d, x, vcount)) == vcount_setting_of(d),
{
    let h = x >= 256;
    let v = vcount >= 192 && vcount != 262;
    let c = vcount_setting_of(d) == vcount;
    let d1 = with_bit16(d, HBLANK_FLAG_OFFSET, h);
    let d2 = with_bit16(d1, VBLANK_FLAG_OFFSET, v);
    let d3 = with_bit16(d2, VCOUNTER_FLAG_OFFSET, c);
    crate::nds::bits::lemma_bit16_after_write(d2, VCOUNTER_FLAG_OFFSET, c, VCOUNTER_FLAG_OFFSET);
    crate::nds::bits::lemma_bit16_after_write(d2, VCOUNTER_FLAG_OFFSET, c, VBLANK_FLAG_OFFSET);
    crate::nds::bits::lemma_bit16_after_write(d2, VCOUNTER_FLAG_OFFSET, c, HBLANK_FLAG_OFFSET);
    crate::nds::bits::lemma_bit16_after_write(d1, VBLANK_FLAG_OFFSET, v, VBLANK_FLAG_OFFSET);
    crate::nds::bits::lemma_bit16_after_write(d1, VBLANK_FLAG_OFFSET, v, HBLANK_FLAG_OFFSET);
    crate::nds::bits::lemma_bit16_after_write(d, HBLANK_FLAG_OFFSET, h, HBLANK_FLAG_OFFSET);
    assert(field16(d3, 8, 15) == field16(d, 8, 15) && bit16(d3, 7) == bit16(d, 7)) by (bit_vector)
        requires
            d3 == with_bit16(with_bit16(with_bit16(d, 1, h), 0, v), 2, c),
    ;
}

impl Default for Gpus {
    fn default() -> (r: Self)
        ensures
            r.initial(),
    {
        Gpus {
            dispstat: DispStat::default(),
            vcount: 0,
            a: Gpu2d::default(),
            b: Gpu2d::default(),
            vram_banks: VramBanks::default(),
            x: 0,
        }
    }
}

impl Gpus {
    /// The state at power on: at the first dot of the frame, DISPSTAT clear,
    /// both engines and all VRAM banks as at reset.
    pub open spec fn initial(&self) -> bool {
        &&& self.dispstat@ == 0
        &&& self.vcount == 0
        &&& self.x == 0
        &&& self.a.initial()
        &&& self.b.initial()
        &&& self.vram_banks.initial()
    }

    /// The position lies within a frame.
    pub open spec fn wf(&self) -> bool {
        self.x < DOTS_PER_LINE && self.vcount < LINES_PER_FRAME
    }

    /// Engines without memory behind them, for tests.
    pub fn new_fake() -> (r: Self)
        ensures
            r.wf(),
            r.dispstat@ == 0,
            r.vcount == 0,
            r.x == 0,
            r.a.initial(),
            r.b.initial(),
            r.vram_banks.all_fake(),
            !r.vram_banks.hit(0),
            forall|addr: int, len: int| r.vram_banks.read_ok(addr, len),
    {
        Gpus {
            dispstat: DispStat::default(),
            vcount: 0,
            a: Gpu2d::default(),
            b: Gpu2d::default(),
            vram_banks: VramBanks::new_fake(),
            x: 0,
        }
    }

    /// One dot: the position moves on (a line has 355 dots, a frame 263
    /// lines), DISPSTAT's flags follow it, and both processors get the
    /// H-blank, V-blank and V-counter interrupts that DISPSTAT enables as
    /// they begin.
    pub fn clock(&mut self, interrupts9: &mut Interrupts, interrupts7: &mut Interrupts)
        requires
            old(self).wf(),
        ensures
            final(self).wf(),
            final(self).x == next_dot(old(self).x),
            final(self).vcount == next_line(old(self).x, old(self).vcount),
            (final(self).x, final(self).vcount) == position_after(old(self).x, old(self).vcount, 1),
            final(self).dispstat@ == dispstat_at(
                old(self).dispstat@,
                final(self).x,
                final(self).vcount,
            ),
            final(interrupts9).f@ == lcd_flags_at(
                old(interrupts9).f@,
                old(self).dispstat@,
                final(self).x,
                final(self).vcount,
            ),
            final(interrupts7).f@ == lcd_flags_at(
                old(interrupts7).f@,
                old(self).dispstat@,
                final(self).x,
                final(self).vcount,
            ),
            final(interrupts9).e@ == old(interrupts9).e@,
            final(interrupts9).me@ == old(interrupts9).me@,
            final(interrupts7).e@ == old(interrupts7).e@,
            final(interrupts7).me@ == old(interrupts7).me@,
            final(self).a == old(self).a,
            final(self).b == old(self).b,
            final(self).vram_banks == old(self).vram_banks,
    {
        self.x = (self.x + 1) % DOTS_PER_LINE;
        self.vcount = (self.vcount + (if self.x == 0 {
            1
        } else {
            0
        })) % LINES_PER_FRAME;

        let hblanking = self.x >= 256;
        let hblank_start = self.x == 256;
        let vblanking = self.vcount >= 192 && self.vcount != 262;
        let vblank_start = self.vcount == 192;
        let ghost d0 = self.dispstat@;
        let vcount_setting = self.dispstat.get_vcount_setting();
        let hblank_irq = self.dispstat.get_hblank_irq_enable();
        let vblank_irq = self.dispstat.get_vblank_irq_enable();
        let vcounter_irq = self.dispstat.get_vcounter_irq_enable();
        self.dispstat.set_hblank_flag(hblanking);
        self.dispstat.set_vblank_flag(vblanking);

        if hblank_start && hblank_irq {
            interrupts9.f.set_lcd_hblank(true);
            interrupts7.f.set_lcd_hblank(true);
        }
        if vblank_start && vblank_irq {
            interrupts9.f.set_lcd_vblank(true);
            interrupts7.f.set_lcd_vblank(true);
        }

        let is_vcounter_match = vcount_setting == self.vcount;
        self.dispstat.set_vcounter_flag(is_vcounter_match);
        if is_vcounter_match && vcounter_irq {
            interrupts9.f.set_lcd_vcounter_match(true);
            interrupts7.f.set_lcd_vcounter_match(true);
        }
        proof {
            reveal_with_fuel(position_after, 2);
        }
    }
}

} // verus!
