//! The interrupt registers of one processor: IME, IE and IF.
use vstd::prelude::*;

use super::bits::{bit32, get_bit_u32, set_bit_u32, with_bit32};

verus! {

/// Acknowledging (writing to IF) every interrupt that is both enabled and
/// flagged ends the request for an interrupt, whatever IME holds.
pub proof fn lemma_ack_ends_request(e: u32, f: u32)
    ensures
        e & (f & !(e & f)) == 0,
{
    assert(e & (f & !(e & f)) == 0) by (bit_vector);
}

pub struct Interrupts {
    pub me: InterruptMasterEnable,  // 0x04000208, IME
    pub e: InterruptFlags,  // 0x04000210, IE
    pub f: InterruptFlags,  // 0x04000214, IF
}

impl Default for Interrupts {
    fn default() -> (r: Self)
        ensures
            r.me@ == 0,
            r.e@ == 0,
            r.f@ == 0,
    {
        Interrupts {
            me: InterruptMasterEnable::default(),
            e: InterruptFlags::default(),
            f: InterruptFlags::default(),
        }
    }
}

impl Interrupts {
    /// Whether the processor is asked to take an interrupt: the master enable
    /// is on and some interrupt is both enabled and flagged.
    pub open spec fn requesting(&self) -> bool {
        bit32(self.me@, 0) && (self.e@ & self.f@) != 0
    }

    pub fn is_requesting_interrupt(&self) -> (r: bool)
        ensures
            r == self.requesting(),
    {
        self.me.get_disable_all() && (self.e.value() & self.f.value()) != 0
    }
}

/// IME. Bit 0 set means that interrupts may be taken.
pub struct InterruptMasterEnable(u32);

impl View for InterruptMasterEnable {
    type V = u32;

    closed spec fn view(&self) -> u32 {
        self.0
    }
}

impl Default for InterruptMasterEnable {
    fn default() -> (r: Self)
        ensures
            r@ == 0,
    {
        InterruptMasterEnable(0)
    }
}

impl From<u32> for InterruptMasterEnable {
    fn from(value: u32) -> (r: Self) {
        InterruptMasterEnable(value)
    }
}

impl vstd::std_specs::convert::FromSpecImpl<u32> for InterruptMasterEnable {
    open spec fn obeys_from_spec() -> bool {
        true
    }

    open spec fn from_spec(v: u32) -> Self {
        InterruptMasterEnable::from_value(v)
    }
}

impl InterruptMasterEnable {
    /// The register holding `v`.
    pub closed spec fn from_value(v: u32) -> Self {
        InterruptMasterEnable(v)
    }

    pub proof fn lemma_from_value(v: u32)
        ensures
            Self::from_value(v)@ == v,
    {
    }

    pub fn value(&self) -> (r: u32)
        ensures
            r == self@,
    {
        self.0
    }

    /// Bit 0 of IME. Despite the name, a set bit means that interrupts are
    /// enabled: a cleared bit disables them all.
    pub fn get_disable_all(&self) -> (r: bool)
        ensures
            r == bit32(self@, 0),
    {
        get_bit_u32(self.0, 0)
    }
}

/// IE or IF: one bit per interrupt source.
pub struct InterruptFlags(u32);

impl View for InterruptFlags {
    type V = u32;

    closed spec fn view(&self) -> u32 {
        self.0
    }
}

impl Default for InterruptFlags {
    fn default() -> (r: Self)
        ensures
            r@ == 0,
    {
        InterruptFlags(0)
    }
}

impl From<u32> for InterruptFlags {
    fn from(value: u32) -> (r: Self) {
        InterruptFlags(value)
    }
}

impl vstd::std_specs::convert::FromSpecImpl<u32> for InterruptFlags {
    open spec fn obeys_from_spec() -> bool {
        true
    }

    open spec fn from_spec(v: u32) -> Self {
        InterruptFlags::from_value(v)
    }
}

pub const LCD_VBLANK_OFFSET: u32 = 0;

pub const LCD_HBLANK_OFFSET: u32 = 1;

pub const LCD_VCOUNTER_MATCH_OFFSET: u32 = 2;

pub const TIMER0_OVERFLOW_OFFSET: u32 = 3;

pub const IPCSYNC_OFFSET: u32 = 16;

pub const IPC_SEND_FIFO_EMPTY_OFFSET: u32 = 17;

pub const IPC_RECEIVE_FIFO_NOT_EMPTY_OFFSET: u32 = 18;

/// The flags after a source at bit `n` raises its line when `b` holds: the
/// bit is set if `b`, and left as it was otherwise.
pub open spec fn raised32(v: u32, n: u32, b: bool) -> u32 {
    if b {
        with_bit32(v, n, true)
    } else {
        v
    }
}

impl InterruptFlags {
    /// The register holding `v`.
    pub closed spec fn from_value(v: u32) -> Self {
        InterruptFlags(v)
    }

    pub proof fn lemma_from_value(v: u32)
        ensures
            Self::from_value(v)@ == v,
    {
    }

    pub fn value(&self) -> (r: u32)
        ensures
            r == self@,
    {
        self.0
    }

    /// A write to IF acknowledges the interrupts whose bits are set in
    /// `value`: those bits are cleared, the others stay.
    pub fn write_and_ack(&mut self, value: u32)
        ensures
            final(self)@ == old(self)@ & !value,
    {
        self.0 = self.0 & !value;
    }

    pub fn set_lcd_vblank(&mut self, value: bool)
        ensures
            final(self)@ == with_bit32(old(self)@, LCD_VBLANK_OFFSET, value),
    {
        self.0 = set_bit_u32(self.0, LCD_VBLANK_OFFSET, value);
    }

    pub fn set_lcd_hblank(&mut self, value: bool)
        ensures
            final(self)@ == with_bit32(old(self)@, LCD_HBLANK_OFFSET, value),
    {
        self.0 = set_bit_u32(self.0, LCD_HBLANK_OFFSET, value);
    }

    pub fn set_lcd_vcounter_match(&mut self, value: bool)
        ensures
            final(self)@ == with_bit32(old(self)@, LCD_VCOUNTER_MATCH_OFFSET, value),
    {
        self.0 = set_bit_u32(self.0, LCD_VCOUNTER_MATCH_OFFSET, value);
    }

    pub fn set_ipc_send_fifo_empty(&mut self, value: bool)
        ensures
            final(self)@ == with_bit32(old(self)@, IPC_SEND_FIFO_EMPTY_OFFSET, value),
    {
        self.0 = set_bit_u32(self.0, IPC_SEND_FIFO_EMPTY_OFFSET, value);
    }

    pub fn set_ipc_receive_fifo_not_empty(&mut self, value: bool)
        ensures
            final(self)@ == with_bit32(old(self)@, IPC_RECEIVE_FIFO_NOT_EMPTY_OFFSET, value),
    {
        self.0 = set_bit_u32(self.0, IPC_RECEIVE_FIFO_NOT_EMPTY_OFFSET, value);
    }

    pub fn set_ipcsync(&mut self, value: bool)
        ensures
            final(self)@ == with_bit32(old(self)@, IPCSYNC_OFFSET, value),
    {
        self.0 = set_bit_u32(self.0, IPCSYNC_OFFSET, value);
    }

    /// Raises the IPC send-FIFO-empty line when `value` holds; never clears it.
    pub fn falsy_set_ipc_send_fifo_empty(&mut self, value: bool)
        ensures
            final(self)@ == raised32(old(self)@, IPC_SEND_FIFO_EMPTY_OFFSET, value),
    {
        if value {
            self.0 = set_bit_u32(self.0, IPC_SEND_FIFO_EMPTY_OFFSET, true);
        }
    }

    /// Raises the IPC receive-FIFO-not-empty line when `value` holds; never
    /// clears it.
    pub fn falsy_set_ipc_receive_fifo_not_empty(&mut self, value: bool)
        ensures
            final(self)@ == raised32(old(self)@, IPC_RECEIVE_FIFO_NOT_EMPTY_OFFSET, value),
    {
        if value {
            self.0 = set_bit_u32(self.0, IPC_RECEIVE_FIFO_NOT_EMPTY_OFFSET, true);
        }
    }

    /// Raises the overflow line of timer `index` (bit 3 + `index`; bits 3 to
    /// 6 for the four timers) when `value` holds; never clears it.
    pub fn falsy_set_timer_overflow(&mut self, index: u8, value: bool)
        requires
            value ==> index < 29,
        ensures
            final(self)@ == raised32(old(self)@, (TIMER0_OVERFLOW_OFFSET + index) as u32, value),
    {
        if value {
            self.0 = set_bit_u32(self.0, TIMER0_OVERFLOW_OFFSET + index as u32, true);
        }
    }
}

} // verus!
