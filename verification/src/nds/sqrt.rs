//! The ARM9 hardware square root unit.
use vstd::prelude::*;

use super::bits::{bit32, get_bit_u32, set_bit_u32, with_bit32};

verus! {

/// `r` is the integer square root of `n`: the largest `r` whose square does
/// not exceed `n`.
pub open spec fn is_isqrt(n: int, r: int) -> bool {
    0 <= r && r * r <= n < (r + 1) * (r + 1)
}

/// The integer square root, with bit 0 of the control selecting a 64-bit
/// parameter (`hi:lo`) over a 32-bit one (`lo`).
pub open spec fn merge_lo_hi_spec(lo: u32, hi: u32) -> int {
    hi * 0x1_0000_0000 + lo
}

/// The integer square root is unique.
pub proof fn lemma_isqrt_unique(n: int, r1: int, r2: int)
    requires
        is_isqrt(n, r1),
        is_isqrt(n, r2),
    ensures
        r1 == r2,
{
    if r1 < r2 {
        assert((r1 + 1) * (r1 + 1) <= r2 * r2) by (nonlinear_arith)
            requires
                0 <= r1 < r2,
        ;
    } else if r2 < r1 {
        assert((r2 + 1) * (r2 + 1) <= r1 * r1) by (nonlinear_arith)
            requires
                0 <= r2 < r1,
        ;
    }
}

/// The integer square root of a 64-bit value, by bisection.
pub fn isqrt_u64(n: u64) -> (r: u64)
    ensures
        is_isqrt(n as int, r as int),
        r < 0x1_0000_0000,
{
    let mut lo: u64 = 0;
    let mut hi: u64 = 0x1_0000_0000;
    proof {
        assert(0x1_0000_0000 * 0x1_0000_0000 > u64::MAX) by (nonlinear_arith);
    }
    while hi - lo > 1
        invariant
            lo < hi <= 0x1_0000_0000,
            lo * lo <= n,
            n < hi * hi,
        decreases hi - lo,
    {
        let mid = lo + (hi - lo) / 2;
        assert(mid * mid < 0x1_0000_0000 * 0x1_0000_0000) by (nonlinear_arith)
            requires
                mid < 0x1_0000_0000,
        ;
        assert(mid * mid <= u64::MAX) by (nonlinear_arith)
            requires
                mid < 0x1_0000_0000,
        ;
        if mid * mid <= n {
            lo = mid;
        } else {
            hi = mid;
        }
    }
    lo
}

pub struct SquareRootUnit {
    pub control: SquareRootControl,
    pub param_lo: u32,
    pub param_hi: u32,
    pub result: u32,
    pub running: bool,
}

impl Default for SquareRootUnit {
    fn default() -> (r: Self)
        ensures
            r.control@ == 0,
            r.param_lo == 0,
            r.param_hi == 0,
            r.result == 0,
            !r.running,
    {
        SquareRootUnit {
            control: SquareRootControl(0),
            param_lo: 0,
            param_hi: 0,
            result: 0,
            running: false,
        }
    }
}

/// The result that the unit computes from its control and parameters.
pub open spec fn sqrt_result(control: u32, lo: u32, hi: u32, r: u32) -> bool {
    if bit32(control, 0) {
        is_isqrt(merge_lo_hi_spec(lo, hi), r as int)
    } else {
        is_isqrt(lo as int, r as int)
    }
}

impl SquareRootUnit {
    pub fn set_control(&mut self, value: u32)
        ensures
            final(self).control@ == with_bit32(value, 15, true),
            final(self).running,
            final(self).param_lo == old(self).param_lo,
            final(self).param_hi == old(self).param_hi,
            final(self).result == old(self).result,
    {
        self.control.set(value);
        self.start();
    }

    /// Writes the low (`LO`) or high half of the parameter and starts the unit.
    pub fn set_param<const LO: bool>(&mut self, value: u32)
        ensures
            final(self).param_lo == if LO {
                value
            } else {
                old(self).param_lo
            },
            final(self).param_hi == if LO {
                old(self).param_hi
            } else {
                value
            },
            final(self).control@ == with_bit32(old(self).control@, 15, true),
            final(self).running,
            final(self).result == old(self).result,
    {
        if LO {
            self.param_lo = value;
        } else {
            self.param_hi = value;
        }

        self.start();
    }

    fn start(&mut self)
        ensures
            final(self).control@ == with_bit32(old(self).control@, 15, true),
            final(self).running,
            final(self).param_lo == old(self).param_lo,
            final(self).param_hi == old(self).param_hi,
            final(self).result == old(self).result,
    {
        self.running = true;
        self.control.set_busy(true);
    }

    /// One clock: a pending computation completes, its result is stored and
    /// the busy bit (15) cleared; with nothing pending nothing changes.
    pub fn clock(&mut self)
        ensures
            !old(self).running ==> *final(self) == *old(self),
            old(self).running ==> {
                &&& sqrt_result(old(self).control@, old(self).param_lo, old(self).param_hi, final(self).result)
                &&& final(self).control@ == with_bit32(old(self).control@, 15, false)
                &&& !final(self).running
                &&& final(self).param_lo == old(self).param_lo
                &&& final(self).param_hi == old(self).param_hi
            },
    {
        if !self.running {
            return;
        }
        if self.control.get_mode() {
            // 64-bit input
            let r = isqrt_u64(merge_lo_hi(self.param_lo, self.param_hi));
            self.result = r as u32;
        } else {
            // 32-bit input
            let r = isqrt_u64(self.param_lo as u64);
            self.result = r as u32;
        }

        self.running = false;
        self.control.set_busy(false);
    }
}

fn merge_lo_hi(lo: u32, hi: u32) -> (r: u64)
    ensures
        r as int == merge_lo_hi_spec(lo, hi),
{
    let r = ((hi as u64) << 32) | lo as u64;
    proof {
        assert(((hi as u64) << 32) | lo as u64 == (hi as u64) * 0x1_0000_0000u64 + lo as u64)
            by (bit_vector);
    }
    r
}

/// SQRTCNT: bit 0 selects a 64-bit parameter, bit 15 is the busy flag.
pub struct SquareRootControl(u32);

impl View for SquareRootControl {
    type V = u32;

    closed spec fn view(&self) -> u32 {
        self.0
    }
}

impl SquareRootControl {
    pub fn value(&self) -> (r: u32)
        ensures
            r == self@,
    {
        self.0
    }

    fn set(&mut self, value: u32)
        ensures
            final(self)@ == value,
    {
        self.0 = value;
    }

    fn get_mode(&self) -> (r: bool)
        ensures
            r == bit32(self@, 0),
    {
        get_bit_u32(self.0, 0)
    }

    fn set_busy(&mut self, value: bool)
        ensures
            final(self)@ == with_bit32(old(self)@, 15, value),
    {
        self.0 = set_bit_u32(self.0, 15, value);
    }
}

} // verus!
