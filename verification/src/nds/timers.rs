//! The four hardware timers of a processor.
use vstd::prelude::*;

use super::bits::{bit16, field16, field32, get_bit_u16, get_bits_u16, get_bits_u32};
use super::interrupts::{raised32, Interrupts, TIMER0_OVERFLOW_OFFSET};
use super::logger::{LogKind, LogRequest, LogSource};

verus! {

/// How much the counter moves on each tick of a running timer.
pub const COUNTER_STEP: u16 = 6;

/// The observable state of one timer.
pub struct TimerView {
    pub index: u8,
    pub control: u16,
    pub reload: u16,
    pub counter: u16,
    pub next_run: i16,
    pub next_run_prescaler: i16,
}

/// The number of system clocks per tick for a prescaler selection.
pub open spec fn prescaler_period(prescaler: u16) -> i16 {
    if prescaler == 0 {
        1
    } else if prescaler == 1 {
        64
    } else if prescaler == 2 {
        256
    } else {
        1024
    }
}

/// The prescaler selection of TMCNT_H, bits 0-1.
pub open spec fn control_prescaler(control: u16) -> u16 {
    field16(control, 0, 1)
}

/// Count-up timing, bit 2.
pub open spec fn control_count_up(control: u16) -> bool {
    bit16(control, 2)
}

/// Overflow IRQ enable, bit 6.
pub open spec fn control_irq_enable(control: u16) -> bool {
    bit16(control, 6)
}

/// Timer start/stop, bit 7.
pub open spec fn control_operating(control: u16) -> bool {
    bit16(control, 7)
}

impl TimerView {
    pub open spec fn wf(self) -> bool {
        &&& self.next_run_prescaler == prescaler_period(control_prescaler(self.control))
        &&& 1 <= self.next_run <= self.next_run_prescaler
    }

    /// Whether a clock decrements the countdown to the next tick.
    pub open spec fn counting(self) -> bool {
        control_operating(self.control) && !control_count_up(self.control)
    }

    /// Whether this clock makes the timer tick.
    pub open spec fn ticks(self) -> bool {
        self.counting() && self.next_run == 1
    }

    /// Whether the tick of this clock overflows the counter.
    pub open spec fn overflows(self) -> bool {
        self.counter + COUNTER_STEP > 0xFFFF
    }

    /// The timer after one system clock.
    pub open spec fn clocked(self) -> TimerView {
        if self.ticks() {
            TimerView {
                next_run: self.next_run_prescaler,
                counter: if self.overflows() {
                    self.reload
                } else {
                    (self.counter + COUNTER_STEP) as u16
                },
                ..self
            }
        } else if self.counting() {
            TimerView { next_run: (self.next_run - 1) as i16, ..self }
        } else {
            self
        }
    }

    /// The interrupt flags after one system clock of this timer.
    pub open spec fn clocked_flags(self, flags: u32) -> u32 {
        raised32(
            flags,
            (TIMER0_OVERFLOW_OFFSET + self.index) as u32,
            self.ticks() && control_irq_enable(self.control) && self.overflows(),
        )
    }

    /// The timer after TMCNT_H is written with `control`.
    pub open spec fn with_control(self, control: u16) -> TimerView {
        let old_prescaler = control_prescaler(self.control);
        let new_prescaler = control_prescaler(control);
        TimerView {
            control,
            counter: if !control_operating(self.control) && control_operating(control) {
                self.reload
            } else {
                self.counter
            },
            next_run_prescaler: if new_prescaler != old_prescaler {
                prescaler_period(new_prescaler)
            } else {
                self.next_run_prescaler
            },
            next_run: if new_prescaler != old_prescaler {
                prescaler_period(new_prescaler)
            } else {
                self.next_run
            },
            ..self
        }
    }
}

/// The timer after `n` system clocks.
pub open spec fn clocked_times(t: TimerView, n: nat) -> TimerView
    decreases n,
{
    if n == 0 {
        t
    } else {
        clocked_times(t, (n - 1) as nat).clocked()
    }
}

/// A running timer in normal mode ticks once every prescaler period: the
/// counter stays for `next_run - 1` clocks and moves on at the next one,
/// which starts a full period again.
pub proof fn lemma_ticks_once_per_period(t: TimerView, n: nat)
    requires
        t.wf(),
        t.counting(),
        n <= t.next_run,
    ensures
        clocked_times(t, n).wf(),
        n < t.next_run ==> clocked_times(t, n) == (TimerView { next_run: (t.next_run - n) as i16, ..t }),
        n == t.next_run ==> clocked_times(t, n) == (TimerView {
            next_run: t.next_run_prescaler,
            counter: if t.overflows() {
                t.reload
            } else {
                (t.counter + COUNTER_STEP) as u16
            },
            ..t
        }),
    decreases n,
{
    if n > 0 {
        lemma_ticks_once_per_period(t, (n - 1) as nat);
    }
}

/// A stopped timer, or one in count-up mode, does not move.
pub proof fn lemma_idle_timer_stays(t: TimerView, n: nat)
    requires
        !t.counting(),
    ensures
        clocked_times(t, n) == t,
    decreases n,
{
    if n > 0 {
        lemma_idle_timer_stays(t, (n - 1) as nat);
    }
}

/// The prescaler selection in TMCNT_H bits 0-1 sets how often a running
/// timer ticks: every 1, 64, 256 or 1024 system clocks for selections 0 to 3.
/// Right after TMCNT_H is written with a new selection (and the timer running
/// in normal mode), the counter stays as it is for `period - 1` clocks and
/// moves on by 6 (or back to the reload value past 0xFFFF) at the
/// `period`-th.
pub proof fn lemma_prescaler_periods(t: TimerView, value: u16, n: nat)
    requires
        t.wf(),
        value % 4 != t.control % 4,
        (value / 128) % 2 == 1,
        (value / 4) % 2 == 0,
    ensures
        ({
            let period: nat = if value % 4 == 0 {
                1
            } else if value % 4 == 1 {
                64
            } else if value % 4 == 2 {
                256
            } else {
                1024
            };
            let u = t.with_control(value);
            &&& n < period ==> clocked_times(u, n).counter == u.counter
            &&& n == period ==> clocked_times(u, n).counter == if u.counter + 6 > 0xFFFF {
                u.reload
            } else {
                (u.counter + 6) as u16
            }
        }),
{
    let c = t.control;
    crate::nds::bits::lemma_fields16(value);
    crate::nds::bits::lemma_fields16(c);
    let u = t.with_control(value);
    let period: nat = if value % 4 == 0 {
        1
    } else if value % 4 == 1 {
        64
    } else if value % 4 == 2 {
        256
    } else {
        1024
    };
    assert(u.next_run == period && u.next_run_prescaler == period);
    assert(u.wf() && u.counting());
    if n <= period {
        lemma_ticks_once_per_period(u, n);
    }
}

pub struct Timers {
    timers: [Timer; 4],
}

impl Default for Timers {
    fn default() -> (r: Self)
        ensures
            r.wf(),
            forall|i: int| 0 <= i < 4 ==> #[trigger] r@[i] == Timer::initial(i as u8),
    {
        Timers { timers: [Timer::new(0), Timer::new(1), Timer::new(2), Timer::new(3)] }
    }
}

impl View for Timers {
    type V = Seq<TimerView>;

    closed spec fn view(&self) -> Seq<TimerView> {
        seq![self.timers[0]@, self.timers[1]@, self.timers[2]@, self.timers[3]@]
    }
}

impl Timers {
    /// Each timer is well formed and knows its own position.
    pub open spec fn wf(&self) -> bool {
        &&& self@.len() == 4
        &&& forall|i: int| 0 <= i < 4 ==> #[trigger] self@[i].wf() && self@[i].index == i
    }

    pub fn get(&self, index: usize) -> (r: &Timer)
        requires
            index < 4,
        ensures
            r@ == self@[index as int],
    {
        &self.timers[index]
    }

    pub fn get_mut(&mut self, index: usize) -> (r: &mut Timer)
        requires
            index < 4,
        ensures
            r@ == old(self)@[index as int],
            final(self)@ == old(self)@.update(index as int, final(r)@),
    {
        &mut self.timers[index]
    }

    /// Clocks the four timers in order; each may raise its overflow line in IF.
    pub fn clock(&mut self, interrupts: &mut Interrupts)
        requires
            old(self).wf(),
        ensures
            final(self).wf(),
            forall|i: int| 0 <= i < 4 ==> #[trigger] final(self)@[i] == old(self)@[i].clocked(),
            final(interrupts).f@ == old(self)@[3].clocked_flags(
                old(self)@[2].clocked_flags(
                    old(self)@[1].clocked_flags(old(self)@[0].clocked_flags(old(interrupts).f@)),
                ),
            ),
            final(interrupts).e@ == old(interrupts).e@,
            final(interrupts).me@ == old(interrupts).me@,
    {
        proof {
            assert(old(self)@[0].wf() && old(self)@[1].wf());
            assert(old(self)@[2].wf() && old(self)@[3].wf());
        }
        self.timers[0].clock(interrupts);
        self.timers[1].clock(interrupts);
        self.timers[2].clock(interrupts);
        self.timers[3].clock(interrupts);
    }
}

pub struct Timer {
    index: u8,
    control: TmCnt,
    reload: u16,
    counter: u16,
    next_run: i16,
    next_run_prescaler: i16,
}

impl View for Timer {
    type V = TimerView;

    closed spec fn view(&self) -> TimerView {
        TimerView {
            index: self.index,
            control: self.control.0,
            reload: self.reload,
            counter: self.counter,
            next_run: self.next_run,
            next_run_prescaler: self.next_run_prescaler,
        }
    }
}

impl Timer {
    /// A stopped timer at reset.
    pub open spec fn initial(index: u8) -> TimerView {
        TimerView { index, control: 0, reload: 0, counter: 0, next_run: 1, next_run_prescaler: 1 }
    }

    pub fn new(index: u8) -> (r: Self)
        ensures
            r@ == Self::initial(index),
            r@.wf(),
    {
        proof {
            assert(field16(0u16, 0, 1) == 0) by (bit_vector);
        }
        Timer {
            index,
            control: TmCnt(0),
            reload: 0,
            counter: 0,
            next_run: 1,
            next_run_prescaler: 1,
        }
    }

    pub fn get_counter(&self) -> (r: u16)
        ensures
            r == self@.counter,
    {
        self.counter
    }

    pub fn get_control(&self) -> (r: u16)
        ensures
            r == self@.control,
    {
        self.control.0
    }

    /// A 32-bit write: the low half sets the reload value, the high half TMCNT_H.
    pub fn set(&mut self, value: u32)
        requires
            old(self)@.wf(),
        ensures
            final(self)@ == (TimerView { reload: value as u16, ..old(self)@ }).with_control(
                field32(value, 16, 31) as u16,
            ),
            final(self)@.wf(),
    {
        let old_prescaler = self.control.get_prescaler();
        let old_enable = self.control.get_timer_operating();

        self.reload = value as u16;
        let high = get_bits_u32(value, 16, 31);
        proof {
            assert(field32(value, 16, 31) <= 0xFFFF) by (bit_vector);
        }
        self.control.set(high as u16);

        self.cnt_updated(old_prescaler, old_enable);
    }

    /// A write of the reload value (TMCNT_L).
    pub fn set_l(&mut self, value: u16)
        ensures
            final(self)@ == (TimerView { reload: value, ..old(self)@ }),
    {
        self.reload = value;
    }

    /// A write of TMCNT_H.
    pub fn set_h(&mut self, value: u16)
        requires
            old(self)@.wf(),
        ensures
            final(self)@ == old(self)@.with_control(value),
            final(self)@.wf(),
    {
        let old_prescaler = self.control.get_prescaler();
        let old_enable = self.control.get_timer_operating();

        self.control.set(value);

        self.cnt_updated(old_prescaler, old_enable);
    }

    /// One system clock.
    pub fn clock(&mut self, interrupts: &mut Interrupts)
        requires
            old(self)@.wf(),
            old(self)@.ticks() && control_irq_enable(old(self)@.control) && old(self)@.overflows()
                ==> old(self)@.index < 29,
        ensures
            final(self)@ == old(self)@.clocked(),
            final(self)@.wf(),
            final(interrupts).f@ == old(self)@.clocked_flags(old(interrupts).f@),
            final(interrupts).e@ == old(interrupts).e@,
            final(interrupts).me@ == old(interrupts).me@,
    {
        let is_operating = self.control.get_timer_operating();
        let is_normal_mode = !self.control.get_count_up_timing();
        if is_operating && is_normal_mode {
            self.next_run = self.next_run - 1;
        }
        if self.next_run <= 0 {
            self.next_run = self.next_run_prescaler;

            let overflow = self.counter > 0xFFFF - COUNTER_STEP;
            if overflow {
                self.counter = self.reload;
            } else {
                self.counter = self.counter + COUNTER_STEP;
            }

            interrupts.f.falsy_set_timer_overflow(
                self.index,
                self.control.get_overflow_irq_enable() && overflow,
            );
        }
    }

    /// The log entry that writing `value` to TMCNT_H makes (by `set_h`, or by
    /// `set` with `value` as its high half), for the caller to log: an error,
    /// once, when `value` asks for count-up timing, which is not implemented.
    pub fn control_log(value: u16) -> (r: Option<LogRequest>)
        ensures
            !control_count_up(value) ==> r is None,
            control_count_up(value) ==> (r matches Some(l) && l.kind == LogKind::Error && l.source
                == LogSource::Emu && l.content@ == "Count up timing not implemented"@ && l.once),
    {
        if get_bit_u16(value, 2) {
            Some(
                LogRequest {
                    kind: LogKind::Error,
                    source: LogSource::Emu,
                    content: "Count up timing not implemented".to_owned(),
                    once: true,
                },
            )
        } else {
            None
        }
    }

    fn cnt_updated(&mut self, old_prescaler: u16, old_enable: bool)
        requires
            old_prescaler <= 3,
            old(self)@.next_run_prescaler == prescaler_period(old_prescaler),
            1 <= old(self)@.next_run <= old(self)@.next_run_prescaler,
        ensures
            final(self)@ == (TimerView {
                counter: if !old_enable && control_operating(old(self)@.control) {
                    old(self)@.reload
                } else {
                    old(self)@.counter
                },
                next_run_prescaler: if control_prescaler(old(self)@.control) != old_prescaler {
                    prescaler_period(control_prescaler(old(self)@.control))
                } else {
                    old(self)@.next_run_prescaler
                },
                next_run: if control_prescaler(old(self)@.control) != old_prescaler {
                    prescaler_period(control_prescaler(old(self)@.control))
                } else {
                    old(self)@.next_run
                },
                ..old(self)@
            }),
    {
        if !old_enable && self.control.get_timer_operating() {
            self.counter = self.reload;
        }

        let new_prescaler = self.control.get_prescaler();
        if new_prescaler != old_prescaler {
            self.next_run_prescaler = if new_prescaler == 0 {
                1
            } else if new_prescaler == 1 {
                64
            } else if new_prescaler == 2 {
                256
            } else {
                1024
            };
            self.next_run = self.next_run_prescaler;
        }
    }
}

/// TMCNT_H.
pub struct TmCnt(u16);

impl View for TmCnt {
    type V = u16;

    closed spec fn view(&self) -> u16 {
        self.0
    }
}

impl TmCnt {
    pub fn set(&mut self, value: u16)
        ensures
            final(self)@ == value,
    {
        self.0 = value;
    }

    pub fn get_prescaler(&self) -> (r: u16)
        ensures
            r == control_prescaler(self@),
            r <= 3,
    {
        proof {
            let v = self.0;
            assert(field16(v, 0, 1) <= 3) by (bit_vector);
        }
        get_bits_u16(self.0, 0, 1)
    }

    pub fn get_count_up_timing(&self) -> (r: bool)
        ensures
            r == control_count_up(self@),
    {
        get_bit_u16(self.0, 2)
    }

    pub fn get_overflow_irq_enable(&self) -> (r: bool)
        ensures
            r == control_irq_enable(self@),
    {
        get_bit_u16(self.0, 6)
    }

    pub fn get_timer_operating(&self) -> (r: bool)
        ensures
            r == control_operating(self@),
    {
        get_bit_u16(self.0, 7)
    }
}

} // verus!
