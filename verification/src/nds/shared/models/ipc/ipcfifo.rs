//! The IPC FIFO: two 16-word queues between the ARM9 and the ARM7, one per
//! direction, with a control register on each side.
//!
//! `ARM_BOOL` is `true` for the ARM9 side and `false` for the ARM7 side.
use vstd::prelude::*;

use std::collections::VecDeque;

use crate::nds::bits::{bit32, get_bit_u32, set_bit_u32, with_bit32};
use crate::nds::interrupts::{
    raised32, Interrupts, IPC_RECEIVE_FIFO_NOT_EMPTY_OFFSET, IPC_SEND_FIFO_EMPTY_OFFSET,
};

verus! {

/// The capacity of each queue.
pub const FIFO_CAPACITY: usize = 16;

/// The control bits that one side holds.
pub struct IpcFifoCnt {
    pub send_fifo_empty_irq: bool,
    pub receive_fifo_not_empty_irq: bool,
    pub error: bool,
    pub enabled: bool,
}

impl Default for IpcFifoCnt {
    fn default() -> (r: Self)
        ensures
            !r.send_fifo_empty_irq,
            !r.receive_fifo_not_empty_irq,
            !r.error,
            !r.enabled,
    {
        IpcFifoCnt {
            send_fifo_empty_irq: false,
            receive_fifo_not_empty_irq: false,
            error: false,
            enabled: false,
        }
    }
}

pub struct IpcFifo {
    pub cnt9: IpcFifoCnt,
    pub cnt7: IpcFifoCnt,
    pub send_queue9: VecDeque<u32>,
    pub send_queue7: VecDeque<u32>,
    pub recent9: u32,
    pub recent7: u32,
}

impl Default for IpcFifo {
    fn default() -> (r: Self)
        ensures
            r.initial(),
    {
        IpcFifo {
            cnt9: IpcFifoCnt::default(),
            cnt7: IpcFifoCnt::default(),
            send_queue9: VecDeque::new(),
            send_queue7: VecDeque::new(),
            recent9: 0,
            recent7: 0,
        }
    }
}

/// The queue after one word is sent into it: a full queue loses its last
/// word to make room.
pub open spec fn queue_after_send(q: Seq<u32>, v: u32) -> Seq<u32> {
    if q.len() >= FIFO_CAPACITY {
        q.drop_last().push(v)
    } else {
        q.push(v)
    }
}

/// The queue after the words of `vs` are sent into it in order.
pub open spec fn queue_after_sends(q: Seq<u32>, vs: Seq<u32>) -> Seq<u32>
    decreases vs.len(),
{
    if vs.len() == 0 {
        q
    } else {
        queue_after_send(queue_after_sends(q, vs.drop_last()), vs.last())
    }
}

/// The word of FIFOCNT as one side reads it.
pub open spec fn cnt_word(
    send_empty: bool,
    send_full: bool,
    send_irq: bool,
    receive_empty: bool,
    receive_full: bool,
    receive_irq: bool,
    error: bool,
    enabled: bool,
) -> u32 {
    with_bit32(
        with_bit32(
            with_bit32(
                with_bit32(
                    with_bit32(
                        with_bit32(
                            with_bit32(with_bit32(0, 0, send_empty), 1, send_full),
                            2,
                            send_irq,
                        ),
                        8,
                        receive_empty,
                    ),
                    9,
                    receive_full,
                ),
                10,
                receive_irq,
            ),
            14,
            error,
        ),
        15,
        enabled,
    )
}

/// The IF word after a write of FIFOCNT on a side whose send queue is
/// `send_empty` and whose receive queue is `receive_empty`.
pub open spec fn flags_after_cnt_write(
    flags: u32,
    cnt: IpcFifoCnt,
    send_empty: bool,
    receive_empty: bool,
    value: u32,
) -> u32 {
    with_bit32(
        with_bit32(
            flags,
            IPC_SEND_FIFO_EMPTY_OFFSET,
            !cnt.send_fifo_empty_irq && bit32(value, 2) && send_empty,
        ),
        IPC_RECEIVE_FIFO_NOT_EMPTY_OFFSET,
        !cnt.receive_fifo_not_empty_irq && bit32(value, 10) && !receive_empty,
    )
}

/// The control bits after a write of FIFOCNT.
pub open spec fn cnt_after_write(cnt: IpcFifoCnt, value: u32) -> IpcFifoCnt {
    IpcFifoCnt {
        send_fifo_empty_irq: bit32(value, 2),
        receive_fifo_not_empty_irq: bit32(value, 10),
        error: cnt.error && !bit32(value, 14),
        enabled: bit32(value, 15),
    }
}

/// Words sent into a queue with room for them come out in the order sent,
/// after the words already there.
pub proof fn lemma_sends_in_order(q: Seq<u32>, vs: Seq<u32>)
    requires
        q.len() + vs.len() <= FIFO_CAPACITY,
    ensures
        queue_after_sends(q, vs) == q + vs,
    decreases vs.len(),
{
    if vs.len() > 0 {
        lemma_sends_in_order(q, vs.drop_last());
        assert(q + vs.drop_last() + seq![vs.last()] == q + vs);
    }
}

/// A queue never holds more than its capacity.
pub proof fn lemma_sends_bounded(q: Seq<u32>, vs: Seq<u32>)
    requires
        q.len() <= FIFO_CAPACITY,
    ensures
        queue_after_sends(q, vs).len() <= FIFO_CAPACITY,
    decreases vs.len(),
{
    if vs.len() > 0 {
        lemma_sends_bounded(q, vs.drop_last());
    }
}

impl IpcFifo {
    /// Both queues empty, both sides disabled with no interrupt and no error,
    /// nothing received yet.
    pub open spec fn initial(&self) -> bool {
        &&& self.send_queue9@ == Seq::<u32>::empty()
        &&& self.send_queue7@ == Seq::<u32>::empty()
        &&& !self.cnt9.enabled && !self.cnt9.error && !self.cnt9.send_fifo_empty_irq
            && !self.cnt9.receive_fifo_not_empty_irq
        &&& !self.cnt7.enabled && !self.cnt7.error && !self.cnt7.send_fifo_empty_irq
            && !self.cnt7.receive_fifo_not_empty_irq
        &&& self.recent9 == 0
        &&& self.recent7 == 0
    }

    pub open spec fn wf(&self) -> bool {
        &&& self.send_queue9@.len() <= FIFO_CAPACITY
        &&& self.send_queue7@.len() <= FIFO_CAPACITY
    }

    /// The control bits of a side.
    pub open spec fn cnt_of(&self, arm9: bool) -> IpcFifoCnt {
        if arm9 {
            self.cnt9
        } else {
            self.cnt7
        }
    }

    /// The queue that a side sends into.
    pub open spec fn sent_by(&self, arm9: bool) -> Seq<u32> {
        if arm9 {
            self.send_queue9@
        } else {
            self.send_queue7@
        }
    }

    /// The last word that a side received.
    pub open spec fn recent_of(&self, arm9: bool) -> u32 {
        if arm9 {
            self.recent9
        } else {
            self.recent7
        }
    }

    fn set_cnt_side(
        cnt: &mut IpcFifoCnt,
        send_queue: &mut VecDeque<u32>,
        receive_empty: bool,
        interrupts: &mut Interrupts,
        value: u32,
    )
        ensures
            final(interrupts).f@ == flags_after_cnt_write(
                old(interrupts).f@,
                *old(cnt),
                old(send_queue)@.len() == 0,
                receive_empty,
                value,
            ),
            final(interrupts).e@ == old(interrupts).e@,
            final(interrupts).me@ == old(interrupts).me@,
            final(send_queue)@ == if bit32(value, 3) {
                Seq::<u32>::empty()
            } else {
                old(send_queue)@
            },
            *final(cnt) == cnt_after_write(*old(cnt), value),
    {
        interrupts.f.set_ipc_send_fifo_empty(
            !cnt.send_fifo_empty_irq && get_bit_u32(value, 2) && send_queue.len() == 0,
        );
        interrupts.f.set_ipc_receive_fifo_not_empty(
            !cnt.receive_fifo_not_empty_irq && get_bit_u32(value, 10) && !receive_empty,
        );

        if get_bit_u32(value, 3) {
            send_queue.clear();
        }

        cnt.send_fifo_empty_irq = get_bit_u32(value, 2);
        cnt.receive_fifo_not_empty_irq = get_bit_u32(value, 10);
        cnt.error = cnt.error && !get_bit_u32(value, 14);
        cnt.enabled = get_bit_u32(value, 15);
    }

    /// A write of this side's FIFOCNT: bit 2 and bit 10 enable the send-empty
    /// and receive-not-empty interrupts (raising them at once when their
    /// condition already holds and they were off), bit 3 clears the send
    /// queue, bit 14 acknowledges an error and bit 15 enables the FIFO.
    pub fn set_cnt<const ARM_BOOL: bool>(&mut self, interrupts: &mut Interrupts, value: u32)
        requires
            old(self).wf(),
        ensures
            final(self).wf(),
            final(interrupts).f@ == flags_after_cnt_write(
                old(interrupts).f@,
                old(self).cnt_of(ARM_BOOL),
                old(self).sent_by(ARM_BOOL).len() == 0,
                old(self).sent_by(!ARM_BOOL).len() == 0,
                value,
            ),
            final(interrupts).e@ == old(interrupts).e@,
            final(interrupts).me@ == old(interrupts).me@,
            final(self).cnt_of(ARM_BOOL) == cnt_after_write(old(self).cnt_of(ARM_BOOL), value),
            final(self).cnt_of(!ARM_BOOL) == old(self).cnt_of(!ARM_BOOL),
            final(self).sent_by(ARM_BOOL) == if bit32(value, 3) {
                Seq::<u32>::empty()
            } else {
                old(self).sent_by(ARM_BOOL)
            },
            final(self).sent_by(!ARM_BOOL) == old(self).sent_by(!ARM_BOOL),
            final(self).recent9 == old(self).recent9,
            final(self).recent7 == old(self).recent7,
    {
        if ARM_BOOL {
            let receive_empty = self.send_queue7.len() == 0;
            Self::set_cnt_side(
                &mut self.cnt9,
                &mut self.send_queue9,
                receive_empty,
                interrupts,
                value,
            );
        } else {
            let receive_empty = self.send_queue9.len() == 0;
            Self::set_cnt_side(
                &mut self.cnt7,
                &mut self.send_queue7,
                receive_empty,
                interrupts,
                value,
            );
        }
    }

    /// This side's FIFOCNT as read: bits 0/1 send queue empty/full, bit 2
    /// send-empty IRQ, bits 8/9 receive queue empty/full, bit 10
    /// receive-not-empty IRQ, bit 14 error, bit 15 enabled.
    pub fn get_cnt<const ARM_BOOL: bool>(&self) -> (r: u32)
        ensures
            r == cnt_word(
                self.sent_by(ARM_BOOL).len() == 0,
                self.sent_by(ARM_BOOL).len() == FIFO_CAPACITY,
                self.cnt_of(ARM_BOOL).send_fifo_empty_irq,
                self.sent_by(!ARM_BOOL).len() == 0,
                self.sent_by(!ARM_BOOL).len() == FIFO_CAPACITY,
                self.cnt_of(ARM_BOOL).receive_fifo_not_empty_irq,
                self.cnt_of(ARM_BOOL).error,
                self.cnt_of(ARM_BOOL).enabled,
            ),
    {
        let (cnt, send_queue, receive_queue) = if ARM_BOOL {
            (&self.cnt9, &self.send_queue9, &self.send_queue7)
        } else {
            (&self.cnt7, &self.send_queue7, &self.send_queue9)
        };

        let mut value: u32 = 0;

        value = set_bit_u32(value, 0, send_queue.len() == 0);
        value = set_bit_u32(value, 1, send_queue.len() == FIFO_CAPACITY);
        value = set_bit_u32(value, 2, cnt.send_fifo_empty_irq);

        value = set_bit_u32(value, 8, receive_queue.len() == 0);
        value = set_bit_u32(value, 9, receive_queue.len() == FIFO_CAPACITY);
        value = set_bit_u32(value, 10, cnt.receive_fifo_not_empty_irq);

        value = set_bit_u32(value, 14, cnt.error);
        value = set_bit_u32(value, 15, cnt.enabled);

        value
    }

    fn send_side(cnt: &mut IpcFifoCnt, send_queue: &mut VecDeque<u32>, value: u32)
        requires
            old(send_queue)@.len() <= FIFO_CAPACITY,
        ensures
            !old(cnt).enabled ==> *final(cnt) == *old(cnt) && final(send_queue)@ == old(
                send_queue,
            )@,
            old(cnt).enabled ==> {
                &&& final(send_queue)@ == queue_after_send(old(send_queue)@, value)
                &&& *final(cnt) == (IpcFifoCnt {
                    error: final(send_queue)@.len() == FIFO_CAPACITY,
                    ..*old(cnt)
                })
            },
            final(send_queue)@.len() <= FIFO_CAPACITY,
    {
        if !cnt.enabled {
            return;
        }
        if send_queue.len() == FIFO_CAPACITY {
            send_queue.pop_back();
        }
        send_queue.push_back(value);
        cnt.error = send_queue.len() == FIFO_CAPACITY;
    }

    /// A write of this side's FIFOSEND: with the FIFO enabled the word joins
    /// the back of this side's send queue (a full queue loses its last word),
    /// and the error bit tells whether the queue is now full.
    pub fn send<const ARM_BOOL: bool>(&mut self, value: u32)
        requires
            old(self).wf(),
        ensures
            final(self).wf(),
            final(self).sent_by(ARM_BOOL) == if old(self).cnt_of(ARM_BOOL).enabled {
                queue_after_send(old(self).sent_by(ARM_BOOL), value)
            } else {
                old(self).sent_by(ARM_BOOL)
            },
            final(self).cnt_of(ARM_BOOL) == if old(self).cnt_of(ARM_BOOL).enabled {
                IpcFifoCnt {
                    error: final(self).sent_by(ARM_BOOL).len() == FIFO_CAPACITY,
                    ..old(self).cnt_of(ARM_BOOL)
                }
            } else {
                old(self).cnt_of(ARM_BOOL)
            },
            final(self).sent_by(!ARM_BOOL) == old(self).sent_by(!ARM_BOOL),
            final(self).cnt_of(!ARM_BOOL) == old(self).cnt_of(!ARM_BOOL),
            final(self).recent9 == old(self).recent9,
            final(self).recent7 == old(self).recent7,
    {
        if ARM_BOOL {
            Self::send_side(&mut self.cnt9, &mut self.send_queue9, value);
        } else {
            Self::send_side(&mut self.cnt7, &mut self.send_queue7, value);
        }
    }

    fn receive_side(
        cnt: &mut IpcFifoCnt,
        receive_queue: &mut VecDeque<u32>,
        recent: &mut u32,
    ) -> (r: u32)
        ensures
            !old(cnt).enabled ==> {
                &&& r == *old(recent)
                &&& *final(cnt) == *old(cnt)
                &&& final(receive_queue)@ == old(receive_queue)@
                &&& *final(recent) == *old(recent)
            },
            old(cnt).enabled && old(receive_queue)@.len() == 0 ==> {
                &&& r == *old(recent)
                &&& *final(cnt) == (IpcFifoCnt { error: true, ..*old(cnt) })
                &&& final(receive_queue)@ == old(receive_queue)@
                &&& *final(recent) == *old(recent)
            },
            old(cnt).enabled && old(receive_queue)@.len() > 0 ==> {
                &&& r == old(receive_queue)@[0]
                &&& *final(cnt) == *old(cnt)
                &&& final(receive_queue)@ == old(receive_queue)@.drop_first()
                &&& *final(recent) == r
            },
    {
        if !cnt.enabled {
            return *recent;
        }
        if receive_queue.len() == 0 {
            cnt.error = true;
            return *recent;
        }
        let value = match receive_queue.pop_front() {
            Some(v) => v,
            None => *recent,
        };
        *recent = value;
        value
    }

    /// A read of this side's FIFORECV: with the FIFO enabled it takes the
    /// word at the front of the other side's send queue and remembers it; an
    /// empty queue sets the error bit. Otherwise the last word received is
    /// read again.
    pub fn receive<const ARM_BOOL: bool>(&mut self) -> (r: u32)
        requires
            old(self).wf(),
        ensures
            final(self).wf(),
            ({
                let q = old(self).sent_by(!ARM_BOOL);
                let cnt = old(self).cnt_of(ARM_BOOL);
                if cnt.enabled && q.len() > 0 {
                    &&& r == q[0]
                    &&& final(self).sent_by(!ARM_BOOL) == q.drop_first()
                    &&& final(self).recent_of(ARM_BOOL) == r
                    &&& final(self).cnt_of(ARM_BOOL) == cnt
                } else {
                    &&& r == old(self).recent_of(ARM_BOOL)
                    &&& final(self).sent_by(!ARM_BOOL) == q
                    &&& final(self).recent_of(ARM_BOOL) == old(self).recent_of(ARM_BOOL)
                    &&& final(self).cnt_of(ARM_BOOL) == if cnt.enabled {
                        IpcFifoCnt { error: true, ..cnt }
                    } else {
                        cnt
                    }
                }
            }),
            final(self).sent_by(ARM_BOOL) == old(self).sent_by(ARM_BOOL),
            final(self).cnt_of(!ARM_BOOL) == old(self).cnt_of(!ARM_BOOL),
            final(self).recent_of(!ARM_BOOL) == old(self).recent_of(!ARM_BOOL),
    {
        if ARM_BOOL {
            Self::receive_side(&mut self.cnt9, &mut self.send_queue7, &mut self.recent9)
        } else {
            Self::receive_side(&mut self.cnt7, &mut self.send_queue9, &mut self.recent7)
        }
    }

    /// Raises, on each processor, the send-empty line when its IRQ is enabled
    /// and its send queue is empty, and the receive-not-empty line when its
    /// IRQ is enabled and the queue it receives from holds a word.
    pub fn update_interrupts(&mut self, interrupts9: &mut Interrupts, interrupts7: &mut Interrupts)
        ensures
            *final(self) == *old(self),
            final(interrupts9).f@ == raised32(
                raised32(
                    old(interrupts9).f@,
                    IPC_SEND_FIFO_EMPTY_OFFSET,
                    old(self).cnt9.send_fifo_empty_irq && old(self).send_queue9@.len() == 0,
                ),
                IPC_RECEIVE_FIFO_NOT_EMPTY_OFFSET,
                old(self).cnt9.receive_fifo_not_empty_irq && old(self).send_queue7@.len() > 0,
            ),
            final(interrupts7).f@ == raised32(
                raised32(
                    old(interrupts7).f@,
                    IPC_SEND_FIFO_EMPTY_OFFSET,
                    old(self).cnt7.send_fifo_empty_irq && old(self).send_queue7@.len() == 0,
                ),
                IPC_RECEIVE_FIFO_NOT_EMPTY_OFFSET,
                old(self).cnt7.receive_fifo_not_empty_irq && old(self).send_queue9@.len() > 0,
            ),
            final(interrupts9).e@ == old(interrupts9).e@,
            final(interrupts9).me@ == old(interrupts9).me@,
            final(interrupts7).e@ == old(interrupts7).e@,
            final(interrupts7).me@ == old(interrupts7).me@,
    {
        interrupts9.f.falsy_set_ipc_send_fifo_empty(
            self.cnt9.send_fifo_empty_irq && self.send_queue9.len() == 0,
        );
        interrupts9.f.falsy_set_ipc_receive_fifo_not_empty(
            self.cnt9.receive_fifo_not_empty_irq && self.send_queue7.len() != 0,
        );

        interrupts7.f.falsy_set_ipc_send_fifo_empty(
            self.cnt7.send_fifo_empty_irq && self.send_queue7.len() == 0,
        );
        interrupts7.f.falsy_set_ipc_receive_fifo_not_empty(
            self.cnt7.receive_fifo_not_empty_irq && self.send_queue9.len() != 0,
        );
    }
}

} // verus!
