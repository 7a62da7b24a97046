//! IPCSYNC: the synchronisation register between the ARM9 and the ARM7.
//!
//! Each side has its own word. Bits 8-11 of one side are the output that the
//! other side reads in its bits 0-3; bit 13 requests an interrupt on the
//! other side, and bit 14 enables that interrupt on this side.
//! `ARM_BOOL` is `true` for the ARM9 side and `false` for the ARM7 side.
use vstd::prelude::*;

use crate::nds::bits::{
    bit32, bit8, field32, field8, get_bit_u32, get_bit_u8, get_bits_u8, set_bit_u32,
    set_bits_u32, with_bit32, with_field32,
};
use crate::nds::bytes::{into_word, le_value};
use crate::nds::interrupts::{Interrupts, IPCSYNC_OFFSET};

verus! {

pub enum IpcsyncLog {
    // is_arm9, value
    Read(bool, u32),
    Write(bool, u32),
}

pub struct IpcSync {
    pub value9: u32,
    pub value7: u32,
    pub log: Vec<IpcsyncLog>,
    pub logging_enabled: bool,
    pub send_irq9to7: bool,
    pub send_irq7to9: bool,
}

impl Default for IpcSync {
    fn default() -> (r: Self)
        ensures
            r.initial(),
    {
        IpcSync {
            value9: 0,
            value7: 0,
            log: Vec::new(),
            logging_enabled: false,
            send_irq9to7: false,
            send_irq7to9: false,
        }
    }
}

/// The register state, without the debugging log.
pub struct IpcSyncRegs {
    pub value9: u32,
    pub value7: u32,
    pub send_irq9to7: bool,
    pub send_irq7to9: bool,
}

impl IpcSyncRegs {
    /// The word that a side reads.
    pub open spec fn word(self, arm9: bool) -> u32 {
        if arm9 {
            self.value9
        } else {
            self.value7
        }
    }

    /// The registers after `arm9`'s side writes `byte` at byte offset `addr`.
    pub open spec fn with_byte(self, arm9: bool, addr: int, byte: u8) -> IpcSyncRegs {
        let own = self.word(arm9);
        let other = self.word(!arm9);
        let (own, other, send_irq) = if addr == 0 {
            (with_field32(own, 4, 7, field8(byte, 4, 7) as u32), other, None::<bool>)
        } else if addr == 1 {
            (
                with_bit32(with_field32(own, 8, 15, byte as u32), 14, bit8(byte, 6)),
                with_field32(other, 0, 3, field8(byte, 0, 3) as u32),
                Some(bit8(byte, 5)),
            )
        } else if addr == 2 {
            (with_field32(own, 16, 23, byte as u32), other, None::<bool>)
        } else {
            (with_field32(own, 24, 31, byte as u32), other, None::<bool>)
        };
        IpcSyncRegs {
            value9: if arm9 {
                own
            } else {
                other
            },
            value7: if arm9 {
                other
            } else {
                own
            },
            send_irq9to7: if arm9 && send_irq is Some {
                send_irq->0
            } else {
                self.send_irq9to7
            },
            send_irq7to9: if !arm9 && send_irq is Some {
                send_irq->0
            } else {
                self.send_irq7to9
            },
        }
    }

    /// The registers after `arm9`'s side writes the bytes `bytes` starting at
    /// byte offset `base`, in order.
    pub open spec fn with_bytes(self, arm9: bool, base: int, bytes: Seq<u8>) -> IpcSyncRegs
        decreases bytes.len(),
    {
        if bytes.len() == 0 {
            self
        } else {
            self.with_bytes(arm9, base, bytes.drop_last()).with_byte(
                arm9,
                base + bytes.len() - 1,
                bytes.last(),
            )
        }
    }
}

/// What a side writes in bits 8-11 of its byte 1 is what the other side reads
/// in bits 0-3, and the rest of the other side's word is kept.
pub proof fn lemma_output_reaches_other_side(regs: IpcSyncRegs, arm9: bool, byte: u8)
    ensures
        field32(regs.with_byte(arm9, 1, byte).word(!arm9), 0, 3) == field8(byte, 0, 3) as u32,
        field32(regs.with_byte(arm9, 1, byte).word(!arm9), 4, 31) == field32(
            regs.word(!arm9),
            4,
            31,
        ),
        field32(regs.with_byte(arm9, 1, byte).word(arm9), 8, 11) == field8(byte, 0, 3) as u32,
{
    let other = regs.word(!arm9);
    let own = regs.word(arm9);
    let x = field8(byte, 0, 3) as u32;
    assert(x < 16) by (bit_vector)
        requires
            x == field8(byte, 0, 3) as u32,
    ;
    assert(field32(with_field32(other, 0, 3, x), 0, 3) == x) by (bit_vector)
        requires
            x < 16,
    ;
    assert(field32(with_field32(other, 0, 3, x), 4, 31) == field32(other, 4, 31)) by (bit_vector);
    let b = byte as u32;
    let v6 = bit8(byte, 6);
    assert(field32(with_bit32(with_field32(own, 8, 15, b), 14, v6), 8, 11) == field32(b, 0, 3))
        by (bit_vector)
        requires
            b < 256,
    ;
    assert(field32(b, 0, 3) == field8(byte, 0, 3) as u32) by (bit_vector)
        requires
            b == byte as u32,
    ;
}

impl IpcSync {
    /// Both words zero, no request pending, an empty log and logging off.
    pub open spec fn initial(&self) -> bool {
        &&& self.regs() == (IpcSyncRegs {
            value9: 0,
            value7: 0,
            send_irq9to7: false,
            send_irq7to9: false,
        })
        &&& self.log@.len() == 0
        &&& !self.logging_enabled
    }

    pub open spec fn regs(&self) -> IpcSyncRegs {
        IpcSyncRegs {
            value9: self.value9,
            value7: self.value7,
            send_irq9to7: self.send_irq9to7,
            send_irq7to9: self.send_irq7to9,
        }
    }

    /// A side's word, read without logging.
    pub fn value_quiet<const ARM_BOOL: bool>(&self) -> (r: u32)
        ensures
            r == self.regs().word(ARM_BOOL),
    {
        if ARM_BOOL {
            self.value9
        } else {
            self.value7
        }
    }

    /// A side's word, read; the read is logged when logging is enabled.
    pub fn value<const ARM_BOOL: bool>(&mut self) -> (r: u32)
        ensures
            r == old(self).regs().word(ARM_BOOL),
            final(self).regs() == old(self).regs(),
            final(self).logging_enabled == old(self).logging_enabled,
            final(self).log@ == if old(self).logging_enabled {
                old(self).log@.push(IpcsyncLog::Read(ARM_BOOL, r))
            } else {
                old(self).log@
            },
    {
        let value = self.value_quiet::<ARM_BOOL>();
        if self.logging_enabled {
            self.log.push(IpcsyncLog::Read(ARM_BOOL, value));
        }
        value
    }

    fn write_byte<const ARM_BOOL: bool>(&mut self, addr: usize, byte: u8)
        requires
            addr < 4,
        ensures
            final(self).regs() == old(self).regs().with_byte(ARM_BOOL, addr as int, byte),
            final(self).log == old(self).log,
            final(self).logging_enabled == old(self).logging_enabled,
    {
        if addr == 0 {
            let etc = get_bits_u8(byte, 4, 7) as u32;
            if ARM_BOOL {
                self.value9 = set_bits_u32(self.value9, 4, 7, etc);
            } else {
                self.value7 = set_bits_u32(self.value7, 4, 7, etc);
            }
        } else if addr == 1 {
            let etc = byte as u32;  // 8-15
            let input = get_bits_u8(byte, 0, 3) as u32;  // 8-11
            let send_irq = get_bit_u8(byte, 5);  // 13
            let receive_irq_enable = get_bit_u8(byte, 6);  // 14
            if ARM_BOOL {
                self.value9 = set_bits_u32(self.value9, 8, 15, etc);
                self.value7 = set_bits_u32(self.value7, 0, 3, input);
                self.send_irq9to7 = send_irq;
                self.value9 = set_bit_u32(self.value9, 14, receive_irq_enable);
            } else {
                self.value7 = set_bits_u32(self.value7, 8, 15, etc);
                self.value9 = set_bits_u32(self.value9, 0, 3, input);
                self.send_irq7to9 = send_irq;
                self.value7 = set_bit_u32(self.value7, 14, receive_irq_enable);
            }
        } else if addr == 2 {
            let etc = byte as u32;  // 16-23
            if ARM_BOOL {
                self.value9 = set_bits_u32(self.value9, 16, 23, etc);
            } else {
                self.value7 = set_bits_u32(self.value7, 16, 23, etc);
            }
        } else {
            let etc = byte as u32;  // 24-31
            if ARM_BOOL {
                self.value9 = set_bits_u32(self.value9, 24, 31, etc);
            } else {
                self.value7 = set_bits_u32(self.value7, 24, 31, etc);
            }
        }
    }

    /// A write of `T` bytes at byte offset `base_addr` of a side's IPCSYNC;
    /// the bytes take effect one after the other, and the write is logged
    /// when logging is enabled.
    pub fn set<const ARM_BOOL: bool, const T: usize>(&mut self, base_addr: usize, value: [u8; T])
        requires
            base_addr + T <= 4,
        ensures
            final(self).regs() == old(self).regs().with_bytes(ARM_BOOL, base_addr as int, value@),
            final(self).logging_enabled == old(self).logging_enabled,
            final(self).log@ == if old(self).logging_enabled {
                old(self).log@.push(IpcsyncLog::Write(ARM_BOOL, le_value(value@) as u32))
            } else {
                old(self).log@
            },
    {
        if self.logging_enabled {
            let word = into_word(value.as_slice());
            self.log.push(IpcsyncLog::Write(ARM_BOOL, word));
        }
        let ghost logged = self.log@;
        let ghost start = self.regs();
        let mut i: usize = 0;
        while i < T
            invariant
                base_addr + T <= 4,
                i <= T,
                value@.len() == T,
                self.regs() == start.with_bytes(ARM_BOOL, base_addr as int, value@.subrange(0, i as int)),
                self.log@ == logged,
                self.logging_enabled == old(self).logging_enabled,
            decreases T - i,
        {
            self.write_byte::<ARM_BOOL>(base_addr + i, value[i]);
            proof {
                let next = value@.subrange(0, i + 1);
                assert(next.drop_last() == value@.subrange(0, i as int));
                assert(next.last() == value@[i as int]);
            }
            i = i + 1;
        }
        proof {
            assert(value@.subrange(0, T as int) == value@);
        }
    }

    /// Each side's IPCSYNC interrupt line follows whether the other side has
    /// requested it while this side enables it (bit 14); the requests are
    /// then consumed.
    pub fn update_interrupts(&mut self, interrupts9: &mut Interrupts, interrupts7: &mut Interrupts)
        ensures
            final(interrupts9).f@ == with_bit32(
                old(interrupts9).f@,
                IPCSYNC_OFFSET,
                bit32(old(self).value9, 14) && old(self).send_irq7to9,
            ),
            final(interrupts7).f@ == with_bit32(
                old(interrupts7).f@,
                IPCSYNC_OFFSET,
                bit32(old(self).value7, 14) && old(self).send_irq9to7,
            ),
            final(interrupts9).e@ == old(interrupts9).e@,
            final(interrupts9).me@ == old(interrupts9).me@,
            final(interrupts7).e@ == old(interrupts7).e@,
            final(interrupts7).me@ == old(interrupts7).me@,
            final(self).value9 == old(self).value9,
            final(self).value7 == old(self).value7,
            !final(self).send_irq9to7,
            !final(self).send_irq7to9,
            final(self).log == old(self).log,
            final(self).logging_enabled == old(self).logging_enabled,
    {
        interrupts9.f.set_ipcsync(get_bit_u32(self.value9, 14) && self.send_irq7to9);
        interrupts7.f.set_ipcsync(get_bit_u32(self.value7, 14) && self.send_irq9to7);

        self.send_irq9to7 = false;
        self.send_irq7to9 = false;
    }
}

} // verus!
