//! One VRAM bank (A to I, by `ID` 0 to 8) and where VRAMCNT maps it.
use vstd::prelude::*;

use super::models::{Mst, Offset};
use crate::nds::logger::{decimal_text, hex_text, push_decimal, push_hex, LogKind, LogRequest, LogSource};
use vstd::string::StringExecFns;
use crate::nds::bits::{bit8, field8, get_bit_u8, get_bits_u8, set_bit_u8, set_bits_u8, with_bit8, with_field8};

verus! {

/// The size of bank `id` in KiB.
pub open spec fn bank_kib(id: u8) -> nat {
    if id <= 3 {
        128
    } else if id == 4 {
        64
    } else if id <= 6 {
        16
    } else if id == 7 {
        32
    } else {
        16
    }
}

/// Whether bank `id` can take use `mst`.
pub open spec fn valid_mapping(id: u8, mst: Mst) -> bool {
    id <= 8 && match mst {
        Mst::A => true,
        Mst::B => true,
        Mst::C => true,
        Mst::D => id != 7,
        Mst::E => 2 <= id <= 6,
        Mst::F => id == 5 || id == 6,
    }
}

/// Where bank `id` lands for use `mst` and offset `offset`: whether it is on
/// the bus and the first and last address (on the bus), or the slot numbers
/// of an extended palette or texture use (off the bus).
pub open spec fn mapping(id: u8, mst: Mst, offset: u8) -> (bool, int, int) {
    let o = offset as int;
    let o0 = o % 2;
    let o1 = o / 2;
    match mst {
        Mst::A => if id == 0 {
            (true, 0x06800000int, 0x0681FFFFint)
        } else if id == 1 {
            (true, 0x06820000int, 0x0683FFFFint)
        } else if id == 2 {
            (true, 0x06840000int, 0x0685FFFFint)
        } else if id == 3 {
            (true, 0x06860000int, 0x0687FFFFint)
        } else if id == 4 {
            (true, 0x06880000int, 0x0688FFFFint)
        } else if id == 5 {
            (true, 0x06890000int, 0x06893FFFint)
        } else if id == 6 {
            (true, 0x06894000int, 0x06897FFFint)
        } else if id == 7 {
            (true, 0x06898000int, 0x0689FFFFint)
        } else {
            (true, 0x068A0000int, 0x068A3FFFint)
        },
        Mst::B => if id <= 3 {
            (true, 0x06000000int + 0x20000int * o, 0x06000000int + 0x20000int * o + 1024 * 128)
        } else if id == 4 {
            (true, 0x06000000int, 0x06000000int + 1024 * 64)
        } else if id <= 6 {
            (
                true,
                0x06000000int + 0x4000int * o0 + 0x10000int * o1,
                0x06000000int + 0x4000int * o0 + 0x10000int * o1 + 1024 * 16,
            )
        } else if id == 7 {
            (true, 0x06200000int, 0x06200000int + 1024 * 32)
        } else {
            (true, 0x06208000int, 0x06208000int + 1024 * 16)
        },
        Mst::C => if id <= 1 {
            (true, 0x06400000int + 0x20000int * o0, 0x06400000int + 0x20000int * o0 + 1024 * 128)
        } else if id <= 3 {
            (true, 0x06000000int + 0x20000int * o0, 0x06000000int + 0x20000int * o0 + 1024 * 128)
        } else if id == 4 {
            (true, 0x06400000int, 0x06400000int + 1024 * 64)
        } else if id <= 6 {
            (
                true,
                0x06400000int + 0x4000int * o0 + 0x10000int * o1,
                0x06400000int + 0x4000int * o0 + 0x10000int * o1 + 1024 * 16,
            )
        } else if id == 7 {
            (false, 0, 3)
        } else {
            (true, 0x06600000int, 0x06600000int + 1024 * 16)
        },
        Mst::D => if id <= 3 {
            (false, o, o)
        } else if id == 4 {
            (false, 0, 3)
        } else if id <= 6 {
            (false, o0 + o1 * 4, o0 + o1 * 4)
        } else {
            (false, 0, 0)
        },
        Mst::E => if id == 2 {
            (true, 0x06200000int, 0x06200000int + 1024 * 128)
        } else if id == 3 {
            (true, 0x06600000int, 0x06600000int + 1024 * 128)
        } else if id == 4 {
            (false, 0, 1)
        } else if o == 0 {
            (false, 0, 1)
        } else {
            (false, 2, 3)
        },
        Mst::F => (false, 0, 0),
    }
}

/// Each mapping on the bus starts on a 16 KiB boundary and covers at most the
/// bank.
pub proof fn lemma_mapping_fits(id: u8, mst: Mst, offset: u8)
    requires
        valid_mapping(id, mst),
        offset <= 3,
    ensures
        ({
            let (on_bus, start, end) = mapping(id, mst, offset);
            &&& 0 <= start <= end <= usize::MAX
            &&& on_bus ==> start % 0x4000 == 0 && end - start <= bank_kib(id) * 1024
        }),
{
}

/// VRAMCNT reads back what was written to it, but for bits 5 and 6, which
/// the bank does not keep.
pub proof fn lemma_vramcnt_roundtrip(v: u8, mst: Mst, offset: Offset, enabled: bool)
    requires
        mst.bits() == field8(v, 0, 2),
        offset.bits() == field8(v, 3, 4),
        enabled == bit8(v, 7),
    ensures
        with_bit8(with_field8(with_field8(0, 0, 2, mst.bits()), 3, 4, offset.bits()), 7, enabled)
            == v & 0b1001_1111,
{
    let m = mst.bits();
    let o = offset.bits();
    assert(with_bit8(with_field8(with_field8(0, 0, 2, m), 3, 4, o), 7, enabled) == v & 0b1001_1111)
        by (bit_vector)
        requires
            m == field8(v, 0, 2),
            o == field8(v, 3, 4),
            enabled == bit8(v, 7),
    ;
}

pub struct VramBank<const ID: u8> {
    pub mst: Mst,
    pub offset: Offset,
    pub enabled: bool,
    pub on_bus: bool,
    pub start: usize,
    pub end: usize,
    pub data: Vec<u8>,
}

impl<const ID: u8> VramBank<ID> {
    /// The bank holds its whole memory and sits where its VRAMCNT maps it.
    pub open spec fn wf(&self) -> bool {
        &&& ID <= 8
        &&& valid_mapping(ID, self.mst)
        &&& self.data@.len() == bank_kib(ID) * 1024
        &&& (self.on_bus, self.start as int, self.end as int) == mapping(
            ID,
            self.mst,
            self.offset.bits(),
        )
    }

    /// The bank at reset: disabled, use A at offset 0, all zeros.
    pub open spec fn initial(&self) -> bool {
        &&& self.wf()
        &&& self.mst == Mst::A
        &&& self.offset == Offset::A
        &&& !self.enabled
        &&& forall|i: int| 0 <= i < self.data@.len() ==> self.data@[i] == 0
    }

    /// Both banks sit in the same place with the same settings.
    pub open spec fn same_mapping(&self, other: &Self) -> bool {
        &&& self.mst == other.mst
        &&& self.offset == other.offset
        &&& self.enabled == other.enabled
        &&& self.on_bus == other.on_bus
        &&& self.start == other.start
        &&& self.end == other.end
    }

    /// The value of VRAMCNT for this bank.
    pub open spec fn vramcnt(&self) -> u8 {
        with_bit8(
            with_field8(with_field8(0, 0, 2, self.mst.bits()), 3, 4, self.offset.bits()),
            7,
            self.enabled,
        )
    }

    /// Whether a bus access at `addr` reaches this bank.
    pub open spec fn hit(&self, addr: int) -> bool {
        self.on_bus && self.enabled && self.start <= addr <= self.end
    }

    /// Whether a bus write of `len` bytes at `addr` reaches this bank.
    pub open spec fn write_hit(&self, addr: int, len: int) -> bool {
        self.on_bus && self.enabled && self.start <= addr && addr + len <= self.end
    }

    /// A bus write of `len` bytes at `addr` that reaches the bank fits in its
    /// memory.
    pub open spec fn write_fits(&self, addr: int, len: int) -> bool {
        self.write_hit(addr, len) ==> addr - self.start + len <= self.data@.len()
    }

    /// Where in the bank a bus read at `addr` lands.
    pub open spec fn read_index(&self, addr: int) -> int {
        (addr - self.start) % (self.data@.len() as int)
    }

    /// A bus read of `len` bytes at `addr` can be served without running past
    /// the end of the bank.
    pub open spec fn read_ok(&self, addr: int, len: int) -> bool {
        self.hit(addr) ==> self.data@.len() > 0 && self.read_index(addr) + len
            <= self.data@.len()
    }

    /// The bytes that a bus read of `len` bytes at `addr` gives, when it hits.
    pub open spec fn read_bytes(&self, addr: int, len: int) -> Seq<u8> {
        if self.hit(addr) {
            self.data@.subrange(self.read_index(addr), self.read_index(addr) + len)
        } else {
            Seq::new(len as nat, |i: int| 0u8)
        }
    }

    /// Whether the bank is one that is neither mapped nor backed by memory:
    /// use A at offset A, disabled, off the bus at 0..=0, with no memory.
    pub open spec fn is_fake(&self) -> bool {
        &&& self.mst == Mst::A
        &&& self.offset == Offset::A
        &&& !self.enabled
        &&& !self.on_bus
        &&& self.start == 0
        &&& self.end == 0
        &&& self.data@.len() == 0
    }

    /// A bank that is neither mapped nor backed by memory.
    pub fn new_fake() -> (r: Self)
        ensures
            r.mst == Mst::A,
            r.offset == Offset::A,
            !r.enabled,
            !r.on_bus,
            r.start == 0,
            r.end == 0,
            r.data@.len() == 0,
    {
        VramBank {
            mst: Mst::A,
            offset: Offset::A,
            enabled: false,
            on_bus: false,
            start: 0,
            end: 0,
            data: Vec::new(),
        }
    }

    /// The bank's memory after a bus write of `value` at `addr` that hits it.
    pub open spec fn stored(&self, addr: int, value: Seq<u8>) -> Seq<u8> {
        let at = addr - self.start;
        self.data@.subrange(0, at) + value + self.data@.subrange(at + value.len(), self.data@.len() as int)
    }

    /// The text of the debug entry that mapping the bank makes.
    pub open spec fn mapping_text(&self) -> Seq<char> {
        "Mapped VRAM bank "@ + decimal_text(ID as nat) + " to 0x"@ + hex_text(self.start as int, 8)
            + " - 0x"@ + hex_text(self.end as int, 8) + " "@ + if self.on_bus {
            "true"@
        } else {
            "false"@
        }
    }

    /// The debug entry that mapping the bank (at reset or by a VRAMCNT
    /// write) makes, for the caller to log: the bank's number, its first and
    /// last address (or slots) in eight hexadecimal digits, and whether it is
    /// on the bus.
    pub fn mapping_log(&self) -> (r: LogRequest)
        requires
            self.wf(),
        ensures
            r.kind == LogKind::Debug,
            r.source == LogSource::VramBank(ID),
            r.content@ == self.mapping_text(),
            !r.once,
    {
        assert(self.start <= u32::MAX && self.end <= u32::MAX);
        let mut content = "Mapped VRAM bank ".to_owned();
        push_decimal(&mut content, ID as u32);
        content.append(" to 0x");
        push_hex(&mut content, self.start as u32, 8);
        content.append(" - 0x");
        push_hex(&mut content, self.end as u32, 8);
        content.append(" ");
        if self.on_bus {
            content.append("true");
        } else {
            content.append("false");
        }
        LogRequest { kind: LogKind::Debug, source: LogSource::VramBank(ID), content, once: false }
    }

    /// A disabled bank at reset, mapped for use A at offset 0, all zeros.
    pub fn new() -> (r: Self)
        requires
            ID <= 8,
        ensures
            r.initial(),
    {
        let mst = Mst::A;
        let offset = Offset::A;
        let (on_bus, start, end) = Self::map(mst, offset);
        let size: usize = if ID <= 3 {
            128
        } else if ID == 4 {
            64
        } else if ID <= 6 {
            16
        } else if ID == 7 {
            32
        } else {
            16
        };
        VramBank { mst, offset, enabled: false, on_bus, start, end, data: vec![0u8; size * 1024] }
    }

    fn map(mst: Mst, offset: Offset) -> (r: (bool, usize, usize))
        requires
            valid_mapping(ID, mst),
        ensures
            (r.0, r.1 as int, r.2 as int) == mapping(ID, mst, offset.bits()),
    {
        let offset = offset.to_bits() as usize;
        let offset0 = get_bit_u8(offset as u8, 0) as usize;
        let offset1 = get_bit_u8(offset as u8, 1) as usize;
        proof {
            let o = offset as u8;
            assert(o <= 3 ==> (bit8(o, 0) <==> o % 2 == 1)) by (bit_vector);
            assert(o <= 3 ==> (bit8(o, 1) <==> o / 2 == 1)) by (bit_vector);
        }
        match mst {
            Mst::A => if ID == 0 {
                (true, 0x06800000, 0x0681FFFF)
            } else if ID == 1 {
                (true, 0x06820000, 0x0683FFFF)
            } else if ID == 2 {
                (true, 0x06840000, 0x0685FFFF)
            } else if ID == 3 {
                (true, 0x06860000, 0x0687FFFF)
            } else if ID == 4 {
                (true, 0x06880000, 0x0688FFFF)
            } else if ID == 5 {
                (true, 0x06890000, 0x06893FFF)
            } else if ID == 6 {
                (true, 0x06894000, 0x06897FFF)
            } else if ID == 7 {
                (true, 0x06898000, 0x0689FFFF)
            } else {
                (true, 0x068A0000, 0x068A3FFF)
            },
            Mst::B => if ID <= 3 {
                (true, 0x06000000 + (0x20000 * offset), 0x06000000 + (0x20000 * offset) + (1024
                    * 128))
            } else if ID == 4 {
                (true, 0x06000000, 0x06000000 + (1024 * 64))
            } else if ID <= 6 {
                (
                    true,
                    0x06000000 + (0x4000 * offset0) + (0x10000 * offset1),
                    0x06000000 + (0x4000 * offset0) + (0x10000 * offset1) + (1024 * 16),
                )
            } else if ID == 7 {
                (true, 0x06200000, 0x06200000 + (1024 * 32))
            } else {
                (true, 0x06208000, 0x06208000 + (1024 * 16))
            },
            Mst::C => if ID <= 1 {
                (true, 0x06400000 + (0x20000 * offset0), 0x06400000 + (0x20000 * offset0) + (1024
                    * 128))
            } else if ID <= 3 {
                (true, 0x06000000 + (0x20000 * offset0), 0x06000000 + (0x20000 * offset0) + (1024
                    * 128))
            } else if ID == 4 {
                (true, 0x06400000, 0x06400000 + (1024 * 64))
            } else if ID <= 6 {
                (
                    true,
                    0x06400000 + (0x4000 * offset0) + (0x10000 * offset1),
                    0x06400000 + (0x4000 * offset0) + (0x10000 * offset1) + (1024 * 16),
                )
            } else if ID == 7 {
                (false, 0, 3)
            } else {
                (true, 0x06600000, 0x06600000 + (1024 * 16))
            },
            Mst::D => if ID <= 3 {
                (false, offset, offset)
            } else if ID == 4 {
                (false, 0, 3)
            } else if ID <= 6 {
                (false, offset0 + (offset1 * 4), offset0 + (offset1 * 4))
            } else {
                (false, 0, 0)
            },
            Mst::E => if ID == 2 {
                (true, 0x06200000, 0x06200000 + (1024 * 128))
            } else if ID == 3 {
                (true, 0x06600000, 0x06600000 + (1024 * 128))
            } else if ID == 4 {
                (false, 0, 1)
            } else if offset == 0 {
                (false, 0, 1)
            } else {
                (false, 2, 3)
            },
            Mst::F => (false, 0, 0),
        }
    }

    /// VRAMCNT as read: the use in bits 0-2, the offset in bits 3-4 and the
    /// enable flag in bit 7.
    pub fn read_vramcnt(&self) -> (r: u8)
        ensures
            r == self.vramcnt(),
    {
        let mut vramcnt: u8 = 0;
        vramcnt = set_bits_u8(vramcnt, 0, 2, self.mst.to_bits());
        vramcnt = set_bits_u8(vramcnt, 3, 4, self.offset.to_bits());
        vramcnt = set_bit_u8(vramcnt, 7, self.enabled);
        vramcnt
    }

    /// A write of VRAMCNT: the bank takes the use, offset and enable flag and
    /// is mapped anew. The use must be one that this bank supports.
    pub fn write_vramcnt(&mut self, vramcnt: u8)
        requires
            ID <= 8,
            field8(vramcnt, 0, 2) <= 5,
            forall|m: Mst| m.bits() == field8(vramcnt, 0, 2) ==> valid_mapping(ID, m),
        ensures
            old(self).data@.len() == bank_kib(ID) * 1024 ==> final(self).wf(),
            valid_mapping(ID, final(self).mst),
            (final(self).on_bus, final(self).start as int, final(self).end as int) == mapping(
                ID,
                final(self).mst,
                final(self).offset.bits(),
            ),
            final(self).mst.bits() == field8(vramcnt, 0, 2),
            final(self).offset.bits() == field8(vramcnt, 3, 4),
            final(self).enabled == bit8(vramcnt, 7),
            final(self).data == old(self).data,
    {
        let mst_bits = get_bits_u8(vramcnt, 0, 2);
        let offset_bits = get_bits_u8(vramcnt, 3, 4);
        proof {
            assert(field8(vramcnt, 3, 4) <= 3) by (bit_vector);
        }
        self.mst = Mst::from_bits(mst_bits);
        self.offset = Offset::from_bits(offset_bits);
        self.enabled = get_bit_u8(vramcnt, 7);

        let (on_bus, start, end) = Self::map(self.mst, self.offset);
        self.on_bus = on_bus;
        self.start = start;
        self.end = end;
    }

    /// A bus read of `T` bytes at `addr`: when the bank is mapped, enabled
    /// and `addr` lies in its range, the bytes at the matching place of the
    /// bank, and `true`; otherwise zeros and `false`.
    pub fn read_slice<const T: usize>(&self, addr: usize) -> (r: (bool, [u8; T]))
        requires
            self.read_ok(addr as int, T as int),
        ensures
            r.0 == self.hit(addr as int),
            r.1@ == self.read_bytes(addr as int, T as int),
    {
        if !self.on_bus || !self.enabled {
            let zeros = [0u8; T];
            assert(zeros@ =~= self.read_bytes(addr as int, T as int));
            return (false, zeros);
        }
        if addr >= self.start && addr <= self.end {
            let len = self.data.len();
            let start = (addr - self.start) % len;
            let mut bytes = [0u8; T];
            let mut i: usize = 0;
            while i < T
                invariant
                    i <= T,
                    len == self.data@.len(),
                    start + T <= self.data@.len(),
                    start == self.read_index(addr as int),
                    bytes@.len() == T,
                    forall|j: int| 0 <= j < i ==> bytes@[j] == self.data@[start + j],
                decreases T - i,
            {
                bytes[i] = self.data[start + i];
                i = i + 1;
            }
            assert(bytes@ =~= self.read_bytes(addr as int, T as int));
            return (true, bytes);
        }
        let zeros = [0u8; T];
        assert(zeros@ =~= self.read_bytes(addr as int, T as int));
        (false, zeros)
    }

    /// A bus write of `T` bytes at `addr`: when the bank is mapped, enabled
    /// and the bytes fall inside its range, they are stored at the matching
    /// place of the bank and the result is `true`; otherwise nothing changes.
    pub fn write_slice<const T: usize>(&mut self, addr: usize, value: [u8; T]) -> (r: bool)
        requires
            old(self).write_fits(addr as int, T as int),
            addr + T <= usize::MAX,
        ensures
            old(self).wf() ==> final(self).wf(),
            r == old(self).write_hit(addr as int, T as int),
            final(self).data@ == if r {
                old(self).stored(addr as int, value@)
            } else {
                old(self).data@
            },
            final(self).mst == old(self).mst,
            final(self).offset == old(self).offset,
            final(self).enabled == old(self).enabled,
            final(self).on_bus == old(self).on_bus,
            final(self).start == old(self).start,
            final(self).end == old(self).end,
    {
        if !self.on_bus || !self.enabled {
            return false;
        }
        if addr >= self.start && (addr + T) <= self.end {
            let start = addr - self.start;
            let ghost old_data = self.data@;
            let len = self.data.len();
            let mut i: usize = 0;
            while i < T
                invariant
                    i <= T,
                    len == self.data@.len(),
                    self.mst == old(self).mst,
                    self.offset == old(self).offset,
                    self.enabled == old(self).enabled,
                    self.on_bus == old(self).on_bus,
                    self.start == old(self).start,
                    self.end == old(self).end,
                    start + T <= self.data@.len(),
                    self.data@.len() == old_data.len(),
                    old(self).wf() ==> self.wf(),
                    forall|j: int| 0 <= j < start ==> self.data@[j] == old_data[j],
                    forall|j: int| start + T <= j < old_data.len() ==> self.data@[j] == old_data[j],
                    forall|j: int| 0 <= j < i ==> self.data@[start + j] == value@[j],
                    forall|j: int| start + i <= j < start + T ==> self.data@[j] == old_data[j],
                decreases T - i,
            {
                self.data.set(start + i, value[i]);
                i = i + 1;
            }
            assert(self.data@ =~= old_data.subrange(0, start as int) + value@ + old_data.subrange(
                start + T,
                old_data.len() as int,
            ));
            return true;
        }
        false
    }

    /// A read of `T` bytes at `addr` of a bank that is not on the bus (an
    /// extended palette or texture use): when the bank is enabled and off the
    /// bus and `addr` is not past its end, the bytes at `addr`, and `true`;
    /// otherwise zeros and `false`.
    pub fn read_virtual_slice<const T: usize>(&self, addr: usize) -> (r: (bool, [u8; T]))
        requires
            !self.on_bus && self.enabled && addr <= self.data@.len() ==> addr + T
                <= self.data@.len(),
        ensures
            r.0 == (!self.on_bus && self.enabled && addr <= self.data@.len()),
            r.0 ==> r.1@ == self.data@.subrange(addr as int, addr + T),
            !r.0 ==> r.1@ == Seq::new(T as nat, |i: int| 0u8),
    {
        if self.on_bus || !self.enabled {
            let zeros = [0u8; T];
            assert(zeros@ =~= Seq::new(T as nat, |i: int| 0u8));
            return (false, zeros);
        }
        let len = self.data.len();
        if addr <= len {
            let mut bytes = [0u8; T];
            let mut i: usize = 0;
            while i < T
                invariant
                    i <= T,
                    len == self.data@.len(),
                    addr + T <= self.data@.len(),
                    bytes@.len() == T,
                    forall|j: int| 0 <= j < i ==> bytes@[j] == self.data@[addr + j],
                decreases T - i,
            {
                bytes[i] = self.data[addr + i];
                i = i + 1;
            }
            assert(bytes@ =~= self.data@.subrange(addr as int, addr + T));
            return (true, bytes);
        }
        let zeros = [0u8; T];
        assert(zeros@ =~= Seq::new(T as nat, |i: int| 0u8));
        (false, zeros)
    }
}

/// In LCDC use the banks lie one after the other from 0x06800000, in the
/// order A to I, each taking as many bytes as it holds (128, 128, 128, 128,
/// 64, 16, 16, 32 and 16 KiB); the end address is the last byte.
pub proof fn lemma_lcdc_layout(id: u8)
    requires
        id <= 8,
    ensures
        mapping(0, Mst::A, 0).1 == 0x06800000,
        mapping(id, Mst::A, 0).0,
        mapping(id, Mst::A, 0).2 - mapping(id, Mst::A, 0).1 + 1 == 1024 * (if id <= 3 {
            128int
        } else if id == 4 {
            64
        } else if id == 7 {
            32
        } else {
            16
        }),
        id < 8 ==> mapping((id + 1) as u8, Mst::A, 0).1 == mapping(id, Mst::A, 0).2 + 1,
        forall|o: u8| #[trigger] mapping(id, Mst::A, o) == mapping(id, Mst::A, 0),
{
}

/// The offset in VRAMCNT places a bank within the area of its use: two
/// different offsets put it on ranges that do not overlap. Banks A to D as
/// engine A background memory take 128 KiB each from 0x06000000 (offsets 0
/// to 3); banks A and B as engine A sprite memory take 128 KiB from
/// 0x06400000 (offset bit 0); banks F and G take 16 KiB at 0x06000000 (engine
/// A background) or 0x06400000 (engine A sprites), plus 16 KiB for offset
/// bit 0 and 64 KiB for offset bit 1.
pub proof fn lemma_offsets_separate(id: u8, mst: Mst, o1: u8, o2: u8)
    requires
        o1 <= 3,
        o2 <= 3,
    ensures
        mst == Mst::B && id <= 3 ==> {
            &&& mapping(id, mst, o1).0
            &&& mapping(id, mst, o1).1 == 0x06000000 + 0x20000 * o1
            &&& mapping(id, mst, o1).2 - mapping(id, mst, o1).1 == 0x20000
            &&& o1 != o2 ==> (mapping(id, mst, o1).2 <= mapping(id, mst, o2).1 || mapping(
                id,
                mst,
                o2,
            ).2 <= mapping(id, mst, o1).1)
        },
        mst == Mst::C && id <= 1 ==> {
            &&& mapping(id, mst, o1).0
            &&& mapping(id, mst, o1).1 == 0x06400000 + 0x20000 * (o1 % 2)
            &&& mapping(id, mst, o1).2 - mapping(id, mst, o1).1 == 0x20000
            &&& o1 % 2 != o2 % 2 ==> (mapping(id, mst, o1).2 <= mapping(id, mst, o2).1 || mapping(
                id,
                mst,
                o2,
            ).2 <= mapping(id, mst, o1).1)
        },
        (mst == Mst::B || mst == Mst::C) && (id == 5 || id == 6) ==> {
            &&& mapping(id, mst, o1).0
            &&& mapping(id, mst, o1).1 == (if mst == Mst::B {
                0x06000000int
            } else {
                0x06400000int
            }) + 0x4000 * (o1 % 2) + 0x10000 * (o1 / 2)
            &&& mapping(id, mst, o1).2 - mapping(id, mst, o1).1 == 0x4000
            &&& o1 != o2 ==> (mapping(id, mst, o1).2 <= mapping(id, mst, o2).1 || mapping(
                id,
                mst,
                o2,
            ).2 <= mapping(id, mst, o1).1)
        },
{
}

/// A well-formed bank has room for every bus write that reaches it.
pub proof fn lemma_wf_write_fits<const ID: u8>(bank: &VramBank<ID>, addr: int, len: int)
    requires
        bank.wf(),
    ensures
        bank.write_fits(addr, len),
{
    lemma_mapping_fits(ID, bank.mst, bank.offset.bits());
}

/// A bus read gives back what a bus write stored at the same address: if a
/// write of `value` at `addr` hits a well-formed bank, the bank with the
/// stored bytes (and the same mapping) answers a read of as many bytes at
/// `addr` with exactly `value`.
pub proof fn lemma_read_after_write<const ID: u8>(
    before: &VramBank<ID>,
    after: &VramBank<ID>,
    addr: int,
    value: Seq<u8>,
)
    requires
        before.wf(),
        before.write_hit(addr, value.len() as int),
        after.data@ == before.stored(addr, value),
        after.on_bus == before.on_bus,
        after.enabled == before.enabled,
        after.start == before.start,
        after.end == before.end,
    ensures
        after.hit(addr),
        after.read_ok(addr, value.len() as int),
        after.read_bytes(addr, value.len() as int) == value,
{
    lemma_mapping_fits(ID, before.mst, before.offset.bits());
    let at = addr - before.start;
    assert(after.data@.len() == before.data@.len());
    if value.len() > 0 {
        assert(at % (after.data@.len() as int) == at) by {
            vstd::arithmetic::div_mod::lemma_small_mod(at as nat, after.data@.len());
        }
        assert(after.read_bytes(addr, value.len() as int) =~= value);
    } else {
        assert(after.read_bytes(addr, value.len() as int) =~= value);
    }
}

} // verus!
