//! Reading words from a block of memory.
use vstd::prelude::*;

use super::bytes::le_word_at;

verus! {

pub trait Memory {
    /// The bytes of the memory.
    spec fn bytes_of(&self) -> Seq<u8>;

    /// The little-endian word at byte `addr`.
    fn read_u32(&self, addr: u32) -> (r: u32)
        requires
            addr + 4 <= self.bytes_of().len(),
        ensures
            r == le_word_at(self.bytes_of(), addr as int),
    ;
}

impl Memory for Vec<u8> {
    open spec fn bytes_of(&self) -> Seq<u8> {
        self@
    }

    fn read_u32(&self, addr: u32) -> (r: u32) {
        let n = self.len();
        assert(addr + 4 <= n);
        let addr = addr as usize;
        let b0 = self[addr] as u32;
        let b1 = self[addr + 1] as u32;
        let b2 = self[addr + 2] as u32;
        let b3 = self[addr + 3] as u32;
        b0 + b1 * 0x100 + b2 * 0x1_0000 + b3 * 0x100_0000
    }
}

} // verus!
