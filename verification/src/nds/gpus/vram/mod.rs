//! The nine VRAM banks as the bus sees them.
use vstd::prelude::*;

pub mod bank;
pub mod models;

use bank::VramBank;

verus! {

pub struct VramBanks {
    pub a: VramBank<0>,
    pub b: VramBank<1>,
    pub c: VramBank<2>,
    pub d: VramBank<3>,
    pub e: VramBank<4>,
    pub f: VramBank<5>,
    pub g: VramBank<6>,
    pub h: VramBank<7>,
    pub i: VramBank<8>,
}

impl Default for VramBanks {
    fn default() -> (r: Self)
        ensures
            r.initial(),
    {
        VramBanks {
            a: VramBank::new(),
            b: VramBank::new(),
            c: VramBank::new(),
            d: VramBank::new(),
            e: VramBank::new(),
            f: VramBank::new(),
            g: VramBank::new(),
            h: VramBank::new(),
            i: VramBank::new(),
        }
    }
}

impl VramBanks {
    /// Every bank as at reset.
    pub open spec fn initial(&self) -> bool {
        &&& self.a.initial()
        &&& self.b.initial()
        &&& self.c.initial()
        &&& self.d.initial()
        &&& self.e.initial()
        &&& self.f.initial()
        &&& self.g.initial()
        &&& self.h.initial()
        &&& self.i.initial()
    }

    pub open spec fn wf(&self) -> bool {
        &&& self.a.wf()
        &&& self.b.wf()
        &&& self.c.wf()
        &&& self.d.wf()
        &&& self.e.wf()
        &&& self.f.wf()
        &&& self.g.wf()
        &&& self.h.wf()
        &&& self.i.wf()
    }

    /// Whether some bank answers a bus access at `addr`.
    pub open spec fn hit(&self, addr: int) -> bool {
        self.a.hit(addr) || self.b.hit(addr) || self.c.hit(addr) || self.d.hit(addr)
            || self.e.hit(addr) || self.f.hit(addr) || self.g.hit(addr) || self.h.hit(addr)
            || self.i.hit(addr)
    }

    /// Every bank can serve a read of `len` bytes at `addr`.
    pub open spec fn read_ok(&self, addr: int, len: int) -> bool {
        &&& self.a.read_ok(addr, len)
        &&& self.b.read_ok(addr, len)
        &&& self.c.read_ok(addr, len)
        &&& self.d.read_ok(addr, len)
        &&& self.e.read_ok(addr, len)
        &&& self.f.read_ok(addr, len)
        &&& self.g.read_ok(addr, len)
        &&& self.h.read_ok(addr, len)
        &&& self.i.read_ok(addr, len)
    }

    /// Byte `x` of a bus read of `len` bytes at `addr`: the banks that answer
    /// are combined bitwise, as on the hardware.
    pub open spec fn read_byte(&self, addr: int, len: int, x: int) -> u8 {
        self.a.read_bytes(addr, len)[x] | self.b.read_bytes(addr, len)[x]
            | self.c.read_bytes(addr, len)[x] | self.d.read_bytes(addr, len)[x]
            | self.e.read_bytes(addr, len)[x] | self.f.read_bytes(addr, len)[x]
            | self.g.read_bytes(addr, len)[x] | self.h.read_bytes(addr, len)[x]
            | self.i.read_bytes(addr, len)[x]
    }

    /// Every bank that takes a bus write of `len` bytes at `addr` has room
    /// for it.
    pub open spec fn write_fits(&self, addr: int, len: int) -> bool {
        &&& self.a.write_fits(addr, len)
        &&& self.b.write_fits(addr, len)
        &&& self.c.write_fits(addr, len)
        &&& self.d.write_fits(addr, len)
        &&& self.e.write_fits(addr, len)
        &&& self.f.write_fits(addr, len)
        &&& self.g.write_fits(addr, len)
        &&& self.h.write_fits(addr, len)
        &&& self.i.write_fits(addr, len)
    }

    /// Whether some bank takes a bus write of `len` bytes at `addr`.
    pub open spec fn write_hit(&self, addr: int, len: int) -> bool {
        self.a.write_hit(addr, len) || self.b.write_hit(addr, len) || self.c.write_hit(addr, len)
            || self.d.write_hit(addr, len) || self.e.write_hit(addr, len) || self.f.write_hit(
            addr,
            len,
        ) || self.g.write_hit(addr, len) || self.h.write_hit(addr, len) || self.i.write_hit(
            addr,
            len,
        )
    }

    /// Every bank is neither mapped nor backed by memory.
    pub open spec fn all_fake(&self) -> bool {
        &&& self.a.is_fake() && self.b.is_fake() && self.c.is_fake()
        &&& self.d.is_fake() && self.e.is_fake() && self.f.is_fake()
        &&& self.g.is_fake() && self.h.is_fake() && self.i.is_fake()
    }

    /// Banks that are neither mapped nor backed by memory.
    pub fn new_fake() -> (r: Self)
        ensures
            r.all_fake(),
            !r.hit(0),
            forall|addr: int, len: int| r.read_ok(addr, len),
    {
        VramBanks {
            a: VramBank::new_fake(),
            b: VramBank::new_fake(),
            c: VramBank::new_fake(),
            d: VramBank::new_fake(),
            e: VramBank::new_fake(),
            f: VramBank::new_fake(),
            g: VramBank::new_fake(),
            h: VramBank::new_fake(),
            i: VramBank::new_fake(),
        }
    }

    /// A bus read of `T` bytes at `addr`: `None` when no bank answers,
    /// otherwise the answers of all banks combined bitwise.
    pub fn read_slice<const T: usize>(&self, addr: usize) -> (r: Option<[u8; T]>)
        requires
            self.read_ok(addr as int, T as int),
        ensures
            r is None <==> !self.hit(addr as int),
            r is Some ==> r->0@.len() == T && forall|x: int|
                0 <= x < T ==> #[trigger] r->0@[x] == self.read_byte(addr as int, T as int, x),
    {
        let (a_s, a) = self.a.read_slice::<T>(addr);
        let (b_s, b) = self.b.read_slice::<T>(addr);
        let (c_s, c) = self.c.read_slice::<T>(addr);
        let (d_s, d) = self.d.read_slice::<T>(addr);
        let (e_s, e) = self.e.read_slice::<T>(addr);
        let (f_s, f) = self.f.read_slice::<T>(addr);
        let (g_s, g) = self.g.read_slice::<T>(addr);
        let (h_s, h) = self.h.read_slice::<T>(addr);
        let (i_s, i) = self.i.read_slice::<T>(addr);

        let success = a_s || b_s || c_s || d_s || e_s || f_s || g_s || h_s || i_s;
        if !success {
            return None;
        }

        let mut result = [0u8; T];
        let mut x: usize = 0;
        while x < T
            invariant
                x <= T,
                result@.len() == T,
                a@ == self.a.read_bytes(addr as int, T as int),
                b@ == self.b.read_bytes(addr as int, T as int),
                c@ == self.c.read_bytes(addr as int, T as int),
                d@ == self.d.read_bytes(addr as int, T as int),
                e@ == self.e.read_bytes(addr as int, T as int),
                f@ == self.f.read_bytes(addr as int, T as int),
                g@ == self.g.read_bytes(addr as int, T as int),
                h@ == self.h.read_bytes(addr as int, T as int),
                i@ == self.i.read_bytes(addr as int, T as int),
                forall|y: int|
                    0 <= y < x ==> #[trigger] result@[y] == self.read_byte(addr as int, T as int, y),
            decreases T - x,
        {
            result[x] = a[x] | b[x] | c[x] | d[x] | e[x] | f[x] | g[x] | h[x] | i[x];
            x = x + 1;
        }

        Some(result)
    }

    /// A bus write of `T` bytes at `addr`: every bank that takes it stores
    /// the bytes; the result tells whether any did.
    pub fn write_slice<const T: usize>(&mut self, addr: usize, value: [u8; T]) -> (r: bool)
        requires
            old(self).write_fits(addr as int, T as int),
            addr + T <= usize::MAX,
        ensures
            old(self).wf() ==> final(self).wf(),
            r == old(self).write_hit(addr as int, T as int),
            final(self).a.same_mapping(&old(self).a),
            final(self).b.same_mapping(&old(self).b),
            final(self).c.same_mapping(&old(self).c),
            final(self).d.same_mapping(&old(self).d),
            final(self).e.same_mapping(&old(self).e),
            final(self).f.same_mapping(&old(self).f),
            final(self).g.same_mapping(&old(self).g),
            final(self).h.same_mapping(&old(self).h),
            final(self).i.same_mapping(&old(self).i),
            final(self).a.data@ == if old(self).a.write_hit(addr as int, T as int) {
                old(self).a.stored(addr as int, value@)
            } else {
                old(self).a.data@
            },
            final(self).b.data@ == if old(self).b.write_hit(addr as int, T as int) {
                old(self).b.stored(addr as int, value@)
            } else {
                old(self).b.data@
            },
            final(self).c.data@ == if old(self).c.write_hit(addr as int, T as int) {
                old(self).c.stored(addr as int, value@)
            } else {
                old(self).c.data@
            },
            final(self).d.data@ == if old(self).d.write_hit(addr as int, T as int) {
                old(self).d.stored(addr as int, value@)
            } else {
                old(self).d.data@
            },
            final(self).e.data@ == if old(self).e.write_hit(addr as int, T as int) {
                old(self).e.stored(addr as int, value@)
            } else {
                old(self).e.data@
            },
            final(self).f.data@ == if old(self).f.write_hit(addr as int, T as int) {
                old(self).f.stored(addr as int, value@)
            } else {
                old(self).f.data@
            },
            final(self).g.data@ == if old(self).g.write_hit(addr as int, T as int) {
                old(self).g.stored(addr as int, value@)
            } else {
                old(self).g.data@
            },
            final(self).h.data@ == if old(self).h.write_hit(addr as int, T as int) {
                old(self).h.stored(addr as int, value@)
            } else {
                old(self).h.data@
            },
            final(self).i.data@ == if old(self).i.write_hit(addr as int, T as int) {
                old(self).i.stored(addr as int, value@)
            } else {
                old(self).i.data@
            },
    {
        let a = self.a.write_slice::<T>(addr, value);
        let b = self.b.write_slice::<T>(addr, value);
        let c = self.c.write_slice::<T>(addr, value);
        let d = self.d.write_slice::<T>(addr, value);
        let e = self.e.write_slice::<T>(addr, value);
        let f = self.f.write_slice::<T>(addr, value);
        let g = self.g.write_slice::<T>(addr, value);
        let h = self.h.write_slice::<T>(addr, value);
        let i = self.i.write_slice::<T>(addr, value);

        a || b || c || d || e || f || g || h || i
    }
}

} // verus!
