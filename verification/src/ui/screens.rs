//! The extra screen windows (top, bottom or both screens) that the user opens
//! from the screens menu: each kind keeps the ids of its open windows and the
//! next id to give.
use vstd::prelude::*;

verus! {

pub struct ScreenWindows {
    /// The ids of the open windows, oldest first.
    pub ids: Vec<u32>,
    /// The id that the next window gets.
    pub count: u32,
}

impl Default for ScreenWindows {
    /// No window open; the next one gets id 0.
    fn default() -> (r: Self)
        ensures
            r.ids@.len() == 0,
            r.count == 0,
    {
        ScreenWindows { ids: Vec::new(), count: 0 }
    }
}

impl ScreenWindows {
    /// Opens a window: it gets the next id, and the id after it is next.
    pub fn open(&mut self)
        requires
            old(self).count < u32::MAX,
        ensures
            final(self).ids@ == old(self).ids@.push(old(self).count),
            final(self).count == old(self).count + 1,
    {
        self.ids.push(self.count);
        self.count = self.count + 1;
    }

    /// Closes the window `id`: once no window is left, ids start at 0 again.
    pub fn close(&mut self, id: u32)
        ensures
            final(self).ids@ == old(self).ids@.filter(|x: u32| x != id),
            final(self).count == if final(self).ids@.len() == 0 {
                0
            } else {
                old(self).count
            },
    {
        let ghost pred = |x: u32| x != id;
        let mut kept: Vec<u32> = Vec::new();
        let mut i: usize = 0;
        while i < self.ids.len()
            invariant
                i <= self.ids@.len(),
                pred == (|x: u32| x != id),
                kept@ == self.ids@.take(i as int).filter(pred),
            decreases self.ids@.len() - i,
        {
            let v = self.ids[i];
            proof {
                let s = self.ids@;
                assert(s.take(i + 1) == s.take(i as int).push(v));
                reveal_with_fuel(Seq::filter, 1);
                assert(s.take(i + 1).drop_last() == s.take(i as int));
            }
            if v != id {
                kept.push(v);
            }
            i = i + 1;
        }
        proof {
            assert(self.ids@.take(self.ids@.len() as int) == self.ids@);
        }
        self.ids = kept;
        if self.ids.len() == 0 {
            self.count = 0;
        }
    }

    /// Closes every window; ids start at 0 again.
    pub fn close_all(&mut self)
        ensures
            final(self).ids@.len() == 0,
            final(self).count == 0,
    {
        self.ids.clear();
        self.count = 0;
    }
}

} // verus!
