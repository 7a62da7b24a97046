//! Graphics display (BG mode 0): the four text backgrounds and the sprite
//! layer laid over the backdrop colour, from the back to the front, with
//! alpha blending where BLDCNT asks for it.
use vstd::prelude::*;

use crate::nds::bits::{bit16, bit32, field16, field32, get_bit_u16, get_bits_u32};
use crate::nds::bytes::halfword_from_le;
use crate::nds::gpus::gpu2d::models::colorfx::{
    alpha_blend_spec,
    ev_of,
    special_effect_of,
    ColorSpecialEffect,
};
use crate::nds::gpus::gpu2d::rendering::background::layer_size;
use crate::nds::gpus::gpu2d::rendering::obj::OBJ_COUNT;
use crate::nds::gpus::gpu2d::Gpu2d;
use crate::nds::gpus::vram::VramBanks;

verus! {

/// The width of a screen in pixels.
pub const SCREEN_WIDTH: usize = 256;

/// The height of a screen in pixels.
pub const SCREEN_HEIGHT: usize = 192;

/// The number of pixels of a screen.
pub const SCREEN_PIXELS: usize = 49152;

/// `new` drawn over `existing`: bit 15 clear makes `new` transparent.
pub open spec fn over(new: u16, existing: u16) -> u16 {
    if bit16(new, 15) {
        new
    } else {
        existing
    }
}

/// A rendered background: at least one column, every column as long as the
/// first and not empty.
pub open spec fn layer_ok(layer: Seq<Vec<u16>>) -> bool {
    &&& layer.len() > 0
    &&& layer[0]@.len() > 0
    &&& forall|x: int| 0 <= x < layer.len() ==> (#[trigger] layer[x])@.len() == layer[0]@.len()
}

/// The pixel of a rendered background that lands on screen pixel (`x`, `y`)
/// with the scroll register `ofs`: the background repeats in both directions.
pub open spec fn layer_sample(layer: Seq<Vec<u16>>, ofs: u32, x: int, y: int) -> u16 {
    let w = layer.len() as int;
    let h = layer[0]@.len() as int;
    layer[(x + field32(ofs, 0, 15)) % w]@[(y + field32(ofs, 16, 31)) % h]
}

/// The sprite layer: at least a screen's width of columns, each at least a
/// screen's height long.
pub open spec fn obj_layer_ok(layer: Seq<Vec<u16>>) -> bool {
    &&& layer.len() >= SCREEN_WIDTH
    &&& forall|x: int| 0 <= x < SCREEN_WIDTH ==> (#[trigger] layer[x])@.len() >= SCREEN_HEIGHT
}

impl<const ENGINE_A: bool> Gpu2d<ENGINE_A> {
    /// The sort key of background `id`: its priority, then its number.
    pub open spec fn bg_key(&self, id: int) -> int {
        field16(self.bgxcnt[id]@, 0, 1) * 4 + id
    }

    /// How many backgrounds come before background `id` in the drawing order:
    /// those with a greater priority value, or the same priority and a
    /// greater number.
    pub open spec fn bg_rank(&self, id: int) -> int {
        (if self.bg_key(0) > self.bg_key(id) {
            1int
        } else {
            0
        }) + (if self.bg_key(1) > self.bg_key(id) {
            1int
        } else {
            0
        }) + (if self.bg_key(2) > self.bg_key(id) {
            1int
        } else {
            0
        }) + (if self.bg_key(3) > self.bg_key(id) {
            1int
        } else {
            0
        })
    }

    /// The backgrounds in the order they are drawn, back to front.
    pub open spec fn draw_order(&self) -> Seq<int> {
        Seq::new(
            4,
            |i: int|
                if self.bg_rank(0) == i {
                    0
                } else if self.bg_rank(1) == i {
                    1
                } else if self.bg_rank(2) == i {
                    2
                } else {
                    3
                },
        )
    }

    /// The drawing order: the backgrounds sorted by priority value and then
    /// by number, both from high to low, so that the front-most comes last.
    fn bg_draw_order(&self) -> (r: [usize; 4])
        ensures
            forall|i: int| 0 <= i < 4 ==> r[i] as int == #[trigger] self.draw_order()[i],
            forall|i: int| 0 <= i < 4 ==> #[trigger] r[i] < 4,
    {
        let k0: u16 = self.bgxcnt[0].get_priority() * 4;
        let k1: u16 = self.bgxcnt[1].get_priority() * 4 + 1;
        let k2: u16 = self.bgxcnt[2].get_priority() * 4 + 2;
        let k3: u16 = self.bgxcnt[3].get_priority() * 4 + 3;
        let keys: [u16; 4] = [k0, k1, k2, k3];
        let mut ranks: [usize; 4] = [0, 0, 0, 0];
        let mut id: usize = 0;
        while id < 4
            invariant
                id <= 4,
                keys@ == seq![k0, k1, k2, k3],
                k0 == self.bg_key(0),
                k1 == self.bg_key(1),
                k2 == self.bg_key(2),
                k3 == self.bg_key(3),
                forall|j: int| 0 <= j < id ==> #[trigger] ranks[j] as int == self.bg_rank(j),
            decreases 4 - id,
        {
            let k: u16 = keys[id];
            let mut rank: usize = 0;
            if k0 > k {
                rank = rank + 1;
            }
            if k1 > k {
                rank = rank + 1;
            }
            if k2 > k {
                rank = rank + 1;
            }
            if k3 > k {
                rank = rank + 1;
            }
            ranks[id] = rank;
            id = id + 1;
        }
        proof {
            lemma_draw_order_sorted(*self);
        }
        let mut order: [usize; 4] = [3, 3, 3, 3];
        let mut i: usize = 0;
        while i < 4
            invariant
                i <= 4,
                forall|j: int| 0 <= j < 4 ==> #[trigger] ranks[j] as int == self.bg_rank(j),
                forall|j: int| 0 <= j < i ==> order[j] as int == #[trigger] self.draw_order()[j],
                forall|j: int| 0 <= j < 4 ==> #[trigger] order[j] < 4,
            decreases 4 - i,
        {
            let v: usize = if ranks[0] == i {
                0
            } else if ranks[1] == i {
                1
            } else if ranks[2] == i {
                2
            } else {
                3
            };
            order[i] = v;
            i = i + 1;
        }
        order
    }
}

/// The drawing order of the backgrounds goes from the back to the front: each
/// background comes exactly once, and a background drawn later has a smaller
/// priority value, or the same priority and a smaller number.
pub proof fn lemma_draw_order_sorted<const ENGINE_A: bool>(g: Gpu2d<ENGINE_A>)
    ensures
        forall|id: int| 0 <= id < 4 ==> 0 <= #[trigger] g.bg_rank(id) < 4,
        forall|id: int| 0 <= id < 4 ==> g.draw_order()[#[trigger] g.bg_rank(id)] == id,
        forall|i: int| 0 <= i < 4 ==> 0 <= #[trigger] g.draw_order()[i] < 4,
        forall|i: int, j: int|
            0 <= i < j < 4 ==> g.bg_key(#[trigger] g.draw_order()[i]) > g.bg_key(
                #[trigger] g.draw_order()[j],
            ),
{
    let p0 = g.bgxcnt[0]@;
    let p1 = g.bgxcnt[1]@;
    let p2 = g.bgxcnt[2]@;
    let p3 = g.bgxcnt[3]@;
    assert(field16(p0, 0, 1) <= 3 && field16(p1, 0, 1) <= 3 && field16(p2, 0, 1) <= 3 && field16(
        p3,
        0,
        1,
    ) <= 3) by (bit_vector);
    assert(g.bg_rank(0) != g.bg_rank(1));
    assert(g.bg_rank(0) != g.bg_rank(2));
    assert(g.bg_rank(0) != g.bg_rank(3));
    assert(g.bg_rank(1) != g.bg_rank(2));
    assert(g.bg_rank(1) != g.bg_rank(3));
    assert(g.bg_rank(2) != g.bg_rank(3));
}

impl<const ENGINE_A: bool> Gpu2d<ENGINE_A> {
    /// Whether BLDCNT alpha-blends the background drawn `i`-th onto the one
    /// drawn just before it: alpha blending is on, the background is a first
    /// target and the one before a second target.
    pub open spec fn blends(&self, i: int) -> bool {
        let order = self.draw_order();
        &&& special_effect_of(field16(self.bldcnt.0, 6, 7)) == ColorSpecialEffect::AlphaBlending
        &&& i != 0
        &&& bit16(self.bldcnt.0, order[i] as u16)
        &&& bit16(self.bldcnt.0, (order[i - 1] + 8) as u16)
    }

    /// The backdrop colour: the first colour of the palette.
    pub open spec fn backdrop(&self) -> u16 {
        (self.palette@[0] + 256 * self.palette@[1]) as u16
    }

    /// Screen pixel `p` (counted row by row) once the background drawn `i`-th
    /// and then the sprite layer, if its slot `3 - i` is shown, are drawn over
    /// `existing`. `bgs` holds the rendered backgrounds, `false` where one is
    /// off; `obj` gives the sprite layer's pixel at a screen position.
    pub open spec fn graphics_step(
        &self,
        bgs: Seq<(Vec<Vec<u16>>, bool)>,
        obj: spec_fn(int, int) -> u16,
        i: int,
        p: int,
        existing: u16,
    ) -> u16 {
        let id = self.draw_order()[i];
        let x = p % (SCREEN_WIDTH as int);
        let y = p / (SCREEN_WIDTH as int);
        let after_bg = if bgs[id].1 {
            let new = layer_sample(bgs[id].0@, self.bgofs[id], x, y);
            if self.blends(i) {
                alpha_blend_spec(new, existing, ev_of(self.bldalpha[0]@), ev_of(self.bldalpha[1]@))
            } else {
                over(new, existing)
            }
        } else {
            existing
        };
        if self.show_objs[3 - i] {
            over(obj(x, y), after_bg)
        } else {
            after_bg
        }
    }

    /// Screen pixel `p` once the first `n` backgrounds in drawing order (each
    /// followed by its sprite slot) are drawn over the backdrop colour.
    pub open spec fn graphics_pixel(
        &self,
        bgs: Seq<(Vec<Vec<u16>>, bool)>,
        obj: spec_fn(int, int) -> u16,
        n: int,
        p: int,
    ) -> u16
        decreases n,
    {
        if n <= 0 {
            self.backdrop()
        } else {
            self.graphics_step(bgs, obj, n - 1, p, self.graphics_pixel(bgs, obj, n - 1, p))
        }
    }

    /// Lays the rendered backgrounds `bgs` (one per background, `false` where
    /// a background is off) and the sprite layer `obj` (column by column) over
    /// the backdrop colour, from the back to the front: after each background
    /// comes the sprite layer, where its priority slot is shown. A background
    /// scrolls by its BGxOFS and repeats; a transparent pixel (bit 15 clear)
    /// leaves what is below, and a background that BLDCNT blends is mixed
    /// with what is below in the proportions of BLDALPHA. The result holds
    /// the screen row by row.
    pub fn compose_graphics(&self, bgs: &Vec<(Vec<Vec<u16>>, bool)>, obj: &Vec<Vec<u16>>) -> (r: Vec<
        u16,
    >)
        requires
            bgs@.len() == 4,
            forall|id: int| 0 <= id < 4 && (#[trigger] bgs@[id]).1 ==> layer_ok(bgs@[id].0@),
            obj_layer_ok(obj@),
            self.palette@.len() >= 2,
        ensures
            r@.len() == SCREEN_PIXELS,
            forall|p: int|
                0 <= p < SCREEN_PIXELS ==> #[trigger] r@[p] == self.graphics_pixel(
                    bgs@,
                    obj_view(obj@),
                    4,
                    p,
                ),
    {
        let backdrop = halfword_from_le(self.palette[0], self.palette[1]);
        let mut pixels: Vec<u16> = vec![backdrop; SCREEN_PIXELS];
        let order = self.bg_draw_order();
        let colorfx = self.bldcnt.get_color_special_effect();
        let eva = self.bldalpha[0].ev_sixteenths();
        let evb = self.bldalpha[1].ev_sixteenths();
        let ghost objf = obj_view(obj@);
        let mut i: usize = 0;
        while i < 4
            invariant
                i <= 4,
                bgs@.len() == 4,
                forall|id: int| 0 <= id < 4 && (#[trigger] bgs@[id]).1 ==> layer_ok(bgs@[id].0@),
                obj_layer_ok(obj@),
                objf == obj_view(obj@),
                forall|j: int| 0 <= j < 4 ==> order[j] as int == #[trigger] self.draw_order()[j],
                forall|j: int| 0 <= j < 4 ==> #[trigger] order[j] < 4,
                colorfx == special_effect_of(field16(self.bldcnt.0, 6, 7)),
                eva == ev_of(self.bldalpha[0]@),
                evb == ev_of(self.bldalpha[1]@),
                eva <= 16,
                evb <= 16,
                pixels@.len() == SCREEN_PIXELS,
                forall|p: int|
                    0 <= p < SCREEN_PIXELS ==> #[trigger] pixels@[p] == self.graphics_pixel(
                        bgs@,
                        objf,
                        i as int,
                        p,
                    ),
            decreases 4 - i,
        {
            let id: usize = order[i];
            let blend: bool = colorfx == ColorSpecialEffect::AlphaBlending && i != 0
                && self.bldcnt.get_first_target_pixel(id as u16)
                && self.bldcnt.get_second_target_pixel(order[i - 1] as u16);
            assert(blend == self.blends(i as int));
            let layer = &bgs[id];
            let bg_on: bool = layer.1;
            let show_obj: bool = self.show_objs[3 - i];
            let ox: usize = get_bits_u32(self.bgofs[id], 0, 15) as usize;
            let oy: usize = get_bits_u32(self.bgofs[id], 16, 31) as usize;
            proof {
                let v = self.bgofs[id as int];
                assert(field32(v, 0, 15) < 0x10000 && field32(v, 16, 31) < 0x10000) by (bit_vector);
            }
            let w: usize = if bg_on {
                layer.0.len()
            } else {
                1
            };
            let h: usize = if bg_on {
                layer.0[0].len()
            } else {
                1
            };
            let ghost before = pixels@;
            let mut p: usize = 0;
            while p < SCREEN_PIXELS
                invariant
                    i < 4,
                    p <= SCREEN_PIXELS,
                    id == self.draw_order()[i as int],
                    id < 4,
                    bgs@.len() == 4,
                    *layer == bgs@[id as int],
                    bg_on == layer.1,
                    bg_on ==> layer_ok(layer.0@),
                    bg_on ==> w == layer.0@.len() && h == layer.0@[0]@.len(),
                    w > 0,
                    h > 0,
                    ox == field32(self.bgofs[id as int], 0, 15),
                    oy == field32(self.bgofs[id as int], 16, 31),
                    ox < 0x10000,
                    oy < 0x10000,
                    blend == self.blends(i as int),
                    show_obj == self.show_objs[3 - i],
                    obj_layer_ok(obj@),
                    objf == obj_view(obj@),
                    eva == ev_of(self.bldalpha[0]@),
                    evb == ev_of(self.bldalpha[1]@),
                    eva <= 16,
                    evb <= 16,
                    before.len() == SCREEN_PIXELS,
                    pixels@.len() == SCREEN_PIXELS,
                    forall|q: int|
                        0 <= q < SCREEN_PIXELS ==> #[trigger] before[q] == self.graphics_pixel(
                            bgs@,
                            objf,
                            i as int,
                            q,
                        ),
                    forall|q: int|
                        0 <= q < p ==> #[trigger] pixels@[q] == self.graphics_step(
                            bgs@,
                            objf,
                            i as int,
                            q,
                            before[q],
                        ),
                    forall|q: int| p <= q < SCREEN_PIXELS ==> #[trigger] pixels@[q] == before[q],
                decreases SCREEN_PIXELS - p,
            {
                let x: usize = p % SCREEN_WIDTH;
                let y: usize = p / SCREEN_WIDTH;
                assert(y < SCREEN_HEIGHT);
                let existing: u16 = pixels[p];
                let mut px: u16 = existing;
                if bg_on {
                    let bx: usize = (x + ox) % w;
                    let by: usize = (y + oy) % h;
                    assert(layer.0@[bx as int]@.len() == h);
                    let new: u16 = layer.0[bx][by];
                    px = if blend {
                        ColorSpecialEffect::alpha_blend_sixteenths(new, existing, eva, evb)
                    } else if get_bit_u16(new, 15) {
                        new
                    } else {
                        existing
                    };
                }
                if show_obj {
                    assert(obj@[x as int]@.len() >= SCREEN_HEIGHT);
                    let new: u16 = obj[x][y];
                    if get_bit_u16(new, 15) {
                        px = new;
                    }
                }
                pixels.set(p, px);
                p = p + 1;
            }
            proof {
                assert forall|q: int| 0 <= q < SCREEN_PIXELS implies #[trigger] pixels@[q]
                    == self.graphics_pixel(bgs@, objf, i + 1, q) by {
                    assert(pixels@[q] == self.graphics_step(bgs@, objf, i as int, q, before[q]));
                }
            }
            i = i + 1;
        }
        pixels
    }
}

/// The sprite layer `obj` (column by column) as a function of the screen
/// position; outside the screen it is read as 0.
pub open spec fn obj_view(obj: Seq<Vec<u16>>) -> spec_fn(int, int) -> u16 {
    |x: int, y: int|
        if 0 <= x < SCREEN_WIDTH && 0 <= y < SCREEN_HEIGHT {
            obj[x]@[y]
        } else {
            0
        }
}

/// Scrolling: with the scroll register `ofs`, screen pixel (`x`, `y`) shows
/// the layer pixel at column `x` plus the horizontal scroll (bits 0-15) and
/// row `y` plus the vertical scroll (bits 16-31), each wrapped around the
/// layer's size; that is, the scrolled layer at (`x`, `y`) is the unscrolled
/// layer at (`x` + horizontal scroll, `y` + vertical scroll).
pub proof fn lemma_scroll(layer: Seq<Vec<u16>>, ofs: u32, x: int, y: int)
    requires
        layer_ok(layer),
        0 <= x,
        0 <= y,
    ensures
        layer_sample(layer, ofs, x, y) == layer[(x + ofs % 65536) % (layer.len() as int)]@[(y
            + ofs / 65536) % (layer[0]@.len() as int)],
        layer_sample(layer, ofs, x, y) == layer_sample(layer, 0, x + ofs % 65536, y + ofs / 65536),
{
    crate::nds::bits::lemma_fields32(ofs);
    crate::nds::bits::lemma_fields32(0u32);
}

/// A screen showing one background alone: where background `id` is the only
/// one on, no sprite slot is shown and alpha blending is off, screen pixel
/// `p` (column `p % 256`, row `p / 256`) is the background's scrolled pixel
/// (see `lemma_scroll`) if that is drawn (bit 15 set), and the backdrop
/// colour (palette bytes 0 and 1) otherwise.
pub proof fn lemma_single_background<const ENGINE_A: bool>(
    g: Gpu2d<ENGINE_A>,
    bgs: Seq<(Vec<Vec<u16>>, bool)>,
    obj: spec_fn(int, int) -> u16,
    id: int,
    p: int,
)
    requires
        0 <= id < 4,
        0 <= p,
        bgs[id].1,
        layer_ok(bgs[id].0@),
        forall|j: int| 0 <= j < 4 && j != id ==> !(#[trigger] bgs[j]).1,
        forall|k: int| 0 <= k < 4 ==> !(#[trigger] g.show_objs[k]),
        (g.bldcnt.0 / 64) % 4 != 1,
    ensures
        ({
            let layer = bgs[id].0@;
            let ofs = g.bgofs[id];
            let v = layer[(p % 256 + ofs % 65536) % (layer.len() as int)]@[(p / 256 + ofs / 65536)
                % (layer[0]@.len() as int)];
            g.graphics_pixel(bgs, obj, 4, p) == if v >= 32768 {
                v as int
            } else {
                g.palette@[0] + 256 * g.palette@[1]
            }
        }),
{
    lemma_draw_order_sorted(g);
    lemma_scroll(bgs[id].0@, g.bgofs[id], p % 256, p / 256);
    let b = g.bldcnt.0;
    crate::nds::bits::lemma_fields16(b);
    assert forall|v: u16| #[trigger] bit16(v, 15) == (v >= 32768) by {
        crate::nds::bits::lemma_fields16(v);
    }
    let r = g.bg_rank(id);
    let order = g.draw_order();
    assert(order[r] == id);
    assert forall|i: int| 0 <= i < 4 && i != r implies order[i] != id by {
        if i < r {
            assert(g.bg_key(order[i]) > g.bg_key(order[r]));
        } else {
            assert(g.bg_key(order[r]) > g.bg_key(order[i]));
        }
    }
    assert(!g.blends(r));
    reveal_with_fuel(Gpu2d::graphics_pixel, 5);
    let backdrop = g.backdrop();
    assert(g.graphics_pixel(bgs, obj, 0, p) == backdrop);
    assert(!bgs[order[0]].1 ==> g.graphics_pixel(bgs, obj, 1, p) == g.graphics_pixel(bgs, obj, 0, p));
    assert(!bgs[order[1]].1 ==> g.graphics_pixel(bgs, obj, 2, p) == g.graphics_pixel(bgs, obj, 1, p));
    assert(!bgs[order[2]].1 ==> g.graphics_pixel(bgs, obj, 3, p) == g.graphics_pixel(bgs, obj, 2, p));
    assert(!bgs[order[3]].1 ==> g.graphics_pixel(bgs, obj, 4, p) == g.graphics_pixel(bgs, obj, 3, p));
}

/// What graphics display shows.
pub enum GraphicsFrame {
    /// BG mode 0: the screen row by row, and the rendered backgrounds
    /// (`false` where a background is off).
    Composed(Vec<u16>, Vec<(Vec<Vec<u16>>, bool)>),
    /// Another BG mode, which is not drawn: the mode.
    Unsupported(u8),
}

impl<const ENGINE_A: bool> Gpu2d<ENGINE_A> {
    /// Whether background `id` is rendered: DISPCNT displays it, the
    /// debugging view lets it through and, for BG0, DISPCNT does not give it
    /// to the 3D engine.
    pub open spec fn bg_enabled(&self, id: int) -> bool {
        &&& bit32(self.dispcnt@, (8 + id) as u32)
        &&& self.show_bgs[id]
        &&& (id == 0 ==> !bit32(self.dispcnt@, 3))
    }

    /// `layer` is background `id` rendered in full, column by column.
    pub open spec fn bg_rendered(&self, banks: &VramBanks, id: int, layer: Seq<Vec<u16>>) -> bool {
        let (w, h) = layer_size(field16(self.bgxcnt[id]@, 14, 15));
        &&& layer.len() == w
        &&& forall|x: int| 0 <= x < w ==> (#[trigger] layer[x])@.len() == h
        &&& forall|x: int, y: int|
            0 <= x < w && 0 <= y < h ==> #[trigger] layer[x]@[y] == self.background_pixel(
                banks,
                id,
                x,
                y,
            )
    }

    /// Everything that graphics display reads is there: the palette, OAM,
    /// every tile of every sprite and of every background that is on.
    pub open spec fn graphics_readable(&self, banks: &VramBanks) -> bool {
        &&& self.palette@.len() >= 1024
        &&& self.oam@.len() >= 1024
        &&& self.objs_readable(banks)
        &&& forall|id: int|
            0 <= id < 4 && #[trigger] self.bg_enabled(id) ==> self.background_readable(banks, id)
    }

    /// The sprite layer as a function of the screen position, as
    /// `render_objs` draws it; outside the screen it is read as 0.
    pub open spec fn objs_view(&self, banks: &VramBanks) -> spec_fn(int, int) -> u16 {
        |x: int, y: int|
            if 0 <= x < SCREEN_WIDTH && 0 <= y < SCREEN_HEIGHT {
                self.objs_pixel(banks, OBJ_COUNT as int, x, y)
            } else {
                0
            }
    }

    fn render_enabled_background<const BG: u8>(&self, vram_banks: &VramBanks, on: bool) -> (r: (
        Vec<Vec<u16>>,
        bool,
    ))
        requires
            BG < 4,
            on ==> self.background_readable(vram_banks, BG as int),
            self.palette@.len() >= 512,
        ensures
            r.1 == on,
            on ==> self.bg_rendered(vram_banks, BG as int, r.0@),
            !on ==> r.0@.len() == 1 && r.0@[0]@.len() == 0,
    {
        if on {
            self.render_background::<BG>(vram_banks)
        } else {
            let mut empty: Vec<Vec<u16>> = Vec::new();
            empty.push(Vec::new());
            (empty, false)
        }
    }

    /// `frame` is what graphics display shows: in BG mode 0 the rendered
    /// backgrounds (exactly those that are on) and the screen that
    /// `graphics_pixel` gives with the sprites as `render_objs` draws them;
    /// in any other BG mode, that mode.
    pub open spec fn graphics_frame(&self, banks: &VramBanks, frame: GraphicsFrame) -> bool {
        if field32(self.dispcnt@, 0, 2) != 0 {
            frame == GraphicsFrame::Unsupported(field32(self.dispcnt@, 0, 2) as u8)
        } else {
            frame matches GraphicsFrame::Composed(pixels, layers) && {
                &&& layers@.len() == 4
                &&& forall|id: int| 0 <= id < 4 ==> (#[trigger] layers@[id]).1 == self.bg_enabled(id)
                &&& forall|id: int|
                    0 <= id < 4 && (#[trigger] layers@[id]).1 ==> self.bg_rendered(
                        banks,
                        id,
                        layers@[id].0@,
                    )
                &&& forall|id: int|
                    0 <= id < 4 && !(#[trigger] layers@[id]).1 ==> layers@[id].0@.len() == 1
                        && layers@[id].0@[0]@.len() == 0
                &&& pixels@.len() == SCREEN_PIXELS
                &&& forall|p: int|
                    0 <= p < SCREEN_PIXELS ==> #[trigger] pixels@[p] == self.graphics_pixel(
                        layers@,
                        self.objs_view(banks),
                        4,
                        p,
                    )
            }
        }
    }

    /// Graphics display: in BG mode 0 the backgrounds that are on are
    /// rendered, the sprites too, and `compose_graphics` lays them over the
    /// backdrop colour; every other BG mode is left undrawn.
    pub fn render_graphics(&self, vram_banks: &VramBanks) -> (r: GraphicsFrame)
        requires
            field32(self.dispcnt@, 0, 2) == 0 ==> self.graphics_readable(vram_banks),
        ensures
            self.graphics_frame(vram_banks, r),
    {
        let bg_mode = self.dispcnt.get_bg_mode();
        if bg_mode != 0 {
            return GraphicsFrame::Unsupported(bg_mode);
        }
        let on0: bool = self.dispcnt.get_screen_display_bg0() && self.show_bgs[0]
            && !self.dispcnt.get_bg0_2d_3d_selection();
        let on1: bool = self.dispcnt.get_screen_display_bg1() && self.show_bgs[1];
        let on2: bool = self.dispcnt.get_screen_display_bg2() && self.show_bgs[2];
        let on3: bool = self.dispcnt.get_screen_display_bg3() && self.show_bgs[3];
        assert(on0 == self.bg_enabled(0));
        assert(on1 == self.bg_enabled(1));
        assert(on2 == self.bg_enabled(2));
        assert(on3 == self.bg_enabled(3));
        let mut layers: Vec<(Vec<Vec<u16>>, bool)> = Vec::new();
        layers.push(self.render_enabled_background::<0>(vram_banks, on0));
        layers.push(self.render_enabled_background::<1>(vram_banks, on1));
        layers.push(self.render_enabled_background::<2>(vram_banks, on2));
        layers.push(self.render_enabled_background::<3>(vram_banks, on3));
        let obj_layer = self.render_objs(vram_banks);
        proof {
            assert forall|id: int| 0 <= id < 4 && (#[trigger] layers@[id]).1 implies layer_ok(
                layers@[id].0@,
            ) by {
                let (w, h) = layer_size(field16(self.bgxcnt[id]@, 14, 15));
                assert(layers@[id].0@[0]@.len() == h);
            }
            assert forall|x: int, y: int|
                #[trigger] obj_view(obj_layer.0@)(x, y) == self.objs_view(vram_banks)(x, y) by {}
            assert(obj_view(obj_layer.0@) =~= self.objs_view(vram_banks));
        }
        let pixels = self.compose_graphics(&layers, &obj_layer.0);
        GraphicsFrame::Composed(pixels, layers)
    }
}

impl<const ENGINE_A: bool> Gpu2d<ENGINE_A> {
    /// At screen pixel `p`, the background drawn `i`-th is off or transparent,
    /// and the sprite slot that follows it is hidden or transparent.
    pub open spec fn transparent_at(
        &self,
        bgs: Seq<(Vec<Vec<u16>>, bool)>,
        obj: spec_fn(int, int) -> u16,
        i: int,
        p: int,
    ) -> bool {
        let id = self.draw_order()[i];
        let x = p % (SCREEN_WIDTH as int);
        let y = p / (SCREEN_WIDTH as int);
        &&& bgs[id].1 ==> !bit16(layer_sample(bgs[id].0@, self.bgofs[id], x, y), 15)
        &&& self.show_objs[3 - i] ==> !bit16(obj(x, y), 15)
    }
}

/// Where every background and every sprite slot is off or transparent, the
/// screen shows the backdrop colour, blending or not.
pub proof fn lemma_transparent_shows_backdrop<const ENGINE_A: bool>(
    g: Gpu2d<ENGINE_A>,
    bgs: Seq<(Vec<Vec<u16>>, bool)>,
    obj: spec_fn(int, int) -> u16,
    p: int,
)
    requires
        forall|i: int| 0 <= i < 4 ==> #[trigger] g.transparent_at(bgs, obj, i, p),
    ensures
        g.graphics_pixel(bgs, obj, 4, p) == g.backdrop(),
{
    assert(g.transparent_at(bgs, obj, 0, p));
    assert(g.transparent_at(bgs, obj, 1, p));
    assert(g.transparent_at(bgs, obj, 2, p));
    assert(g.transparent_at(bgs, obj, 3, p));
    reveal_with_fuel(Gpu2d::graphics_pixel, 5);
}

/// Where the front-most background in drawing order has an opaque pixel that
/// is not blended, and the front sprite slot is hidden or transparent, the
/// screen shows that pixel, whatever lies behind it.
pub proof fn lemma_front_background_shows<const ENGINE_A: bool>(
    g: Gpu2d<ENGINE_A>,
    bgs: Seq<(Vec<Vec<u16>>, bool)>,
    obj: spec_fn(int, int) -> u16,
    p: int,
)
    requires
        bgs[g.draw_order()[3]].1,
        bit16(
            layer_sample(
                bgs[g.draw_order()[3]].0@,
                g.bgofs[g.draw_order()[3]],
                p % (SCREEN_WIDTH as int),
                p / (SCREEN_WIDTH as int),
            ),
            15,
        ),
        !g.blends(3),
        g.show_objs[0] ==> !bit16(obj(p % (SCREEN_WIDTH as int), p / (SCREEN_WIDTH as int)), 15),
    ensures
        g.graphics_pixel(bgs, obj, 4, p) == layer_sample(
            bgs[g.draw_order()[3]].0@,
            g.bgofs[g.draw_order()[3]],
            p % (SCREEN_WIDTH as int),
            p / (SCREEN_WIDTH as int),
        ),
{
}

} // verus!
