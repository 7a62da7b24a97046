//! Sprite (OBJ) rendering into a 511x255 layer: 128 OAM entries, each a
//! rectangle of 8x8 16-colour tiles; later entries are drawn over earlier ones
//! and the layer wraps around at its edges.
use vstd::prelude::*;

use crate::nds::bits::{bit16, field16, get_bit_u16, get_bits_u16, set_bit_u16, with_bit16};
use crate::nds::bytes::halfword_from_le;
use crate::nds::gpus::gpu2d::Gpu2d;
use crate::nds::gpus::vram::VramBanks;

verus! {

/// The width of the sprite layer.
pub const OBJ_LAYER_WIDTH: usize = 511;

/// The height of the sprite layer.
pub const OBJ_LAYER_HEIGHT: usize = 255;

/// The number of OAM entries.
pub const OBJ_COUNT: usize = 128;

/// The size of a sprite from its shape and size fields; shape 3 is not drawn.
pub open spec fn obj_dims(shape: u16, size: u16) -> Option<(int, int)> {
    if shape == 0 {
        if size == 0 {
            Some((8, 8))
        } else if size == 1 {
            Some((16, 16))
        } else if size == 2 {
            Some((32, 32))
        } else {
            Some((64, 64))
        }
    } else if shape == 1 {
        if size == 0 {
            Some((16, 8))
        } else if size == 1 {
            Some((32, 8))
        } else if size == 2 {
            Some((32, 16))
        } else {
            Some((64, 32))
        }
    } else if shape == 2 {
        if size == 0 {
            Some((8, 16))
        } else if size == 1 {
            Some((8, 32))
        } else if size == 2 {
            Some((16, 32))
        } else {
            Some((32, 64))
        }
    } else {
        None
    }
}

/// The little-endian halfword at `addr` of `s`.
pub open spec fn halfword_at(s: Seq<u8>, addr: int) -> u16 {
    (s[addr] + 256 * s[addr + 1]) as u16
}

impl<const ENGINE_A: bool> Gpu2d<ENGINE_A> {
    /// Where the engine's OBJ VRAM starts on the bus.
    pub open spec fn obj_vram_base(&self) -> int {
        if ENGINE_A {
            0x06400000
        } else {
            0x06600000
        }
    }

    /// Attribute `n` (0, 1 or 2) of OAM entry `i`.
    pub open spec fn oam_attr(&self, i: int, n: int) -> u16 {
        halfword_at(self.oam@, i * 8 + n * 2)
    }

    /// The size of OAM entry `i`, when it is drawn: bit 9 of attribute 0
    /// hides it.
    pub open spec fn obj_size(&self, i: int) -> Option<(int, int)> {
        if bit16(self.oam_attr(i, 0), 9) {
            None
        } else {
            obj_dims(field16(self.oam_attr(i, 0), 14, 15), field16(self.oam_attr(i, 1), 14, 15))
        }
    }

    /// The bus address of the tile of sprite `i` at tile column `qx` and tile
    /// row `qy` of the sprite, which is `w` pixels wide.
    pub open spec fn obj_tile_addr(&self, i: int, w: int, qx: int, qy: int) -> int {
        self.obj_vram_base() + (field16(self.oam_attr(i, 2), 0, 9) * 4 + qx + qy * (w / 8)) * 32
    }

    /// Byte `k` of that tile: zero when no bank answers.
    pub open spec fn obj_tile_byte(&self, banks: &VramBanks, addr: int, k: int) -> u8 {
        if banks.hit(addr) {
            banks.read_byte(addr, 32, k)
        } else {
            0
        }
    }

    /// The colour that sprite `i` draws at sprite pixel (`dx`, `dy`).
    #[verifier::opaque]
    pub open spec fn obj_colour(&self, banks: &VramBanks, i: int, w: int, dx: int, dy: int) -> u16 {
        let addr = self.obj_tile_addr(i, w, dx / 8, dy / 8);
        let b = self.obj_tile_byte(banks, addr, (dy % 8) * 4 + (dx % 8) / 2);
        let index = if dx % 2 == 0 {
            b % 16
        } else {
            b / 16
        };
        let palette_addr = ((512 + index * 2) as u16 | ((field16(self.oam_attr(i, 2), 12, 15) as u16)
            << 4u16)) as int;
        with_bit16(halfword_at(self.palette@, palette_addr), 15, true)
    }

    /// What sprite `i` draws at layer pixel (`x`, `y`), if anything.
    pub open spec fn obj_pixel(&self, banks: &VramBanks, i: int, x: int, y: int) -> Option<u16> {
        match self.obj_size(i) {
            Some((w, h)) => {
                let dx = (x - field16(self.oam_attr(i, 1), 0, 8)) % (OBJ_LAYER_WIDTH as int);
                let dy = (y - field16(self.oam_attr(i, 0), 0, 7)) % (OBJ_LAYER_HEIGHT as int);
                if dx < w && dy < h {
                    Some(self.obj_colour(banks, i, w, dx, dy))
                } else {
                    None
                }
            },
            None => None,
        }
    }

    /// Layer pixel (`x`, `y`) after the first `n` sprites are drawn.
    pub open spec fn objs_pixel(&self, banks: &VramBanks, n: int, x: int, y: int) -> u16
        decreases n,
    {
        if n <= 0 {
            0
        } else {
            match self.obj_pixel(banks, n - 1, x, y) {
                Some(c) => c,
                None => self.objs_pixel(banks, n - 1, x, y),
            }
        }
    }

    /// Every tile that a drawn sprite uses can be read from the VRAM banks;
    /// hidden sprites, and tiles beyond a sprite's size, are not read.
    pub open spec fn objs_readable(&self, banks: &VramBanks) -> bool {
        forall|i: int, qx: int, qy: int|
            0 <= i < OBJ_COUNT && self.obj_size(i) is Some && 0 <= qx < (self.obj_size(i)->0).0 / 8
                && 0 <= qy < (self.obj_size(i)->0).1 / 8 ==> {
                let addr = #[trigger] self.obj_tile_addr(i, (self.obj_size(i)->0).0, qx, qy);
                &&& banks.read_ok(addr, 32)
            }
    }

    /// Renders the sprites: the result holds the layer column by column
    /// (`result.0[x][y]`, 511 columns of 255 pixels), every pixel as
    /// `objs_pixel` gives it after all 128 sprites, and `true`.
    pub fn render_objs(&self, vram_banks: &VramBanks) -> (r: (Vec<Vec<u16>>, bool))
        requires
            self.oam@.len() >= 1024,
            self.palette@.len() >= 1024,
            self.objs_readable(vram_banks),
        ensures
            r.1,
            r.0@.len() == OBJ_LAYER_WIDTH,
            forall|x: int| 0 <= x < OBJ_LAYER_WIDTH ==> (#[trigger] r.0@[x])@.len() == OBJ_LAYER_HEIGHT,
            forall|x: int, y: int|
                0 <= x < OBJ_LAYER_WIDTH && 0 <= y < OBJ_LAYER_HEIGHT ==> #[trigger] r.0@[x]@[y]
                    == self.objs_pixel(vram_banks, OBJ_COUNT as int, x, y),
    {
        let w_layer = OBJ_LAYER_WIDTH;
        let h_layer = OBJ_LAYER_HEIGHT;
        let mut flat: Vec<u16> = vec![0u16; w_layer * h_layer];
        let obj_vram_base: usize = if ENGINE_A {
            0x06400000
        } else {
            0x06600000
        };
        let mut i: usize = 0;
        while i < OBJ_COUNT
            invariant
                i <= OBJ_COUNT,
                w_layer == OBJ_LAYER_WIDTH,
                h_layer == OBJ_LAYER_HEIGHT,
                flat@.len() == w_layer * h_layer,
                obj_vram_base == self.obj_vram_base(),
                self.oam@.len() >= 1024,
                self.palette@.len() >= 1024,
                self.objs_readable(vram_banks),
                forall|x: int, y: int|
                    0 <= x < w_layer && 0 <= y < h_layer ==> #[trigger] flat@[x * h_layer + y]
                        == self.objs_pixel(vram_banks, i as int, x, y),
            decreases OBJ_COUNT - i,
        {
            let addr = i * 8;
            let oam0 = halfword_from_le(self.oam[addr], self.oam[addr + 1]);
            let oam1 = halfword_from_le(self.oam[addr + 2], self.oam[addr + 3]);
            let oam2 = halfword_from_le(self.oam[addr + 4], self.oam[addr + 5]);
            assert(oam0 == self.oam_attr(i as int, 0));
            assert(oam1 == self.oam_attr(i as int, 1));
            assert(oam2 == self.oam_attr(i as int, 2));

            let ghost before = flat@;
            if get_bit_u16(oam0, 9) {
                proof {
                    assert forall|x: int, y: int|
                        0 <= x < w_layer && 0 <= y < h_layer implies #[trigger] flat@[x * h_layer + y]
                            == self.objs_pixel(vram_banks, i + 1, x, y) by {
                        assert(self.obj_pixel(vram_banks, i as int, x, y) is None);
                    }
                }
                i = i + 1;
                continue;
            }
            let shape = get_bits_u16(oam0, 14, 15);
            let size = get_bits_u16(oam1, 14, 15);
            let dims: Option<(usize, usize)> = if shape == 0 {
                if size == 0 {
                    Some((8, 8))
                } else if size == 1 {
                    Some((16, 16))
                } else if size == 2 {
                    Some((32, 32))
                } else {
                    Some((64, 64))
                }
            } else if shape == 1 {
                if size == 0 {
                    Some((16, 8))
                } else if size == 1 {
                    Some((32, 8))
                } else if size == 2 {
                    Some((32, 16))
                } else {
                    Some((64, 32))
                }
            } else if shape == 2 {
                if size == 0 {
                    Some((8, 16))
                } else if size == 1 {
                    Some((8, 32))
                } else if size == 2 {
                    Some((16, 32))
                } else {
                    Some((32, 64))
                }
            } else {
                None
            };
            match dims {
                None => {
                    proof {
                        assert forall|x: int, y: int|
                            0 <= x < w_layer && 0 <= y < h_layer implies #[trigger] flat@[x
                                * h_layer + y] == self.objs_pixel(vram_banks, i + 1, x, y) by {
                            assert(self.obj_pixel(vram_banks, i as int, x, y) is None);
                        }
                    }
                },
                Some((w, h)) => {
                    assert(self.obj_size(i as int) == Some((w as int, h as int)));
                    self.render_obj(vram_banks, &mut flat, i, oam0, oam1, oam2, w, h, obj_vram_base);
                    proof {
                        assert forall|x: int, y: int|
                            0 <= x < w_layer && 0 <= y < h_layer implies #[trigger] flat@[x
                                * h_layer + y] == self.objs_pixel(vram_banks, i + 1, x, y) by {
                            assert(flat@[x * h_layer + y] == match self.obj_pixel(vram_banks, i as int, x, y) {
                                Some(c) => c,
                                None => before[x * h_layer + y],
                            });
                        }
                    }
                },
            }
            i = i + 1;
        }

        let mut pixels: Vec<Vec<u16>> = Vec::new();
        let mut x: usize = 0;
        while x < w_layer
            invariant
                x <= w_layer,
                w_layer == OBJ_LAYER_WIDTH,
                h_layer == OBJ_LAYER_HEIGHT,
                flat@.len() == w_layer * h_layer,
                pixels@.len() == x,
                forall|x2: int| 0 <= x2 < x ==> (#[trigger] pixels@[x2])@.len() == h_layer,
                forall|x2: int, y2: int|
                    0 <= x2 < x && 0 <= y2 < h_layer ==> #[trigger] pixels@[x2]@[y2] == flat@[x2
                        * h_layer + y2],
                forall|x2: int, y2: int|
                    0 <= x2 < w_layer && 0 <= y2 < h_layer ==> #[trigger] flat@[x2 * h_layer + y2]
                        == self.objs_pixel(vram_banks, OBJ_COUNT as int, x2, y2),
            decreases w_layer - x,
        {
            let mut column: Vec<u16> = Vec::new();
            let mut y: usize = 0;
            while y < h_layer
                invariant
                    x < w_layer,
                    y <= h_layer,
                    w_layer == OBJ_LAYER_WIDTH,
                    h_layer == OBJ_LAYER_HEIGHT,
                    flat@.len() == w_layer * h_layer,
                    column@.len() == y,
                    forall|y2: int| 0 <= y2 < y ==> #[trigger] column@[y2] == flat@[x * h_layer + y2],
                decreases h_layer - y,
            {
                proof {
                    lemma_index_in(x as int, y as int, w_layer as int, h_layer as int);
                }
                column.push(flat[x * h_layer + y]);
                y = y + 1;
            }
            pixels.push(column);
            x = x + 1;
        }
        (pixels, true)
    }

    /// Draws sprite `i`, of `w` by `h` pixels, into `flat`.
    fn render_obj(
        &self,
        vram_banks: &VramBanks,
        flat: &mut Vec<u16>,
        i: usize,
        oam0: u16,
        oam1: u16,
        oam2: u16,
        w: usize,
        h: usize,
        obj_vram_base: usize,
    )
        requires
            i < OBJ_COUNT,
            self.oam@.len() >= 1024,
            self.palette@.len() >= 1024,
            self.objs_readable(vram_banks),
            oam0 == self.oam_attr(i as int, 0),
            oam1 == self.oam_attr(i as int, 1),
            oam2 == self.oam_attr(i as int, 2),
            self.obj_size(i as int) == Some((w as int, h as int)),
            obj_vram_base == self.obj_vram_base(),
            old(flat)@.len() == OBJ_LAYER_WIDTH * OBJ_LAYER_HEIGHT,
        ensures
            final(flat)@.len() == OBJ_LAYER_WIDTH * OBJ_LAYER_HEIGHT,
            forall|x: int, y: int|
                0 <= x < OBJ_LAYER_WIDTH && 0 <= y < OBJ_LAYER_HEIGHT ==> #[trigger] final(flat)@[x
                    * OBJ_LAYER_HEIGHT + y] == match self.obj_pixel(vram_banks, i as int, x, y) {
                    Some(c) => c,
                    None => old(flat)@[x * OBJ_LAYER_HEIGHT + y],
                },
    {
        let character_name = get_bits_u16(oam2, 0, 9) as usize;
        let palette_number = get_bits_u16(oam2, 12, 15);
        let palette_offset_address = palette_number << 4u16;
        let x0 = get_bits_u16(oam1, 0, 8) as usize;
        let y0 = get_bits_u16(oam0, 0, 7) as usize;
        proof {
            assert(field16(oam2, 0, 9) < 1024 && field16(oam2, 12, 15) < 16) by (bit_vector);
            assert(field16(oam1, 0, 8) < 512 && field16(oam0, 0, 7) < 256) by (bit_vector);
        }
        let ghost before = flat@;
        let ghost covered = |x: int, y: int|
            {
                let dx = (x - x0) % (OBJ_LAYER_WIDTH as int);
                let dy = (y - y0) % (OBJ_LAYER_HEIGHT as int);
                dx < w && dy < h
            };
        let mut qy: usize = 0;
        while qy < h / 8
            invariant
                qy <= h / 8,
                flat@.len() == OBJ_LAYER_WIDTH * OBJ_LAYER_HEIGHT,
                (w == 8 || w == 16 || w == 32 || w == 64),
                (h == 8 || h == 16 || h == 32 || h == 64),
                character_name as int == field16(oam2, 0, 9),
                character_name < 1024,
                palette_number == field16(oam2, 12, 15),
                palette_number < 16,
                before.len() == OBJ_LAYER_WIDTH * OBJ_LAYER_HEIGHT,
                palette_offset_address == palette_number << 4u16,
                x0 as int == field16(oam1, 0, 8),
                y0 as int == field16(oam0, 0, 7),
                x0 < 512,
                y0 < 256,
                oam0 == self.oam_attr(i as int, 0),
                oam1 == self.oam_attr(i as int, 1),
                oam2 == self.oam_attr(i as int, 2),
                self.obj_size(i as int) == Some((w as int, h as int)),
                obj_vram_base == self.obj_vram_base(),
                self.palette@.len() >= 1024,
                i < OBJ_COUNT,
                self.objs_readable(vram_banks),
                forall|x: int, y: int|
                    0 <= x < OBJ_LAYER_WIDTH && 0 <= y < OBJ_LAYER_HEIGHT ==> #[trigger] flat@[x
                        * OBJ_LAYER_HEIGHT + y] == if ({
                        let dx = (x - x0) % (OBJ_LAYER_WIDTH as int);
                        let dy = (y - y0) % (OBJ_LAYER_HEIGHT as int);
                        dx < w && dy < h && dy / 8 < qy
                    }) {
                        self.obj_colour(
                            vram_banks,
                            i as int,
                            w as int,
                            (x - x0) % (OBJ_LAYER_WIDTH as int),
                            (y - y0) % (OBJ_LAYER_HEIGHT as int),
                        )
                    } else {
                        before[x * OBJ_LAYER_HEIGHT + y]
                    },
            decreases h / 8 - qy,
        {
            let mut qx: usize = 0;
            while qx < w / 8
                invariant
                    qx <= w / 8,
                    qy < h / 8,
                    flat@.len() == OBJ_LAYER_WIDTH * OBJ_LAYER_HEIGHT,
                    (w == 8 || w == 16 || w == 32 || w == 64),
                    (h == 8 || h == 16 || h == 32 || h == 64),
                    character_name as int == field16(oam2, 0, 9),
                    character_name < 1024,
                    palette_number == field16(oam2, 12, 15),
                    palette_number < 16,
                    before.len() == OBJ_LAYER_WIDTH * OBJ_LAYER_HEIGHT,
                    palette_offset_address == palette_number << 4u16,
                    x0 as int == field16(oam1, 0, 8),
                    y0 as int == field16(oam0, 0, 7),
                    x0 < 512,
                    y0 < 256,
                    oam0 == self.oam_attr(i as int, 0),
                    oam1 == self.oam_attr(i as int, 1),
                    oam2 == self.oam_attr(i as int, 2),
                    self.obj_size(i as int) == Some((w as int, h as int)),
                    obj_vram_base == self.obj_vram_base(),
                    self.palette@.len() >= 1024,
                    i < OBJ_COUNT,
                    self.objs_readable(vram_banks),
                    forall|x: int, y: int|
                        0 <= x < OBJ_LAYER_WIDTH && 0 <= y < OBJ_LAYER_HEIGHT ==> #[trigger] flat@[x
                            * OBJ_LAYER_HEIGHT + y] == if ({
                            let dx = (x - x0) % (OBJ_LAYER_WIDTH as int);
                            let dy = (y - y0) % (OBJ_LAYER_HEIGHT as int);
                            dx < w && dy < h && (dy / 8 < qy || (dy / 8 == qy && dx / 8 < qx))
                        }) {
                            self.obj_colour(
                                vram_banks,
                                i as int,
                                w as int,
                                (x - x0) % (OBJ_LAYER_WIDTH as int),
                                (y - y0) % (OBJ_LAYER_HEIGHT as int),
                            )
                        } else {
                            before[x * OBJ_LAYER_HEIGHT + y]
                        },
                decreases w / 8 - qx,
            {
                self.render_obj_tile(
                    vram_banks,
                    flat,
                    i,
                    oam0,
                    oam1,
                    oam2,
                    w,
                    h,
                    obj_vram_base,
                    character_name,
                    palette_offset_address,
                    x0,
                    y0,
                    qx,
                    qy,
                    Ghost(before),
                );
                qx = qx + 1;
            }
            qy = qy + 1;
        }
        proof {
            assert forall|x: int, y: int|
                0 <= x < OBJ_LAYER_WIDTH && 0 <= y < OBJ_LAYER_HEIGHT implies #[trigger] flat@[x
                    * OBJ_LAYER_HEIGHT + y] == match self.obj_pixel(vram_banks, i as int, x, y) {
                    Some(c) => c,
                    None => before[x * OBJ_LAYER_HEIGHT + y],
                } by {
                let dy = (y - y0) % (OBJ_LAYER_HEIGHT as int);
                assert(dy < h ==> dy / 8 < h / 8) by (nonlinear_arith)
                    requires
                        (h == 8 || h == 16 || h == 32 || h == 64),
                        0 <= dy,
                ;
            }
        }
    }

    /// Draws tile (`qx`, `qy`) of sprite `i` into `flat`.
    #[verifier::rlimit(60)]
    fn render_obj_tile(
        &self,
        vram_banks: &VramBanks,
        flat: &mut Vec<u16>,
        i: usize,
        oam0: u16,
        oam1: u16,
        oam2: u16,
        w: usize,
        h: usize,
        obj_vram_base: usize,
        character_name: usize,
        palette_offset_address: u16,
        x0: usize,
        y0: usize,
        qx: usize,
        qy: usize,
        Ghost(before): Ghost<Seq<u16>>,
    )
        requires
            qx < w / 8,
            qy < h / 8,
            old(flat)@.len() == OBJ_LAYER_WIDTH * OBJ_LAYER_HEIGHT,
            (w == 8 || w == 16 || w == 32 || w == 64),
            (h == 8 || h == 16 || h == 32 || h == 64),
            character_name as int == field16(oam2, 0, 9),
            character_name < 1024,
            palette_offset_address == field16(oam2, 12, 15) << 4u16,
            field16(oam2, 12, 15) < 16,
            x0 as int == field16(oam1, 0, 8),
            y0 as int == field16(oam0, 0, 7),
            x0 < 512,
            y0 < 256,
            oam0 == self.oam_attr(i as int, 0),
            oam1 == self.oam_attr(i as int, 1),
            oam2 == self.oam_attr(i as int, 2),
            self.obj_size(i as int) == Some((w as int, h as int)),
            obj_vram_base == self.obj_vram_base(),
            self.palette@.len() >= 1024,
            i < OBJ_COUNT,
            self.objs_readable(vram_banks),
            before.len() == OBJ_LAYER_WIDTH * OBJ_LAYER_HEIGHT,
            forall|x: int, y: int|
                0 <= x < OBJ_LAYER_WIDTH && 0 <= y < OBJ_LAYER_HEIGHT ==> #[trigger] old(flat)@[x
                    * OBJ_LAYER_HEIGHT + y] == if ({
                    let dx = (x - x0) % (OBJ_LAYER_WIDTH as int);
                    let dy = (y - y0) % (OBJ_LAYER_HEIGHT as int);
                    dx < w && dy < h && (dy / 8 < qy || (dy / 8 == qy && dx / 8 < qx))
                }) {
                    self.obj_colour(
                        vram_banks,
                        i as int,
                        w as int,
                        (x - x0) % (OBJ_LAYER_WIDTH as int),
                        (y - y0) % (OBJ_LAYER_HEIGHT as int),
                    )
                } else {
                    before[x * OBJ_LAYER_HEIGHT + y]
                },
        ensures
            final(flat)@.len() == OBJ_LAYER_WIDTH * OBJ_LAYER_HEIGHT,
            forall|x: int, y: int|
                0 <= x < OBJ_LAYER_WIDTH && 0 <= y < OBJ_LAYER_HEIGHT ==> #[trigger] final(flat)@[x
                    * OBJ_LAYER_HEIGHT + y] == if ({
                    let dx = (x - x0) % (OBJ_LAYER_WIDTH as int);
                    let dy = (y - y0) % (OBJ_LAYER_HEIGHT as int);
                    dx < w && dy < h && (dy / 8 < qy || (dy / 8 == qy && dx / 8 < qx + 1))
                }) {
                    self.obj_colour(
                        vram_banks,
                        i as int,
                        w as int,
                        (x - x0) % (OBJ_LAYER_WIDTH as int),
                        (y - y0) % (OBJ_LAYER_HEIGHT as int),
                    )
                } else {
                    before[x * OBJ_LAYER_HEIGHT + y]
                },
    {
        assert(qy * (w / 8) <= 64) by (nonlinear_arith)
            requires
                qy < h / 8,
                w / 8 <= 8,
                h / 8 <= 8,
        ;
        let obj_offset = (character_name * 4 + qx + (qy * (w / 8))) * 32;
        let ghost tile_addr = self.obj_tile_addr(i as int, w as int, qx as int, qy as int);
        assert(obj_vram_base + obj_offset == tile_addr);
        proof {
            assert(self.objs_readable(vram_banks));
            assert(qx < 8 && qy < 8);
            let wa = (self.obj_size(i as int)->0).0;
            assert(wa == w);
            assert(vram_banks.read_ok(self.obj_tile_addr(i as int, wa, qx as int, qy as int), 32));
        }
        let obj_bytes = match vram_banks.read_slice::<32>(obj_vram_base + obj_offset) {
            Some(b) => b,
            None => [0u8; 32],
        };
        assert(forall|k: int|
            0 <= k < 32 ==> #[trigger] obj_bytes@[k] == self.obj_tile_byte(vram_banks, tile_addr, k));
        let ghost start = flat@;
        let mut ly: usize = 0;
        while ly < 8
            invariant
                ly <= 8,
                qx < w / 8,
                qy < h / 8,
                flat@.len() == OBJ_LAYER_WIDTH * OBJ_LAYER_HEIGHT,
                (w == 8 || w == 16 || w == 32 || w == 64),
                (h == 8 || h == 16 || h == 32 || h == 64),
                palette_offset_address == field16(oam2, 12, 15) << 4u16,
                field16(oam2, 12, 15) < 16,
                x0 < 512,
                y0 < 256,
                oam2 == self.oam_attr(i as int, 2),
                self.palette@.len() >= 1024,
                tile_addr == self.obj_tile_addr(i as int, w as int, qx as int, qy as int),
                obj_bytes@.len() == 32,
                forall|k: int|
                    0 <= k < 32 ==> #[trigger] obj_bytes@[k] == self.obj_tile_byte(vram_banks, tile_addr, k),
                forall|x: int, y: int|
                    0 <= x < OBJ_LAYER_WIDTH && 0 <= y < OBJ_LAYER_HEIGHT ==> #[trigger] flat@[x
                        * OBJ_LAYER_HEIGHT + y] == if ({
                        let dx = (x - x0) % (OBJ_LAYER_WIDTH as int);
                        let dy = (y - y0) % (OBJ_LAYER_HEIGHT as int);
                        dx / 8 == qx && dy / 8 == qy && dy % 8 < ly
                    }) {
                        self.obj_colour(
                            vram_banks,
                            i as int,
                            w as int,
                            (x - x0) % (OBJ_LAYER_WIDTH as int),
                            (y - y0) % (OBJ_LAYER_HEIGHT as int),
                        )
                    } else {
                        start[x * OBJ_LAYER_HEIGHT + y]
                    },
            decreases 8 - ly,
        {
            let mut lx: usize = 0;
            while lx < 8
                invariant
                    lx <= 8,
                    ly < 8,
                    qx < w / 8,
                    qy < h / 8,
                    flat@.len() == OBJ_LAYER_WIDTH * OBJ_LAYER_HEIGHT,
                    (w == 8 || w == 16 || w == 32 || w == 64),
                    (h == 8 || h == 16 || h == 32 || h == 64),
                    palette_offset_address == field16(oam2, 12, 15) << 4u16,
                    field16(oam2, 12, 15) < 16,
                    x0 < 512,
                    y0 < 256,
                    oam2 == self.oam_attr(i as int, 2),
                    self.palette@.len() >= 1024,
                    tile_addr == self.obj_tile_addr(i as int, w as int, qx as int, qy as int),
                    obj_bytes@.len() == 32,
                    forall|k: int|
                        0 <= k < 32 ==> #[trigger] obj_bytes@[k] == self.obj_tile_byte(
                            vram_banks,
                            tile_addr,
                            k,
                        ),
                    forall|x: int, y: int|
                        0 <= x < OBJ_LAYER_WIDTH && 0 <= y < OBJ_LAYER_HEIGHT ==> #[trigger] flat@[x
                            * OBJ_LAYER_HEIGHT + y] == if ({
                            let dx = (x - x0) % (OBJ_LAYER_WIDTH as int);
                            let dy = (y - y0) % (OBJ_LAYER_HEIGHT as int);
                            dx / 8 == qx && dy / 8 == qy && (dy % 8 < ly || (dy % 8 == ly && dx % 8
                                < lx))
                        }) {
                            self.obj_colour(
                                vram_banks,
                                i as int,
                                w as int,
                                (x - x0) % (OBJ_LAYER_WIDTH as int),
                                (y - y0) % (OBJ_LAYER_HEIGHT as int),
                            )
                        } else {
                            start[x * OBJ_LAYER_HEIGHT + y]
                        },
                decreases 8 - lx,
            {
                let b = obj_bytes[ly * 4 + lx / 2];
                let index: u16 = if lx % 2 == 0 {
                    (b % 16) as u16
                } else {
                    (b / 16) as u16
                };
                let palette_address = ((512 + index * 2) | palette_offset_address) as usize;
                proof {
                    let ix = index;
                    let po = palette_offset_address;
                    let pn = field16(oam2, 12, 15);
                    assert(((512 + ix * 2) as u16 | po) < 1023) by (bit_vector)
                        requires
                            ix < 16,
                            po == pn << 4u16,
                            pn < 16,
                    ;
                }
                let mut colour = halfword_from_le(
                    self.palette[palette_address],
                    self.palette[palette_address + 1],
                );
                colour = set_bit_u16(colour, 15, true);
                let dx = qx * 8 + lx;
                let dy = qy * 8 + ly;
                let px = (x0 + dx) % OBJ_LAYER_WIDTH;
                let py = (y0 + dy) % OBJ_LAYER_HEIGHT;
                proof {
                    lemma_wrap(x0 as int, dx as int, OBJ_LAYER_WIDTH as int);
                    lemma_wrap(y0 as int, dy as int, OBJ_LAYER_HEIGHT as int);
                    lemma_index_in(px as int, py as int, OBJ_LAYER_WIDTH as int, OBJ_LAYER_HEIGHT as int);
                    assert(dx / 8 == qx && dx % 8 == lx && dy / 8 == qy && dy % 8 == ly);
                    assert(dx % 2 == lx % 2);
                    assert(colour == self.obj_colour(vram_banks, i as int, w as int, dx as int, dy as int)) by {
                        reveal(Gpu2d::obj_colour);
                    }
                }
                let ghost prev = flat@;
                flat.set(px * OBJ_LAYER_HEIGHT + py, colour);
                proof {
                    assert forall|x: int, y: int|
                        0 <= x < OBJ_LAYER_WIDTH && 0 <= y < OBJ_LAYER_HEIGHT implies #[trigger] flat@[x
                            * OBJ_LAYER_HEIGHT + y] == if ({
                            let dx2 = (x - x0) % (OBJ_LAYER_WIDTH as int);
                            let dy2 = (y - y0) % (OBJ_LAYER_HEIGHT as int);
                            dx2 / 8 == qx && dy2 / 8 == qy && (dy2 % 8 < ly || (dy2 % 8 == ly && dx2
                                % 8 < lx + 1))
                        }) {
                            self.obj_colour(
                                vram_banks,
                                i as int,
                                w as int,
                                (x - x0) % (OBJ_LAYER_WIDTH as int),
                                (y - y0) % (OBJ_LAYER_HEIGHT as int),
                            )
                        } else {
                            start[x * OBJ_LAYER_HEIGHT + y]
                        } by {
                        lemma_index_distinct(px as int, py as int, x, y, OBJ_LAYER_HEIGHT as int);
                        lemma_index_in(x, y, OBJ_LAYER_WIDTH as int, OBJ_LAYER_HEIGHT as int);
                        if x == px && y == py {
                            assert((x - x0) % (OBJ_LAYER_WIDTH as int) == dx);
                            assert((y - y0) % (OBJ_LAYER_HEIGHT as int) == dy);
                        }
                    }
                }
                lx = lx + 1;
            }
            ly = ly + 1;
        }
        proof {
            assert forall|x: int, y: int|
                0 <= x < OBJ_LAYER_WIDTH && 0 <= y < OBJ_LAYER_HEIGHT implies #[trigger] flat@[x
                    * OBJ_LAYER_HEIGHT + y] == if ({
                    let dx = (x - x0) % (OBJ_LAYER_WIDTH as int);
                    let dy = (y - y0) % (OBJ_LAYER_HEIGHT as int);
                    dx < w && dy < h && (dy / 8 < qy || (dy / 8 == qy && dx / 8 < qx + 1))
                }) {
                    self.obj_colour(
                        vram_banks,
                        i as int,
                        w as int,
                        (x - x0) % (OBJ_LAYER_WIDTH as int),
                        (y - y0) % (OBJ_LAYER_HEIGHT as int),
                    )
                } else {
                    before[x * OBJ_LAYER_HEIGHT + y]
                } by {
                let dx = (x - x0) % (OBJ_LAYER_WIDTH as int);
                let dy = (y - y0) % (OBJ_LAYER_HEIGHT as int);
                assert(dx / 8 == qx ==> dx < w) by (nonlinear_arith)
                    requires
                        qx < w / 8,
                        (w == 8 || w == 16 || w == 32 || w == 64),
                        0 <= dx,
                ;
                assert(dy / 8 == qy ==> dy < h) by (nonlinear_arith)
                    requires
                        qy < h / 8,
                        (h == 8 || h == 16 || h == 32 || h == 64),
                        0 <= dy,
                ;
            }
        }
    }
}

/// A sprite pixel `d` from the sprite's corner `base` lands, after wrapping,
/// where subtracting `base` again (modulo the layer size) gives back `d`.
proof fn lemma_wrap(base: int, d: int, n: int)
    requires
        0 <= base,
        0 <= d < n,
        n > 0,
    ensures
        0 <= (base + d) % n < n,
        ((base + d) % n - base) % n == d,
{
    let p = (base + d) % n;
    vstd::arithmetic::div_mod::lemma_fundamental_div_mod(base + d, n);
    let q = (base + d) / n;
    assert(p - base == d - n * q);
    vstd::arithmetic::div_mod::lemma_mod_multiples_vanish(-q, d, n);
    assert(n * -q + d == d - n * q) by (nonlinear_arith);
    vstd::arithmetic::div_mod::lemma_small_mod(d as nat, n as nat);
}

/// A pixel's place in a layer stored column by column.
proof fn lemma_index_in(x: int, y: int, w: int, h: int)
    requires
        0 <= x < w,
        0 <= y < h,
    ensures
        0 <= x * h + y < w * h,
{
    assert(x * h + y < w * h) by (nonlinear_arith)
        requires
            0 <= x < w,
            0 <= y < h,
    ;
    assert(0 <= x * h) by (nonlinear_arith)
        requires
            0 <= x,
            0 <= h,
    ;
}

/// Distinct pixels have distinct places.
proof fn lemma_index_distinct(x1: int, y1: int, x2: int, y2: int, h: int)
    requires
        0 <= y1 < h,
        0 <= y2 < h,
        0 <= x1,
        0 <= x2,
    ensures
        (x1 * h + y1 == x2 * h + y2) <==> (x1 == x2 && y1 == y2),
{
    if x1 * h + y1 == x2 * h + y2 {
        if x1 < x2 {
            assert(x1 * h + h <= x2 * h) by (nonlinear_arith)
                requires
                    x1 < x2,
                    0 <= h,
            ;
        } else if x2 < x1 {
            assert(x2 * h + h <= x1 * h) by (nonlinear_arith)
                requires
                    x2 < x1,
                    0 <= h,
            ;
        }
    }
}

/// The sprite size table of the hardware: width and height in pixels by
/// shape (square, horizontal, vertical) and size. Square sprites are 8, 16,
/// 32 or 64 pixels wide; horizontal ones are 16x8, 32x8, 32x16 and 64x32,
/// vertical ones the same turned upright; shape 3 is not drawn.
pub proof fn lemma_obj_size_table(shape: u16, size: u16)
    requires
        shape <= 3,
        size <= 3,
    ensures
        shape == 3 ==> obj_dims(shape, size) is None,
        shape < 3 ==> obj_dims(shape, size) == Some((
            seq![seq![8int, 16, 32, 64], seq![16int, 32, 32, 64], seq![8int, 8, 16, 32]][shape as int][size as int],
            seq![seq![8int, 16, 32, 64], seq![8int, 8, 16, 32], seq![16int, 32, 32, 64]][shape as int][size as int],
        )),
        shape == 1 ==> (obj_dims(shape, size)->0).0 > (obj_dims(shape, size)->0).1,
        shape == 2 ==> obj_dims(shape, size) == Some(((obj_dims(1, size)->0).1, (obj_dims(1, size)->0).0)),
{
}

impl<const ENGINE_A: bool> Gpu2d<ENGINE_A> {
    /// A shown sprite covers, from its position (x in attribute 1 bits 0-8,
    /// y in attribute 0 bits 0-7), as many columns and rows as the size table
    /// gives for its shape (attribute 0 bits 14-15) and size (attribute 1 bits
    /// 14-15): the layer pixel `dx` columns right and `dy` rows down of it is
    /// drawn by the sprite exactly when `dx` is below its width and `dy`
    /// below its height.
    pub proof fn lemma_sprite_extent(&self, banks: &VramBanks, i: int, dx: int, dy: int)
        requires
            (self.oam_attr(i, 0) / 512) % 2 == 0,
            self.oam_attr(i, 0) / 16384 < 3,
            0 <= dx < OBJ_LAYER_WIDTH,
            0 <= dy < OBJ_LAYER_HEIGHT,
        ensures
            ({
                let a0 = self.oam_attr(i, 0);
                let a1 = self.oam_attr(i, 1);
                let shape = a0 / 16384;
                let size = a1 / 16384;
                let w = seq![seq![8int, 16, 32, 64], seq![16int, 32, 32, 64], seq![8int, 8, 16, 32]][shape as int][size as int];
                let h = seq![seq![8int, 16, 32, 64], seq![8int, 8, 16, 32], seq![16int, 32, 32, 64]][shape as int][size as int];
                self.obj_pixel(banks, i, a1 % 512 + dx, a0 % 256 + dy) is Some <==> (dx < w && dy < h)
            }),
    {
        let a0 = self.oam_attr(i, 0);
        let a1 = self.oam_attr(i, 1);
        crate::nds::bits::lemma_fields16(a0);
        crate::nds::bits::lemma_fields16(a1);
        lemma_obj_size_table(a0 / 16384, a1 / 16384);
        let x = a1 % 512 + dx;
        let y = a0 % 256 + dy;
        assert((x - field16(a1, 0, 8)) % (OBJ_LAYER_WIDTH as int) == dx);
        assert((y - field16(a0, 0, 7)) % (OBJ_LAYER_HEIGHT as int) == dy);
    }
}

} // verus!
