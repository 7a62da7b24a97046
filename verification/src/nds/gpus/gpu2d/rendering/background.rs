//! Text-mode background rendering: a layer is a map of 8x8 tiles, each map
//! entry naming a tile of pixel data, its flips and (with 16-colour tiles)
//! its palette.
use vstd::prelude::*;

use crate::nds::bits::{bit16, field16, get_bit_u16, get_bits_u16, set_bit_u16, with_bit16};
use crate::nds::bytes::halfword_from_le;
use crate::nds::gpus::gpu2d::models::bgxcnt::{color_palette_of, ColorPalette};
use crate::nds::gpus::gpu2d::Gpu2d;
use crate::nds::gpus::vram::VramBanks;

verus! {

/// The width and height in pixels of a layer with screen size `size`.
pub open spec fn layer_size(size: u16) -> (int, int) {
    if size == 0 {
        (256, 256)
    } else if size == 1 {
        (512, 256)
    } else if size == 2 {
        (256, 512)
    } else {
        (512, 512)
    }
}

/// The map quadrants (32x32 tiles each, numbered 0 and 1 on the top row, 2
/// and 3 below) that a layer with screen size `size` is made of.
pub open spec fn layer_quadrants(size: u16) -> Seq<usize> {
    if size == 0 {
        seq![0usize]
    } else if size == 1 {
        seq![0usize, 1]
    } else if size == 2 {
        seq![0usize, 2]
    } else {
        seq![0usize, 1, 2, 3]
    }
}

/// The size of a background layer: width and height in pixels, and the map
/// quadrants that it is made of.
pub struct Size {
    pub x: usize,
    pub y: usize,
    pub quadrants: Vec<usize>,
}

/// The map quadrant that holds the tile at tile column `gx` and row `gy`.
pub open spec fn quadrant_of(gx: int, gy: int) -> int {
    gx / 32 + 2 * (gy / 32)
}

/// The map quadrants of a layer are exactly those that its tiles use: every
/// tile of the layer lies in one of its quadrants, and each of them holds a
/// tile.
pub proof fn lemma_quadrants_cover(size: u16)
    requires
        size <= 3,
    ensures
        ({
            let (w, h) = layer_size(size);
            &&& forall|gx: int, gy: int|
                0 <= gx < w / 8 && 0 <= gy < h / 8 ==> layer_quadrants(size).contains(
                    #[trigger] quadrant_of(gx, gy) as usize,
                )
            &&& forall|k: int|
                0 <= k < layer_quadrants(size).len() ==> exists|gx: int, gy: int|
                    0 <= gx < w / 8 && 0 <= gy < h / 8 && #[trigger] layer_quadrants(size)[k]
                        == #[trigger] quadrant_of(gx, gy)
        }),
{
    let (w, h) = layer_size(size);
    assert forall|gx: int, gy: int|
        0 <= gx < w / 8 && 0 <= gy < h / 8 implies layer_quadrants(size).contains(
        #[trigger] quadrant_of(gx, gy) as usize,
    ) by {
        let q = quadrant_of(gx, gy) as usize;
        if size == 0 {
            assert(layer_quadrants(size)[0] == q);
        } else if size == 1 {
            if gx < 32 {
                assert(layer_quadrants(size)[0] == q);
            } else {
                assert(layer_quadrants(size)[1] == q);
            }
        } else if size == 2 {
            if gy < 32 {
                assert(layer_quadrants(size)[0] == q);
            } else {
                assert(layer_quadrants(size)[1] == q);
            }
        } else {
            if gx < 32 && gy < 32 {
                assert(layer_quadrants(size)[0] == q);
            } else if gy < 32 {
                assert(layer_quadrants(size)[1] == q);
            } else if gx < 32 {
                assert(layer_quadrants(size)[2] == q);
            } else {
                assert(layer_quadrants(size)[3] == q);
            }
        }
    }
    assert forall|k: int| 0 <= k < layer_quadrants(size).len() implies exists|gx: int, gy: int|
        0 <= gx < w / 8 && 0 <= gy < h / 8 && #[trigger] layer_quadrants(size)[k]
            == #[trigger] quadrant_of(gx, gy) by {
        let q = layer_quadrants(size)[k] as int;
        let gx = (q % 2) * 32;
        let gy = (q / 2) * 32;
        assert(quadrant_of(gx, gy) == q);
    }
}

/// The colour at byte `addr` of a palette, as a little-endian halfword.
pub open spec fn palette_colour(palette: Seq<u8>, addr: int) -> u16 {
    (palette[addr] + 256 * palette[addr + 1]) as u16
}

impl<const ENGINE_A: bool> Gpu2d<ENGINE_A> {
    /// Where the engine's BG VRAM starts on the bus.
    pub open spec fn bg_vram_base(&self) -> int {
        if ENGINE_A {
            0x06000000
        } else {
            0x06200000
        }
    }

    /// The offset of the character data of layer `bg`.
    pub open spec fn character_base(&self, bg: int) -> int {
        field16(self.bgxcnt[bg]@, 2, 5) * (1024 * 16) + if ENGINE_A {
            crate::nds::bits::field32(self.dispcnt@, 24, 26) * (1024 * 64)
        } else {
            0
        }
    }

    /// The offset of the tile map of layer `bg`.
    pub open spec fn screen_base(&self, bg: int) -> int {
        field16(self.bgxcnt[bg]@, 8, 12) * (1024 * 2) + if ENGINE_A {
            crate::nds::bits::field32(self.dispcnt@, 27, 29) * (1024 * 64)
        } else {
            0
        }
    }

    /// The bus address of the map entry of the tile at tile column `gx` and
    /// tile row `gy` of layer `bg`: the map is made of 32x32-tile quadrants.
    pub open spec fn map_entry_addr(&self, bg: int, gx: int, gy: int) -> int {
        let quadrant = gx / 32 + 2 * (gy / 32);
        let index = (gy % 32) * 32 + gx % 32 + quadrant * 32 * 32;
        self.bg_vram_base() + self.screen_base(bg) + index * 2
    }

    /// The map entry of that tile.
    pub open spec fn map_entry(&self, banks: &VramBanks, bg: int, gx: int, gy: int) -> u16 {
        let addr = self.map_entry_addr(bg, gx, gy);
        (banks.read_byte(addr, 2, 0) + 256 * banks.read_byte(addr, 2, 1)) as u16
    }

    /// The number of bytes of one tile of layer `bg`.
    pub open spec fn tile_bytes(&self, bg: int) -> int {
        if color_palette_of(self.bgxcnt[bg]@) == ColorPalette::Is16x16 {
            32
        } else {
            64
        }
    }

    /// The bus address of the pixel data of the tile named by `entry`.
    pub open spec fn tile_addr(&self, bg: int, entry: u16) -> int {
        self.bg_vram_base() + self.character_base(bg) + field16(entry, 0, 9) * self.tile_bytes(bg)
    }

    /// Every map entry and every tile that layer `bg` uses can be read from
    /// the VRAM banks.
    pub open spec fn background_readable(&self, banks: &VramBanks, bg: int) -> bool {
        let (w, h) = layer_size(field16(self.bgxcnt[bg]@, 14, 15));
        forall|gx: int, gy: int|
            0 <= gx < w / 8 && 0 <= gy < h / 8 ==> {
                let addr = #[trigger] self.map_entry_addr(bg, gx, gy);
                let tile = self.tile_addr(bg, self.map_entry(banks, bg, gx, gy));
                &&& banks.hit(addr)
                &&& banks.read_ok(addr, 2)
                &&& banks.hit(tile)
                &&& banks.read_ok(tile, self.tile_bytes(bg))
                &&& 0 <= addr
                &&& addr + 2 <= usize::MAX
                &&& 0 <= tile
                &&& tile + 64 <= usize::MAX
            }
    }

    /// The colour of pixel (`x`, `y`) of layer `bg`. Bit 15 tells whether the
    /// pixel is drawn: colour 0 of a tile is transparent.
    pub open spec fn background_pixel(&self, banks: &VramBanks, bg: int, x: int, y: int) -> u16 {
        let entry = self.map_entry(banks, bg, x / 8, y / 8);
        let sx = if bit16(entry, 10) {
            7 - x % 8
        } else {
            x % 8
        };
        let sy = if bit16(entry, 11) {
            7 - y % 8
        } else {
            y % 8
        };
        let tile = self.tile_addr(bg, entry);
        if color_palette_of(self.bgxcnt[bg]@) == ColorPalette::Is16x16 {
            let b = banks.read_byte(tile, 32, sy * 4 + sx / 2);
            let index = if sx % 2 == 0 {
                b % 16
            } else {
                b / 16
            };
            let addr = (index + field16(entry, 12, 15) * 16) * 2;
            with_bit16(palette_colour(self.palette@, addr), 15, b != 0 && index != 0)
        } else {
            let b = banks.read_byte(tile, 64, sy * 8 + sx);
            with_bit16(palette_colour(self.palette@, b * 2), 15, b != 0)
        }
    }

    /// The size of layer `BG`, from its screen size: width and height in
    /// pixels, and the 32x32-tile map quadrants that it is made of.
    pub fn calculate_size<const BG: u8>(&self) -> (r: Size)
        requires
            BG < 4,
        ensures
            (r.x as int, r.y as int) == layer_size(field16(self.bgxcnt[BG as int]@, 14, 15)),
            r.quadrants@ == layer_quadrants(field16(self.bgxcnt[BG as int]@, 14, 15)),
    {
        let size = self.bgxcnt[BG as usize].get_screen_size();
        proof {
            let v = self.bgxcnt[BG as int]@;
            assert(field16(v, 14, 15) <= 3) by (bit_vector);
        }
        let mut quadrants: Vec<usize> = Vec::new();
        quadrants.push(0);
        if size == 0 {
            Size { x: 256, y: 256, quadrants }
        } else if size == 1 {
            quadrants.push(1);
            Size { x: 512, y: 256, quadrants }
        } else if size == 2 {
            quadrants.push(2);
            Size { x: 256, y: 512, quadrants }
        } else {
            quadrants.push(1);
            quadrants.push(2);
            quadrants.push(3);
            Size { x: 512, y: 512, quadrants }
        }
    }

    /// Renders text-mode layer `BG` in full: the result holds the layer
    /// column by column (`result.0[x][y]`), every pixel as
    /// `background_pixel` gives it, and `true`.
    pub fn render_background<const BG: u8>(&self, vram_banks: &VramBanks) -> (r: (Vec<Vec<u16>>, bool))
        requires
            BG < 4,
            self.background_readable(vram_banks, BG as int),
            self.palette@.len() >= 512,
        ensures
            r.1,
            ({
                let (w, h) = layer_size(field16(self.bgxcnt[BG as int]@, 14, 15));
                &&& r.0@.len() == w
                &&& forall|x: int| 0 <= x < w ==> (#[trigger] r.0@[x])@.len() == h
                &&& forall|x: int, y: int|
                    0 <= x < w && 0 <= y < h ==> #[trigger] r.0@[x]@[y] == self.background_pixel(
                        vram_banks,
                        BG as int,
                        x,
                        y,
                    )
            }),
    {
        let bg = BG as usize;
        let bgcnt = &self.bgxcnt[bg];
        let bg_vram_base: usize = if ENGINE_A {
            0x06000000
        } else {
            0x06200000
        };
        let character_base_block: usize = bgcnt.get_character_base_block() as usize;
        let screen_base_block: usize = bgcnt.get_screen_base_block() as usize;
        let character_base_high: usize = self.dispcnt.get_character_base() as usize;
        let screen_base_high: usize = self.dispcnt.get_screen_base() as usize;
        assert(character_base_block * 16384 + character_base_high * 65536 <= 16 * 16384 + 7 * 65536)
            by (nonlinear_arith)
            requires
                character_base_block < 16,
                character_base_high <= 7,
        ;
        assert(screen_base_block * 2048 + screen_base_high * 65536 <= 32 * 2048 + 7 * 65536)
            by (nonlinear_arith)
            requires
                screen_base_block < 32,
                screen_base_high <= 7,
        ;
        let character_base: usize = if ENGINE_A {
            character_base_block * (1024 * 16) + character_base_high * (1024 * 64)
        } else {
            character_base_block * (1024 * 16)
        };
        let screen_base: usize = if ENGINE_A {
            screen_base_block * (1024 * 2) + screen_base_high * (1024 * 64)
        } else {
            screen_base_block * (1024 * 2)
        };
        let palette16 = bgcnt.get_color_palette() == ColorPalette::Is16x16;
        let size = self.calculate_size::<BG>();
        let w: usize = size.x;
        let h: usize = size.y;
        assert(w * h <= 512 * 512) by (nonlinear_arith)
            requires
                w <= 512,
                h <= 512,
        ;

        let mut flat: Vec<u16> = vec![0u16; w * h];
        let mut gx: usize = 0;
        while gx < w / 8
            invariant
                bg == BG,
                BG < 4,
                gx <= w / 8,
                flat@.len() == w * h,
                (w as int, h as int) == layer_size(field16(self.bgxcnt[bg as int]@, 14, 15)),
                character_base == self.character_base(bg as int),
                screen_base == self.screen_base(bg as int),
                bg_vram_base == self.bg_vram_base(),
                palette16 == (color_palette_of(self.bgxcnt[bg as int]@) == ColorPalette::Is16x16),
                self.background_readable(vram_banks, bg as int),
                self.palette@.len() >= 512,
                forall|x: int, y: int|
                    0 <= x < w && 0 <= y < h && x / 8 < gx ==> #[trigger] flat@[x * h + y]
                        == self.background_pixel(vram_banks, bg as int, x, y),
            decreases w / 8 - gx,
        {
            let mut gy: usize = 0;
            while gy < h / 8
                invariant
                    bg == BG,
                    BG < 4,
                    gx < w / 8,
                    gy <= h / 8,
                    flat@.len() == w * h,
                    (w as int, h as int) == layer_size(field16(self.bgxcnt[bg as int]@, 14, 15)),
                    character_base == self.character_base(bg as int),
                    screen_base == self.screen_base(bg as int),
                    bg_vram_base == self.bg_vram_base(),
                    palette16 == (color_palette_of(self.bgxcnt[bg as int]@) == ColorPalette::Is16x16),
                    self.background_readable(vram_banks, bg as int),
                    self.palette@.len() >= 512,
                    forall|x: int, y: int|
                        0 <= x < w && 0 <= y < h && (x / 8 < gx || (x / 8 == gx && y / 8 < gy))
                            ==> #[trigger] flat@[x * h + y] == self.background_pixel(
                            vram_banks,
                            bg as int,
                            x,
                            y,
                        ),
                decreases h / 8 - gy,
            {
                self.render_tile(
                    vram_banks,
                    bg,
                    &mut flat,
                    w,
                    h,
                    gx,
                    gy,
                    character_base,
                    screen_base,
                    bg_vram_base,
                    palette16,
                );
                gy = gy + 1;
            }
            gx = gx + 1;
        }

        let mut pixels: Vec<Vec<u16>> = Vec::new();
        let mut x: usize = 0;
        while x < w
            invariant
                x <= w,
                flat@.len() == w * h,
                pixels@.len() == x,
                (w as int, h as int) == layer_size(field16(self.bgxcnt[BG as int]@, 14, 15)),
                forall|x2: int| 0 <= x2 < x ==> (#[trigger] pixels@[x2])@.len() == h,
                forall|x2: int, y2: int|
                    0 <= x2 < x && 0 <= y2 < h ==> #[trigger] pixels@[x2]@[y2] == flat@[x2 * h + y2],
                forall|x2: int, y2: int|
                    0 <= x2 < w && 0 <= y2 < h ==> #[trigger] flat@[x2 * h + y2]
                        == self.background_pixel(vram_banks, BG as int, x2, y2),
            decreases w - x,
        {
            let mut column: Vec<u16> = Vec::new();
            let mut y: usize = 0;
            while y < h
                invariant
                    x < w,
                    y <= h,
                    flat@.len() == w * h,
                    column@.len() == y,
                    (w as int, h as int) == layer_size(field16(self.bgxcnt[BG as int]@, 14, 15)),
                    forall|y2: int| 0 <= y2 < y ==> #[trigger] column@[y2] == flat@[x * h + y2],
                decreases h - y,
            {
                proof {
                    lemma_flat_index(x as int, y as int, w as int, h as int);
                }
                column.push(flat[x * h + y]);
                y = y + 1;
            }
            pixels.push(column);
            x = x + 1;
        }
        (pixels, true)
    }

    /// Draws the 8x8 tile at tile column `gx` and tile row `gy` into `flat`,
    /// which holds the layer column by column, `h` pixels per column.
    fn render_tile(
        &self,
        vram_banks: &VramBanks,
        bg: usize,
        flat: &mut Vec<u16>,
        w: usize,
        h: usize,
        gx: usize,
        gy: usize,
        character_base: usize,
        screen_base: usize,
        bg_vram_base: usize,
        palette16: bool,
    )
        requires
            bg < 4,
            (w as int, h as int) == layer_size(field16(self.bgxcnt[bg as int]@, 14, 15)),
            old(flat)@.len() == w * h,
            gx < w / 8,
            gy < h / 8,
            character_base == self.character_base(bg as int),
            screen_base == self.screen_base(bg as int),
            bg_vram_base == self.bg_vram_base(),
            palette16 == (color_palette_of(self.bgxcnt[bg as int]@) == ColorPalette::Is16x16),
            self.background_readable(vram_banks, bg as int),
            self.palette@.len() >= 512,
        ensures
            final(flat)@.len() == w * h,
            forall|x: int, y: int|
                0 <= x < w && 0 <= y < h ==> #[trigger] final(flat)@[x * h + y] == if x / 8 == gx
                    && y / 8 == gy {
                    self.background_pixel(vram_banks, bg as int, x, y)
                } else {
                    old(flat)@[x * h + y]
                },
    {
        assert(self.background_readable(vram_banks, bg as int));
        let ghost map_addr = self.map_entry_addr(bg as int, gx as int, gy as int);
        assert(vram_banks.hit(map_addr));
        let quadrant = gx / 32 + 2 * (gy / 32);
        let map_tile_i = (gy % 32) * 32 + gx % 32 + quadrant * 32 * 32;
        let map_tile_address = bg_vram_base + screen_base + map_tile_i * 2;
        let map_tile_bytes = match vram_banks.read_slice::<2>(map_tile_address) {
            Some(b) => b,
            None => [0u8; 2],
        };
        let map_tile = halfword_from_le(map_tile_bytes[0], map_tile_bytes[1]);
        assert(map_tile == self.map_entry(vram_banks, bg as int, gx as int, gy as int));

        let tile_number = get_bits_u16(map_tile, 0, 9) as usize;
        let horizontal_flip = get_bit_u16(map_tile, 10);
        let vertical_flip = get_bit_u16(map_tile, 11);
        let palette_number = get_bits_u16(map_tile, 12, 15) as usize;
        proof {
            assert(field16(map_tile, 0, 9) < 1024 && field16(map_tile, 12, 15) < 16) by (bit_vector);
        }
        let ghost tile_addr = self.tile_addr(bg as int, map_tile);
        assert(vram_banks.hit(tile_addr));
        assert(vram_banks.read_ok(tile_addr, self.tile_bytes(bg as int)));

        let mut tile_data: [u8; 64] = [0u8; 64];
        if palette16 {
            let tile_address = bg_vram_base + character_base + tile_number * 32;
            let t = match vram_banks.read_slice::<32>(tile_address) {
                Some(b) => b,
                None => [0u8; 32],
            };
            let mut k: usize = 0;
            while k < 32
                invariant
                    k <= 32,
                    tile_data@.len() == 64,
                    t@.len() == 32,
                    forall|j: int| 0 <= j < k ==> tile_data@[j] == t@[j],
                    forall|j: int| 0 <= j < 32 ==> #[trigger] t@[j] == vram_banks.read_byte(tile_addr, 32, j),
                decreases 32 - k,
            {
                tile_data[k] = t[k];
                k = k + 1;
            }
        } else {
            let tile_address = bg_vram_base + character_base + tile_number * 64;
            let t = match vram_banks.read_slice::<64>(tile_address) {
                Some(b) => b,
                None => [0u8; 64],
            };
            tile_data = t;
        }
        assert(forall|j: int|
            0 <= j < self.tile_bytes(bg as int) ==> #[trigger] tile_data@[j] == vram_banks.read_byte(
                tile_addr,
                self.tile_bytes(bg as int),
                j,
            ));

        let ghost before = flat@;
        let mut py: usize = 0;
        while py < 8
            invariant
                py <= 8,
                flat@.len() == w * h,
                gx < w / 8,
                gy < h / 8,
                palette_number < 16,
                palette_number as int == field16(map_tile, 12, 15),
                horizontal_flip == bit16(map_tile, 10),
                vertical_flip == bit16(map_tile, 11),
                map_tile == self.map_entry(vram_banks, bg as int, gx as int, gy as int),
                tile_addr == self.tile_addr(bg as int, map_tile),
                palette16 == (color_palette_of(self.bgxcnt[bg as int]@) == ColorPalette::Is16x16),
                self.palette@.len() >= 512,
                (w as int, h as int) == layer_size(field16(self.bgxcnt[bg as int]@, 14, 15)),
                tile_data@.len() == 64,
                forall|j: int|
                    0 <= j < self.tile_bytes(bg as int) ==> #[trigger] tile_data@[j] == vram_banks.read_byte(
                        tile_addr,
                        self.tile_bytes(bg as int),
                        j,
                    ),
                forall|x: int, y: int|
                    0 <= x < w && 0 <= y < h ==> #[trigger] flat@[x * h + y] == if x / 8 == gx && y / 8
                        == gy && y % 8 < py {
                        self.background_pixel(vram_banks, bg as int, x, y)
                    } else {
                        before[x * h + y]
                    },
            decreases 8 - py,
        {
            let mut px: usize = 0;
            while px < 8
                invariant
                    px <= 8,
                    py < 8,
                    flat@.len() == w * h,
                gx < w / 8,
                    gy < h / 8,
                    palette_number < 16,
                    palette_number as int == field16(map_tile, 12, 15),
                    horizontal_flip == bit16(map_tile, 10),
                    vertical_flip == bit16(map_tile, 11),
                    map_tile == self.map_entry(vram_banks, bg as int, gx as int, gy as int),
                    tile_addr == self.tile_addr(bg as int, map_tile),
                    palette16 == (color_palette_of(self.bgxcnt[bg as int]@) == ColorPalette::Is16x16),
                    self.palette@.len() >= 512,
                    (w as int, h as int) == layer_size(field16(self.bgxcnt[bg as int]@, 14, 15)),
                    tile_data@.len() == 64,
                    forall|j: int|
                        0 <= j < self.tile_bytes(bg as int) ==> #[trigger] tile_data@[j] == vram_banks.read_byte(
                            tile_addr,
                            self.tile_bytes(bg as int),
                            j,
                        ),
                    forall|x: int, y: int|
                        0 <= x < w && 0 <= y < h ==> #[trigger] flat@[x * h + y] == if x / 8 == gx && y
                            / 8 == gy && (y % 8 < py || (y % 8 == py && x % 8 < px)) {
                            self.background_pixel(vram_banks, bg as int, x, y)
                        } else {
                            before[x * h + y]
                        },
                decreases 8 - px,
            {
                let sx = if horizontal_flip {
                    7 - px
                } else {
                    px
                };
                let sy = if vertical_flip {
                    7 - py
                } else {
                    py
                };
                let colour = if palette16 {
                    let b = tile_data[sy * 4 + sx / 2];
                    let index = if sx % 2 == 0 {
                        (b % 16) as usize
                    } else {
                        (b / 16) as usize
                    };
                    let addr = (index + palette_number * 16) * 2;
                    let c = halfword_from_le(self.palette[addr], self.palette[addr + 1]);
                    set_bit_u16(c, 15, b != 0 && index != 0)
                } else {
                    let b = tile_data[sy * 8 + sx] as usize;
                    let c = halfword_from_le(self.palette[b * 2], self.palette[b * 2 + 1]);
                    set_bit_u16(c, 15, b != 0)
                };
                let x = gx * 8 + px;
                let y = gy * 8 + py;
                proof {
                    lemma_flat_index(x as int, y as int, w as int, h as int);
                    assert(x / 8 == gx && x % 8 == px && y / 8 == gy && y % 8 == py);
                    assert(colour == self.background_pixel(vram_banks, bg as int, x as int, y as int));
                }
                let ghost prev = flat@;
                flat.set(x * h + y, colour);
                proof {
                    assert forall|x2: int, y2: int|
                        0 <= x2 < w && 0 <= y2 < h implies #[trigger] flat@[x2 * h + y2] == if x2 / 8
                            == gx && y2 / 8 == gy && (y2 % 8 < py || (y2 % 8 == py && x2 % 8 < px
                            + 1)) {
                            self.background_pixel(vram_banks, bg as int, x2, y2)
                        } else {
                            before[x2 * h + y2]
                        } by {
                        lemma_flat_index_distinct(x as int, y as int, x2, y2, h as int);
                        lemma_flat_index(x2, y2, w as int, h as int);
                        assert(prev[x2 * h + y2] == if x2 / 8 == gx && y2 / 8 == gy && (y2 % 8 < py
                            || (y2 % 8 == py && x2 % 8 < px)) {
                            self.background_pixel(vram_banks, bg as int, x2, y2)
                        } else {
                            before[x2 * h + y2]
                        });
                    }
                }
                px = px + 1;
            }
            py = py + 1;
        }
    }
}

/// A pixel's place in a layer stored column by column.
proof fn lemma_flat_index(x: int, y: int, w: int, h: int)
    requires
        0 <= x < w,
        0 <= y < h,
    ensures
        0 <= x * h + y < w * h,
{
    assert(x * h + y < w * h) by (nonlinear_arith)
        requires
            0 <= x < w,
            0 <= y < h,
    ;
    assert(0 <= x * h) by (nonlinear_arith)
        requires
            0 <= x,
            0 <= h,
    ;
}

/// Distinct pixels have distinct places.
proof fn lemma_flat_index_distinct(x1: int, y1: int, x2: int, y2: int, h: int)
    requires
        0 <= y1 < h,
        0 <= y2 < h,
        0 <= x1,
        0 <= x2,
    ensures
        (x1 * h + y1 == x2 * h + y2) <==> (x1 == x2 && y1 == y2),
{
    if x1 * h + y1 == x2 * h + y2 {
        if x1 < x2 {
            assert(x1 * h + h <= x2 * h) by (nonlinear_arith)
                requires
                    x1 < x2,
                    0 <= h,
            ;
        } else if x2 < x1 {
            assert(x2 * h + h <= x1 * h) by (nonlinear_arith)
                requires
                    x2 < x1,
                    0 <= h,
            ;
        }
    }
}

impl<const ENGINE_A: bool> Gpu2d<ENGINE_A> {
    /// The colour of a background pixel comes from the palette. In a
    /// 16-colour layer (BGxCNT bit 7 clear), the pixel's 4-bit colour index
    /// `i` in its tile (the low nibble for an even column of the tile, the
    /// high one for an odd column, after the map entry's flips: bit 10
    /// horizontal, bit 11 vertical) picks colour `16 * p + i` of the palette,
    /// where `p` is the map entry's palette number (bits 12-15): palette bytes
    /// `(16 * p + i) * 2` and the next, little-endian. In a 256-colour layer
    /// the pixel's byte `b` picks colour `b`. The colour is drawn (bit 15 set)
    /// unless its index is 0, which is transparent (bit 15 clear).
    pub proof fn lemma_palette_lookup(&self, banks: &VramBanks, bg: int, x: int, y: int)
        requires
            0 <= x,
            0 <= y,
        ensures
            ({
                let entry = self.map_entry(banks, bg, x / 8, y / 8);
                let col = if (entry / 1024) % 2 == 1 {
                    7 - x % 8
                } else {
                    x % 8
                };
                let row = if (entry / 2048) % 2 == 1 {
                    7 - y % 8
                } else {
                    y % 8
                };
                let tile = self.tile_addr(bg, entry);
                let pixel = self.background_pixel(banks, bg, x, y);
                if (self.bgxcnt[bg]@ / 128) % 2 == 0 {
                    let b = banks.read_byte(tile, 32, row * 4 + col / 2);
                    let i = if col % 2 == 0 {
                        b % 16
                    } else {
                        b / 16
                    };
                    let c = self.palette@[(16 * (entry / 4096) + i) * 2] + 256 * self.palette@[(16 * (
                    entry / 4096) + i) * 2 + 1];
                    &&& i != 0 ==> pixel == c % 32768 + 32768
                    &&& i == 0 ==> pixel == c % 32768
                } else {
                    let b = banks.read_byte(tile, 64, row * 8 + col);
                    let c = self.palette@[b * 2] + 256 * self.palette@[b * 2 + 1];
                    &&& b != 0 ==> pixel == c % 32768 + 32768
                    &&& b == 0 ==> pixel == c % 32768
                }
            }),
    {
        let entry = self.map_entry(banks, bg, x / 8, y / 8);
        let v = self.bgxcnt[bg]@;
        assert(bit16(entry, 10) == ((entry / 1024) % 2 == 1) && bit16(entry, 11) == ((entry / 2048)
            % 2 == 1) && field16(entry, 12, 15) == entry / 4096) by {
            crate::nds::bits::lemma_fields16(entry);
        }
        assert(bit16(v, 7) == ((v / 128) % 2 == 1)) by {
            crate::nds::bits::lemma_fields16(v);
        }
        let col = if bit16(entry, 10) {
            7 - x % 8
        } else {
            x % 8
        };
        let row = if bit16(entry, 11) {
            7 - y % 8
        } else {
            y % 8
        };
        let tile = self.tile_addr(bg, entry);
        let b16 = banks.read_byte(tile, 32, row * 4 + col / 2);
        let i = if col % 2 == 0 {
            b16 % 16
        } else {
            b16 / 16
        };
        let c16 = palette_colour(self.palette@, (i + field16(entry, 12, 15) * 16) * 2);
        assert(with_bit16(c16, 15, true) == c16 % 32768 + 32768 && with_bit16(c16, 15, false) == c16
            % 32768) by {
            crate::nds::bits::lemma_fields16(c16);
        }
        let b256 = banks.read_byte(tile, 64, row * 8 + col);
        let c256 = palette_colour(self.palette@, b256 * 2);
        assert(with_bit16(c256, 15, true) == c256 % 32768 + 32768 && with_bit16(c256, 15, false)
            == c256 % 32768) by {
            crate::nds::bits::lemma_fields16(c256);
        }
    }
}

} // verus!
