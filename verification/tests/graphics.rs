use nitrous::nds::gpus::gpu2d::models::bgxcnt::BGxCNT;
use nitrous::nds::gpus::gpu2d::models::colorfx::{BldAlpha, BldCnt};
use nitrous::nds::gpus::gpu2d::models::dispcnt::DispCnt;
use nitrous::nds::gpus::gpu2d::rendering::graphics::GraphicsFrame;
use nitrous::nds::gpus::gpu2d::{Frame, Gpu2d};
use nitrous::nds::gpus::models::DispStat;
use nitrous::nds::gpus::vram::bank::VramBank;
use nitrous::nds::gpus::vram::models::{Mst, Offset};
use nitrous::nds::gpus::vram::VramBanks;
use nitrous::nds::gpus::Gpus;
use nitrous::nds::interrupts::Interrupts;

#[test]
fn vramcnt_reads_back() {
    let mut bank: VramBank<2> = VramBank::new();
    bank.write_vramcnt(0b1111_1100);
    assert_eq!(bank.mst, Mst::E);
    assert_eq!(bank.offset, Offset::D);
    assert!(bank.enabled);
    assert_eq!(bank.read_vramcnt(), 0b1001_1100);
    assert!(bank.on_bus);
    assert_eq!((bank.start, bank.end), (0x06200000, 0x06200000 + 128 * 1024));
}

#[test]
fn vram_bank_mappings() {
    let mut a: VramBank<0> = VramBank::new();
    assert_eq!((a.on_bus, a.start, a.end), (true, 0x06800000, 0x0681FFFF));
    a.write_vramcnt(0b1001_1001);
    assert_eq!((a.start, a.end), (0x06060000, 0x06060000 + 0x20000));
    let mut f: VramBank<5> = VramBank::new();
    f.write_vramcnt(0b1001_0010);
    assert_eq!((f.on_bus, f.start), (true, 0x06400000 + 0x4000 * 0 + 0x10000 * 1));
    f.write_vramcnt(0b1001_1011);
    assert_eq!((f.on_bus, f.start, f.end), (false, 5, 5));
    f.write_vramcnt(0b1000_1101);
    assert_eq!((f.on_bus, f.start, f.end), (false, 0, 0));
    let mut h: VramBank<7> = VramBank::new();
    h.write_vramcnt(0b1000_0010);
    assert_eq!((h.on_bus, h.start, h.end), (false, 0, 3));
}

#[test]
fn vram_bank_write_then_read() {
    let mut bank: VramBank<1> = VramBank::new();
    assert!(!bank.write_slice::<4>(0x06820000, [1, 2, 3, 4]));
    bank.write_vramcnt(0b1000_0000);
    assert!(bank.write_slice::<4>(0x06820010, [1, 2, 3, 4]));
    assert_eq!(bank.read_slice::<4>(0x06820010), (true, [1, 2, 3, 4]));
    assert_eq!(bank.read_slice::<2>(0x06820012), (true, [3, 4]));
    assert_eq!(bank.read_slice::<2>(0x0681FFF0), (false, [0, 0]));
    assert_eq!(bank.read_virtual_slice::<2>(0x10), (false, [0, 0]));
}

#[test]
fn vram_virtual_read_when_off_bus() {
    let mut bank: VramBank<4> = VramBank::new();
    bank.write_vramcnt(0b1000_0000);
    bank.write_slice::<2>(0x06880004, [9, 8]);
    bank.write_vramcnt(0b1000_0011);
    assert!(!bank.on_bus);
    assert_eq!(bank.read_virtual_slice::<2>(4), (true, [9, 8]));
    assert_eq!(bank.read_slice::<2>(0x06880004), (false, [0, 0]));
}

#[test]
fn vram_banks_combine_reads() {
    let mut banks = VramBanks::default();
    assert_eq!(banks.read_slice::<2>(0x06000000), None);
    banks.a.write_vramcnt(0b1000_0001);
    banks.b.write_vramcnt(0b1000_0001);
    assert!(banks.write_slice::<2>(0x06000000, [0x0F, 0xF0]));
    assert_eq!(banks.read_slice::<2>(0x06000000), Some([0x0F, 0xF0]));
    let mut b2 = [0u8; 2];
    b2[0] = 0x30;
    b2[1] = 0x01;
    assert!(banks.b.write_slice::<2>(0x06000000, b2));
    assert_eq!(banks.read_slice::<2>(0x06000000), Some([0x3F, 0xF1]));
    assert_eq!(banks.read_slice::<2>(0x07000000), None);
    let fake = VramBanks::new_fake();
    assert_eq!(fake.read_slice::<2>(0x06800000), None);
}

#[test]
fn gpus_clock_moves_through_the_frame() {
    let mut gpus = Gpus::new_fake();
    let mut i9 = Interrupts::default();
    let mut i7 = Interrupts::default();
    for _ in 0..255 {
        gpus.clock(&mut i9, &mut i7);
    }
    assert_eq!((gpus.x, gpus.vcount), (255, 0));
    assert_eq!(gpus.dispstat.value() & 0b11, 0);
    gpus.clock(&mut i9, &mut i7);
    assert_eq!(gpus.dispstat.value() & 0b10, 0b10);
    for _ in 256..355 {
        gpus.clock(&mut i9, &mut i7);
    }
    assert_eq!((gpus.x, gpus.vcount), (0, 1));
    assert_eq!(gpus.dispstat.value() & 0b10, 0);
    assert_eq!(i9.f.value(), 0);
}

#[test]
fn gpus_interrupts_on_blanking_and_vcount_match() {
    let mut gpus = Gpus::new_fake();
    // enable all three interrupts, V-count setting 1
    gpus.dispstat = DispStat::from(0b0000_0001_0011_1000);
    let mut i9 = Interrupts::default();
    let mut i7 = Interrupts::default();
    for _ in 0..256 {
        gpus.clock(&mut i9, &mut i7);
    }
    assert_eq!(i9.f.value(), 0b010);
    assert_eq!(i7.f.value(), 0b010);
    for _ in 256..355 {
        gpus.clock(&mut i9, &mut i7);
    }
    assert_eq!(gpus.vcount, 1);
    assert_eq!(i9.f.value(), 0b110);
    assert_eq!(gpus.dispstat.value() & 0b100, 0b100);
    while gpus.vcount != 192 {
        gpus.clock(&mut i9, &mut i7);
    }
    assert_eq!(i7.f.value(), 0b111);
    assert_eq!(gpus.dispstat.value() & 0b1, 0b1);
    let mut frames = 0;
    while !(gpus.vcount == 0 && gpus.x == 0) {
        gpus.clock(&mut i9, &mut i7);
        frames += 1;
    }
    assert_eq!(frames, 355 * 263 - 192 * 355);
}

#[test]
fn background_tiles_and_flips() {
    let mut gpus = Gpus::default();
    gpus.vram_banks.a.write_vramcnt(0b1000_0001);
    // BG0: screen base block 1 (map at 2 KiB), character base block 0
    gpus.a.bgxcnt[0] = BGxCNT::from(1 << 8);
    // tile 1: first byte holds pixels 0 (colour 1) and 1 (colour 2)
    assert!(gpus.vram_banks.write_slice::<1>(0x06000000 + 32, [0x21]));
    // map entry (0,0): tile 1; map entry (1,0): tile 1 flipped horizontally
    assert!(gpus.vram_banks.write_slice::<2>(0x06000800, [0x01, 0x00]));
    assert!(gpus.vram_banks.write_slice::<2>(0x06000802, [0x01, 0x04]));
    gpus.a.palette[2] = 0x1F;
    gpus.a.palette[4] = 0xE0;
    gpus.a.palette[5] = 0x03;
    let (pixels, ok) = gpus.a.render_background::<0>(&gpus.vram_banks);
    assert!(ok);
    assert_eq!(pixels.len(), 256);
    assert_eq!(pixels[0].len(), 256);
    assert_eq!(pixels[0][0], 0x801F);
    assert_eq!(pixels[1][0], 0x83E0);
    assert_eq!(pixels[2][0], 0);
    assert_eq!(pixels[15][0], 0x801F);
    assert_eq!(pixels[14][0], 0x83E0);
    assert_eq!(pixels[0][1], 0);
}

#[test]
fn background_256_colours_and_size() {
    let mut gpus = Gpus::default();
    gpus.vram_banks.a.write_vramcnt(0b1000_0001);
    gpus.vram_banks.b.write_vramcnt(0b1000_1001);
    // BG1: 256 colours, 512x256, map at 4 KiB
    gpus.a.bgxcnt[1] = BGxCNT::from((1 << 14) | (2 << 8) | (1 << 7));
    // tile 2 (64 bytes each): pixel (7, 7) is colour 3
    assert!(gpus.vram_banks.write_slice::<1>(0x06000000 + 2 * 64 + 63, [3]));
    // the right quadrant's first entry names tile 2, flipped both ways
    assert!(gpus.vram_banks.write_slice::<2>(0x06001000 + 32 * 32 * 2, [0x02, 0x0C]));
    gpus.a.palette[6] = 0x34;
    gpus.a.palette[7] = 0x12;
    let (pixels, _) = gpus.a.render_background::<1>(&gpus.vram_banks);
    assert_eq!(pixels.len(), 512);
    assert_eq!(pixels[0].len(), 256);
    assert_eq!(pixels[256][0], 0x9234);
    assert_eq!(pixels[263][7], 0);
}

#[test]
fn sprites_draw_and_overlap() {
    let mut gpus = Gpus::default();
    gpus.vram_banks.e.write_vramcnt(0b1000_0010);
    // tile 0: byte 0 holds colour 1 then colour 0
    assert!(gpus.vram_banks.write_slice::<1>(0x06400000, [0x01]));
    // hide every sprite but 0 and 1
    for i in 2..128 {
        gpus.a.oam[i * 8 + 1] = 0x02;
    }
    // sprite 0: 8x8 at (20, 10); sprite 1 at (22, 10) covers part of it
    gpus.a.oam[0] = 10;
    gpus.a.oam[2] = 20;
    gpus.a.oam[8] = 10;
    gpus.a.oam[10] = 22;
    gpus.a.palette[514] = 0x34;
    gpus.a.palette[515] = 0x12;
    let (pixels, ok) = gpus.a.render_objs(&gpus.vram_banks);
    assert!(ok);
    assert_eq!(pixels.len(), 511);
    assert_eq!(pixels[0].len(), 255);
    assert_eq!(pixels[20][10], 0x9234);
    assert_eq!(pixels[21][10], 0x8000);
    assert_eq!(pixels[22][10], 0x9234);
    assert_eq!(pixels[20][11], 0x8000);
    assert_eq!(pixels[19][10], 0);
    assert_eq!(pixels[0][0], 0);
}

#[test]
fn sprites_wrap_around() {
    let mut gpus = Gpus::default();
    gpus.vram_banks.e.write_vramcnt(0b1000_0010);
    assert!(gpus.vram_banks.write_slice::<1>(0x06400000 + 3, [0x10]));
    for i in 1..128 {
        gpus.a.oam[i * 8 + 1] = 0x02;
    }
    // sprite 0 at x = 508: its pixel 7 lands at column 4
    gpus.a.oam[2] = 0xFC;
    gpus.a.oam[3] = 0x01;
    gpus.a.palette[514] = 0x01;
    let (pixels, _) = gpus.a.render_objs(&gpus.vram_banks);
    assert_eq!(pixels[4][0], 0x8001);
    assert_eq!(pixels[508][0], 0x8000);
}

fn flat_layer(w: usize, h: usize, colour: u16) -> (Vec<Vec<u16>>, bool) {
    (vec![vec![colour; h]; w], true)
}

fn off_layer() -> (Vec<Vec<u16>>, bool) {
    (vec![vec![]], false)
}

fn no_sprites() -> Vec<Vec<u16>> {
    vec![vec![0; 255]; 511]
}

fn quiet_engine() -> Gpu2d<true> {
    let mut gpu: Gpu2d<true> = Gpu2d::default();
    gpu.palette[0] = 0x34;
    gpu.palette[1] = 0x12;
    gpu
}

#[test]
fn compose_shows_backdrop_when_nothing_is_on() {
    let gpu = quiet_engine();
    let bgs = vec![off_layer(), off_layer(), off_layer(), off_layer()];
    let pixels = gpu.compose_graphics(&bgs, &no_sprites());
    assert_eq!(pixels.len(), 256 * 192);
    assert!(pixels.iter().all(|&p| p == 0x1234));
}

#[test]
fn compose_draws_by_priority() {
    let mut gpu = quiet_engine();
    let red = 0x801F;
    let green = 0x83E0;
    // BG0 priority 1, BG1 priority 0: BG1 is in front
    gpu.bgxcnt[0] = BGxCNT::from(1);
    gpu.bgxcnt[1] = BGxCNT::from(0);
    let bgs = vec![flat_layer(256, 256, red), flat_layer(256, 256, green), off_layer(), off_layer()];
    let pixels = gpu.compose_graphics(&bgs, &no_sprites());
    assert_eq!(pixels[0], green);
    assert_eq!(pixels[256 * 191 + 255], green);
    // the same priority: the lower number is in front
    gpu.bgxcnt[0] = BGxCNT::from(0);
    let pixels = gpu.compose_graphics(&bgs, &no_sprites());
    assert_eq!(pixels[100], red);
    // a transparent front layer lets the one behind show
    let bgs = vec![flat_layer(8, 8, 0x03E0), flat_layer(8, 8, green), off_layer(), off_layer()];
    let pixels = gpu.compose_graphics(&bgs, &no_sprites());
    assert_eq!(pixels[5], green);
}

#[test]
fn compose_scrolls_and_repeats() {
    let mut gpu = quiet_engine();
    let layer = (vec![vec![0x8001, 0x8003], vec![0x8002, 0x8004]], true);
    let bgs = vec![layer, off_layer(), off_layer(), off_layer()];
    gpu.bgofs[0] = 1 | (1 << 16);
    let pixels = gpu.compose_graphics(&bgs, &no_sprites());
    // screen (0, 0) shows layer (1, 1); screen (1, 0) shows layer (0, 1)
    assert_eq!(pixels[0], 0x8004);
    assert_eq!(pixels[1], 0x8003);
    assert_eq!(pixels[256], 0x8002);
    assert_eq!(pixels[257], 0x8001);
}

#[test]
fn compose_alpha_blends_targets() {
    let mut gpu = quiet_engine();
    // BG2 and BG3 at the back (priority 3), then BG0 (priority 1), BG1 in
    // front (priority 0)
    gpu.bgxcnt[0] = BGxCNT::from(1);
    gpu.bgxcnt[2] = BGxCNT::from(3);
    gpu.bgxcnt[3] = BGxCNT::from(3);
    // alpha blending; BG1 first target, BG0 second target
    gpu.bldcnt = BldCnt::from((1 << 6) | (1 << 1) | (1 << 8));
    gpu.bldalpha = [BldAlpha::from(8), BldAlpha::from(8)];
    let bgs = vec![flat_layer(8, 8, 0x8008), flat_layer(8, 8, 0x8010), off_layer(), off_layer()];
    let pixels = gpu.compose_graphics(&bgs, &no_sprites());
    // red: (16 * 8 + 8 * 8) / 16 = 12, and bit 15 is cleared
    assert_eq!(pixels[0], 0x000C);
    // without the second target the front layer just covers
    gpu.bldcnt = BldCnt::from((1 << 6) | (1 << 1));
    let pixels = gpu.compose_graphics(&bgs, &no_sprites());
    assert_eq!(pixels[0], 0x8010);
}

#[test]
fn compose_sprites_cover_backgrounds() {
    let mut gpu = quiet_engine();
    let bgs = vec![flat_layer(8, 8, 0x801F), off_layer(), off_layer(), off_layer()];
    let mut sprites = no_sprites();
    sprites[3][2] = 0x83E0;
    let pixels = gpu.compose_graphics(&bgs, &sprites);
    assert_eq!(pixels[2 * 256 + 3], 0x83E0);
    assert_eq!(pixels[2 * 256 + 4], 0x801F);
    gpu.show_objs = [false; 4];
    let pixels = gpu.compose_graphics(&bgs, &sprites);
    assert_eq!(pixels[2 * 256 + 3], 0x801F);
}

#[test]
fn render_graphics_modes() {
    let mut gpus = Gpus::default();
    gpus.a.palette[0] = 0x34;
    gpus.a.palette[1] = 0x12;
    gpus.a.palette[512] = 0x1F;
    // every OAM entry is an 8x8 sprite at (0, 0) drawn with colour 0
    match gpus.a.render_graphics(&gpus.vram_banks) {
        GraphicsFrame::Composed(pixels, layers) => {
            assert_eq!(layers.len(), 4);
            assert!(layers.iter().all(|l| !l.1));
            assert_eq!(pixels[0], 0x801F);
            assert_eq!(pixels[7 * 256 + 7], 0x801F);
            assert_eq!(pixels[8], 0x1234);
        }
        GraphicsFrame::Unsupported(_) => panic!("BG mode 0 is drawn"),
    }
    gpus.a.dispcnt = DispCnt::from(3);
    assert!(matches!(gpus.a.render_graphics(&gpus.vram_banks), GraphicsFrame::Unsupported(3)));
}

#[test]
fn render_follows_display_mode() {
    let mut gpus = Gpus::default();
    let lcdc = {
        let mut m = vec![0u8; 4 * 0x20000];
        m[0x20000] = 0x34;
        m[0x20001] = 0x12;
        m[0x20002] = 0xFF;
        m
    };
    assert!(matches!(gpus.a.render(&gpus.vram_banks, &lcdc), Frame::White));
    // VRAM display of block 1
    gpus.a.dispcnt = DispCnt::from((2 << 16) | (1 << 18));
    match gpus.a.render(&gpus.vram_banks, &lcdc) {
        Frame::Vram(pixels) => {
            assert_eq!(pixels.len(), 256 * 192);
            assert_eq!(pixels[0], 0x1234);
            assert_eq!(pixels[1], 0x00FF);
            assert_eq!(pixels[2], 0);
        }
        _ => panic!("VRAM display"),
    }
    gpus.a.dispcnt = DispCnt::from(3 << 16);
    assert!(matches!(gpus.a.render(&gpus.vram_banks, &lcdc), Frame::MainMemory));
    gpus.a.dispcnt = DispCnt::from(1 << 16);
    assert!(matches!(gpus.a.render(&gpus.vram_banks, &lcdc), Frame::Graphics(GraphicsFrame::Composed(_, _))));
}

#[test]
fn background_sizes_and_quadrants() {
    let mut g: Gpu2d<true> = Gpu2d::default();
    let expected: [(usize, usize, Vec<usize>); 4] = [
        (256, 256, vec![0]),
        (512, 256, vec![0, 1]),
        (256, 512, vec![0, 2]),
        (512, 512, vec![0, 1, 2, 3]),
    ];
    for s in 0..4u16 {
        g.bgxcnt[0] = BGxCNT::from(s << 14);
        let z = g.calculate_size::<0>();
        let (x, y, quadrants) = &expected[s as usize];
        assert_eq!((z.x, z.y), (*x, *y));
        assert_eq!(&z.quadrants, quadrants);
    }
}

#[test]
fn gpus_clock_n_times_lands_on_n() {
    let mut gpus = Gpus::default();
    let mut i9 = Interrupts::default();
    let mut i7 = Interrupts::default();
    let mut n: u64 = 0;
    for target in [355 * 5 + 300, 355 * 200 + 10, 355 * 263 + 3] {
        while n < target {
            gpus.clock(&mut i9, &mut i7);
            n += 1;
        }
        assert_eq!(gpus.x as u64, n % 355);
        assert_eq!(gpus.vcount as u64, (n / 355) % 263);
        let d = gpus.dispstat.value();
        assert_eq!(d & 0b10 != 0, gpus.x >= 256);
        assert_eq!(d & 0b1 != 0, gpus.vcount >= 192 && gpus.vcount != 262);
        assert_eq!(d & 0b100 != 0, gpus.vcount == 0);
    }
}

#[test]
fn vram_bank_mapping_log() {
    let mut a: VramBank<0> = VramBank::new();
    let l = a.mapping_log();
    assert_eq!(l.content, "Mapped VRAM bank 0 to 0x06800000 - 0x0681FFFF true");
    assert!(!l.once);
    a.write_vramcnt(0b1000_0001);
    assert_eq!(a.mapping_log().content, "Mapped VRAM bank 0 to 0x06000000 - 0x06020000 true");
    let mut f: VramBank<5> = VramBank::new();
    f.write_vramcnt(0b1001_1011);
    assert_eq!(f.mapping_log().content, "Mapped VRAM bank 5 to 0x00000005 - 0x00000005 false");
}
