use nitrous::nds::bits::{get_bit_u16, get_bits_u32, set_bit_u32, set_bits_u32, set_bits_u8};
use nitrous::nds::gpus::gpu2d::models::bgxcnt::{BGxCNT, ColorPalette};
use nitrous::nds::gpus::gpu2d::models::colorfx::{BldAlpha, BldCnt, ColorSpecialEffect};
use nitrous::nds::gpus::gpu2d::models::dispcnt::{DispCnt, DisplayMode};
use nitrous::nds::gpus::models::DispStat;
use nitrous::nds::interrupts::{InterruptFlags, InterruptMasterEnable, Interrupts};
use nitrous::nds::shared::models::extkeyin::ExtKeyIn;
use nitrous::nds::shared::models::keyinput::KeyInput;
use nitrous::nds::shared::models::powcnt::PowCnt1;

#[test]
fn bits_read_and_write() {
    assert_eq!(get_bits_u32(0xABCD_1234, 16, 31), 0xABCD);
    assert_eq!(get_bits_u32(0xABCD_1234, 4, 7), 0x3);
    assert_eq!(set_bit_u32(0, 31, true), 0x8000_0000);
    assert_eq!(set_bit_u32(0xFFFF_FFFF, 0, false), 0xFFFF_FFFE);
    assert_eq!(set_bits_u32(0xFFFF_FFFF, 8, 15, 0x12), 0xFFFF_12FF);
    assert_eq!(set_bits_u32(0, 0, 3, 0xFF), 0xF);
    assert_eq!(set_bits_u8(0, 3, 4, 3), 0b1_1000);
    assert!(get_bit_u16(0x8000, 15));
}

#[test]
fn ime_bit_zero_enables_interrupts() {
    let ime = InterruptMasterEnable::from(1);
    assert!(ime.get_disable_all());
    assert_eq!(ime.value(), 1);
    let ime = InterruptMasterEnable::from(0);
    assert!(!ime.get_disable_all());
}

#[test]
fn interrupt_request_needs_master_enable_and_match() {
    let mut irq = Interrupts::default();
    irq.e = InterruptFlags::from(0b10);
    irq.f.set_lcd_hblank(true);
    assert!(!irq.is_requesting_interrupt());
    irq.me = InterruptMasterEnable::from(1);
    assert!(irq.is_requesting_interrupt());
    irq.f.write_and_ack(0b10);
    assert!(!irq.is_requesting_interrupt());
    assert_eq!(irq.f.value(), 0);
}

#[test]
fn interrupt_flag_bits() {
    let mut f = InterruptFlags::default();
    f.set_lcd_vblank(true);
    f.set_lcd_vcounter_match(true);
    f.set_ipc_send_fifo_empty(true);
    f.set_ipc_receive_fifo_not_empty(true);
    f.set_ipcsync(true);
    assert_eq!(f.value(), 1 | 4 | (1 << 17) | (1 << 18) | (1 << 16));
    f.set_lcd_vblank(false);
    assert_eq!(f.value(), 4 | (1 << 17) | (1 << 18) | (1 << 16));
    f.write_and_ack(0xFFFF_FFFF);
    assert_eq!(f.value(), 0);
}

#[test]
fn falsy_setters_never_clear() {
    let mut f = InterruptFlags::from(1 << 17);
    f.falsy_set_ipc_send_fifo_empty(false);
    assert_eq!(f.value(), 1 << 17);
    f.falsy_set_ipc_receive_fifo_not_empty(true);
    assert_eq!(f.value(), (1 << 17) | (1 << 18));
    f.falsy_set_timer_overflow(2, true);
    assert_eq!(f.value(), (1 << 17) | (1 << 18) | (1 << 5));
    f.falsy_set_timer_overflow(0, false);
    assert_eq!(f.value(), (1 << 17) | (1 << 18) | (1 << 5));
}

#[test]
fn keyinput_buttons() {
    let mut k = KeyInput::default();
    assert_eq!(k.value(), 0x3FF);
    assert!(k.get_button_a() && k.get_button_l());
    k.set_button_a(false);
    k.set_button_down(false);
    assert_eq!(k.value(), 0x3FF & !1 & !(1 << 7));
    assert!(!k.get_button_a());
    assert!(!k.get_button_down());
    assert!(k.get_button_b() && k.get_button_select() && k.get_button_start());
    assert!(k.get_button_right() && k.get_button_left() && k.get_button_up());
    assert!(k.get_button_r());
    k.set_button_a(true);
    assert!(k.get_button_a());
    let k = KeyInput::from(0);
    assert!(!k.get_button_r());
}

#[test]
fn extkeyin_buttons() {
    let mut k = ExtKeyIn::default();
    assert_eq!(k.value(), 0x7F);
    k.set_button_x(false);
    assert!(!k.get_button_x());
    assert!(k.get_button_y());
    k.set_button_y(false);
    assert_eq!(k.value(), 0x7C);
}

#[test]
fn powcnt_display_swap() {
    assert!(PowCnt1::from(0x8000).get_display_swap());
    assert!(!PowCnt1::from(0x7FFF).get_display_swap());
    assert_eq!(PowCnt1::default().value(), 0);
}

#[test]
fn dispcnt_fields() {
    let d = DispCnt::from(0x5E03_0F0D);
    assert_eq!(d.get_bg_mode(), 5);
    assert!(d.get_bg0_2d_3d_selection());
    assert!(d.get_screen_display_bg0() && d.get_screen_display_bg1());
    assert!(d.get_screen_display_bg2() && d.get_screen_display_bg3());
    assert_eq!(d.get_display_mode(), DisplayMode::MainMemoryDisplay);
    assert_eq!(d.get_vram_block(), 0b00);
    assert_eq!(d.get_character_base(), 0b110);
    assert_eq!(d.get_screen_base(), 0b011);
    assert!(d.get_bg_extended_palettes());
    assert_eq!(DispCnt::from(1 << 16).get_display_mode(), DisplayMode::GraphicsDisplay);
    assert_eq!(DispCnt::from(2 << 16).get_display_mode(), DisplayMode::VramDisplay);
    assert_eq!(DispCnt::default().get_display_mode(), DisplayMode::DisplayOff);
}

#[test]
fn bgxcnt_fields() {
    let b = BGxCNT::from(0b11_0_10101_1_0_1010_01);
    assert_eq!(b.get_priority(), 1);
    assert_eq!(b.get_character_base_block(), 0b1010);
    assert!(b.get_color_palette() == ColorPalette::Is256x1);
    assert_eq!(b.get_screen_base_block(), 0b10101);
    assert_eq!(b.get_screen_size(), 3);
    assert!(BGxCNT::default().get_color_palette() == ColorPalette::Is16x16);
}

#[test]
fn bldcnt_fields_and_blend() {
    let b = BldCnt::from(0b0000_0010_0101_0001);
    assert_eq!(b.value(), 0b0000_0010_0101_0001);
    assert!(b.get_first_target_pixel(0));
    assert!(!b.get_first_target_pixel(1));
    assert!(b.get_first_target_pixel(4));
    assert_eq!(b.get_color_special_effect(), ColorSpecialEffect::AlphaBlending);
    assert!(b.get_second_target_pixel(1));
    assert!(!b.get_second_target_pixel(0));
    assert_eq!(BldCnt::from(3 << 6).get_color_special_effect(), ColorSpecialEffect::BrightnessDecrease);
    // a transparent first colour leaves the second
    assert_eq!(ColorSpecialEffect::alpha_blend_sixteenths(0x7FFF, 0x1234, 8, 8), 0x1234);
    // half and half of red 31 and red 1: (31*8 + 1*8) / 16 = 16
    assert_eq!(ColorSpecialEffect::alpha_blend_sixteenths(0x801F, 0x0001, 8, 8), 16);
    // capped at 31
    assert_eq!(ColorSpecialEffect::alpha_blend_sixteenths(0xFFFF, 0x7FFF, 16, 16), 0x7FFF);
    assert_eq!(BldAlpha::from(0x1F).ev_sixteenths(), 16);
    assert_eq!(BldAlpha::from(0x07).ev_sixteenths(), 7);
    assert_eq!(BldAlpha::from(0x07).value(), 7);
}

#[test]
fn dispstat_fields() {
    let mut d = DispStat::from(0b1010_1010_1011_1000);
    assert!(d.get_vblank_irq_enable());
    assert!(d.get_hblank_irq_enable());
    assert!(d.get_vcounter_irq_enable());
    assert_eq!(d.get_vcount_setting(), 0b1_1010_1010);
    d.set_vblank_flag(true);
    d.set_hblank_flag(true);
    d.set_vcounter_flag(true);
    assert_eq!(d.value(), 0b1010_1010_1011_1111);
}
