use nitrous::nds::interrupts::{InterruptMasterEnable, Interrupts};
use nitrous::nds::logger::{LogKind, LogSource};
use nitrous::nds::shared::Shared;
use nitrous::nds::spi::{FirmwareCommand, Spi, SpiControl};
use nitrous::nds::sqrt::{isqrt_u64, SquareRootUnit};
use nitrous::nds::timers::{Timer, Timers};

#[test]
fn timer_starts_and_counts_by_six() {
    let mut irq = Interrupts::default();
    let mut t = Timer::new(1);
    assert_eq!(t.get_counter(), 0);
    // reload 0x1000, prescaler 0, operating, irq enabled
    t.set(0x00C0_1000);
    assert_eq!(t.get_control(), 0x00C0);
    assert_eq!(t.get_counter(), 0x1000);
    t.clock(&mut irq);
    assert_eq!(t.get_counter(), 0x1006);
    t.clock(&mut irq);
    assert_eq!(t.get_counter(), 0x100C);
    assert_eq!(irq.f.value(), 0);
}

#[test]
fn timer_overflow_reloads_and_raises_irq() {
    let mut irq = Interrupts::default();
    let mut t = Timer::new(2);
    t.set_l(0xFFFA);
    t.set_h(0x00C0);
    assert_eq!(t.get_counter(), 0xFFFA);
    t.clock(&mut irq);
    // 0xFFFA + 6 overflows: back to the reload value
    assert_eq!(t.get_counter(), 0xFFFA);
    assert_eq!(irq.f.value(), 1 << 5);
}

#[test]
fn timer_prescaler_slows_ticks() {
    let mut irq = Interrupts::default();
    let mut t = Timer::new(0);
    // prescaler 1: one tick every 64 clocks
    t.set(0x0081_0000);
    for _ in 0..63 {
        t.clock(&mut irq);
    }
    assert_eq!(t.get_counter(), 0);
    t.clock(&mut irq);
    assert_eq!(t.get_counter(), 6);
}

#[test]
fn stopped_timer_does_not_count() {
    let mut irq = Interrupts::default();
    let mut timers = Timers::default();
    for _ in 0..10 {
        timers.clock(&mut irq);
    }
    assert_eq!(timers.get(3).get_counter(), 0);
    timers.get_mut(3).set(0x0080_0010);
    timers.clock(&mut irq);
    assert_eq!(timers.get(3).get_counter(), 0x16);
    assert_eq!(timers.get(0).get_counter(), 0);
}

#[test]
fn isqrt_values() {
    assert_eq!(isqrt_u64(0), 0);
    assert_eq!(isqrt_u64(1), 1);
    assert_eq!(isqrt_u64(15), 3);
    assert_eq!(isqrt_u64(16), 4);
    assert_eq!(isqrt_u64(1_000_000), 1000);
    assert_eq!(isqrt_u64(u64::MAX), 0xFFFF_FFFF);
}

#[test]
fn sqrt_unit_32_and_64_bit() {
    let mut unit = SquareRootUnit::default();
    unit.set_param::<true>(1_000_000);
    assert_eq!(unit.control.value(), 0x8000);
    unit.clock();
    assert_eq!(unit.result, 1000);
    assert_eq!(unit.control.value(), 0);
    // 64-bit mode: 2^32 has root 2^16
    unit.set_control(1);
    unit.set_param::<true>(0);
    unit.set_param::<false>(1);
    unit.clock();
    assert_eq!(unit.result, 65536);
    assert_eq!(unit.control.value(), 1);
    // nothing pending: nothing changes
    unit.param_lo = 4;
    unit.clock();
    assert_eq!(unit.result, 65536);
}

fn spi_for(device: u16, hold: bool) -> Spi {
    let mut spi = Spi::default();
    let mut cnt = SpiControl::default_for_tests();
    cnt.set(0x8000 | (device << 8) | if hold { 1 << 11 } else { 0 });
    spi.cnt = cnt;
    spi
}

trait ForTests {
    fn default_for_tests() -> Self;
}

impl ForTests for SpiControl {
    fn default_for_tests() -> Self {
        Spi::default().cnt
    }
}

#[test]
fn spi_disabled_does_nothing() {
    let shared = Shared::new_fake();
    let mut spi = Spi::default();
    spi.write(&[], &shared, 0x03);
    assert_eq!(spi.data, 0);
    assert_eq!(spi.fw_command_id, FirmwareCommand::Idle);
}

#[test]
fn spi_firmware_stream_read() {
    let shared = Shared::new_fake();
    let mut firmware = vec![0u8; 256 * 1024];
    for (i, b) in firmware.iter_mut().enumerate() {
        *b = (i % 251) as u8;
    }
    let mut spi = spi_for(1, true);
    spi.write(&firmware, &shared, 0x03);
    assert_eq!(spi.data, 0x03);
    spi.write(&firmware, &shared, 0x00);
    spi.write(&firmware, &shared, 0x01);
    spi.write(&firmware, &shared, 0x02);
    assert_eq!(spi.fw_address, 0x0102);
    spi.write(&firmware, &shared, 0);
    assert_eq!(spi.data, firmware[0x0102] as u16);
    spi.write(&firmware, &shared, 0);
    assert_eq!(spi.data, firmware[0x0103] as u16);
    // releasing the chip select ends the command
    spi.cnt.set(0x8100);
    spi.write(&firmware, &shared, 0);
    assert_eq!(spi.data, firmware[0x0104] as u16);
    assert_eq!(spi.fw_command_id, FirmwareCommand::Idle);
    assert_eq!(spi.fw_address, 0);
}

#[test]
fn spi_firmware_status_register() {
    let shared = Shared::new_fake();
    let mut spi = spi_for(1, false);
    spi.write(&[], &shared, 0x06);
    assert_eq!(spi.fw_status_reg, 1);
    spi.cnt.set(0x8900);
    spi.write(&[], &shared, 0x05);
    spi.write(&[], &shared, 0x00);
    assert_eq!(spi.data, 1);
    spi.cnt.set(0x8100);
    spi.write(&[], &shared, 0x00);
    spi.write(&[], &shared, 0x04);
    assert_eq!(spi.fw_status_reg, 0);
}

#[test]
fn spi_touchscreen_coordinates() {
    let mut shared = Shared::new_fake();
    shared.touchscreen_point = (100, 50);
    let mut spi = spi_for(2, true);
    // channel 5: X
    spi.write(&[], &shared, 0b1101_0000);
    assert_eq!(spi.tsc_output_coords, 100 << 4);
    spi.write(&[], &shared, 0);
    assert_eq!(spi.data, ((100u16 << 4) >> 5) & 0xFF);
    spi.write(&[], &shared, 0);
    assert_eq!(spi.data, ((100u16 << 4) << 3) & 0xFF);
    spi.write(&[], &shared, 0);
    assert_eq!(spi.data, 0);
    // channel 1 with 8-bit conversion: Y
    spi.write(&[], &shared, 0b1001_1000);
    assert_eq!(spi.tsc_output_coords, (50 << 4) & 0x0FF0);
    assert_eq!(spi.tsc_data_pos, 0);
}

#[test]
fn spi_power_management_answers_zero() {
    let shared = Shared::new_fake();
    let mut spi = spi_for(0, false);
    spi.data = 7;
    spi.write(&[], &shared, 0x55);
    assert_eq!(spi.data, 0);
    let mut spi = spi_for(3, false);
    spi.data = 7;
    spi.write(&[], &shared, 0x55);
    assert_eq!(spi.data, 0);
}

#[test]
fn spicnt_keeps_busy_bit() {
    let mut cnt = SpiControl::default_for_tests();
    cnt.set(0xFFFF);
    assert_eq!(cnt.value(), 0xFF7F);
    assert_eq!(cnt.get_device(), 3);
    assert!(cnt.get_chipset_hold());
    assert!(cnt.get_enabled());
    let _ = InterruptMasterEnable::from(0);
}

#[test]
fn spi_write_log_entries() {
    let shared = Shared::new_fake();
    assert!(Spi::default().write_log(0x07).is_none());
    let l = spi_for(0, false).write_log(0).unwrap();
    assert_eq!((l.kind, l.source, l.content.as_str(), l.once), (LogKind::Warn, LogSource::Spi, "powerman not implemented", true));
    let mut spi = spi_for(1, true);
    let l = spi.write_log(0x9F).unwrap();
    assert_eq!((l.kind, l.content.as_str(), l.once), (LogKind::Error, "unknown firmware command 159", false));
    assert!(spi.write_log(0x05).is_none());
    spi.write(&[], &shared, 0x05);
    // no longer idle: the next byte is no command
    assert!(spi.write_log(0x9F).is_none());
    assert!(spi_for(2, false).write_log(0x9F).is_none());
    let l = spi_for(3, false).write_log(1).unwrap();
    assert_eq!((l.kind, l.content.as_str(), l.once), (LogKind::Error, "reserved device not implemented", true));
}

#[test]
fn timer_control_log_on_count_up() {
    assert!(Timer::control_log(0x0083).is_none());
    let l = Timer::control_log(0x0084).unwrap();
    assert_eq!((l.kind, l.source, l.content.as_str(), l.once), (LogKind::Error, LogSource::Emu, "Count up timing not implemented", true));
}

#[test]
fn timer_with_any_index_raises_its_own_line() {
    let mut irq = Interrupts::default();
    let mut t = Timer::new(9);
    t.set_l(0xFFFA);
    t.set_h(0x00C0);
    t.clock(&mut irq);
    assert_eq!(irq.f.value(), 1 << 12);
}

#[test]
fn fake_shared_state_writes_nothing_to_vram() {
    let mut shared = Shared::new_fake();
    assert!(!shared.gpus.vram_banks.write_slice::<2>(0x06800000, [1, 2]));
    assert!(!shared.gpus.vram_banks.a.write_slice::<2>(0x06800000, [1, 2]));
    shared.gpus.vram_banks.a.write_vramcnt(0b1000_0000);
    assert_eq!((shared.gpus.vram_banks.a.start, shared.gpus.vram_banks.a.end), (0x06800000, 0x0681FFFF));
    assert!(shared.gpus.vram_banks.a.data.is_empty());
}
