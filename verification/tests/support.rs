use std::collections::VecDeque;

use nitrous::nds::logger::{LogBook, LogKind, LogSource};
use nitrous::nds::memory::Memory;
use nitrous::nds::shared::Shared;
use nitrous::ui::screens::ScreenWindows;
use nitrous::ui::text::{parse_decimal_i32, parse_hex_u32};
use nitrous::ui::windows::debug::disassembler::{disassembly_memory, jump_row, ArmDisassemblerWindow, DisassemblerInstructionSet};
use nitrous::ui::windows::debug::memory_viewer::{validate_char, MemoryViewerKey, MemoryViewerWindow, ValidateCharResult};
use nitrous::nds::arm::ArmKind;
use nitrous::ui::windows::debug::windows::{BenchmarkWindow, EmulationLogWindow, RegisterViewerWindow};
use nitrous::ui::windows::file::preferences::PreferencesWindow;
use nitrous::ui::windows::fps_info::{FpsCounter, FpsInfoWindow};

#[test]
fn log_source_names() {
    assert_eq!(LogSource::Arm9(0).to_string(), "Arm9");
    assert_eq!(LogSource::Arm9(0xABCD).to_string(), "Arm9(0000ABCD)");
    assert_eq!(LogSource::Arm7(0xDEADBEEF).to_string(), "Arm7(DEADBEEF)");
    assert_eq!(LogSource::Arm9T(0x1f).to_string(), "Arm9T(001F)");
    assert_eq!(LogSource::Arm7T(0).to_string(), "Arm7T");
    assert_eq!(LogSource::VramBank(3).to_string(), "VramBank(3)");
    assert_eq!(LogSource::VramBank(201).to_string(), "VramBank(201)");
    assert_eq!(LogSource::Spi.to_string(), "SPI");
    assert_eq!(LogSource::DMA9.to_string(), "DMA9");
    assert_eq!(LogKind::Warn.to_string(), "Warn");
    assert_eq!(LogKind::Debug.to_string(), "Debug");
}

#[test]
fn log_book_pauses_and_once() {
    let mut book = LogBook::new();
    assert!(!book.push(LogKind::Warn, LogSource::Emu, "a".to_string(), "t".to_string()));
    book.pause_on_warn = true;
    assert!(book.push(LogKind::Warn, LogSource::Emu, "b".to_string(), "t".to_string()));
    assert!(!book.has_error_to_show);
    assert!(!book.push(LogKind::Error, LogSource::Cart, "c".to_string(), "t".to_string()));
    assert!(book.has_error_to_show);
    book.pause_on_error = true;
    assert!(book.push_once(LogKind::Error, LogSource::Spi, "d".to_string(), "t".to_string()));
    assert!(!book.push_once(LogKind::Error, LogSource::Spi, "d".to_string(), "t".to_string()));
    assert_eq!(book.logs.len(), 4);
    assert_eq!(book.logs[3].content, "d");
    assert!(book.seen_once(&"d".to_string()));
    assert!(!book.seen_once(&"e".to_string()));
}

#[test]
fn memory_reads_little_endian_words() {
    let mem: Vec<u8> = vec![0x78, 0x56, 0x34, 0x12, 0xFF];
    assert_eq!(mem.read_u32(0), 0x1234_5678);
    assert_eq!(mem.read_u32(1), 0xFF12_3456);
}

#[test]
fn shared_reset_keeps_input() {
    let mut shared = Shared::new_fake();
    shared.keyinput.set_button_a(false);
    shared.powcnt1 = 5u32.into();
    shared.reset();
    assert_eq!(shared.psram.len(), 4 * 1024 * 1024);
    assert_eq!(shared.wram.len(), 32 * 1024);
    assert_eq!(shared.keyinput.value(), 0x3FE);
    assert_eq!(shared.powcnt1.value(), 0);
    let saved = Shared::new_fake();
    shared.load_state(saved);
    assert_eq!(shared.psram.len(), 0);
    assert_eq!(shared.keyinput.value(), 0x3FE);
}

#[test]
fn breakpoints_stop_the_emulator() {
    let mut w = ArmDisassemblerWindow::default();
    w.breakpoints = vec![0x100, 0x200, 0x100];
    assert!(!w.check_breakpoints(0x200));
    w.open = true;
    assert!(w.check_breakpoints(0x200));
    assert_eq!(w.selected_breakpoint, Some(1));
    assert!(w.check_breakpoints(0x100));
    assert_eq!(w.selected_breakpoint, Some(0));
    assert!(!w.check_breakpoints(0x300));
    assert_eq!(w.selected_breakpoint, Some(0));
    w.step_until = Some(0x300);
    assert!(w.check_breakpoints(0x300));
    assert_eq!(w.step_until, None);
    assert_eq!(w.step_amount, "1");
    assert_eq!(DisassemblerInstructionSet::Follow.to_string(), "Follow CPU");
    assert_eq!(DisassemblerInstructionSet::Thumb.to_string(), "THUMB");
}

#[test]
fn hex_characters() {
    assert_eq!(validate_char('7'), ValidateCharResult::Valid(7));
    assert_eq!(validate_char('b'), ValidateCharResult::Valid(11));
    assert_eq!(validate_char('F'), ValidateCharResult::Valid(15));
    assert_eq!(validate_char('\t'), ValidateCharResult::Skip);
    assert_eq!(validate_char('g'), ValidateCharResult::Invalid);
}

#[test]
fn memory_viewer_paste_and_type() {
    let mut w = MemoryViewerWindow::default();
    let text: Vec<char> = "12 3a\n5".chars().collect();
    let writes = w.paste(&text, 0x100);
    assert_eq!(writes, vec![(0x100, 0x12), (0x101, 0x3A)]);
    assert_eq!(w.memory_viewer_selected, Some(0x102));
    assert_eq!(w.memory_viewer_selected_pending_value, Some(5));
    assert_eq!(w.type_char('c', 0x102), Some((0x102, 0x5C)));
    assert_eq!(w.memory_viewer_selected, Some(0x103));
    assert_eq!(w.memory_viewer_selected_pending_value, None);
    assert_eq!(w.type_char('x', 0x103), None);
    assert_eq!(w.type_char('1', 0x103), None);
    assert_eq!(w.memory_viewer_selected_pending_value, Some(1));
    // a digit split by white space loses its first half; an invalid character stops
    let mut w = MemoryViewerWindow::default();
    let text: Vec<char> = "1 23z45".chars().collect();
    assert_eq!(w.paste(&text, 0), vec![(0, 0x23)]);
    assert_eq!(w.memory_viewer_selected, Some(1));
    assert_eq!(w.memory_viewer_selected_pending_value, None);
    // an invalid character after a digit leaves the digit pending
    let text: Vec<char> = "4z".chars().collect();
    assert_eq!(w.paste(&text, 7), vec![]);
    assert_eq!(w.memory_viewer_selected_pending_value, Some(4));
}

#[test]
fn fps_counter_keeps_half_a_second() {
    let mut c = FpsCounter::default();
    c.push_current_time(0);
    c.push_current_time(100_000);
    c.push_current_time(200_000);
    c.push_current_time(700_000);
    assert_eq!(c.last_frame_times, VecDeque::from(vec![100_000, 200_000, 700_000]));
    c.push_current_time(1_300_000);
    assert_eq!(c.last_frame_times, VecDeque::from(vec![700_000, 1_300_000]));
    assert_eq!(c.frame_span(), (600_000, 1));
    let empty = FpsCounter::default();
    assert_eq!(empty.frame_span(), (0, 0));
}

#[test]
fn emulation_log_defaults() {
    let w = EmulationLogWindow::default();
    assert!(!w.open && !w.pause_on_warn && w.pause_on_error && w.show_on_error);
}

#[test]
fn window_defaults() {
    let b = BenchmarkWindow::default();
    assert!(!b.open);
    assert_eq!(b.cycles_to_run, 66_000_000);
    assert!(b.last_result.is_none());
    let f = FpsInfoWindow::default();
    assert!(!f.show);
    assert!(f.fps_counter.last_frame_times.is_empty());
}

#[test]
fn preferences_bios_paths() {
    let mut prefs = PreferencesWindow::default();
    assert!(!prefs.open);
    assert_eq!(prefs.try_load_bios(ArmKind::ARM9), None);
    assert_eq!(prefs.try_load_bios(ArmKind::ARM7), None);
    assert_eq!(prefs.load_bios_from_channel(ArmKind::ARM9, None), None);
    assert!(prefs.arm9_bios_path.is_empty());

    let chosen = prefs.load_bios_from_channel(ArmKind::ARM9, Some("bios9.bin".to_string()));
    assert_eq!(chosen, Some("bios9.bin".to_string()));
    assert_eq!(prefs.arm9_bios_path, "bios9.bin");
    assert!(prefs.arm7_bios_path.is_empty());
    assert_eq!(prefs.try_load_bios(ArmKind::ARM9), Some("bios9.bin".to_string()));
    assert_eq!(prefs.try_load_bios(ArmKind::ARM7), None);

    prefs.load_bios_from_channel(ArmKind::ARM7, Some("bios7.bin".to_string()));
    assert_eq!(prefs.try_load_bios(ArmKind::ARM7), Some("bios7.bin".to_string()));
    assert_eq!(prefs.arm9_bios_path, "bios9.bin");
}

#[test]
fn register_viewer_lists_every_register() {
    let names = RegisterViewerWindow::default().names();
    assert_eq!(names.len(), 46);
    assert_eq!(names[0], "DISPSTAT");
    assert_eq!(names[1], "VCOUNT");
    assert_eq!(names[24], "WRAMCNT");
    assert_eq!(names[27], "IPCSYNC9");
    assert_eq!(names[45], "ROMCTRL");
}

#[test]
fn disassembler_breakpoint_buttons() {
    let mut w = ArmDisassemblerWindow::default();
    w.jump_value = "0x100".to_string();
    w.add_breakpoint();
    w.jump_value = "0x200".to_string();
    w.add_breakpoint();
    w.jump_value = "0x300".to_string();
    w.add_breakpoint();
    assert_eq!(w.breakpoints, vec![0x100, 0x200, 0x300]);
    assert_eq!(w.selected_breakpoint, Some(2));
    w.jump_to_breakpoint();
    assert_eq!(w.jump_now, Some(0x300));
    w.delete_breakpoint();
    assert_eq!(w.breakpoints, vec![0x100, 0x200]);
    assert_eq!(w.selected_breakpoint, Some(1));
    // deleting the first breakpoint selects the new first one
    w.selected_breakpoint = Some(0);
    w.delete_breakpoint();
    assert_eq!(w.breakpoints, vec![0x200]);
    assert_eq!(w.selected_breakpoint, Some(0));
    w.delete_breakpoint();
    assert!(w.breakpoints.is_empty());
    assert_eq!(w.selected_breakpoint, None);
    w.delete_breakpoint();
    assert_eq!(w.selected_breakpoint, None);
}

#[test]
fn disassembler_ctrl_click_toggles() {
    let mut w = ArmDisassemblerWindow::default();
    w.toggle_breakpoint(0x08);
    assert_eq!(w.breakpoints, vec![0x08]);
    assert_eq!(w.selected_breakpoint, Some(0));
    w.jump_value = "0x10".to_string();
    w.add_breakpoint();
    w.jump_value = "0x08".to_string();
    w.add_breakpoint();
    w.toggle_breakpoint(0x08);
    assert_eq!(w.breakpoints, vec![0x10]);
    assert_eq!(w.selected_breakpoint, None);
}

#[test]
fn disassembler_steps_and_jumps() {
    let mut w = ArmDisassemblerWindow::default();
    w.step_over(0x1000, true);
    assert_eq!(w.step_until, Some(0x1002));
    w.step_over(0x1000, false);
    assert_eq!(w.step_until, Some(0x1004));
    w.step_return(0x2001, true);
    assert_eq!(w.step_until, Some(0x2000));
    w.step_return(0x2001, false);
    assert_eq!(w.step_until, Some(0x2001));
    w.jump_to_pc(0xABC);
    assert_eq!(w.jump_value, "00000ABC");
    assert_eq!(w.jump_now, Some(0xABC));
    assert_eq!(disassembly_memory(0x02000010, 0x02000000, 0x100, 0x1000, true), (0x02000000, 0x100));
    assert_eq!(disassembly_memory(0xFFFF0010, 0x02000000, 0x100, 0x1000, true), (0xFFFF0000, 0x1000));
    assert_eq!(disassembly_memory(0x03800010, 0x02000000, 0x100, 0x1000, false), (0x03800000, 0x800000));
    assert_eq!(disassembly_memory(0x03800010, 0x02000000, 0x100, 0x1000, true), (0, 0));
    assert_eq!(jump_row(0x0200000A, 0x02000000, 0x100, 4), Some(2));
    assert_eq!(jump_row(0x02000100, 0x02000000, 0x100, 4), None);
}

#[test]
fn memory_viewer_navigation() {
    let mut w = MemoryViewerWindow::default();
    w.press_key(MemoryViewerKey::ArrowDown);
    assert_eq!(w.memory_viewer_selected, None);
    w.click_byte(20);
    assert_eq!(w.memory_viewer_selected, Some(20));
    w.press_key(MemoryViewerKey::ArrowUp);
    assert_eq!(w.memory_viewer_selected, Some(4));
    w.press_key(MemoryViewerKey::ArrowUp);
    assert_eq!(w.memory_viewer_selected, Some(4));
    w.press_key(MemoryViewerKey::ArrowLeft);
    w.press_key(MemoryViewerKey::ArrowRight);
    w.press_key(MemoryViewerKey::ArrowDown);
    assert_eq!(w.memory_viewer_selected, Some(20));
    w.memory_viewer_selected_pending_value = Some(3);
    w.press_key(MemoryViewerKey::ArrowLeft);
    assert_eq!(w.memory_viewer_selected_pending_value, Some(3));
    w.press_key(MemoryViewerKey::Escape);
    assert_eq!(w.memory_viewer_selected_pending_value, None);
    w.click_byte(19);
    assert_eq!(w.memory_viewer_selected, None);
    w.click_byte(7);
    w.click_elsewhere();
    assert_eq!(w.memory_viewer_selected, None);
}

#[test]
fn screen_windows_open_and_close() {
    let mut top = ScreenWindows::default();
    top.open();
    top.open();
    top.open();
    assert_eq!(top.ids, vec![0, 1, 2]);
    top.close(1);
    assert_eq!((top.ids.clone(), top.count), (vec![0, 2], 3));
    top.close(0);
    top.close(2);
    assert_eq!((top.ids.len(), top.count), (0, 0));
    top.open();
    top.open();
    top.close_all();
    assert_eq!((top.ids.len(), top.count), (0, 0));
}

#[test]
fn text_fields_parse_like_std() {
    for t in ["0x1F", "1f", "0x0x10", "+ff", "FFFFFFFF", "100000000", "", "0x", "+", "-1", "0xg", " 1", "12 "] {
        let std = u32::from_str_radix(t.trim_start_matches("0x"), 16).ok();
        assert_eq!(parse_hex_u32(&t.to_string()), std, "{}", t);
    }
    for t in ["1", "+7", "-3", "2147483647", "2147483648", "-2147483648", "-2147483649", "", "-", "+", "1a", " 5", "007"] {
        let std = t.parse::<i32>().ok();
        assert_eq!(parse_decimal_i32(&t.to_string()), std, "{}", t);
    }
}

#[test]
fn disassembler_jump_and_step_fields() {
    let mut w = ArmDisassemblerWindow::default();
    w.jump_value = "0x0200".to_string();
    w.jump();
    assert_eq!(w.jump_now, Some(0x200));
    w.jump_value = "zz".to_string();
    w.jump();
    assert_eq!(w.jump_now, Some(0));
    w.add_breakpoint();
    assert_eq!(w.breakpoints, vec![0]);
    assert_eq!(w.step_count(), 1);
    w.step_amount = "12".to_string();
    assert_eq!(w.step_count(), 12);
    w.step_amount = "x".to_string();
    assert_eq!(w.step_count(), 0);
}

#[test]
fn disassembler_listing_uses_the_jump_once() {
    let mut w = ArmDisassemblerWindow::default();
    // follows the PC
    assert_eq!(w.listing(0x0200_0010, 0x0200_0000, 0x100, 4), (0x40, Some(4)));
    w.jump_to_operand(0x0200_0020);
    assert_eq!(w.listing(0x0200_0010, 0x0200_0000, 0x100, 2), (0x80, Some(0x10)));
    assert_eq!(w.jump_now, None);
    // a jump outside the listed memory is dropped all the same
    w.jump_to_operand(0x0300_0000);
    assert_eq!(w.listing(0x0200_0010, 0x0200_0000, 0x100, 4), (0x40, Some(4)));
    assert_eq!(w.jump_now, None);
    w.follow_pc = false;
    assert_eq!(w.listing(0x0200_0010, 0x0200_0000, 0x100, 4), (0x40, None));
    // ctrl-click toggling keeps a pending jump until the listing is drawn
    w.jump_to_operand(0x0200_0008);
    w.toggle_breakpoint(0x0200_0008);
    assert_eq!(w.jump_now, Some(0x0200_0008));
    assert_eq!(w.listing(0, 0x0200_0000, 0x100, 4), (0x40, Some(2)));
    assert_eq!(w.jump_now, None);
}

#[test]
fn memory_viewer_over_emulator_memory() {
    let mut w = MemoryViewerWindow::default();
    let mut mem = vec![0u8; 32];
    w.type_into_memory('a', &mut mem);
    assert_eq!(w.memory_viewer_selected_pending_value, None);
    w.click_byte(30);
    w.type_into_memory('4', &mut mem);
    assert_eq!(w.memory_viewer_selected_pending_value, Some(4));
    w.type_into_memory('z', &mut mem);
    assert_eq!(w.memory_viewer_selected_pending_value, Some(4));
    w.type_into_memory('B', &mut mem);
    assert_eq!(mem[30], 0x4B);
    assert_eq!(w.memory_viewer_selected, Some(31));
    w.type_into_memory('1', &mut mem);
    w.type_into_memory('2', &mut mem);
    assert_eq!(mem[31], 0x12);
    // the last byte stays selected
    assert_eq!(w.memory_viewer_selected, Some(31));
    w.press_key_in(MemoryViewerKey::ArrowRight, mem.len());
    assert_eq!(w.memory_viewer_selected, Some(31));
    w.press_key_in(MemoryViewerKey::ArrowUp, mem.len());
    assert_eq!(w.memory_viewer_selected, Some(15));
    w.press_key_in(MemoryViewerKey::ArrowDown, mem.len());
    assert_eq!(w.memory_viewer_selected, Some(31));
    w.press_key_in(MemoryViewerKey::ArrowDown, mem.len());
    assert_eq!(w.memory_viewer_selected, Some(31));
    // this viewer gives Escape no meaning
    w.memory_viewer_selected_pending_value = Some(7);
    w.press_key_in(MemoryViewerKey::Escape, mem.len());
    assert_eq!(w.memory_viewer_selected_pending_value, Some(7));
}

#[test]
fn log_book_once_contents_stay_distinct() {
    let mut book = LogBook::new();
    for _ in 0..3 {
        book.push_once(LogKind::Warn, LogSource::Spi, "x".to_string(), "t".to_string());
        book.push_once(LogKind::Warn, LogSource::Spi, "y".to_string(), "t".to_string());
    }
    assert_eq!(book.once_logs, vec!["x".to_string(), "y".to_string()]);
}
