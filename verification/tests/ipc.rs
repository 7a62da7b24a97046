use nitrous::nds::interrupts::Interrupts;
use nitrous::nds::shared::models::ipc::ipcfifo::IpcFifo;
use nitrous::nds::shared::models::ipc::ipcsync::{IpcSync, IpcsyncLog};

fn enabled_fifo() -> IpcFifo {
    let mut fifo = IpcFifo::default();
    let mut i9 = Interrupts::default();
    let mut i7 = Interrupts::default();
    fifo.set_cnt::<true>(&mut i9, 1 << 15);
    fifo.set_cnt::<false>(&mut i7, 1 << 15);
    fifo
}

#[test]
fn fifo_words_arrive_in_order() {
    let mut fifo = enabled_fifo();
    fifo.send::<true>(1);
    fifo.send::<true>(2);
    fifo.send::<true>(3);
    assert_eq!(fifo.receive::<false>(), 1);
    assert_eq!(fifo.receive::<false>(), 2);
    assert_eq!(fifo.receive::<false>(), 3);
    // empty: the last word again, and the error bit
    assert_eq!(fifo.receive::<false>(), 3);
    assert_eq!(fifo.get_cnt::<false>() & (1 << 14), 1 << 14);
}

#[test]
fn fifo_disabled_side_ignores_sends() {
    let mut fifo = IpcFifo::default();
    fifo.send::<true>(9);
    assert_eq!(fifo.send_queue9.len(), 0);
    assert_eq!(fifo.receive::<false>(), 0);
}

#[test]
fn fifo_full_queue_replaces_last_word() {
    let mut fifo = enabled_fifo();
    for v in 0..16 {
        fifo.send::<false>(v);
    }
    assert!(fifo.cnt7.error);
    assert_eq!(fifo.get_cnt::<false>() & 0b11, 0b10);
    assert_eq!(fifo.get_cnt::<true>() & (0b11 << 8), 0b10 << 8);
    fifo.send::<false>(100);
    assert_eq!(fifo.send_queue7.len(), 16);
    assert_eq!(fifo.send_queue7[15], 100);
    assert_eq!(fifo.send_queue7[14], 14);
}

#[test]
fn fifo_cnt_word_and_clear() {
    let mut fifo = enabled_fifo();
    let mut i9 = Interrupts::default();
    assert_eq!(fifo.get_cnt::<true>(), (1 << 15) | (1 << 8) | 1);
    fifo.send::<true>(5);
    assert_eq!(fifo.get_cnt::<true>(), 1 << 15 | 1 << 8);
    assert_eq!(fifo.get_cnt::<false>(), 1 << 15 | 1);
    // enable the send-empty IRQ and clear the send queue
    fifo.set_cnt::<true>(&mut i9, (1 << 15) | (1 << 3) | (1 << 2));
    assert_eq!(fifo.send_queue9.len(), 0);
    assert_eq!(i9.f.value(), 0);
    let mut i7 = Interrupts::default();
    fifo.update_interrupts(&mut i9, &mut i7);
    assert_eq!(i9.f.value(), 1 << 17);
    assert_eq!(i7.f.value(), 0);
}

#[test]
fn fifo_irq_enable_raises_at_once() {
    let mut fifo = enabled_fifo();
    let mut i9 = Interrupts::default();
    fifo.set_cnt::<true>(&mut i9, (1 << 15) | (1 << 2));
    assert_eq!(i9.f.value(), 1 << 17);
    fifo.send::<false>(7);
    let mut i9b = Interrupts::default();
    fifo.set_cnt::<true>(&mut i9b, (1 << 15) | (1 << 2) | (1 << 10));
    // the send IRQ was on already, the receive IRQ was off and the queue holds a word
    assert_eq!(i9b.f.value(), 1 << 18);
}

#[test]
fn fifo_error_acknowledged_by_bit_14() {
    let mut fifo = enabled_fifo();
    let mut i7 = Interrupts::default();
    fifo.receive::<false>();
    assert!(fifo.cnt7.error);
    fifo.set_cnt::<false>(&mut i7, (1 << 15) | (1 << 14));
    assert!(!fifo.cnt7.error);
}

#[test]
fn ipcsync_output_reaches_other_side() {
    let mut sync = IpcSync::default();
    sync.set::<true, 1>(1, [0b0110_0101]);
    assert_eq!(sync.value_quiet::<false>() & 0xF, 0b0101);
    assert_eq!(sync.value_quiet::<true>(), 0b0110_0101 << 8);
    assert!(sync.send_irq9to7);
    let mut i9 = Interrupts::default();
    let mut i7 = Interrupts::default();
    sync.set::<false, 2>(0, [0, 1 << 6]);
    sync.update_interrupts(&mut i9, &mut i7);
    assert_eq!(i7.f.value(), 1 << 16);
    assert_eq!(i9.f.value(), 0);
    assert!(!sync.send_irq9to7);
}

#[test]
fn ipcsync_word_write_and_log() {
    let mut sync = IpcSync::default();
    sync.logging_enabled = true;
    sync.set::<false, 4>(0, [0xF0, 0x03, 0xAB, 0xCD]);
    assert_eq!(sync.value_quiet::<false>(), 0xCDAB_03F0);
    assert_eq!(sync.value_quiet::<true>(), 0x3);
    assert_eq!(sync.value::<true>(), 0x3);
    assert_eq!(sync.log.len(), 2);
    assert!(matches!(sync.log[0], IpcsyncLog::Write(false, 0xCDAB_03F0)));
    assert!(matches!(sync.log[1], IpcsyncLog::Read(true, 3)));
}
