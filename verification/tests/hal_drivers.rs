use omwei::crypto::trng::{PollStep, Trng, STATUS_DATA_READY, STATUS_OSC_STABLE};
use omwei::interrupts::aplic::{Aplic, SourceConfig, TargetConfig};
use omwei::interrupts::ipi::{clear_msi, is_msi_pending, send_ipi};
use omwei::registers::access::RegWrite;
use omwei::registers::aplic::{
    claim, complete, sourcecfg, target, DELIVERY_EDGE_RISING, DOMAINCFG, NUM_HARTS, NUM_SOURCES,
    TARGET_MODE_SPECIFIC_HART,
};
use omwei::registers::clint::msip;
use omwei::registers::slc;
use omwei::registers::uart0::Uart0 as FifoUart0;
use omwei::sync::{value_after_add, value_after_sub, AtomicCounter, Spinlock};
use omwei::uart::{console_init, TransmitStep};

#[test]
fn aplic_register_addresses() {
    assert_eq!(sourcecfg(1), 0x0C00_0008);
    assert_eq!(target(1), 0x0C00_4004);
    assert_eq!(claim(2), 0x0C00_6008);
    assert_eq!(complete(3), 0x0C00_604C);
    assert_eq!(msip(3), 0x0200_000C);
}

#[test]
fn aplic_init_writes_once() {
    let mut aplic = Aplic::new();
    assert!(!aplic.is_initialized());
    assert_eq!(aplic.get_domain_config(), None);
    let w = aplic.init();
    assert_eq!(w.len(), 1 + 2 * NUM_SOURCES + 2 * NUM_HARTS);
    assert_eq!(w[0], RegWrite::Word { addr: DOMAINCFG, value: 1 });
    assert_eq!(w[1], RegWrite::Word { addr: 0x0C00_0008, value: 0 });
    assert_eq!(w[2], RegWrite::Word { addr: 0x0C00_4004, value: 0 });
    assert_eq!(w[2 * NUM_SOURCES], RegWrite::Word { addr: 0x0C00_4000 + 4 * NUM_SOURCES, value: 0 });
    assert_eq!(w[2 * NUM_SOURCES + 1], RegWrite::Word { addr: 0x0C00_7000, value: 1 });
    assert_eq!(w[2 * NUM_SOURCES + 2], RegWrite::Word { addr: 0x0C00_7080, value: 0 });
    assert!(aplic.is_initialized());
    assert_eq!(aplic.get_domain_config(), Some(DOMAINCFG));
    assert!(aplic.init().is_empty());
}

#[test]
fn aplic_enable_and_disable_source() {
    let mut aplic = Aplic::default();
    aplic.init();
    let config = SourceConfig {
        delivery_mode: DELIVERY_EDGE_RISING,
        target_mode: TARGET_MODE_SPECIFIC_HART,
        priority: 5,
    };
    let tcfg = TargetConfig { hart_id: 2, priority: 7, enabled: true };
    let w = aplic.enable_source(10, config, tcfg);
    assert_eq!(
        w,
        vec![
            RegWrite::Word { addr: 0x0C00_002C, value: 0x501 },
            RegWrite::Word { addr: 0x0C00_4028, value: 0x9E },
        ]
    );
    let d = aplic.disable_source(10);
    assert_eq!(
        d,
        vec![
            RegWrite::Word { addr: 0x0C00_002C, value: 0 },
            RegWrite::Word { addr: 0x0C00_4028, value: 0 },
        ]
    );
    let defaults = SourceConfig::default();
    assert_eq!((defaults.delivery_mode, defaults.priority), (0, 0));
    assert!(!TargetConfig::default().enabled);
}

#[test]
fn aplic_per_hart_operations() {
    let mut aplic = Aplic::new();
    aplic.init();
    assert_eq!(aplic.set_threshold(1, 31), RegWrite::Word { addr: 0x0C00_7084, value: 31 });
    assert_eq!(aplic.set_delivery_enable(3, false), RegWrite::Word { addr: 0x0C00_700C, value: 0 });
    assert_eq!(aplic.claim_interrupt(1), 0x0C00_6004);
    assert_eq!(aplic.complete_interrupt(0, 42), RegWrite::Word { addr: 0x0C00_6040, value: 42 });
    assert_eq!(aplic.get_pending_interrupt(2), 0x0C00_5008);
}

#[test]
fn inter_processor_interrupts() {
    assert_eq!(send_ipi(2), RegWrite::Word { addr: 0x0200_0008, value: 1 });
    assert_eq!(clear_msi(2), RegWrite::Word { addr: 0x0200_0008, value: 0 });
    assert!(is_msi_pending(1));
    assert!(!is_msi_pending(0));
}

#[test]
fn slc_atom_loads_and_status() {
    let a = slc::write_atom_a(&[1, 2, 3, 4]);
    assert_eq!(
        a,
        vec![
            RegWrite::Double { addr: 0x7000_0000, value: 1 },
            RegWrite::Double { addr: 0x7000_0008, value: 2 },
            RegWrite::Double { addr: 0x7000_0010, value: 3 },
            RegWrite::Double { addr: 0x7000_0018, value: 4 },
        ]
    );
    let b = slc::write_atom_b(&[5, 6, 7, 8]);
    assert_eq!(b[0], RegWrite::Double { addr: 0x7000_0020, value: 5 });
    assert_eq!(b[3], RegWrite::Double { addr: 0x7000_0038, value: 8 });
    assert_eq!(slc::start_operation(), RegWrite::Word { addr: 0x7000_0040, value: 1 });
    assert_eq!(slc::reset(), RegWrite::Word { addr: 0x7000_0040, value: 0 });
    assert_eq!(slc::compare_config(), RegWrite::Word { addr: 0x7000_0044, value: 0x10 });
    assert!(slc::is_busy(0x02));
    assert!(!slc::is_busy(0x14));
    assert!(slc::get_match_result(0x14));
    assert!(!slc::get_match_result(0x10));
}

#[test]
fn trng_init_and_status() {
    let mut trng = Trng::new();
    assert!(!trng.is_initialized());
    assert_eq!(trng.get_status(), None);
    assert_eq!(trng.init(), Some(RegWrite::Word { addr: 0x051A_0000, value: 0x03 }));
    assert!(trng.is_initialized());
    assert_eq!(trng.get_status(), Some(0x051A_0008));
    assert_eq!(trng.init(), None);
}

#[test]
fn trng_poll_steps() {
    assert_eq!(Trng::poll_step(5, STATUS_OSC_STABLE, STATUS_OSC_STABLE), PollStep::Ready);
    assert_eq!(Trng::poll_step(3, 0, STATUS_DATA_READY), PollStep::Retry { remaining: 2 });
    assert_eq!(Trng::poll_step(1, STATUS_OSC_STABLE, STATUS_DATA_READY), PollStep::TimedOut);
}

#[test]
fn trng_fill_bytes_little_endian_with_tail() {
    let mut trng = Trng::default();
    trng.init();
    let mut buffer = [0u8; 6];
    trng.fill_bytes(&mut buffer, &[0x0403_0201, 0x0807_0605]);
    assert_eq!(buffer, [1, 2, 3, 4, 5, 6]);
    let mut exact = [0u8; 4];
    trng.fill_bytes(&mut exact, &[0xDDCC_BBAA]);
    assert_eq!(exact, [0xAA, 0xBB, 0xCC, 0xDD]);
    let mut empty: [u8; 0] = [];
    trng.fill_bytes(&mut empty, &[]);
}

#[test]
fn console_uart_configuration() {
    let w = console_init();
    assert_eq!(
        w,
        vec![
            RegWrite::Byte { addr: 0x1000_0003, value: 0x83 },
            RegWrite::Byte { addr: 0x1000_0000, value: 1 },
            RegWrite::Byte { addr: 0x1000_0001, value: 0 },
            RegWrite::Byte { addr: 0x1000_0003, value: 0x03 },
            RegWrite::Byte { addr: 0x1000_0002, value: 0x07 },
            RegWrite::Byte { addr: 0x1000_0001, value: 0 },
        ]
    );
    assert_eq!(omwei::uart::Uart0::init(), w);
}

#[test]
fn console_uart_transmit_steps() {
    assert_eq!(
        omwei::uart::Uart0::write_byte(b'A', 10, 0x20),
        TransmitStep::Write(RegWrite::Byte { addr: 0x1000_0000, value: 0x41 })
    );
    assert_eq!(omwei::uart::Uart0::write_byte(b'A', 5, 0x00), TransmitStep::Wait { remaining: 4 });
    assert_eq!(omwei::uart::Uart0::write_byte(b'A', 0, 0x00), TransmitStep::Skip);
    assert_eq!(omwei::uart::Uart0::write_str("h\u{e9}"), vec![0x68, 0xC3, 0xA9]);
    assert!(omwei::uart::Uart0::tx_done(0x60));
    assert!(!omwei::uart::Uart0::tx_done(0x01));
}

#[test]
fn fifo_uart_writes() {
    assert_eq!(
        FifoUart0::init(),
        vec![
            RegWrite::Word { addr: 0x1000_0018, value: 139 },
            RegWrite::Word { addr: 0x1000_0008, value: 1 },
        ]
    );
    assert_eq!(FifoUart0::send_byte(b'Z'), RegWrite::Word { addr: 0x1000_0000, value: 0x5A });
    assert_eq!(
        FifoUart0::send_string("Hi"),
        vec![
            RegWrite::Word { addr: 0x1000_0000, value: 0x48 },
            RegWrite::Word { addr: 0x1000_0000, value: 0x69 },
        ]
    );
    assert!(FifoUart0::tx_done(0x0000_0041));
    assert!(!FifoUart0::tx_done(0x8000_0000));
}

#[test]
fn counter_updates_and_wraps() {
    let c = AtomicCounter::new();
    assert_eq!(c.get(), 0);
    assert_eq!(c.increment(), 1);
    assert_eq!(c.add(5), 6);
    assert_eq!(c.sub(2), 4);
    assert_eq!(c.decrement(), 3);
    c.set(u64::MAX);
    assert_eq!(c.increment(), 0);
    let d = AtomicCounter::with_value(7);
    assert_eq!(d.get(), 7);
    assert_eq!(value_after_add(u64::MAX, 2), 1);
    assert_eq!(value_after_sub(0, 1), u64::MAX);
}

#[test]
fn spinlock_hands_data_to_one_holder_at_a_time() {
    let lock = Spinlock::new(41u64);
    let mut guard = lock.lock();
    assert_eq!(*guard.get(), 41);
    guard.set(42);
    assert_eq!(*guard.get(), 42);
    guard.unlock();
    let again = lock.lock();
    assert_eq!(*again.get(), 42);
    again.unlock();
    let table = Spinlock::new([0u32; 4]);
    let mut g = table.lock();
    g.set([1, 2, 3, 4]);
    g.unlock();
    assert_eq!(*table.lock().get(), [1, 2, 3, 4]);
}

#[test]
fn spinlock_from_value() {
    let lock: Spinlock<u8> = Spinlock::from(3);
    let guard = lock.lock();
    assert_eq!(*guard.get(), 3);
    guard.unlock();
}

#[test]
fn trng_data_register_only_once_initialized() {
    let mut trng = Trng::new();
    assert_eq!(trng.fifo(), None);
    trng.init();
    assert_eq!(trng.fifo(), Some(0x051A_0004));
}
