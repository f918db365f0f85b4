//! UART behavior through the bus: reset state, console forwarding, the
//! receive-drain side effect and the idempotence of all other reads.

use rvbus::bus::Bus;
use rvbus::uart::{UART_FCR, UART_IER, UART_LCR, UART_LSR, UART_RHR, UART_THR};

#[test]
fn reset_lsr_has_tx_empty_set_and_data_ready_clear() {
    let mut bus = Bus::new();
    let lsr = bus.read8(UART_LSR).unwrap();
    assert_eq!(lsr & 0x20, 0x20);
    assert_eq!(lsr & 0x01, 0x00);
    assert_eq!(lsr, 0x20);
}

#[test]
fn thr_write_forwards_exactly_one_byte_to_the_console() {
    let mut bus = Bus::new();
    assert_eq!(bus.write8(UART_THR, b'A'), Ok(()));
    assert_eq!(bus.console_output().as_slice(), b"A");
}

#[test]
fn console_receives_bytes_in_write_order() {
    let mut bus = Bus::new();
    for byte in b"hello" {
        assert_eq!(bus.write8(UART_THR, *byte), Ok(()));
    }
    assert_eq!(bus.console_output().as_slice(), b"hello");
}

#[test]
fn thr_write_is_never_stored() {
    let mut bus = Bus::new();
    assert_eq!(bus.write8(UART_THR, 0x7f), Ok(()));
    // Offset 0 still reads as the (empty) receive register, not 0x7f.
    assert_eq!(bus.read8(UART_RHR), Ok(0));
}

#[test]
fn other_offsets_store_literally() {
    let mut bus = Bus::new();
    assert_eq!(bus.write8(UART_IER, 0x0b), Ok(()));
    assert_eq!(bus.write8(UART_FCR, 0xc1), Ok(()));
    assert_eq!(bus.write8(UART_LCR, 0x03), Ok(()));
    assert_eq!(bus.read8(UART_IER), Ok(0x0b));
    assert_eq!(bus.read8(UART_FCR), Ok(0xc1));
    assert_eq!(bus.read8(UART_LCR), Ok(0x03));
    assert!(bus.console_output().is_empty());
}

#[test]
fn rhr_read_clears_data_ready() {
    let mut bus = Bus::new();
    // Model an arrived byte: store it at the receive offset and set
    // data-ready next to transmit-empty.
    assert_eq!(bus.write8(UART_LSR, 0x21), Ok(()));
    bus.uart.regs[0] = b'x';
    assert_eq!(bus.read8(UART_RHR), Ok(b'x'));
    let lsr = bus.read8(UART_LSR).unwrap();
    assert_eq!(lsr & 0x01, 0x00);
    assert_eq!(lsr, 0x20);
}

#[test]
fn non_receive_reads_are_idempotent() {
    let mut bus = Bus::new();
    assert_eq!(bus.write8(UART_IER, 0x55), Ok(()));
    assert_eq!(bus.read8(UART_IER), Ok(0x55));
    assert_eq!(bus.read8(UART_IER), Ok(0x55));
    assert_eq!(bus.read8(UART_LSR), Ok(0x20));
    assert_eq!(bus.read8(UART_LSR), Ok(0x20));
    assert!(bus.console_output().is_empty());
}
