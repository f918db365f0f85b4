//! Bus dispatch: window routing, width asymmetry, fault paths and the
//! little-endian DRAM round trips.

use rvbus::bus::{Bus, CLINT_BASE, DRAM_BASE, PLIC_BASE, UART_BASE, VIRTIO_BASE};
use rvbus::exception::Exception;

fn loaded_bus(len: usize) -> Bus {
    let mut bus = Bus::new();
    bus.set_dram(vec![0u8; len]);
    bus
}

#[test]
fn unmapped_addresses_fault_at_every_width() {
    let mut bus = loaded_bus(64);
    for addr in [0u64, 0x100, 0x1ff_ffff, 0x1001_0000, 0x7fff_ffff] {
        assert_eq!(bus.read8(addr), Err(Exception::InstructionAccessFault));
        assert_eq!(bus.read16(addr), Err(Exception::InstructionAccessFault));
        assert_eq!(bus.read32(addr), Err(Exception::InstructionAccessFault));
        assert_eq!(bus.read64(addr), Err(Exception::InstructionAccessFault));
        assert_eq!(bus.write8(addr, 1), Err(Exception::InstructionAccessFault));
        assert_eq!(bus.write16(addr, 1), Err(Exception::InstructionAccessFault));
        assert_eq!(bus.write32(addr, 1), Err(Exception::InstructionAccessFault));
        assert_eq!(bus.write64(addr, 1), Err(Exception::InstructionAccessFault));
    }
}

#[test]
fn virtio_window_is_reserved_but_undispatched() {
    let mut bus = loaded_bus(64);
    assert_eq!(bus.read8(VIRTIO_BASE), Err(Exception::InstructionAccessFault));
    assert_eq!(bus.read32(VIRTIO_BASE + 8), Err(Exception::InstructionAccessFault));
    assert_eq!(bus.write64(VIRTIO_BASE, 7), Err(Exception::InstructionAccessFault));
}

#[test]
fn wrong_width_against_device_window_faults() {
    let mut bus = loaded_bus(64);
    // UART is 8-bit only.
    assert_eq!(bus.read16(UART_BASE), Err(Exception::InstructionAccessFault));
    assert_eq!(bus.read32(UART_BASE), Err(Exception::InstructionAccessFault));
    assert_eq!(bus.read64(UART_BASE), Err(Exception::InstructionAccessFault));
    assert_eq!(bus.write32(UART_BASE, 1), Err(Exception::InstructionAccessFault));
    // PLIC is 32-bit only.
    assert_eq!(bus.read8(PLIC_BASE), Err(Exception::InstructionAccessFault));
    assert_eq!(bus.read64(PLIC_BASE), Err(Exception::InstructionAccessFault));
    assert_eq!(bus.write8(PLIC_BASE, 1), Err(Exception::InstructionAccessFault));
    assert_eq!(bus.write64(PLIC_BASE, 1), Err(Exception::InstructionAccessFault));
    // CLINT is 64-bit only.
    assert_eq!(bus.read8(CLINT_BASE), Err(Exception::InstructionAccessFault));
    assert_eq!(bus.read32(CLINT_BASE), Err(Exception::InstructionAccessFault));
    assert_eq!(bus.write8(CLINT_BASE, 1), Err(Exception::InstructionAccessFault));
    assert_eq!(bus.write32(CLINT_BASE, 1), Err(Exception::InstructionAccessFault));
}

#[test]
fn access_past_loaded_image_faults() {
    let mut bus = loaded_bus(16);
    assert_eq!(bus.read8(DRAM_BASE + 15), Ok(0));
    assert_eq!(bus.read8(DRAM_BASE + 16), Err(Exception::InstructionAccessFault));
    assert_eq!(bus.read16(DRAM_BASE + 15), Err(Exception::InstructionAccessFault));
    assert_eq!(bus.read32(DRAM_BASE + 13), Err(Exception::InstructionAccessFault));
    assert_eq!(bus.read64(DRAM_BASE + 9), Err(Exception::InstructionAccessFault));
    assert_eq!(bus.read64(DRAM_BASE + 8), Ok(0));
    assert_eq!(bus.write16(DRAM_BASE + 15, 1), Err(Exception::InstructionAccessFault));
    assert_eq!(bus.write64(DRAM_BASE + 9, 1), Err(Exception::InstructionAccessFault));
}

#[test]
fn empty_machine_faults_on_dram_base() {
    let mut bus = Bus::new();
    assert_eq!(bus.dram_size(), 0);
    assert_eq!(bus.read8(DRAM_BASE), Err(Exception::InstructionAccessFault));
}

#[test]
fn dram_round_trip_8() {
    let mut bus = loaded_bus(8);
    assert_eq!(bus.write8(DRAM_BASE + 3, 0x5a), Ok(()));
    assert_eq!(bus.read8(DRAM_BASE + 3), Ok(0x5a));
}

#[test]
fn dram_round_trip_16() {
    let mut bus = loaded_bus(8);
    assert_eq!(bus.write16(DRAM_BASE + 2, 0xBEEF), Ok(()));
    assert_eq!(bus.read16(DRAM_BASE + 2), Ok(0xBEEF));
    assert_eq!(bus.read8(DRAM_BASE + 2), Ok(0xEF));
    assert_eq!(bus.read8(DRAM_BASE + 3), Ok(0xBE));
}

#[test]
fn dram_round_trip_32_little_endian() {
    let mut bus = loaded_bus(8);
    assert_eq!(bus.write32(DRAM_BASE, 0xAABBCCDD), Ok(()));
    assert_eq!(bus.read32(DRAM_BASE), Ok(0xAABBCCDD));
    assert_eq!(bus.read8(DRAM_BASE), Ok(0xDD));
    assert_eq!(bus.read8(DRAM_BASE + 1), Ok(0xCC));
    assert_eq!(bus.read8(DRAM_BASE + 2), Ok(0xBB));
    assert_eq!(bus.read8(DRAM_BASE + 3), Ok(0xAA));
}

#[test]
fn dram_round_trip_64() {
    let mut bus = loaded_bus(16);
    assert_eq!(bus.write64(DRAM_BASE + 8, 0x0102030405060708), Ok(()));
    assert_eq!(bus.read64(DRAM_BASE + 8), Ok(0x0102030405060708));
    assert_eq!(bus.read8(DRAM_BASE + 8), Ok(0x08));
    assert_eq!(bus.read8(DRAM_BASE + 15), Ok(0x01));
    assert_eq!(bus.read32(DRAM_BASE + 8), Ok(0x05060708));
    assert_eq!(bus.read16(DRAM_BASE + 14), Ok(0x0102));
}

#[test]
fn mixed_width_overlap_is_little_endian() {
    let mut bus = loaded_bus(8);
    assert_eq!(bus.write8(DRAM_BASE, 0x11), Ok(()));
    assert_eq!(bus.write8(DRAM_BASE + 1, 0x22), Ok(()));
    assert_eq!(bus.write8(DRAM_BASE + 2, 0x33), Ok(()));
    assert_eq!(bus.write8(DRAM_BASE + 3, 0x44), Ok(()));
    assert_eq!(bus.read32(DRAM_BASE), Ok(0x44332211));
}

#[test]
fn set_dram_replaces_the_image_wholesale() {
    let mut bus = loaded_bus(4);
    assert_eq!(bus.write8(DRAM_BASE, 0x99), Ok(()));
    bus.set_dram(vec![1, 2, 3]);
    assert_eq!(bus.dram_size(), 3);
    assert_eq!(bus.read8(DRAM_BASE), Ok(1));
    assert_eq!(bus.read8(DRAM_BASE + 2), Ok(3));
    assert_eq!(bus.read8(DRAM_BASE + 3), Err(Exception::InstructionAccessFault));
}

#[test]
fn dram_reads_are_idempotent() {
    let mut bus = loaded_bus(8);
    assert_eq!(bus.write32(DRAM_BASE, 0xCAFEF00D), Ok(()));
    let first = bus.read32(DRAM_BASE);
    let second = bus.read32(DRAM_BASE);
    assert_eq!(first, second);
    assert_eq!(bus.read8(DRAM_BASE), bus.read8(DRAM_BASE));
}
