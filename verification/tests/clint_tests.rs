//! CLINT behavior through the bus: timer comparators, software-interrupt
//! bits and externally driven time.

use rvbus::bus::{Bus, CLINT_BASE};
use rvbus::clint::{CLINT_MTIME, CLINT_MTIMECMP_BASE};

#[test]
fn timer_pends_exactly_when_mtime_reaches_mtimecmp() {
    let mut bus = Bus::new();
    let hart = 1usize;
    let t = 100u64;
    assert_eq!(bus.write64(CLINT_MTIMECMP_BASE + 8 * hart as u64, t), Ok(()));
    bus.advance_time(t - 1);
    assert!(!bus.timer_pending(hart));
    bus.advance_time(1);
    assert!(bus.timer_pending(hart));
}

#[test]
fn mtimecmp_is_per_hart() {
    let mut bus = Bus::new();
    assert_eq!(bus.write64(CLINT_MTIMECMP_BASE, 5), Ok(()));
    assert_eq!(bus.write64(CLINT_MTIMECMP_BASE + 8, 10), Ok(()));
    bus.advance_time(7);
    assert!(bus.timer_pending(0));
    assert!(!bus.timer_pending(1));
    assert_eq!(bus.read64(CLINT_MTIMECMP_BASE), Ok(5));
    assert_eq!(bus.read64(CLINT_MTIMECMP_BASE + 8), Ok(10));
}

#[test]
fn reset_timer_is_pending_at_comparator_zero() {
    let bus = Bus::new();
    // mtime == mtimecmp == 0, and pending means mtime >= mtimecmp.
    assert!(bus.timer_pending(0));
}

#[test]
fn msip_sets_and_clears_software_pending() {
    let mut bus = Bus::new();
    let hart = 2u64;
    assert!(!bus.software_pending(hart as usize));
    assert_eq!(bus.write64(CLINT_BASE + 8 * hart, 1), Ok(()));
    assert!(bus.software_pending(hart as usize));
    assert!(!bus.software_pending(0));
    assert_eq!(bus.read64(CLINT_BASE + 8 * hart), Ok(1));
    assert_eq!(bus.write64(CLINT_BASE + 8 * hart, 0), Ok(()));
    assert!(!bus.software_pending(hart as usize));
}

#[test]
fn mtime_is_readable_and_writable_and_advances() {
    let mut bus = Bus::new();
    assert_eq!(bus.read64(CLINT_MTIME), Ok(0));
    bus.advance_time(41);
    bus.advance_time(1);
    assert_eq!(bus.read64(CLINT_MTIME), Ok(42));
    assert_eq!(bus.write64(CLINT_MTIME, 1000), Ok(()));
    assert_eq!(bus.read64(CLINT_MTIME), Ok(1000));
}

#[test]
fn bus_access_never_advances_time() {
    let mut bus = Bus::new();
    assert_eq!(bus.write64(CLINT_MTIMECMP_BASE, 99), Ok(()));
    assert_eq!(bus.read64(CLINT_MTIME), Ok(0));
    assert_eq!(bus.read64(CLINT_MTIME), Ok(0));
}

#[test]
fn unmapped_clint_offsets_read_zero_and_ignore_writes() {
    let mut bus = Bus::new();
    let hole = CLINT_BASE + 0x100;
    assert_eq!(bus.read64(hole), Ok(0));
    assert_eq!(bus.write64(hole, 0xdead), Ok(()));
    assert_eq!(bus.read64(hole), Ok(0));
    // Misaligned comparator offsets are holes too.
    assert_eq!(bus.read64(CLINT_MTIMECMP_BASE + 4), Ok(0));
}

#[test]
fn time_wraps_at_two_to_the_sixty_four() {
    let mut bus = Bus::new();
    bus.advance_time(u64::MAX);
    bus.advance_time(2);
    assert_eq!(bus.read64(CLINT_MTIME), Ok(1));
}
