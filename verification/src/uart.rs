//! A 16550-style universal asynchronous receiver-transmitter (UART): a
//! 256-entry byte register file with a line-status register and a console
//! side effect on the transmit path.
//!
//! The console sink is modeled as a recorded byte sequence: a write to the
//! transmit register appends the byte, in write order, and is never stored in
//! the register file. The host-specific rendering of those bytes is left to
//! the surrounding program.

use vstd::prelude::*;

use crate::bus::{UART_BASE, UART_SIZE};

verus! {

/// The interrupt request line of the UART at the platform interrupt
/// controller.
pub const UART_IRQ: u32 = 10;

/// Receive holding register (input bytes); aliased with [`UART_THR`].
pub const UART_RHR: u64 = UART_BASE + 0;

/// Transmit holding register (output bytes); aliased with [`UART_RHR`].
pub const UART_THR: u64 = UART_BASE + 0;

/// Interrupt enable register.
pub const UART_IER: u64 = UART_BASE + 1;

/// FIFO control register; aliased with [`UART_ISR`].
pub const UART_FCR: u64 = UART_BASE + 2;

/// Interrupt status register; aliased with [`UART_FCR`].
pub const UART_ISR: u64 = UART_BASE + 2;

/// Line control register.
pub const UART_LCR: u64 = UART_BASE + 3;

/// Line status register: bit 0 is data-ready, bit 1 is overrun, bit 5 is
/// transmit-empty.
pub const UART_LSR: u64 = UART_BASE + 5;

/// Data-ready bit of the line status register.
pub const LSR_DATA_READY: u8 = 0x01;

/// Transmit-empty bit of the line status register.
pub const LSR_TX_EMPTY: u8 = 0x20;

/// The UART register file together with the recorded console output.
pub struct Uart {
    /// The 256 byte-wide registers, indexed by `addr - UART_BASE`.
    pub regs: Vec<u8>,
    /// Every byte written to the transmit register so far, in write order.
    pub output: Vec<u8>,
}

impl Uart {
    /// The register file always spans the whole window.
    pub open spec fn wf(self) -> bool {
        self.regs@.len() == UART_SIZE
    }

    /// Relates the UART before and after a read at `addr` returning `r`:
    /// the stored byte comes back, and reading the receive register
    /// additionally clears the data-ready bit. No other read changes any
    /// state, and no read ever touches the console output.
    pub open spec fn read_rel(pre: Uart, post: Uart, addr: u64, r: u8) -> bool {
        &&& r == pre.regs@[(addr - UART_BASE) as int]
        &&& post.output@ == pre.output@
        &&& post.regs@ == if addr == UART_RHR {
            pre.regs@.update(
                (UART_LSR - UART_BASE) as int,
                pre.regs@[(UART_LSR - UART_BASE) as int] & !LSR_DATA_READY,
            )
        } else {
            pre.regs@
        }
    }

    /// Relates the UART before and after a write of `val` at `addr`: a write
    /// to the transmit register appends the byte to the console output and is
    /// never stored; any other offset stores literally.
    pub open spec fn write_rel(pre: Uart, post: Uart, addr: u64, val: u8) -> bool {
        if addr == UART_THR {
            &&& post.regs@ == pre.regs@
            &&& post.output@ == pre.output@.push(val)
        } else {
            &&& post.regs@ == pre.regs@.update((addr - UART_BASE) as int, val)
            &&& post.output@ == pre.output@
        }
    }

    /// Reset state: all registers zero except the transmit-empty bit of the
    /// line status register (output is modeled as synchronous, so the
    /// transmitter is always empty), and no console output yet.
    pub fn new() -> (r: Uart)
        ensures
            r.wf(),
            r.regs@[(UART_LSR - UART_BASE) as int] == LSR_TX_EMPTY,
            forall|i: int|
                0 <= i < UART_SIZE && i != UART_LSR - UART_BASE ==> r.regs@[i] == 0u8,
            r.output@ == Seq::<u8>::empty(),
    {
        let mut regs: Vec<u8> = Vec::new();
        let mut i: usize = 0;
        while i < 256
            invariant
                i <= 256,
                regs@.len() == i,
                forall|j: int| 0 <= j < i ==> regs@[j] == 0u8,
            decreases 256 - i,
        {
            regs.push(0u8);
            i = i + 1;
        }
        regs[5] = LSR_TX_EMPTY;
        Uart { regs, output: Vec::new() }
    }

    /// Read the register at `addr`. Reading the receive register drains the
    /// (single-entry) FIFO: the data-ready bit of the line status register is
    /// cleared.
    pub fn read(&mut self, addr: u64) -> (r: u8)
        requires
            old(self).wf(),
            UART_BASE <= addr < UART_BASE + UART_SIZE,
        ensures
            final (self).wf(),
            Uart::read_rel(*old(self), *final (self), addr, r),
    {
        if addr == UART_RHR {
            let lsr = self.regs[5];
            self.regs[5] = lsr & !LSR_DATA_READY;
            self.regs[0]
        } else {
            self.regs[(addr - UART_BASE) as usize]
        }
    }

    /// Write `val` to the register at `addr`. A write to the transmit
    /// register is intercepted: the byte goes to the console output, in write
    /// order, and is never stored.
    pub fn write(&mut self, addr: u64, val: u8)
        requires
            old(self).wf(),
            UART_BASE <= addr < UART_BASE + UART_SIZE,
        ensures
            final (self).wf(),
            Uart::write_rel(*old(self), *final (self), addr, val),
    {
        if addr == UART_THR {
            self.output.push(val);
        } else {
            self.regs[(addr - UART_BASE) as usize] = val;
        }
    }
}

} // verus!
