//! The system bus: the sole entry point of the execution core, routing every
//! access by address window and width to RAM or a memory-mapped device, or
//! reporting an access fault.
//!
//! For each width the windows are tested in fixed priority: the narrow
//! device window first, DRAM last. The width asymmetry is deliberate
//! fidelity to the hardware register widths: the UART is reachable only via
//! 8-bit access, the PLIC only via 32-bit, the CLINT only via 64-bit, DRAM
//! via any width. An access of the wrong width against a device window is
//! not special-cased — it falls through to the fault path, as does any
//! access past the end of the loaded image. The bus never panics on a bad
//! guest address: every operation returns success or an
//! [`Exception`].

use vstd::prelude::*;

use crate::clint::Clint;
use crate::exception::Exception;
use crate::memory::{
    le16_at, le32_at, le64_at, store16_at, store32_at, store64_at, Memory,
};
use crate::plic::Plic;
use crate::uart::{Uart, LSR_TX_EMPTY, UART_LSR};

verus! {

/// The address where the core-local interruptor (CLINT) window starts. It
/// holds the timer comparators and the per-hart software-interrupt bits.
pub const CLINT_BASE: u64 = 0x200_0000;

/// The size of the CLINT window.
pub const CLINT_SIZE: u64 = 0x10000;

/// The address where the platform-level interrupt controller (PLIC) window
/// starts. The PLIC arbitrates external interrupt sources to hart contexts.
pub const PLIC_BASE: u64 = 0xc00_0000;

/// The size of the PLIC window.
pub const PLIC_SIZE: u64 = 0x400_0000;

/// The address where the UART window starts.
pub const UART_BASE: u64 = 0x1000_0000;

/// The size of the UART window.
pub const UART_SIZE: u64 = 0x100;

/// The address where the virtio window starts. The window is reserved in the
/// address map but has no dispatch arm: accesses fall through to the fault
/// path.
pub const VIRTIO_BASE: u64 = 0x1000_1000;

/// The size of the virtio window.
pub const VIRTIO_SIZE: u64 = 0x1000;

/// The address where DRAM starts.
pub const DRAM_BASE: u64 = 0x8000_0000;

/// `addr` lies in the CLINT window.
pub open spec fn in_clint(addr: u64) -> bool {
    CLINT_BASE <= addr < CLINT_BASE + CLINT_SIZE
}

/// `addr` lies in the PLIC window.
pub open spec fn in_plic(addr: u64) -> bool {
    PLIC_BASE <= addr < PLIC_BASE + PLIC_SIZE
}

/// `addr` lies in the UART window.
pub open spec fn in_uart(addr: u64) -> bool {
    UART_BASE <= addr < UART_BASE + UART_SIZE
}

/// `addr` lies in the (reserved, undispatched) virtio window.
pub open spec fn in_virtio(addr: u64) -> bool {
    VIRTIO_BASE <= addr < VIRTIO_BASE + VIRTIO_SIZE
}

/// A `width`-byte access at `addr` lies inside a loaded image of `size`
/// bytes: at or above `DRAM_BASE`, with all its bytes below the image end.
pub open spec fn in_dram(addr: u64, size: nat, width: nat) -> bool {
    DRAM_BASE <= addr && addr - DRAM_BASE + width <= size
}

/// The system bus. It exclusively owns the RAM and the three devices; all
/// their state mutates only through the operations here.
pub struct Bus {
    /// The core-local interruptor, reachable by 64-bit access.
    pub clint: Clint,
    /// The platform-level interrupt controller, reachable by 32-bit access.
    pub plic: Plic,
    /// The serial console, reachable by 8-bit access.
    pub uart: Uart,
    /// Flat RAM, reachable by any width at `DRAM_BASE` and above.
    pub dram: Memory,
}

impl Bus {
    /// Every device is well-formed.
    pub open spec fn wf(self) -> bool {
        &&& self.clint.wf()
        &&& self.plic.wf()
        &&& self.uart.wf()
    }

    /// A machine at reset: devices in their reset state, no image loaded.
    pub fn new() -> (r: Bus)
        ensures
            r.wf(),
            forall|h: int| 0 <= h < crate::clint::CLINT_HARTS ==> r.clint.msip@[h] == 0u64,
            forall|h: int| 0 <= h < crate::clint::CLINT_HARTS ==> r.clint.mtimecmp@[h] == 0u64,
            r.clint.mtime == 0,
            forall|s: int| 0 <= s < crate::plic::PLIC_SOURCES ==> r.plic.priority@[s] == 0u32,
            r.plic.pending == 0u32,
            forall|c: int| 0 <= c < crate::plic::PLIC_CONTEXTS ==> r.plic.enable@[c] == 0u32,
            forall|c: int| 0 <= c < crate::plic::PLIC_CONTEXTS ==> r.plic.threshold@[c] == 0u32,
            r.uart.regs@[(UART_LSR - UART_BASE) as int] == LSR_TX_EMPTY,
            forall|i: int|
                0 <= i < UART_SIZE && i != UART_LSR - UART_BASE ==> r.uart.regs@[i] == 0u8,
            r.uart.output@ == Seq::<u8>::empty(),
            r.dram.bytes@.len() == 0,
    {
        Bus { clint: Clint::new(), plic: Plic::new(), uart: Uart::new(), dram: Memory::new() }
    }

    /// Number of bytes of the loaded image.
    pub fn dram_size(&self) -> (r: usize)
        ensures
            r == self.dram.bytes@.len(),
    {
        self.dram.size()
    }

    /// Load a binary image: replace the RAM backing store wholesale.
    pub fn set_dram(&mut self, data: Vec<u8>)
        requires
            old(self).wf(),
        ensures
            final (self).wf(),
            final (self).dram.bytes@ == data@,
            final (self).clint == old(self).clint,
            final (self).plic == old(self).plic,
            final (self).uart == old(self).uart,
    {
        self.dram.set_dram(data);
    }

    /// Write a byte to the system bus.
    pub fn write8(&mut self, addr: u64, val: u8) -> (r: Result<(), Exception>)
        requires
            old(self).wf(),
        ensures
            final (self).wf(),
            in_uart(addr) ==> r == Ok::<(), Exception>(()) && Uart::write_rel(
                old(self).uart,
                final (self).uart,
                addr,
                val,
            ) && final (self).clint == old(self).clint && final (self).plic == old(self).plic
                && final (self).dram == old(self).dram,
            !in_uart(addr) && in_dram(addr, old(self).dram.bytes@.len(), 1) ==> r == Ok::<
                (),
                Exception,
            >(()) && final (self).dram.bytes@ == old(self).dram.bytes@.update(
                (addr - DRAM_BASE) as int,
                val,
            ) && final (self).clint == old(self).clint && final (self).plic == old(self).plic
                && final (self).uart == old(self).uart,
            !in_uart(addr) && !in_dram(addr, old(self).dram.bytes@.len(), 1) ==> r == Err::<
                (),
                Exception,
            >(Exception::InstructionAccessFault) && *final (self) == *old(self),
    {
        if UART_BASE <= addr && addr < UART_BASE + UART_SIZE {
            self.uart.write(addr, val);
            return Ok(());
        }
        if DRAM_BASE <= addr {
            let off = addr - DRAM_BASE;
            if off < self.dram.size() as u64 {
                self.dram.write8(off as usize, val);
                return Ok(());
            }
        }
        Err(Exception::InstructionAccessFault)
    }

    /// Write 2 bytes to the system bus, little-endian.
    pub fn write16(&mut self, addr: u64, val: u16) -> (r: Result<(), Exception>)
        requires
            old(self).wf(),
        ensures
            final (self).wf(),
            in_dram(addr, old(self).dram.bytes@.len(), 2) ==> r == Ok::<(), Exception>(())
                && final (self).dram.bytes@ == store16_at(
                old(self).dram.bytes@,
                (addr - DRAM_BASE) as int,
                val,
            ) && final (self).clint == old(self).clint && final (self).plic == old(self).plic
                && final (self).uart == old(self).uart,
            !in_dram(addr, old(self).dram.bytes@.len(), 2) ==> r == Err::<(), Exception>(
                Exception::InstructionAccessFault,
            ) && *final (self) == *old(self),
    {
        if DRAM_BASE <= addr {
            let off = addr - DRAM_BASE;
            let len = self.dram.size() as u64;
            if off < len && len - off >= 2 {
                self.dram.write16(off as usize, val);
                return Ok(());
            }
        }
        Err(Exception::InstructionAccessFault)
    }

    /// Write 4 bytes to the system bus: to a PLIC register, or little-endian
    /// to DRAM.
    pub fn write32(&mut self, addr: u64, val: u32) -> (r: Result<(), Exception>)
        requires
            old(self).wf(),
        ensures
            final (self).wf(),
            in_plic(addr) ==> r == Ok::<(), Exception>(()) && Plic::write_rel(
                old(self).plic,
                final (self).plic,
                addr,
                val,
            ) && final (self).clint == old(self).clint && final (self).uart == old(self).uart
                && final (self).dram == old(self).dram,
            !in_plic(addr) && in_dram(addr, old(self).dram.bytes@.len(), 4) ==> r == Ok::<
                (),
                Exception,
            >(()) && final (self).dram.bytes@ == store32_at(
                old(self).dram.bytes@,
                (addr - DRAM_BASE) as int,
                val,
            ) && final (self).clint == old(self).clint && final (self).plic == old(self).plic
                && final (self).uart == old(self).uart,
            !in_plic(addr) && !in_dram(addr, old(self).dram.bytes@.len(), 4) ==> r == Err::<
                (),
                Exception,
            >(Exception::InstructionAccessFault) && *final (self) == *old(self),
    {
        if PLIC_BASE <= addr && addr < PLIC_BASE + PLIC_SIZE {
            self.plic.write(addr, val);
            return Ok(());
        }
        if DRAM_BASE <= addr {
            let off = addr - DRAM_BASE;
            let len = self.dram.size() as u64;
            if off < len && len - off >= 4 {
                self.dram.write32(off as usize, val);
                return Ok(());
            }
        }
        Err(Exception::InstructionAccessFault)
    }

    /// Write 8 bytes to the system bus: to a CLINT register, or little-endian
    /// to DRAM.
    pub fn write64(&mut self, addr: u64, val: u64) -> (r: Result<(), Exception>)
        requires
            old(self).wf(),
        ensures
            final (self).wf(),
            in_clint(addr) ==> r == Ok::<(), Exception>(()) && Clint::write_rel(
                old(self).clint,
                final (self).clint,
                addr,
                val,
            ) && final (self).plic == old(self).plic && final (self).uart == old(self).uart
                && final (self).dram == old(self).dram,
            !in_clint(addr) && in_dram(addr, old(self).dram.bytes@.len(), 8) ==> r == Ok::<
                (),
                Exception,
            >(()) && final (self).dram.bytes@ == store64_at(
                old(self).dram.bytes@,
                (addr - DRAM_BASE) as int,
                val,
            ) && final (self).clint == old(self).clint && final (self).plic == old(self).plic
                && final (self).uart == old(self).uart,
            !in_clint(addr) && !in_dram(addr, old(self).dram.bytes@.len(), 8) ==> r == Err::<
                (),
                Exception,
            >(Exception::InstructionAccessFault) && *final (self) == *old(self),
    {
        if CLINT_BASE <= addr && addr < CLINT_BASE + CLINT_SIZE {
            self.clint.write(addr, val);
            return Ok(());
        }
        if DRAM_BASE <= addr {
            let off = addr - DRAM_BASE;
            let len = self.dram.size() as u64;
            if off < len && len - off >= 8 {
                self.dram.write64(off as usize, val);
                return Ok(());
            }
        }
        Err(Exception::InstructionAccessFault)
    }

    /// Read a byte from the system bus. Reading the UART receive register
    /// drains it; no other byte read changes any state.
    pub fn read8(&mut self, addr: u64) -> (r: Result<u8, Exception>)
        requires
            old(self).wf(),
        ensures
            final (self).wf(),
            in_uart(addr) ==> r is Ok && Uart::read_rel(
                old(self).uart,
                final (self).uart,
                addr,
                r->Ok_0,
            ) && final (self).clint == old(self).clint && final (self).plic == old(self).plic
                && final (self).dram == old(self).dram,
            !in_uart(addr) && in_dram(addr, old(self).dram.bytes@.len(), 1) ==> r == Ok::<
                u8,
                Exception,
            >(old(self).dram.bytes@[(addr - DRAM_BASE) as int]) && *final (self) == *old(self),
            !in_uart(addr) && !in_dram(addr, old(self).dram.bytes@.len(), 1) ==> r == Err::<
                u8,
                Exception,
            >(Exception::InstructionAccessFault) && *final (self) == *old(self),
    {
        if UART_BASE <= addr && addr < UART_BASE + UART_SIZE {
            return Ok(self.uart.read(addr));
        }
        if DRAM_BASE <= addr {
            let off = addr - DRAM_BASE;
            if off < self.dram.size() as u64 {
                return Ok(self.dram.read8(off as usize));
            }
        }
        Err(Exception::InstructionAccessFault)
    }

    /// Read 2 bytes from the system bus, little-endian; no state changes.
    pub fn read16(&self, addr: u64) -> (r: Result<u16, Exception>)
        requires
            self.wf(),
        ensures
            in_dram(addr, self.dram.bytes@.len(), 2) ==> r is Ok && r->Ok_0 as int == le16_at(
                self.dram.bytes@,
                (addr - DRAM_BASE) as int,
            ),
            !in_dram(addr, self.dram.bytes@.len(), 2) ==> r == Err::<u16, Exception>(
                Exception::InstructionAccessFault,
            ),
    {
        if DRAM_BASE <= addr {
            let off = addr - DRAM_BASE;
            let len = self.dram.size() as u64;
            if off < len && len - off >= 2 {
                return Ok(self.dram.read16(off as usize));
            }
        }
        Err(Exception::InstructionAccessFault)
    }

    /// Read 4 bytes from the system bus: from a PLIC register, or
    /// little-endian from DRAM. Reading a PLIC claim/complete register
    /// performs the claim for its context; no other 32-bit read changes any
    /// state.
    pub fn read32(&mut self, addr: u64) -> (r: Result<u32, Exception>)
        requires
            old(self).wf(),
        ensures
            final (self).wf(),
            final (self).clint == old(self).clint,
            final (self).uart == old(self).uart,
            final (self).dram == old(self).dram,
            in_plic(addr) && crate::plic::is_claim(addr) ==> r is Ok && Plic::claim_rel(
                old(self).plic,
                final (self).plic,
                crate::plic::plic_ctx(addr),
                r->Ok_0,
            ),
            in_plic(addr) && !crate::plic::is_claim(addr) ==> r == Ok::<u32, Exception>(
                old(self).plic.spec_read(addr),
            ) && *final (self) == *old(self),
            !in_plic(addr) && in_dram(addr, old(self).dram.bytes@.len(), 4) ==> r is Ok && r->Ok_0
                as int == le32_at(old(self).dram.bytes@, (addr - DRAM_BASE) as int) && *final (
            self) == *old(self),
            !in_plic(addr) && !in_dram(addr, old(self).dram.bytes@.len(), 4) ==> r == Err::<
                u32,
                Exception,
            >(Exception::InstructionAccessFault) && *final (self) == *old(self),
    {
        if PLIC_BASE <= addr && addr < PLIC_BASE + PLIC_SIZE {
            return Ok(self.plic.read(addr));
        }
        if DRAM_BASE <= addr {
            let off = addr - DRAM_BASE;
            let len = self.dram.size() as u64;
            if off < len && len - off >= 4 {
                return Ok(self.dram.read32(off as usize));
            }
        }
        Err(Exception::InstructionAccessFault)
    }

    /// Read 8 bytes from the system bus: from a CLINT register, or
    /// little-endian from DRAM; no state changes.
    pub fn read64(&self, addr: u64) -> (r: Result<u64, Exception>)
        requires
            self.wf(),
        ensures
            in_clint(addr) ==> r == Ok::<u64, Exception>(self.clint.spec_read(addr)),
            !in_clint(addr) && in_dram(addr, self.dram.bytes@.len(), 8) ==> r is Ok && r->Ok_0
                as int == le64_at(self.dram.bytes@, (addr - DRAM_BASE) as int),
            !in_clint(addr) && !in_dram(addr, self.dram.bytes@.len(), 8) ==> r == Err::<
                u64,
                Exception,
            >(Exception::InstructionAccessFault),
    {
        if CLINT_BASE <= addr && addr < CLINT_BASE + CLINT_SIZE {
            return Ok(self.clint.read(addr));
        }
        if DRAM_BASE <= addr {
            let off = addr - DRAM_BASE;
            let len = self.dram.size() as u64;
            if off < len && len - off >= 8 {
                return Ok(self.dram.read64(off as usize));
            }
        }
        Err(Exception::InstructionAccessFault)
    }

    /// Advance the timer by `delta` ticks, wrapping at 2^64: the external
    /// driver's once-per-step tick. Nothing else moves time.
    pub fn advance_time(&mut self, delta: u64)
        requires
            old(self).wf(),
        ensures
            final (self).wf(),
            old(self).clint.mtime + delta <= u64::MAX ==> final (self).clint.mtime == old(
                self,
            ).clint.mtime + delta,
            old(self).clint.mtime + delta > u64::MAX ==> final (self).clint.mtime == old(
                self,
            ).clint.mtime + delta - 0x1_0000_0000_0000_0000,
            final (self).clint.msip@ == old(self).clint.msip@,
            final (self).clint.mtimecmp@ == old(self).clint.mtimecmp@,
            final (self).plic == old(self).plic,
            final (self).uart == old(self).uart,
            final (self).dram == old(self).dram,
    {
        self.clint.advance_time(delta);
    }

    /// Mark external interrupt source `src` pending at the PLIC: the
    /// externally driven "raise" signal of a device.
    pub fn raise_external(&mut self, src: u32)
        requires
            old(self).wf(),
            1 <= src < crate::plic::PLIC_SOURCES,
        ensures
            final (self).wf(),
            final (self).plic.pending == old(self).plic.pending | (1u32 << src),
            forall|t: u32|
                t < crate::plic::PLIC_SOURCES ==> crate::plic::bit_is_set(
                    final (self).plic.pending,
                    t,
                ) == (t == src || crate::plic::bit_is_set(old(self).plic.pending, t)),
            final (self).plic.priority@ == old(self).plic.priority@,
            final (self).plic.enable@ == old(self).plic.enable@,
            final (self).plic.threshold@ == old(self).plic.threshold@,
            final (self).clint == old(self).clint,
            final (self).uart == old(self).uart,
            final (self).dram == old(self).dram,
    {
        self.plic.set_pending(src);
    }

    /// The timer line of hart `hart`: pending exactly when `mtime` has
    /// reached the hart's comparator.
    pub fn timer_pending(&self, hart: usize) -> (r: bool)
        requires
            self.wf(),
            hart < crate::clint::CLINT_HARTS,
        ensures
            r == (self.clint.mtime >= self.clint.mtimecmp@[hart as int]),
    {
        self.clint.timer_pending(hart)
    }

    /// The software-interrupt line of hart `hart`: pending exactly when bit
    /// 0 of the hart's `msip` register is set.
    pub fn software_pending(&self, hart: usize) -> (r: bool)
        requires
            self.wf(),
            hart < crate::clint::CLINT_HARTS,
        ensures
            r == (self.clint.msip@[hart as int] & 1u64 == 1u64),
    {
        self.clint.software_pending(hart)
    }

    /// Every byte forwarded to the console sink so far, in write order.
    pub fn console_output(&self) -> (r: &Vec<u8>)
        ensures
            r@ == self.uart.output@,
    {
        &self.uart.output
    }
}

/// Outside every declared window there is nothing to dispatch to: at such an
/// address no access of any width lies in DRAM either, so by the contracts
/// of the read and write operations every one of them returns the access
/// fault. The DRAM window here is the loaded image, `DRAM_BASE` up to
/// `DRAM_BASE + dram_size`.
pub proof fn lemma_unmapped_address_faults(addr: u64, dram_size: nat)
    requires
        !in_clint(addr),
        !in_plic(addr),
        !in_uart(addr),
        !in_virtio(addr),
        !(DRAM_BASE <= addr && addr - DRAM_BASE < dram_size),
    ensures
        !in_uart(addr) && !in_dram(addr, dram_size, 1),
        !in_dram(addr, dram_size, 2),
        !in_plic(addr) && !in_dram(addr, dram_size, 4),
        !in_clint(addr) && !in_dram(addr, dram_size, 8),
{
}

} // verus!
