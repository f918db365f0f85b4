//! The core-local interruptor (CLINT): per-hart software-interrupt bits
//! (`msip`), per-hart 64-bit timer comparators (`mtimecmp`) and the running
//! `mtime` counter.
//!
//! All registers are 64 bits wide and 8-byte aligned, so the bus forwards
//! only 64-bit accesses here: `msip` of hart `h` at `CLINT_BASE + 8*h`,
//! `mtimecmp` of hart `h` at `CLINT_BASE + 0x4000 + 8*h`, and `mtime` at
//! `CLINT_BASE + 0xbff8`. Any other offset of the window reads as zero and
//! ignores writes. Time never advances as a side effect of a bus access: an
//! external driver advances it once per emulated step.

use vstd::prelude::*;

use crate::bus::CLINT_BASE;

verus! {

/// Number of simulated hart contexts with their own `msip` and `mtimecmp`.
pub const CLINT_HARTS: u64 = 4;

/// The address of `mtimecmp` of hart 0; hart `h` follows at stride 8.
pub const CLINT_MTIMECMP_BASE: u64 = CLINT_BASE + 0x4000;

/// The address of the running `mtime` counter.
pub const CLINT_MTIME: u64 = CLINT_BASE + 0xbff8;

/// `addr` is the `msip` register of some hart.
pub open spec fn is_msip(addr: u64) -> bool {
    CLINT_BASE <= addr < CLINT_BASE + 8 * CLINT_HARTS && (addr - CLINT_BASE) % 8 == 0
}

/// The hart whose `msip` register sits at `addr`.
pub open spec fn msip_hart(addr: u64) -> int {
    (addr - CLINT_BASE) / 8
}

/// `addr` is the `mtimecmp` register of some hart.
pub open spec fn is_mtimecmp(addr: u64) -> bool {
    CLINT_MTIMECMP_BASE <= addr < CLINT_MTIMECMP_BASE + 8 * CLINT_HARTS && (addr
        - CLINT_MTIMECMP_BASE) % 8 == 0
}

/// The hart whose `mtimecmp` register sits at `addr`.
pub open spec fn mtimecmp_hart(addr: u64) -> int {
    (addr - CLINT_MTIMECMP_BASE) / 8
}

/// The core-local interruptor.
pub struct Clint {
    /// Per-hart software-interrupt register; bit 0 is the pending bit.
    pub msip: Vec<u64>,
    /// Per-hart timer comparator.
    pub mtimecmp: Vec<u64>,
    /// The running timer counter, advanced only by [`Clint::advance_time`].
    pub mtime: u64,
}

impl Clint {
    /// One `msip` and one `mtimecmp` per hart.
    pub open spec fn wf(self) -> bool {
        &&& self.msip@.len() == CLINT_HARTS
        &&& self.mtimecmp@.len() == CLINT_HARTS
    }

    /// The value a 64-bit read at `addr` returns: the addressed register, or
    /// zero for an unmapped offset of the window. Reads have no side effect.
    pub open spec fn spec_read(self, addr: u64) -> u64 {
        if is_msip(addr) {
            self.msip@[msip_hart(addr)]
        } else if is_mtimecmp(addr) {
            self.mtimecmp@[mtimecmp_hart(addr)]
        } else if addr == CLINT_MTIME {
            self.mtime
        } else {
            0
        }
    }

    /// Relates the CLINT before and after a 64-bit write of `val` at `addr`:
    /// the addressed register takes `val` and everything else is unchanged;
    /// a write to an unmapped offset of the window is ignored.
    pub open spec fn write_rel(pre: Clint, post: Clint, addr: u64, val: u64) -> bool {
        if is_msip(addr) {
            &&& post.msip@ == pre.msip@.update(msip_hart(addr), val)
            &&& post.mtimecmp@ == pre.mtimecmp@
            &&& post.mtime == pre.mtime
        } else if is_mtimecmp(addr) {
            &&& post.msip@ == pre.msip@
            &&& post.mtimecmp@ == pre.mtimecmp@.update(mtimecmp_hart(addr), val)
            &&& post.mtime == pre.mtime
        } else if addr == CLINT_MTIME {
            &&& post.msip@ == pre.msip@
            &&& post.mtimecmp@ == pre.mtimecmp@
            &&& post.mtime == val
        } else {
            post == pre
        }
    }

    /// Reset state: every register zero, time at zero.
    pub fn new() -> (r: Clint)
        ensures
            r.wf(),
            forall|h: int| 0 <= h < CLINT_HARTS ==> r.msip@[h] == 0u64,
            forall|h: int| 0 <= h < CLINT_HARTS ==> r.mtimecmp@[h] == 0u64,
            r.mtime == 0,
    {
        let mut msip: Vec<u64> = Vec::new();
        let mut mtimecmp: Vec<u64> = Vec::new();
        let mut h: usize = 0;
        while h < 4
            invariant
                h <= 4,
                msip@.len() == h,
                mtimecmp@.len() == h,
                forall|i: int| 0 <= i < h ==> msip@[i] == 0u64,
                forall|i: int| 0 <= i < h ==> mtimecmp@[i] == 0u64,
            decreases 4 - h,
        {
            msip.push(0u64);
            mtimecmp.push(0u64);
            h = h + 1;
        }
        Clint { msip, mtimecmp, mtime: 0 }
    }

    /// Perform a 64-bit read at `addr`; no state changes.
    pub fn read(&self, addr: u64) -> (r: u64)
        requires
            self.wf(),
            crate::bus::in_clint(addr),
        ensures
            r == self.spec_read(addr),
    {
        if addr >= CLINT_BASE && addr < CLINT_BASE + 8 * CLINT_HARTS && (addr - CLINT_BASE) % 8
            == 0 {
            self.msip[((addr - CLINT_BASE) / 8) as usize]
        } else if addr >= CLINT_MTIMECMP_BASE && addr < CLINT_MTIMECMP_BASE + 8 * CLINT_HARTS && (
        addr - CLINT_MTIMECMP_BASE) % 8 == 0 {
            self.mtimecmp[((addr - CLINT_MTIMECMP_BASE) / 8) as usize]
        } else if addr == CLINT_MTIME {
            self.mtime
        } else {
            0
        }
    }

    /// Perform a 64-bit write of `val` at `addr`.
    pub fn write(&mut self, addr: u64, val: u64)
        requires
            old(self).wf(),
            crate::bus::in_clint(addr),
        ensures
            final (self).wf(),
            Clint::write_rel(*old(self), *final (self), addr, val),
    {
        if addr >= CLINT_BASE && addr < CLINT_BASE + 8 * CLINT_HARTS && (addr - CLINT_BASE) % 8
            == 0 {
            self.msip[((addr - CLINT_BASE) / 8) as usize] = val;
        } else if addr >= CLINT_MTIMECMP_BASE && addr < CLINT_MTIMECMP_BASE + 8 * CLINT_HARTS && (
        addr - CLINT_MTIMECMP_BASE) % 8 == 0 {
            self.mtimecmp[((addr - CLINT_MTIMECMP_BASE) / 8) as usize] = val;
        } else if addr == CLINT_MTIME {
            self.mtime = val;
        }
    }

    /// Advance the timer by `delta` ticks, wrapping at 2^64. Called once per
    /// emulated step by the external driver; this is the only way time moves.
    pub fn advance_time(&mut self, delta: u64)
        requires
            old(self).wf(),
        ensures
            final (self).wf(),
            old(self).mtime + delta <= u64::MAX ==> final (self).mtime == old(self).mtime + delta,
            old(self).mtime + delta > u64::MAX ==> final (self).mtime == old(self).mtime + delta
                - 0x1_0000_0000_0000_0000,
            final (self).msip@ == old(self).msip@,
            final (self).mtimecmp@ == old(self).mtimecmp@,
    {
        self.mtime = self.mtime.wrapping_add(delta);
    }

    /// The timer line of hart `hart`: pending exactly when `mtime` has
    /// reached the hart's comparator.
    pub fn timer_pending(&self, hart: usize) -> (r: bool)
        requires
            self.wf(),
            hart < CLINT_HARTS,
        ensures
            r == (self.mtime >= self.mtimecmp@[hart as int]),
    {
        self.mtime >= self.mtimecmp[hart]
    }

    /// The software-interrupt line of hart `hart`: pending exactly when bit 0
    /// of the hart's `msip` register is set.
    pub fn software_pending(&self, hart: usize) -> (r: bool)
        requires
            self.wf(),
            hart < CLINT_HARTS,
        ensures
            r == (self.msip@[hart as int] & 1u64 == 1u64),
    {
        self.msip[hart] & 1 == 1
    }
}

} // verus!
