//! The platform-level interrupt controller (PLIC): per-source pending bits
//! and priorities, per-context enable bits and thresholds, and the
//! claim/complete protocol that arbitrates external sources to hart
//! contexts.
//!
//! All registers are 32 bits wide, so the bus forwards only 32-bit accesses
//! here. Layout inside the window: priority of source `s` at
//! `PLIC_BASE + 4*s`; the pending bit set at `PLIC_BASE + 0x1000`; the enable
//! bit set of context `c` at `PLIC_BASE + 0x2000 + 0x80*c`; the threshold of
//! context `c` at `PLIC_BASE + 0x20_0000 + 0x1000*c` and its claim/complete
//! register 4 bytes above that. Any other offset of the window reads as zero
//! and ignores writes.

use vstd::prelude::*;

use crate::bus::PLIC_BASE;

verus! {

/// Number of interrupt source ids. Id 0 is reserved and never claimable;
/// usable sources are 1 up to `PLIC_SOURCES - 1`, one bit each in the
/// pending and enable registers.
pub const PLIC_SOURCES: u64 = 32;

/// Number of hart contexts with their own enable set, threshold and
/// claim/complete register.
pub const PLIC_CONTEXTS: u64 = 2;

/// The address of the pending bit set.
pub const PLIC_PENDING_ADDR: u64 = PLIC_BASE + 0x1000;

/// The address of the enable bit set of context 0; context `c` follows at
/// stride [`PLIC_ENABLE_STRIDE`].
pub const PLIC_ENABLE_BASE: u64 = PLIC_BASE + 0x2000;

/// Stride between the enable bit sets of consecutive contexts.
pub const PLIC_ENABLE_STRIDE: u64 = 0x80;

/// The address of the threshold register of context 0; context `c` follows
/// at stride [`PLIC_CONTEXT_STRIDE`], and each claim/complete register sits
/// 4 bytes above its threshold.
pub const PLIC_CONTEXT_BASE: u64 = PLIC_BASE + 0x20_0000;

/// Stride between the threshold/claim register pairs of consecutive
/// contexts.
pub const PLIC_CONTEXT_STRIDE: u64 = 0x1000;

/// Bit `s` of the 32-bit register value `w` is set.
pub open spec fn bit_is_set(w: u32, s: u32) -> bool {
    (w >> s) & 1u32 == 1u32
}

/// Setting bit `s` of `w` sets exactly that bit and leaves every other bit
/// alone.
pub proof fn lemma_set_bit(w: u32, s: u32, t: u32)
    by (bit_vector)
    requires
        s < 32,
        t < 32,
    ensures
        bit_is_set(w | (1u32 << s), t) == (t == s || bit_is_set(w, t)),
{
}

/// Clearing bit `s` of `w` clears exactly that bit and leaves every other
/// bit alone.
pub proof fn lemma_clear_bit(w: u32, s: u32, t: u32)
    by (bit_vector)
    requires
        s < 32,
        t < 32,
    ensures
        bit_is_set(w & !(1u32 << s), t) == (t != s && bit_is_set(w, t)),
{
}

/// `addr` is the priority register of some source.
pub open spec fn is_priority(addr: u64) -> bool {
    PLIC_BASE <= addr < PLIC_BASE + 4 * PLIC_SOURCES && (addr - PLIC_BASE) % 4 == 0
}

/// The source whose priority register sits at `addr`.
pub open spec fn priority_source(addr: u64) -> int {
    (addr - PLIC_BASE) / 4
}

/// `addr` is the enable bit set of some context.
pub open spec fn is_enable(addr: u64) -> bool {
    PLIC_ENABLE_BASE <= addr < PLIC_ENABLE_BASE + PLIC_ENABLE_STRIDE * PLIC_CONTEXTS && (addr
        - PLIC_ENABLE_BASE) % (PLIC_ENABLE_STRIDE as int) == 0
}

/// The context whose enable bit set sits at `addr`.
pub open spec fn enable_ctx(addr: u64) -> int {
    (addr - PLIC_ENABLE_BASE) / (PLIC_ENABLE_STRIDE as int)
}

/// `addr` is the threshold register of some context.
pub open spec fn is_threshold(addr: u64) -> bool {
    PLIC_CONTEXT_BASE <= addr < PLIC_CONTEXT_BASE + PLIC_CONTEXT_STRIDE * PLIC_CONTEXTS && (addr
        - PLIC_CONTEXT_BASE) % (PLIC_CONTEXT_STRIDE as int) == 0
}

/// `addr` is the claim/complete register of some context.
pub open spec fn is_claim(addr: u64) -> bool {
    PLIC_CONTEXT_BASE <= addr < PLIC_CONTEXT_BASE + PLIC_CONTEXT_STRIDE * PLIC_CONTEXTS && (addr
        - PLIC_CONTEXT_BASE) % (PLIC_CONTEXT_STRIDE as int) == 4
}

/// The context whose threshold or claim/complete register sits at `addr`.
pub open spec fn plic_ctx(addr: u64) -> int {
    (addr - PLIC_CONTEXT_BASE) / (PLIC_CONTEXT_STRIDE as int)
}

/// The platform-level interrupt controller.
pub struct Plic {
    /// Per-source priority, indexed by source id.
    pub priority: Vec<u32>,
    /// Per-source pending bits, one per source id.
    pub pending: u32,
    /// Per-context enable bits, one bit per source id.
    pub enable: Vec<u32>,
    /// Per-context priority threshold.
    pub threshold: Vec<u32>,
}

impl Plic {
    /// One priority per source; one enable set and one threshold per
    /// context.
    pub open spec fn wf(self) -> bool {
        &&& self.priority@.len() == PLIC_SOURCES
        &&& self.enable@.len() == PLIC_CONTEXTS
        &&& self.threshold@.len() == PLIC_CONTEXTS
    }

    /// Source `s` can be claimed by context `ctx`: it is a real source id,
    /// pending, enabled for the context, and its priority is above the
    /// context's threshold.
    pub open spec fn eligible(self, ctx: int, s: int) -> bool {
        &&& 1 <= s < PLIC_SOURCES
        &&& bit_is_set(self.pending, s as u32)
        &&& bit_is_set(self.enable@[ctx], s as u32)
        &&& self.priority@[s] > self.threshold@[ctx]
    }

    /// Relates the PLIC before and after context `ctx` claims, returning
    /// source id `r`. A claim of 0 means no source was eligible and nothing
    /// changed. Otherwise `r` is the eligible source of highest priority —
    /// equal priority resolves to the lowest id, deterministically — and
    /// exactly its pending bit is cleared.
    pub open spec fn claim_rel(pre: Plic, post: Plic, ctx: int, r: u32) -> bool {
        &&& r < PLIC_SOURCES
        &&& (r == 0 ==> post == pre && (forall|s: int| !pre.eligible(ctx, s)))
        &&& (r != 0 ==> {
            &&& pre.eligible(ctx, r as int)
            &&& (forall|s: int|
                pre.eligible(ctx, s) ==> pre.priority@[r as int] > pre.priority@[s] || (
                pre.priority@[r as int] == pre.priority@[s] && r <= s))
            &&& post.pending == pre.pending & !(1u32 << r)
            &&& (forall|t: u32|
                t < PLIC_SOURCES ==> bit_is_set(post.pending, t) == (t != r && bit_is_set(
                    pre.pending,
                    t,
                )))
            &&& post.priority@ == pre.priority@
            &&& post.enable@ == pre.enable@
            &&& post.threshold@ == pre.threshold@
        })
    }

    /// A claim drains what it returns: after a successful claim, a second
    /// claim by any context — before the source is raised again — never
    /// returns the same source, because the first claim cleared exactly its
    /// pending bit.
    pub proof fn lemma_second_claim_excludes_first(
        pre: Plic,
        mid: Plic,
        post: Plic,
        ctx1: int,
        ctx2: int,
        r1: u32,
        r2: u32,
    )
        requires
            Plic::claim_rel(pre, mid, ctx1, r1),
            Plic::claim_rel(mid, post, ctx2, r2),
            r1 != 0,
        ensures
            r2 != r1,
    {
        if r2 != 0 {
            assert(mid.eligible(ctx2, r2 as int));
            assert(!bit_is_set(mid.pending, r1));
        }
    }

    /// The value a 32-bit read at a non-claim `addr` returns: the addressed
    /// register, or zero for an unmapped offset of the window. Such reads
    /// have no side effect.
    pub open spec fn spec_read(self, addr: u64) -> u32 {
        if is_priority(addr) {
            self.priority@[priority_source(addr)]
        } else if addr == PLIC_PENDING_ADDR {
            self.pending
        } else if is_enable(addr) {
            self.enable@[enable_ctx(addr)]
        } else if is_threshold(addr) {
            self.threshold@[plic_ctx(addr)]
        } else {
            0
        }
    }

    /// Relates the PLIC before and after a 32-bit write of `val` at `addr`:
    /// the addressed register takes `val` and everything else is unchanged.
    /// A write to the claim/complete register acknowledges the last claim
    /// and changes nothing here (re-arming the source is the source's
    /// business); a write to an unmapped offset of the window is ignored.
    pub open spec fn write_rel(pre: Plic, post: Plic, addr: u64, val: u32) -> bool {
        if is_priority(addr) {
            &&& post.priority@ == pre.priority@.update(priority_source(addr), val)
            &&& post.pending == pre.pending
            &&& post.enable@ == pre.enable@
            &&& post.threshold@ == pre.threshold@
        } else if addr == PLIC_PENDING_ADDR {
            &&& post.priority@ == pre.priority@
            &&& post.pending == val
            &&& post.enable@ == pre.enable@
            &&& post.threshold@ == pre.threshold@
        } else if is_enable(addr) {
            &&& post.priority@ == pre.priority@
            &&& post.pending == pre.pending
            &&& post.enable@ == pre.enable@.update(enable_ctx(addr), val)
            &&& post.threshold@ == pre.threshold@
        } else if is_threshold(addr) {
            &&& post.priority@ == pre.priority@
            &&& post.pending == pre.pending
            &&& post.enable@ == pre.enable@
            &&& post.threshold@ == pre.threshold@.update(plic_ctx(addr), val)
        } else {
            post == pre
        }
    }

    /// Reset state: no source pending, every priority, enable set and
    /// threshold zero.
    pub fn new() -> (r: Plic)
        ensures
            r.wf(),
            forall|s: int| 0 <= s < PLIC_SOURCES ==> r.priority@[s] == 0u32,
            r.pending == 0u32,
            forall|c: int| 0 <= c < PLIC_CONTEXTS ==> r.enable@[c] == 0u32,
            forall|c: int| 0 <= c < PLIC_CONTEXTS ==> r.threshold@[c] == 0u32,
    {
        let mut priority: Vec<u32> = Vec::new();
        let mut s: usize = 0;
        while s < 32
            invariant
                s <= 32,
                priority@.len() == s,
                forall|i: int| 0 <= i < s ==> priority@[i] == 0u32,
            decreases 32 - s,
        {
            priority.push(0u32);
            s = s + 1;
        }
        let mut enable: Vec<u32> = Vec::new();
        let mut threshold: Vec<u32> = Vec::new();
        let mut c: usize = 0;
        while c < 2
            invariant
                c <= 2,
                enable@.len() == c,
                threshold@.len() == c,
                forall|i: int| 0 <= i < c ==> enable@[i] == 0u32,
                forall|i: int| 0 <= i < c ==> threshold@[i] == 0u32,
            decreases 2 - c,
        {
            enable.push(0u32);
            threshold.push(0u32);
            c = c + 1;
        }
        Plic { priority, pending: 0, enable, threshold }
    }

    /// Mark source `src` pending: the externally driven "raise" signal of an
    /// interrupt source.
    pub fn set_pending(&mut self, src: u32)
        requires
            old(self).wf(),
            1 <= src < PLIC_SOURCES,
        ensures
            final (self).wf(),
            final (self).pending == old(self).pending | (1u32 << src),
            forall|t: u32|
                t < PLIC_SOURCES ==> bit_is_set(final (self).pending, t) == (t == src
                    || bit_is_set(old(self).pending, t)),
            final (self).priority@ == old(self).priority@,
            final (self).enable@ == old(self).enable@,
            final (self).threshold@ == old(self).threshold@,
    {
        self.pending = self.pending | (1u32 << src);
        proof {
            assert forall|t: u32| t < PLIC_SOURCES implies bit_is_set(self.pending, t) == (t == src
                || bit_is_set(old(self).pending, t)) by {
                lemma_set_bit(old(self).pending, src, t);
            }
        }
    }

    /// Context `ctx` claims: return the highest-priority eligible source
    /// (lowest id on ties; 0 if none) and atomically clear its pending bit.
    pub fn claim(&mut self, ctx: usize) -> (r: u32)
        requires
            old(self).wf(),
            ctx < PLIC_CONTEXTS,
        ensures
            final (self).wf(),
            Plic::claim_rel(*old(self), *final (self), ctx as int, r),
    {
        let mut best: usize = 0;
        let mut s: usize = 1;
        while s < 32
            invariant
                old(self).wf(),
                *self == *old(self),
                ctx < PLIC_CONTEXTS,
                1 <= s <= 32,
                best == 0 || (1 <= best < s && old(self).eligible(ctx as int, best as int)),
                best == 0 ==> forall|t: int| 1 <= t < s ==> !old(self).eligible(ctx as int, t),
                best != 0 ==> forall|t: int|
                    1 <= t < s && old(self).eligible(ctx as int, t)
                        ==> old(self).priority@[best as int] > old(self).priority@[t] || (old(
                        self,
                    ).priority@[best as int] == old(self).priority@[t] && best <= t),
            decreases 32 - s,
        {
            let pending_bit = (self.pending >> (s as u32)) & 1u32;
            let enable_bit = (self.enable[ctx] >> (s as u32)) & 1u32;
            if pending_bit == 1 && enable_bit == 1 && self.priority[s] > self.threshold[ctx] {
                if best == 0 || self.priority[s] > self.priority[best] {
                    best = s;
                }
            }
            s = s + 1;
        }
        if best == 0 {
            proof {
                assert(forall|t: int| !old(self).eligible(ctx as int, t));
            }
            0
        } else {
            let r = best as u32;
            self.pending = self.pending & !(1u32 << r);
            proof {
                assert forall|t: u32| t < PLIC_SOURCES implies bit_is_set(self.pending, t) == (t
                    != r && bit_is_set(old(self).pending, t)) by {
                    lemma_clear_bit(old(self).pending, r, t);
                }
            }
            r
        }
    }

    /// Perform a 32-bit read at `addr`. Only a read of a claim/complete
    /// register has a side effect: it performs the claim for its context.
    pub fn read(&mut self, addr: u64) -> (r: u32)
        requires
            old(self).wf(),
            crate::bus::in_plic(addr),
        ensures
            final (self).wf(),
            is_claim(addr) ==> Plic::claim_rel(*old(self), *final (self), plic_ctx(addr), r),
            !is_claim(addr) ==> *final (self) == *old(self) && r == old(self).spec_read(addr),
    {
        if addr >= PLIC_BASE && addr < PLIC_BASE + 4 * PLIC_SOURCES && (addr - PLIC_BASE) % 4
            == 0 {
            self.priority[((addr - PLIC_BASE) / 4) as usize]
        } else if addr == PLIC_PENDING_ADDR {
            self.pending
        } else if addr >= PLIC_ENABLE_BASE && addr < PLIC_ENABLE_BASE + PLIC_ENABLE_STRIDE
            * PLIC_CONTEXTS && (addr - PLIC_ENABLE_BASE) % PLIC_ENABLE_STRIDE == 0 {
            self.enable[((addr - PLIC_ENABLE_BASE) / PLIC_ENABLE_STRIDE) as usize]
        } else if addr >= PLIC_CONTEXT_BASE && addr < PLIC_CONTEXT_BASE + PLIC_CONTEXT_STRIDE
            * PLIC_CONTEXTS {
            let off = (addr - PLIC_CONTEXT_BASE) % PLIC_CONTEXT_STRIDE;
            let c = ((addr - PLIC_CONTEXT_BASE) / PLIC_CONTEXT_STRIDE) as usize;
            if off == 0 {
                self.threshold[c]
            } else if off == 4 {
                self.claim(c)
            } else {
                0
            }
        } else {
            0
        }
    }

    /// Perform a 32-bit write of `val` at `addr`. A write to a
    /// claim/complete register is the completion signal and changes nothing
    /// here.
    pub fn write(&mut self, addr: u64, val: u32)
        requires
            old(self).wf(),
            crate::bus::in_plic(addr),
        ensures
            final (self).wf(),
            Plic::write_rel(*old(self), *final (self), addr, val),
    {
        if addr >= PLIC_BASE && addr < PLIC_BASE + 4 * PLIC_SOURCES && (addr - PLIC_BASE) % 4
            == 0 {
            self.priority[((addr - PLIC_BASE) / 4) as usize] = val;
        } else if addr == PLIC_PENDING_ADDR {
            self.pending = val;
        } else if addr >= PLIC_ENABLE_BASE && addr < PLIC_ENABLE_BASE + PLIC_ENABLE_STRIDE
            * PLIC_CONTEXTS && (addr - PLIC_ENABLE_BASE) % PLIC_ENABLE_STRIDE == 0 {
            self.enable[((addr - PLIC_ENABLE_BASE) / PLIC_ENABLE_STRIDE) as usize] = val;
        } else if addr >= PLIC_CONTEXT_BASE && addr < PLIC_CONTEXT_BASE + PLIC_CONTEXT_STRIDE
            * PLIC_CONTEXTS && (addr - PLIC_CONTEXT_BASE) % PLIC_CONTEXT_STRIDE == 0 {
            self.threshold[((addr - PLIC_CONTEXT_BASE) / PLIC_CONTEXT_STRIDE) as usize] = val;
        }
    }
}

} // verus!
