//! Queues of instruction-cache maintenance work produced by RAM writes, and
//! direct RAM access.

use vstd::prelude::*;

use super::Bus;

verus! {

/// The prefill entries queued for a 32-bit RAM write of `instruction` at
/// `paddr`: both the KSEG0 alias and the physical address, when `paddr` lies
/// in the low 64KB (0x0000-0x10000 inclusive); nothing otherwise.
pub open spec fn prefill_entries_spec(paddr: u32, instruction: u32) -> Seq<(u32, u32)> {
    if paddr <= 0x10000 {
        seq![(0x8000_0000u32 | paddr, instruction), (paddr, instruction)]
    } else {
        seq![]
    }
}

/// The invalidation entries queued for a RAM write at `paddr`: the KSEG0
/// alias and the physical address.
pub open spec fn invalidate_entries_spec(paddr: u32) -> Seq<u32> {
    seq![0x8000_0000u32 | paddr, paddr]
}

/// The range entries queued for a bulk RAM write of `[start, end)`: the KSEG0
/// aliases and the physical range.
pub open spec fn range_entries_spec(start: u32, end: u32) -> Seq<(u32, u32)> {
    seq![(0x8000_0000u32 | start, 0x8000_0000u32 | end), (start, end)]
}

impl Bus {
    /// Take every queued prefill entry, leaving the queue empty.
    pub fn drain_icache_prefill_queue(&mut self) -> (r: Vec<(u32, u32)>)
        requires
            old(self).wf(),
        ensures
            final(self).wf(),
            r@ == old(self).prefill_queue_spec(),
            final(self).prefill_queue_spec().len() == 0,
            final(self).invalidate_queue_spec() == old(self).invalidate_queue_spec(),
            final(self).range_queue_spec() == old(self).range_queue_spec(),
            final(self).same_memory(old(self)),
    {
        let mut out: Vec<(u32, u32)> = Vec::new();
        core::mem::swap(&mut out, &mut self.icache_prefill_queue);
        out
    }

    /// Take every queued invalidation address, leaving the queue empty.
    pub fn drain_icache_invalidate_queue(&mut self) -> (r: Vec<u32>)
        requires
            old(self).wf(),
        ensures
            final(self).wf(),
            r@ == old(self).invalidate_queue_spec(),
            final(self).invalidate_queue_spec().len() == 0,
            final(self).prefill_queue_spec() == old(self).prefill_queue_spec(),
            final(self).range_queue_spec() == old(self).range_queue_spec(),
            final(self).same_memory(old(self)),
    {
        let mut out: Vec<u32> = Vec::new();
        core::mem::swap(&mut out, &mut self.icache_invalidate_queue);
        out
    }

    /// Take every queued range invalidation, leaving the queue empty.
    pub fn drain_icache_invalidate_range_queue(&mut self) -> (r: Vec<(u32, u32)>)
        requires
            old(self).wf(),
        ensures
            final(self).wf(),
            r@ == old(self).range_queue_spec(),
            final(self).range_queue_spec().len() == 0,
            final(self).prefill_queue_spec() == old(self).prefill_queue_spec(),
            final(self).invalidate_queue_spec() == old(self).invalidate_queue_spec(),
            final(self).same_memory(old(self)),
    {
        let mut out: Vec<(u32, u32)> = Vec::new();
        core::mem::swap(&mut out, &mut self.icache_invalidate_range_queue);
        out
    }

    /// Queue a written instruction for icache prefill, at both its KSEG0 alias
    /// and its physical address, when it lies in the low 64KB of RAM.
    pub fn queue_icache_prefill(&mut self, paddr: u32, instruction: u32)
        requires
            old(self).wf(),
        ensures
            final(self).wf(),
            final(self).prefill_queue_spec() == old(self).prefill_queue_spec()
                + prefill_entries_spec(paddr, instruction),
            final(self).invalidate_queue_spec() == old(self).invalidate_queue_spec(),
            final(self).range_queue_spec() == old(self).range_queue_spec(),
            final(self).same_memory(old(self)),
    {
        let offset = paddr as usize;
        if Self::ICACHE_PREFILL_START <= offset && offset <= Self::ICACHE_PREFILL_END {
            let cached_addr = 0x8000_0000u32 | paddr;
            self.icache_prefill_queue.push((cached_addr, instruction));
            self.icache_prefill_queue.push((paddr, instruction));
            assert(self.icache_prefill_queue@ =~= old(self).icache_prefill_queue@
                + prefill_entries_spec(paddr, instruction));
        } else {
            assert(self.icache_prefill_queue@ =~= old(self).icache_prefill_queue@
                + prefill_entries_spec(paddr, instruction));
        }
    }

    /// Queue an address for icache invalidation, at both its KSEG0 alias and
    /// its physical address.
    pub fn queue_icache_invalidation(&mut self, paddr: u32)
        requires
            old(self).wf(),
        ensures
            final(self).wf(),
            final(self).invalidate_queue_spec() == old(self).invalidate_queue_spec()
                + invalidate_entries_spec(paddr),
            final(self).prefill_queue_spec() == old(self).prefill_queue_spec(),
            final(self).range_queue_spec() == old(self).range_queue_spec(),
            final(self).same_memory(old(self)),
    {
        let cached_addr = 0x8000_0000u32 | paddr;
        self.icache_invalidate_queue.push(cached_addr);
        self.icache_invalidate_queue.push(paddr);
        assert(self.icache_invalidate_queue@ =~= old(self).icache_invalidate_queue@
            + invalidate_entries_spec(paddr));
    }

    /// Queue a range `[start, end)` for icache invalidation, at both its
    /// KSEG0 alias and its physical addresses.
    pub fn queue_icache_range_invalidation(&mut self, start_paddr: u32, end_paddr: u32)
        requires
            old(self).wf(),
        ensures
            final(self).wf(),
            final(self).range_queue_spec() == old(self).range_queue_spec()
                + range_entries_spec(start_paddr, end_paddr),
            final(self).prefill_queue_spec() == old(self).prefill_queue_spec(),
            final(self).invalidate_queue_spec() == old(self).invalidate_queue_spec(),
            final(self).same_memory(old(self)),
    {
        let cached_start = 0x8000_0000u32 | start_paddr;
        let cached_end = 0x8000_0000u32 | end_paddr;
        self.icache_invalidate_range_queue.push((cached_start, cached_end));
        self.icache_invalidate_range_queue.push((start_paddr, end_paddr));
        assert(self.icache_invalidate_range_queue@ =~= old(self).icache_invalidate_range_queue@
            + range_entries_spec(start_paddr, end_paddr));
    }

    /// Direct mutable access to the 2MB of RAM. The RAM afterwards is what
    /// the caller left in the slice; that it keeps its length (and so that
    /// the bus stays well-formed) is not stated, as a mutable slice's final
    /// length is not known to the verifier.
    pub fn ram_mut(&mut self) -> (r: &mut [u8])
        requires
            old(self).wf(),
        ensures
            r@ == old(self).ram_spec(),
            final(self).ram_spec() == final(r)@,
            final(self).same_except_ram(old(self)),
            final(self).same_queues(old(self)),
    {
        self.ram.as_mut_slice()
    }
}

} // verus!
