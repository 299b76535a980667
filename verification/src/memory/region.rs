//! Address translation and the physical memory map.

use vstd::prelude::*;

use super::Bus;

verus! {

/// The kind of memory that a physical address maps to.
#[derive(Debug, Clone, Copy, PartialEq, Eq, Structural)]
pub enum MemoryRegion {
    /// Main RAM, 0x00000000-0x001FFFFF.
    RAM,
    /// Scratchpad, 0x1F800000-0x1F800FFF (1KB mirrored).
    Scratchpad,
    /// Hardware registers, 0x1F801000-0x1F9FFFFF.
    IO,
    /// BIOS ROM, 0x1FC00000-0x1FC7FFFF.
    BIOS,
    /// The cache control register at 0x1FFE0130.
    CacheControl,
    /// Expansion regions 1, 2 and 3.
    Expansion,
    /// Anything else.
    Unmapped,
}

/// The physical address of a virtual one: KUSEG, KSEG0 and KSEG1 all mirror
/// physical memory, so the top three bits are dropped.
pub open spec fn translate_spec(vaddr: u32) -> u32 {
    vaddr & 0x1FFF_FFFF
}

/// The region that a physical address belongs to.
pub open spec fn region_spec(paddr: u32) -> MemoryRegion {
    if paddr <= 0x001F_FFFF {
        MemoryRegion::RAM
    } else if (0x0020_0000 <= paddr <= 0x1EFF_FFFF) || (0x1F00_0000 <= paddr <= 0x1F7F_FFFF)
        || (0x1FA0_0000 <= paddr <= 0x1FBF_FFFF) {
        MemoryRegion::Expansion
    } else if 0x1F80_0000 <= paddr <= 0x1F80_0FFF {
        MemoryRegion::Scratchpad
    } else if 0x1F80_1000 <= paddr <= 0x1F9F_FFFF {
        MemoryRegion::IO
    } else if 0x1FC0_0000 <= paddr <= 0x1FC7_FFFF {
        MemoryRegion::BIOS
    } else if paddr == 0x1FFE_0130 {
        MemoryRegion::CacheControl
    } else {
        MemoryRegion::Unmapped
    }
}

impl Bus {
    /// Translate a virtual address to its physical address.
    pub fn translate_address(&self, vaddr: u32) -> (r: u32)
        ensures
            r == translate_spec(vaddr),
    {
        vaddr & 0x1FFF_FFFF
    }

    /// The region that a virtual address maps to.
    pub fn identify_region(&self, vaddr: u32) -> (r: MemoryRegion)
        ensures
            r == region_spec(translate_spec(vaddr)),
    {
        let paddr = self.translate_address(vaddr);
        if paddr <= Self::RAM_END {
            MemoryRegion::RAM
        } else if (Self::EXP1_LOW_START <= paddr && paddr <= Self::EXP1_LOW_END) || (
        Self::EXP2_START <= paddr && paddr <= Self::EXP2_END) || (Self::EXP3_START <= paddr
            && paddr <= Self::EXP3_END) {
            MemoryRegion::Expansion
        } else if Self::SCRATCHPAD_START <= paddr && paddr <= Self::SCRATCHPAD_END {
            MemoryRegion::Scratchpad
        } else if Self::IO_START <= paddr && paddr <= Self::IO_END {
            MemoryRegion::IO
        } else if Self::BIOS_START <= paddr && paddr <= Self::BIOS_END {
            MemoryRegion::BIOS
        } else if paddr == Self::CACHE_CONTROL {
            MemoryRegion::CacheControl
        } else {
            MemoryRegion::Unmapped
        }
    }
}

/// The three segments KUSEG, KSEG0 and KSEG1 mirror the same physical memory:
/// an address below 0x20000000 and its two aliases translate alike.
pub proof fn law_segments_mirror(paddr: u32)
    requires
        paddr < 0x2000_0000,
    ensures
        translate_spec(paddr) == paddr,
        translate_spec(paddr | 0x8000_0000) == paddr,
        translate_spec(paddr | 0xA000_0000) == paddr,
        region_spec(translate_spec(paddr | 0x8000_0000)) == region_spec(translate_spec(paddr)),
        region_spec(translate_spec(paddr | 0xA000_0000)) == region_spec(translate_spec(paddr)),
{
    assert(paddr & 0x1FFF_FFFF == paddr) by (bit_vector)
        requires paddr < 0x2000_0000;
    assert((paddr | 0x8000_0000) & 0x1FFF_FFFF == paddr) by (bit_vector)
        requires paddr < 0x2000_0000;
    assert((paddr | 0xA000_0000) & 0x1FFF_FFFF == paddr) by (bit_vector)
        requires paddr < 0x2000_0000;
}

} // verus!
