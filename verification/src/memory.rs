//! Memory bus: address translation, RAM, scratchpad, BIOS ROM, the cache
//! control register, expansion regions and memory-mapped I/O.
//!
//! | Physical range          | Region     | Size  |
//! |-------------------------|------------|-------|
//! | 0x00000000-0x001FFFFF   | RAM        | 2MB   |
//! | 0x1F800000-0x1F800FFF   | Scratchpad | 1KB, mirrored |
//! | 0x1F801000-0x1F9FFFFF   | I/O ports  |       |
//! | 0x1FC00000-0x1FC7FFFF   | BIOS ROM   | 512KB |
//!
//! KUSEG, KSEG0 and KSEG1 mirror physical memory: the top three address bits
//! are ignored.

use vstd::prelude::*;

use crate::error::EmulatorError;
use crate::gpu::GPU;
use crate::interrupt::InterruptController;

mod cache;
pub mod cdrom_ports;
pub mod device_ports;
mod io_device;
mod io_ports;
mod region;

pub use io_device::IODevice;
pub use io_device::{law_register16_roundtrip, law_register8_roundtrip};
pub use io_device::{merge16_spec, merge8_spec, extract16_spec, extract8_spec};
pub use io_ports::{io_read8_spec, io_read16_spec};
pub use region::{MemoryRegion, translate_spec, region_spec, law_segments_mirror};
pub use cache::{prefill_entries_spec, invalidate_entries_spec, range_entries_spec};

verus! {

/// The memory bus.
pub struct Bus {
    ram: Vec<u8>,
    icache_prefill_queue: Vec<(u32, u32)>,
    icache_invalidate_queue: Vec<u32>,
    icache_invalidate_range_queue: Vec<(u32, u32)>,
    scratchpad: Vec<u8>,
    bios: Vec<u8>,
    cache_control: u32,
    gpu: Option<GPU>,
    interrupt_controller: Option<InterruptController>,
}

/// A 16-bit little-endian value from two bytes.
pub open spec fn le16_spec(b0: u8, b1: u8) -> u16 {
    ((b1 as u16) << 8u16) | (b0 as u16)
}

/// A 32-bit little-endian value from four bytes.
pub open spec fn le32_spec(b0: u8, b1: u8, b2: u8, b3: u8) -> u32 {
    ((b3 as u32) << 24u32) | ((b2 as u32) << 16u32) | ((b1 as u32) << 8u32) | (b0 as u32)
}

/// The byte of `value` at position `i` (0 is the least significant).
pub open spec fn byte_spec(value: u32, i: u32) -> u8 {
    if i == 0 {
        (value & 0xFF) as u8
    } else if i == 1 {
        ((value >> 8u32) & 0xFF) as u8
    } else if i == 2 {
        ((value >> 16u32) & 0xFF) as u8
    } else {
        ((value >> 24u32) & 0xFF) as u8
    }
}

/// `mem` with `value` stored little-endian at `p`.
pub open spec fn store16_spec(mem: Seq<u8>, p: int, value: u16) -> Seq<u8> {
    mem.update(p, value as u8).update(p + 1, (value >> 8u16) as u8)
}

/// `mem` with `value` stored little-endian at `p`.
pub open spec fn store32_spec(mem: Seq<u8>, p: int, value: u32) -> Seq<u8> {
    mem.update(p, byte_spec(value, 0)).update(p + 1, byte_spec(value, 1)).update(
        p + 2,
        byte_spec(value, 2),
    ).update(p + 3, byte_spec(value, 3))
}

/// Offset into the scratchpad of a scratchpad physical address: the 1KB
/// scratchpad is mirrored over its 4KB window.
pub open spec fn scratch_offset_spec(paddr: u32) -> int {
    ((paddr - 0x1F80_0000) as u32 & 0x3FF) as int
}

/// What an expansion region returns for a read: 0 in the expansion ROM
/// header, all ones elsewhere (`ones` is the all-ones value of the access size).
pub open spec fn expansion_read_spec(paddr: u32, ones: u32) -> u32 {
    if 0x1F00_0000 <= paddr <= 0x1F00_00FF {
        0
    } else {
        ones
    }
}

/// `mem` with the low `width` bytes (1, 2 or 4) of `value` stored
/// little-endian at `p`.
pub open spec fn store_spec(mem: Seq<u8>, p: int, width: int, value: u32) -> Seq<u8> {
    if width == 1 {
        mem.update(p, value as u8)
    } else if width == 2 {
        store16_spec(mem, p, value as u16)
    } else {
        store32_spec(mem, p, value)
    }
}

/// Whether `vaddr` is aligned for an access of `width` bytes (1, 2 or 4).
pub open spec fn aligned_for(vaddr: u32, width: int) -> bool {
    ||| width == 1
    ||| width == 2 && vaddr & 1 == 0
    ||| width == 4 && vaddr & 3 == 0
}

/// The byte cell an address names: its region and the index in RAM (the
/// physical address) or in the scratchpad (the offset within its mirror).
pub open spec fn cell_spec(vaddr: u32) -> (MemoryRegion, int) {
    let paddr = translate_spec(vaddr);
    if region_spec(paddr) == MemoryRegion::Scratchpad {
        (MemoryRegion::Scratchpad, scratch_offset_spec(paddr))
    } else {
        (region_spec(paddr), paddr as int)
    }
}

/// Whether a write of `width` bytes at `w` covers the byte cell `cell`.
pub open spec fn covers(w: u32, width: int, cell: (MemoryRegion, int)) -> bool {
    cell_spec(w).0 == cell.0 && cell_spec(w).1 <= cell.1 < cell_spec(w).1 + width
}

/// What a write of `width` bytes of `value` at `w` does to RAM and the
/// scratchpad: an aligned write to either stores the value little-endian,
/// any other write leaves both unchanged.
pub open spec fn write_effect(old: Bus, new: Bus, w: u32, width: int, value: u32) -> bool {
    let (region, p) = cell_spec(w);
    if aligned_for(w, width) && region == MemoryRegion::RAM {
        new.ram_spec() == store_spec(old.ram_spec(), p, width, value) && new.scratchpad_spec()
            == old.scratchpad_spec()
    } else if aligned_for(w, width) && region == MemoryRegion::Scratchpad {
        new.scratchpad_spec() == store_spec(old.scratchpad_spec(), p, width, value)
            && new.ram_spec() == old.ram_spec()
    } else {
        new.ram_spec() == old.ram_spec() && new.scratchpad_spec() == old.scratchpad_spec()
    }
}

impl Bus {
    /// RAM size (2MB).
    pub const RAM_SIZE: usize = 0x20_0000;
    /// BIOS size (512KB).
    pub const BIOS_SIZE: usize = 0x8_0000;
    /// Scratchpad size (1KB).
    pub const SCRATCHPAD_SIZE: usize = 0x400;
    /// Start of the RAM area whose 32-bit writes are queued for icache prefill.
    pub const ICACHE_PREFILL_START: usize = 0x000;
    /// End (inclusive) of that area.
    pub const ICACHE_PREFILL_END: usize = 0x10000;
    pub const RAM_START: u32 = 0x0000_0000;
    pub const RAM_END: u32 = 0x001F_FFFF;
    pub const SCRATCHPAD_START: u32 = 0x1F80_0000;
    pub const SCRATCHPAD_END: u32 = 0x1F80_0FFF;
    pub const IO_START: u32 = 0x1F80_1000;
    pub const IO_END: u32 = 0x1F9F_FFFF;
    pub const BIOS_START: u32 = 0x1FC0_0000;
    pub const BIOS_END: u32 = 0x1FC7_FFFF;
    pub const CACHE_CONTROL: u32 = 0x1FFE_0130;
    pub const EXP1_LOW_START: u32 = 0x0020_0000;
    pub const EXP1_LOW_END: u32 = 0x1EFF_FFFF;
    pub const EXP2_START: u32 = 0x1F00_0000;
    pub const EXP2_END: u32 = 0x1F7F_FFFF;
    pub const EXP3_START: u32 = 0x1FA0_0000;
    pub const EXP3_END: u32 = 0x1FBF_FFFF;
    /// GPU GP0 / GPUREAD register.
    pub const GPU_GP0: u32 = 0x1F80_1810;
    /// GPU GP1 / GPUSTAT register.
    pub const GPU_GP1: u32 = 0x1F80_1814;
    pub const JOY_DATA: u32 = 0x1F80_1040;
    pub const JOY_STAT: u32 = 0x1F80_1044;
    pub const JOY_MODE: u32 = 0x1F80_1048;
    pub const JOY_CTRL: u32 = 0x1F80_104A;
    pub const JOY_BAUD: u32 = 0x1F80_104E;
    pub const TIMER0_COUNTER: u32 = 0x1F80_1100;
    pub const TIMER0_MODE: u32 = 0x1F80_1104;
    pub const TIMER0_TARGET: u32 = 0x1F80_1108;
    pub const TIMER1_COUNTER: u32 = 0x1F80_1110;
    pub const TIMER1_MODE: u32 = 0x1F80_1114;
    pub const TIMER1_TARGET: u32 = 0x1F80_1118;
    pub const TIMER2_COUNTER: u32 = 0x1F80_1120;
    pub const TIMER2_MODE: u32 = 0x1F80_1124;
    pub const TIMER2_TARGET: u32 = 0x1F80_1128;
    /// Interrupt status register.
    pub const I_STAT: u32 = 0x1F80_1070;
    /// Interrupt mask register.
    pub const I_MASK: u32 = 0x1F80_1074;
    pub const DMA_DPCR: u32 = 0x1F80_10F0;
    pub const DMA_DICR: u32 = 0x1F80_10F4;
    pub const CDROM_INDEX: u32 = 0x1F80_1800;
    pub const CDROM_REG1: u32 = 0x1F80_1801;
    pub const CDROM_REG2: u32 = 0x1F80_1802;
    pub const CDROM_REG3: u32 = 0x1F80_1803;

    /// The bus is well formed: every memory has its size and an attached GPU
    /// is well formed.
    pub closed spec fn wf(&self) -> bool {
        &&& self.ram@.len() == Self::RAM_SIZE
        &&& self.bios@.len() == Self::BIOS_SIZE
        &&& self.scratchpad@.len() == Self::SCRATCHPAD_SIZE
        &&& (self.gpu matches Some(g) ==> g.wf())
    }

    /// Contents of main RAM.
    pub closed spec fn ram_spec(&self) -> Seq<u8> {
        self.ram@
    }

    /// Contents of the scratchpad.
    pub closed spec fn scratchpad_spec(&self) -> Seq<u8> {
        self.scratchpad@
    }

    /// Contents of the BIOS ROM.
    pub closed spec fn bios_spec(&self) -> Seq<u8> {
        self.bios@
    }

    /// The cache control register.
    pub closed spec fn cache_control_spec(&self) -> u32 {
        self.cache_control
    }

    /// Pending icache prefill entries (address, instruction).
    pub closed spec fn prefill_queue_spec(&self) -> Seq<(u32, u32)> {
        self.icache_prefill_queue@
    }

    /// Pending icache invalidation addresses.
    pub closed spec fn invalidate_queue_spec(&self) -> Seq<u32> {
        self.icache_invalidate_queue@
    }

    /// Pending icache range invalidations (start, end).
    pub closed spec fn range_queue_spec(&self) -> Seq<(u32, u32)> {
        self.icache_invalidate_range_queue@
    }

    /// The attached GPU.
    pub closed spec fn gpu_spec(&self) -> Option<GPU> {
        self.gpu
    }

    /// The attached interrupt controller.
    pub closed spec fn interrupt_controller_spec(&self) -> Option<InterruptController> {
        self.interrupt_controller
    }

    /// Everything but the memories and queues is unchanged.
    pub open spec fn same_devices(&self, other: &Bus) -> bool {
        &&& self.gpu_spec() == other.gpu_spec()
        &&& self.interrupt_controller_spec() == other.interrupt_controller_spec()
    }

    /// Everything but RAM and the icache queues is unchanged.
    pub open spec fn same_except_ram(&self, other: &Bus) -> bool {
        &&& self.same_devices(other)
        &&& self.scratchpad_spec() == other.scratchpad_spec()
        &&& self.bios_spec() == other.bios_spec()
        &&& self.cache_control_spec() == other.cache_control_spec()
    }

    /// Only the icache queues may differ.
    pub open spec fn same_memory(&self, other: &Bus) -> bool {
        &&& self.same_except_ram(other)
        &&& self.ram_spec() == other.ram_spec()
    }

    /// A new bus: all memories zero, no queued icache work, no device attached.
    pub fn new() -> (bus: Self)
        ensures
            bus.wf(),
            bus.ram_spec() == Seq::new(Self::RAM_SIZE as nat, |i: int| 0u8),
            bus.scratchpad_spec() == Seq::new(Self::SCRATCHPAD_SIZE as nat, |i: int| 0u8),
            bus.bios_spec() == Seq::new(Self::BIOS_SIZE as nat, |i: int| 0u8),
            bus.cache_control_spec() == 0,
            bus.prefill_queue_spec().len() == 0,
            bus.invalidate_queue_spec().len() == 0,
            bus.range_queue_spec().len() == 0,
            bus.gpu_spec().is_none(),
            bus.interrupt_controller_spec().is_none(),
    {
        let ram = zeroed(Self::RAM_SIZE);
        let scratchpad = zeroed(Self::SCRATCHPAD_SIZE);
        let bios = zeroed(Self::BIOS_SIZE);
        Bus {
            ram,
            icache_prefill_queue: Vec::new(),
            icache_invalidate_queue: Vec::new(),
            icache_invalidate_range_queue: Vec::new(),
            scratchpad,
            bios,
            cache_control: 0,
            gpu: None,
            interrupt_controller: None,
        }
    }

    /// Attach the GPU that serves GP0/GP1.
    pub fn set_gpu(&mut self, gpu: GPU)
        requires
            old(self).wf(),
            gpu.wf(),
        ensures
            final(self).wf(),
            final(self).gpu_spec() == Some(gpu),
            final(self).interrupt_controller_spec() == old(self).interrupt_controller_spec(),
            final(self).ram_spec() == old(self).ram_spec(),
            final(self).scratchpad_spec() == old(self).scratchpad_spec(),
            final(self).bios_spec() == old(self).bios_spec(),
            final(self).cache_control_spec() == old(self).cache_control_spec(),
    {
        self.gpu = Some(gpu);
    }

    /// Attach the interrupt controller that serves I_STAT/I_MASK.
    pub fn set_interrupt_controller(&mut self, interrupt_controller: InterruptController)
        requires
            old(self).wf(),
        ensures
            final(self).wf(),
            final(self).interrupt_controller_spec() == Some(interrupt_controller),
            final(self).gpu_spec() == old(self).gpu_spec(),
            final(self).ram_spec() == old(self).ram_spec(),
            final(self).scratchpad_spec() == old(self).scratchpad_spec(),
            final(self).bios_spec() == old(self).bios_spec(),
            final(self).cache_control_spec() == old(self).cache_control_spec(),
    {
        self.interrupt_controller = Some(interrupt_controller);
    }

    /// Detach the GPU and hand it over (to rasterize its queued draws, for
    /// instance); `set_gpu` attaches it again.
    pub fn take_gpu(&mut self) -> (r: Option<GPU>)
        requires
            old(self).wf(),
        ensures
            final(self).wf(),
            r == old(self).gpu_spec(),
            r matches Some(g) ==> g.wf(),
            final(self).gpu_spec() is None,
            final(self).interrupt_controller_spec() == old(self).interrupt_controller_spec(),
            final(self).same_storage(old(self)),
    {
        let mut gpu: Option<GPU> = None;
        core::mem::swap(&mut gpu, &mut self.gpu);
        gpu
    }

    /// Request an interrupt on the attached controller (nothing happens
    /// without one); devices outside the bus raise their interrupts here.
    pub fn request_interrupt(&mut self, interrupt: u16)
        requires
            old(self).wf(),
        ensures
            final(self).wf(),
            final(self).ram_spec() == old(self).ram_spec(),
            final(self).scratchpad_spec() == old(self).scratchpad_spec(),
            final(self).bios_spec() == old(self).bios_spec(),
            final(self).cache_control_spec() == old(self).cache_control_spec(),
            final(self).gpu_spec() == old(self).gpu_spec(),
            match old(self).interrupt_controller_spec() {
                Some(ic) => final(self).interrupt_controller_spec() matches Some(ic2)
                    && ic2.status_spec() == ic.status_spec() | interrupt
                    && ic2.mask_spec() == ic.mask_spec(),
                None => final(self).interrupt_controller_spec().is_none(),
            },
    {
        if let Some(ic) = &mut self.interrupt_controller {
            ic.request(interrupt);
        }
    }

    /// Reset: RAM, scratchpad, the cache control register and the icache
    /// queues are cleared; the BIOS ROM and attached devices are kept.
    pub fn reset(&mut self)
        requires
            old(self).wf(),
        ensures
            final(self).wf(),
            final(self).ram_spec() == Seq::new(Self::RAM_SIZE as nat, |i: int| 0u8),
            final(self).scratchpad_spec() == Seq::new(Self::SCRATCHPAD_SIZE as nat, |i: int| 0u8),
            final(self).bios_spec() == old(self).bios_spec(),
            final(self).cache_control_spec() == 0,
            final(self).prefill_queue_spec().len() == 0,
            final(self).invalidate_queue_spec().len() == 0,
            final(self).range_queue_spec().len() == 0,
            final(self).same_devices(old(self)),
    {
        fill_zero(&mut self.ram);
        self.icache_prefill_queue.clear();
        self.icache_invalidate_queue.clear();
        self.icache_invalidate_range_queue.clear();
        fill_zero(&mut self.scratchpad);
        self.cache_control = 0;
    }

    /// Load a BIOS image. It must be exactly 512KB; otherwise the BIOS ROM is
    /// left unchanged and the size mismatch is reported.
    pub fn load_bios_image(&mut self, data: &[u8]) -> (r: Result<(), EmulatorError>)
        requires
            old(self).wf(),
        ensures
            final(self).wf(),
            data@.len() == Self::BIOS_SIZE ==> r is Ok && final(self).bios_spec() == data@,
            data@.len() != Self::BIOS_SIZE ==> r == Err::<(), EmulatorError>(
                EmulatorError::InvalidBiosSize { expected: Self::BIOS_SIZE, got: data@.len() as usize },
            ) && final(self).bios_spec() == old(self).bios_spec(),
            final(self).ram_spec() == old(self).ram_spec(),
            final(self).scratchpad_spec() == old(self).scratchpad_spec(),
            final(self).cache_control_spec() == old(self).cache_control_spec(),
            final(self).prefill_queue_spec() == old(self).prefill_queue_spec(),
            final(self).invalidate_queue_spec() == old(self).invalidate_queue_spec(),
            final(self).range_queue_spec() == old(self).range_queue_spec(),
            final(self).same_devices(old(self)),
    {
        if data.len() != Self::BIOS_SIZE {
            return Err(EmulatorError::InvalidBiosSize { expected: Self::BIOS_SIZE, got: data.len() });
        }
        let mut i: usize = 0;
        while i < data.len()
            invariant
                data@.len() == Self::BIOS_SIZE,
                self.bios@.len() == Self::BIOS_SIZE,
                0 <= i <= data@.len(),
                forall|j: int| 0 <= j < i ==> self.bios@[j] == data@[j],
                self.ram == old(self).ram,
                self.scratchpad == old(self).scratchpad,
                self.cache_control == old(self).cache_control,
                self.icache_prefill_queue == old(self).icache_prefill_queue,
                self.icache_invalidate_queue == old(self).icache_invalidate_queue,
                self.icache_invalidate_range_queue == old(self).icache_invalidate_range_queue,
                self.gpu == old(self).gpu,
                self.interrupt_controller == old(self).interrupt_controller,
            decreases data@.len() - i,
        {
            self.bios.set(i, data[i]);
            i = i + 1;
        }
        assert(self.bios@ =~= data@);
        Ok(())
    }

    /// What an 8-bit read returns.
    pub open spec fn read8_spec(&self, vaddr: u32) -> Result<u8, EmulatorError> {
        let paddr = translate_spec(vaddr);
        match region_spec(paddr) {
            MemoryRegion::RAM => Ok(self.ram_spec()[paddr as int]),
            MemoryRegion::Scratchpad => Ok(self.scratchpad_spec()[scratch_offset_spec(paddr)]),
            MemoryRegion::BIOS => Ok(self.bios_spec()[paddr - Self::BIOS_START]),
            MemoryRegion::IO => Ok(io_read8_spec(paddr)),
            MemoryRegion::CacheControl => Ok(0u8),
            MemoryRegion::Expansion => Ok(expansion_read_spec(paddr, 0xFF) as u8),
            MemoryRegion::Unmapped => Err(EmulatorError::InvalidMemoryAccess { address: vaddr }),
        }
    }

    /// What a 16-bit read returns.
    pub open spec fn read16_spec(&self, vaddr: u32) -> Result<u16, EmulatorError> {
        let paddr = translate_spec(vaddr);
        if vaddr & 1 != 0 {
            Err(EmulatorError::UnalignedAccess { address: vaddr, size: 2 })
        } else {
            match region_spec(paddr) {
                MemoryRegion::RAM => Ok(
                    le16_spec(self.ram_spec()[paddr as int], self.ram_spec()[paddr + 1]),
                ),
                MemoryRegion::Scratchpad => Ok(
                    le16_spec(
                        self.scratchpad_spec()[scratch_offset_spec(paddr)],
                        self.scratchpad_spec()[scratch_offset_spec(paddr) + 1],
                    ),
                ),
                MemoryRegion::BIOS => Ok(
                    le16_spec(
                        self.bios_spec()[paddr - Self::BIOS_START],
                        self.bios_spec()[paddr - Self::BIOS_START + 1],
                    ),
                ),
                MemoryRegion::IO => Ok(io_read16_spec(paddr)),
                MemoryRegion::CacheControl => Ok(0u16),
                MemoryRegion::Expansion => Ok(expansion_read_spec(paddr, 0xFFFF) as u16),
                MemoryRegion::Unmapped => Err(
                    EmulatorError::InvalidAddress { address: vaddr },
                ),
            }
        }
    }

    /// Read a byte. Any address is aligned for a byte access.
    pub fn read8(&self, vaddr: u32) -> (r: Result<u8, EmulatorError>)
        requires
            self.wf(),
        ensures
            r == self.read8_spec(vaddr),
    {
        let paddr = self.translate_address(vaddr);
        match self.identify_region(vaddr) {
            MemoryRegion::RAM => Ok(self.ram[paddr as usize]),
            MemoryRegion::Scratchpad => {
                let offset = ((paddr - Self::SCRATCHPAD_START) & 0x3FF) as usize;
                proof { lemma_scratch_offset(paddr); }
                Ok(self.scratchpad[offset])
            },
            MemoryRegion::BIOS => Ok(self.bios[(paddr - Self::BIOS_START) as usize]),
            MemoryRegion::IO => self.read_io_port8(paddr),
            MemoryRegion::CacheControl => Ok(0),
            MemoryRegion::Expansion => {
                if 0x1F00_0000 <= paddr && paddr <= 0x1F00_00FF {
                    Ok(0x00)
                } else {
                    Ok(0xFF)
                }
            },
            MemoryRegion::Unmapped => Err(EmulatorError::InvalidMemoryAccess { address: vaddr }),
        }
    }

    /// Read a little-endian halfword; the address must be 2-byte aligned
    /// (else `UnalignedAccess`), and an unmapped address is `InvalidAddress`.
    pub fn read16(&self, vaddr: u32) -> (r: Result<u16, EmulatorError>)
        requires
            self.wf(),
        ensures
            r == self.read16_spec(vaddr),
    {
        if vaddr & 0x1 != 0 {
            return Err(EmulatorError::UnalignedAccess { address: vaddr, size: 2 });
        }
        let paddr = self.translate_address(vaddr);
        proof { lemma_aligned_paddr(vaddr); }
        match self.identify_region(vaddr) {
            MemoryRegion::RAM => {
                let offset = paddr as usize;
                Ok(le16(self.ram[offset], self.ram[offset + 1]))
            },
            MemoryRegion::Scratchpad => {
                let offset = ((paddr - Self::SCRATCHPAD_START) & 0x3FF) as usize;
                proof { lemma_scratch_offset(paddr); }
                Ok(le16(self.scratchpad[offset], self.scratchpad[offset + 1]))
            },
            MemoryRegion::BIOS => {
                let offset = (paddr - Self::BIOS_START) as usize;
                Ok(le16(self.bios[offset], self.bios[offset + 1]))
            },
            MemoryRegion::IO => self.read_io_port16(paddr),
            MemoryRegion::CacheControl => Ok(0),
            MemoryRegion::Expansion => {
                if 0x1F00_0000 <= paddr && paddr <= 0x1F00_00FF {
                    Ok(0x0000)
                } else {
                    Ok(0xFFFF)
                }
            },
            MemoryRegion::Unmapped => Err(EmulatorError::InvalidAddress { address: vaddr }),
        }
    }
}


impl Bus {
    /// What a 32-bit read returns, for an address outside the I/O region.
    pub open spec fn read32_plain_spec(&self, vaddr: u32) -> Result<u32, EmulatorError> {
        let paddr = translate_spec(vaddr);
        if vaddr & 3 != 0 {
            Err(EmulatorError::UnalignedAccess { address: vaddr, size: 4 })
        } else {
            match region_spec(paddr) {
                MemoryRegion::RAM => Ok(
                    le32_spec(
                        self.ram_spec()[paddr as int],
                        self.ram_spec()[paddr + 1],
                        self.ram_spec()[paddr + 2],
                        self.ram_spec()[paddr + 3],
                    ),
                ),
                MemoryRegion::Scratchpad => Ok(
                    le32_spec(
                        self.scratchpad_spec()[scratch_offset_spec(paddr)],
                        self.scratchpad_spec()[scratch_offset_spec(paddr) + 1],
                        self.scratchpad_spec()[scratch_offset_spec(paddr) + 2],
                        self.scratchpad_spec()[scratch_offset_spec(paddr) + 3],
                    ),
                ),
                MemoryRegion::BIOS => Ok(
                    le32_spec(
                        self.bios_spec()[paddr - Self::BIOS_START],
                        self.bios_spec()[paddr - Self::BIOS_START + 1],
                        self.bios_spec()[paddr - Self::BIOS_START + 2],
                        self.bios_spec()[paddr - Self::BIOS_START + 3],
                    ),
                ),
                MemoryRegion::IO => Ok(0u32),
                MemoryRegion::CacheControl => Ok(self.cache_control_spec()),
                MemoryRegion::Expansion => Ok(expansion_read_spec(paddr, 0xFFFF_FFFF)),
                MemoryRegion::Unmapped => Err(
                    EmulatorError::InvalidAddress { address: vaddr },
                ),
            }
        }
    }

    /// Read a little-endian word; the address must be 4-byte aligned (else
    /// `UnalignedAccess`), and an unmapped address is `InvalidAddress`. Reads from the I/O region go to the attached devices (a GPUREAD read
    /// consumes data from the GPU, hence `&mut self`).
    pub fn read32(&mut self, vaddr: u32) -> (r: Result<u32, EmulatorError>)
        requires
            old(self).wf(),
        ensures
            final(self).wf(),
            region_spec(translate_spec(vaddr)) != MemoryRegion::IO || vaddr & 3 != 0 ==> {
                &&& r == old(self).read32_plain_spec(vaddr)
                &&& *final(self) == *old(self)
            },
            region_spec(translate_spec(vaddr)) == MemoryRegion::IO && vaddr & 3 == 0 ==> {
                &&& r == Ok::<u32, EmulatorError>(old(self).io_read32_spec(translate_spec(vaddr)))
                &&& final(self).io_read32_post(old(self), translate_spec(vaddr))
            },
    {
        if vaddr & 0x3 != 0 {
            return Err(EmulatorError::UnalignedAccess { address: vaddr, size: 4 });
        }
        let paddr = self.translate_address(vaddr);
        proof { lemma_aligned_paddr(vaddr); }
        match self.identify_region(vaddr) {
            MemoryRegion::RAM => {
                let offset = paddr as usize;
                Ok(
                    le32(
                        self.ram[offset],
                        self.ram[offset + 1],
                        self.ram[offset + 2],
                        self.ram[offset + 3],
                    ),
                )
            },
            MemoryRegion::Scratchpad => {
                let offset = ((paddr - Self::SCRATCHPAD_START) & 0x3FF) as usize;
                proof { lemma_scratch_offset(paddr); }
                Ok(
                    le32(
                        self.scratchpad[offset],
                        self.scratchpad[offset + 1],
                        self.scratchpad[offset + 2],
                        self.scratchpad[offset + 3],
                    ),
                )
            },
            MemoryRegion::BIOS => {
                let offset = (paddr - Self::BIOS_START) as usize;
                Ok(
                    le32(
                        self.bios[offset],
                        self.bios[offset + 1],
                        self.bios[offset + 2],
                        self.bios[offset + 3],
                    ),
                )
            },
            MemoryRegion::IO => self.read_io_port32(paddr),
            MemoryRegion::CacheControl => Ok(self.cache_control),
            MemoryRegion::Expansion => {
                if 0x1F00_0000 <= paddr && paddr <= 0x1F00_00FF {
                    Ok(0x0000_0000)
                } else {
                    Ok(0xFFFF_FFFF)
                }
            },
            MemoryRegion::Unmapped => Err(EmulatorError::InvalidAddress { address: vaddr }),
        }
    }

    /// Write a byte. RAM and scratchpad take it; cache control (8-bit),
    /// expansion regions and the I/O ports in this bus ignore it; the
    /// read-only BIOS and an unmapped address refuse it with an error and
    /// leave the bus unchanged.
    pub fn write8(&mut self, vaddr: u32, value: u8) -> (r: Result<(), EmulatorError>)
        requires
            old(self).wf(),
        ensures
            final(self).wf(),
            write_effect(*old(self), *final(self), vaddr, 1, value as u32),
            final(self).prefill_queue_spec() == old(self).prefill_queue_spec(),
            final(self).invalidate_queue_spec() == old(self).invalidate_queue_spec(),
            final(self).range_queue_spec() == old(self).range_queue_spec(),
            ({
                let paddr = translate_spec(vaddr);
                match region_spec(paddr) {
                    MemoryRegion::RAM => r is Ok && final(self).same_except_ram(old(self))
                        && final(self).ram_spec() == old(self).ram_spec().update(paddr as int, value),
                    MemoryRegion::Scratchpad => r is Ok && final(self).same_devices(old(self))
                        && final(self).ram_spec() == old(self).ram_spec()
                        && final(self).bios_spec() == old(self).bios_spec()
                        && final(self).cache_control_spec() == old(self).cache_control_spec()
                        && final(self).scratchpad_spec() == old(self).scratchpad_spec().update(
                        scratch_offset_spec(paddr),
                        value,
                    ),
                    MemoryRegion::BIOS => r == Err::<(), EmulatorError>(
                        EmulatorError::InvalidMemoryAccess { address: vaddr },
                    ) && *final(self) == *old(self),
                    MemoryRegion::Unmapped => r == Err::<(), EmulatorError>(
                        EmulatorError::InvalidMemoryAccess { address: vaddr },
                    ) && final(self).same_memory(old(self)),
                    _ => r is Ok && final(self).same_memory(old(self)),
                }
            }),
    {
        let paddr = self.translate_address(vaddr);
        match self.identify_region(vaddr) {
            MemoryRegion::RAM => {
                self.ram.set(paddr as usize, value);
                Ok(())
            },
            MemoryRegion::Scratchpad => {
                let offset = ((paddr - Self::SCRATCHPAD_START) & 0x3FF) as usize;
                proof { lemma_scratch_offset(paddr); }
                self.scratchpad.set(offset, value);
                Ok(())
            },
            MemoryRegion::BIOS => Err(EmulatorError::InvalidMemoryAccess { address: vaddr }),
            MemoryRegion::IO => self.write_io_port8(paddr, value),
            MemoryRegion::CacheControl => Ok(()),
            MemoryRegion::Expansion => Ok(()),
            MemoryRegion::Unmapped => Err(EmulatorError::InvalidMemoryAccess { address: vaddr }),
        }
    }

    /// Write a little-endian halfword; the address must be 2-byte aligned
    /// (else `UnalignedAccess`), and an unmapped address is `InvalidAddress`.
    pub fn write16(&mut self, vaddr: u32, value: u16) -> (r: Result<(), EmulatorError>)
        requires
            old(self).wf(),
        ensures
            final(self).wf(),
            write_effect(*old(self), *final(self), vaddr, 2, value as u32),
            final(self).prefill_queue_spec() == old(self).prefill_queue_spec(),
            final(self).invalidate_queue_spec() == old(self).invalidate_queue_spec(),
            final(self).range_queue_spec() == old(self).range_queue_spec(),
            vaddr & 1 != 0 ==> r == Err::<(), EmulatorError>(
                EmulatorError::UnalignedAccess { address: vaddr, size: 2 },
            ) && final(self).same_memory(old(self)),
            vaddr & 1 == 0 ==> ({
                let paddr = translate_spec(vaddr);
                match region_spec(paddr) {
                    MemoryRegion::RAM => r is Ok && final(self).same_except_ram(old(self))
                        && final(self).ram_spec() == store16_spec(old(self).ram_spec(), paddr as int, value),
                    MemoryRegion::Scratchpad => r is Ok && final(self).same_devices(old(self))
                        && final(self).ram_spec() == old(self).ram_spec()
                        && final(self).bios_spec() == old(self).bios_spec()
                        && final(self).cache_control_spec() == old(self).cache_control_spec()
                        && final(self).scratchpad_spec() == store16_spec(
                        old(self).scratchpad_spec(),
                        scratch_offset_spec(paddr),
                        value,
                    ),
                    MemoryRegion::Unmapped => r == Err::<(), EmulatorError>(
                        EmulatorError::InvalidAddress { address: vaddr },
                    ) && final(self).same_memory(old(self)),
                    _ => r is Ok && final(self).same_memory(old(self)),
                }
            }),
    {
        if vaddr & 0x1 != 0 {
            return Err(EmulatorError::UnalignedAccess { address: vaddr, size: 2 });
        }
        let paddr = self.translate_address(vaddr);
        proof { lemma_aligned_paddr(vaddr); }
        let b0 = value as u8;
        let b1 = (value >> 8u16) as u8;
        match self.identify_region(vaddr) {
            MemoryRegion::RAM => {
                let offset = paddr as usize;
                self.ram.set(offset, b0);
                self.ram.set(offset + 1, b1);
                Ok(())
            },
            MemoryRegion::Scratchpad => {
                let offset = ((paddr - Self::SCRATCHPAD_START) & 0x3FF) as usize;
                proof { lemma_scratch_offset(paddr); }
                self.scratchpad.set(offset, b0);
                self.scratchpad.set(offset + 1, b1);
                Ok(())
            },
            MemoryRegion::BIOS => Ok(()),
            MemoryRegion::IO => self.write_io_port16(paddr, value),
            MemoryRegion::CacheControl => Ok(()),
            MemoryRegion::Expansion => Ok(()),
            MemoryRegion::Unmapped => Err(EmulatorError::InvalidAddress { address: vaddr }),
        }
    }

    /// Write a little-endian word; the address must be 4-byte aligned (else
    /// `UnalignedAccess`), and an unmapped address is `InvalidAddress`. A RAM write is also queued for icache invalidation (both aliases) and,
    /// in the low 64KB, for icache prefill. A write to the cache control
    /// register sets it; I/O writes go to the attached devices.
    pub fn write32(&mut self, vaddr: u32, value: u32) -> (r: Result<(), EmulatorError>)
        requires
            old(self).wf(),
        ensures
            final(self).wf(),
            write_effect(*old(self), *final(self), vaddr, 4, value),
            vaddr & 3 != 0 ==> r == Err::<(), EmulatorError>(
                EmulatorError::UnalignedAccess { address: vaddr, size: 4 },
            ) && *final(self) == *old(self),
            vaddr & 3 == 0 ==> ({
                let paddr = translate_spec(vaddr);
                match region_spec(paddr) {
                    MemoryRegion::RAM => r is Ok && final(self).same_except_ram(old(self))
                        && final(self).ram_spec() == store32_spec(old(self).ram_spec(), paddr as int, value)
                        && final(self).invalidate_queue_spec() == old(self).invalidate_queue_spec()
                        + invalidate_entries_spec(paddr)
                        && final(self).prefill_queue_spec() == old(self).prefill_queue_spec()
                        + prefill_entries_spec(paddr, value)
                        && final(self).range_queue_spec() == old(self).range_queue_spec(),
                    MemoryRegion::Scratchpad => r is Ok && final(self).same_devices(old(self))
                        && final(self).ram_spec() == old(self).ram_spec()
                        && final(self).bios_spec() == old(self).bios_spec()
                        && final(self).cache_control_spec() == old(self).cache_control_spec()
                        && final(self).scratchpad_spec() == store32_spec(
                        old(self).scratchpad_spec(),
                        scratch_offset_spec(paddr),
                        value,
                    )
                        && final(self).same_queues(old(self)),
                    MemoryRegion::CacheControl => r is Ok && final(self).cache_control_spec()
                        == value && final(self).same_devices(old(self)) && final(self).ram_spec()
                        == old(self).ram_spec() && final(self).scratchpad_spec()
                        == old(self).scratchpad_spec() && final(self).bios_spec()
                        == old(self).bios_spec() && final(self).same_queues(old(self)),
                    MemoryRegion::IO => r is Ok && final(self).io_write32_post(old(self), paddr, value),
                    MemoryRegion::Unmapped => r == Err::<(), EmulatorError>(
                        EmulatorError::InvalidAddress { address: vaddr },
                    ) && *final(self) == *old(self),
                    _ => r is Ok && *final(self) == *old(self),
                }
            }),
    {
        if vaddr & 0x3 != 0 {
            return Err(EmulatorError::UnalignedAccess { address: vaddr, size: 4 });
        }
        let paddr = self.translate_address(vaddr);
        proof { lemma_aligned_paddr(vaddr); }
        let b0 = (value & 0xFF) as u8;
        let b1 = ((value >> 8u32) & 0xFF) as u8;
        let b2 = ((value >> 16u32) & 0xFF) as u8;
        let b3 = ((value >> 24u32) & 0xFF) as u8;
        match self.identify_region(vaddr) {
            MemoryRegion::RAM => {
                let offset = paddr as usize;
                self.ram.set(offset, b0);
                self.ram.set(offset + 1, b1);
                self.ram.set(offset + 2, b2);
                self.ram.set(offset + 3, b3);
                self.queue_icache_invalidation(paddr);
                self.queue_icache_prefill(paddr, value);
                Ok(())
            },
            MemoryRegion::Scratchpad => {
                let offset = ((paddr - Self::SCRATCHPAD_START) & 0x3FF) as usize;
                proof { lemma_scratch_offset(paddr); }
                self.scratchpad.set(offset, b0);
                self.scratchpad.set(offset + 1, b1);
                self.scratchpad.set(offset + 2, b2);
                self.scratchpad.set(offset + 3, b3);
                Ok(())
            },
            MemoryRegion::BIOS => Ok(()),
            MemoryRegion::IO => self.write_io_port32(paddr, value),
            MemoryRegion::CacheControl => {
                self.cache_control = value;
                Ok(())
            },
            MemoryRegion::Expansion => Ok(()),
            MemoryRegion::Unmapped => Err(EmulatorError::InvalidAddress { address: vaddr }),
        }
    }

    /// The icache queues are unchanged.
    pub open spec fn same_queues(&self, other: &Bus) -> bool {
        &&& self.prefill_queue_spec() == other.prefill_queue_spec()
        &&& self.invalidate_queue_spec() == other.invalidate_queue_spec()
        &&& self.range_queue_spec() == other.range_queue_spec()
    }

    /// Whether the attached interrupt controller has an unmasked interrupt
    /// pending (false without a controller).
    pub fn is_interrupt_pending(&self) -> (r: bool)
        ensures
            r == match self.interrupt_controller_spec() {
                Some(ic) => crate::interrupt::pending_spec(ic.status_spec(), ic.mask_spec()),
                None => false,
            },
    {
        match &self.interrupt_controller {
            Some(ic) => ic.is_pending(),
            None => false,
        }
    }

    /// Copy `data` into RAM at `address` (masked to the RAM range), and queue
    /// the written range for icache invalidation (both aliases). Fails when
    /// the data would run past the end of RAM.
    pub fn write_ram_slice(&mut self, address: u32, data: &[u8]) -> (r: Result<(), EmulatorError>)
        requires
            old(self).wf(),
        ensures
            final(self).wf(),
            ({
                let paddr = (address & 0x1F_FFFF) as int;
                if paddr + data@.len() > Self::RAM_SIZE {
                    r == Err::<(), EmulatorError>(EmulatorError::InvalidMemoryAccess { address })
                        && *final(self) == *old(self)
                } else {
                    &&& r is Ok
                    &&& final(self).same_except_ram(old(self))
                    &&& final(self).ram_spec() == old(self).ram_spec().subrange(0, paddr) + data@
                        + old(self).ram_spec().subrange(paddr + data@.len(), Self::RAM_SIZE as int)
                    &&& final(self).range_queue_spec() == old(self).range_queue_spec()
                        + range_entries_spec(paddr as u32, (paddr + data@.len()) as u32)
                    &&& final(self).prefill_queue_spec() == old(self).prefill_queue_spec()
                    &&& final(self).invalidate_queue_spec() == old(self).invalidate_queue_spec()
                }
            }),
    {
        assert(address & 0x1F_FFFF <= 0x1F_FFFF) by (bit_vector);
        let paddr = (address & 0x1F_FFFF) as usize;
        if data.len() > Self::RAM_SIZE - paddr {
            return Err(EmulatorError::InvalidMemoryAccess { address });
        }
        let n = data.len();
        let mut i: usize = 0;
        while i < n
            invariant
                n == data@.len(),
                paddr + n <= Self::RAM_SIZE,
                self.ram@.len() == Self::RAM_SIZE,
                i <= n,
                forall|j: int| 0 <= j < paddr ==> self.ram@[j] == old(self).ram@[j],
                forall|j: int| paddr + n <= j < Self::RAM_SIZE ==> self.ram@[j] == old(self).ram@[j],
                forall|j: int| 0 <= j < i ==> self.ram@[paddr + j] == data@[j],
                self.bios == old(self).bios,
                self.scratchpad == old(self).scratchpad,
                self.cache_control == old(self).cache_control,
                self.icache_prefill_queue == old(self).icache_prefill_queue,
                self.icache_invalidate_queue == old(self).icache_invalidate_queue,
                self.icache_invalidate_range_queue == old(self).icache_invalidate_range_queue,
                self.gpu == old(self).gpu,
                self.interrupt_controller == old(self).interrupt_controller,
            decreases n - i,
        {
            self.ram.set(paddr + i, data[i]);
            i = i + 1;
        }
        assert(self.ram@ =~= old(self).ram@.subrange(0, paddr as int) + data@ + old(
            self,
        ).ram@.subrange(paddr + n, Self::RAM_SIZE as int));
        self.queue_icache_range_invalidation(paddr as u32, (paddr + n) as u32);
        Ok(())
    }
}

impl Default for Bus {
    /// The same as [`Bus::new`].
    fn default() -> (bus: Self)
        ensures
            bus.wf(),
            bus.ram_spec() == Seq::new(Bus::RAM_SIZE as nat, |i: int| 0u8),
            bus.scratchpad_spec() == Seq::new(Bus::SCRATCHPAD_SIZE as nat, |i: int| 0u8),
            bus.bios_spec() == Seq::new(Bus::BIOS_SIZE as nat, |i: int| 0u8),
            bus.cache_control_spec() == 0,
            bus.prefill_queue_spec().len() == 0,
            bus.invalidate_queue_spec().len() == 0,
            bus.range_queue_spec().len() == 0,
            bus.gpu_spec().is_none(),
            bus.interrupt_controller_spec().is_none(),
    {
        Bus::new()
    }
}

/// Storing a value little-endian and reading the bytes back gives the value.
pub proof fn lemma_le_roundtrip(v16: u16, v32: u32)
    ensures
        le16_spec(v16 as u8, (v16 >> 8u16) as u8) == v16,
        le32_spec(byte_spec(v32, 0), byte_spec(v32, 1), byte_spec(v32, 2), byte_spec(v32, 3)) == v32,
{
    assert(((((v16 >> 8u16) as u8) as u16) << 8u16) | ((v16 as u8) as u16) == v16 && (((((v32
        >> 24u32) & 0xFF) as u8) as u32) << 24u32) | (((((v32 >> 16u32) & 0xFF) as u8) as u32)
        << 16u32) | (((((v32 >> 8u32) & 0xFF) as u8) as u32) << 8u32) | (((v32 & 0xFF) as u8) as u32)
        == v32) by (bit_vector);
}

/// A read of RAM or the scratchpad gives back what a write of the same
/// size stored at the same (aligned) address: 8, 16 and 32 bits.
pub proof fn law_read_after_write(old: Bus, new8: Bus, new16: Bus, new32: Bus, vaddr: u32, v8: u8, v16: u16, v32: u32)
    requires
        old.wf(),
        region_spec(translate_spec(vaddr)) == MemoryRegion::RAM || region_spec(translate_spec(vaddr))
            == MemoryRegion::Scratchpad,
        region_spec(translate_spec(vaddr)) == MemoryRegion::RAM ==> {
            &&& new8.ram_spec() == old.ram_spec().update(translate_spec(vaddr) as int, v8)
            &&& new16.ram_spec() == store16_spec(old.ram_spec(), translate_spec(vaddr) as int, v16)
            &&& new32.ram_spec() == store32_spec(old.ram_spec(), translate_spec(vaddr) as int, v32)
        },
        region_spec(translate_spec(vaddr)) == MemoryRegion::Scratchpad ==> {
            let o = scratch_offset_spec(translate_spec(vaddr));
            &&& new8.scratchpad_spec() == old.scratchpad_spec().update(o, v8)
            &&& new16.scratchpad_spec() == store16_spec(old.scratchpad_spec(), o, v16)
            &&& new32.scratchpad_spec() == store32_spec(old.scratchpad_spec(), o, v32)
        },
    ensures
        new8.read8_spec(vaddr) == Ok::<u8, EmulatorError>(v8),
        vaddr & 1 == 0 ==> new16.read16_spec(vaddr) == Ok::<u16, EmulatorError>(v16),
        vaddr & 3 == 0 ==> new32.read32_plain_spec(vaddr) == Ok::<u32, EmulatorError>(v32),
{
    lemma_aligned_paddr(vaddr);
    lemma_le_roundtrip(v16, v32);
    let paddr = translate_spec(vaddr);
    if region_spec(paddr) == MemoryRegion::Scratchpad {
        lemma_scratch_offset(paddr);
    }
}

/// A 16-bit little-endian value from two bytes.
pub fn le16(b0: u8, b1: u8) -> (r: u16)
    ensures
        r == le16_spec(b0, b1),
{
    ((b1 as u16) << 8u16) | (b0 as u16)
}

/// A 32-bit little-endian value from four bytes.
pub fn le32(b0: u8, b1: u8, b2: u8, b3: u8) -> (r: u32)
    ensures
        r == le32_spec(b0, b1, b2, b3),
{
    ((b3 as u32) << 24u32) | ((b2 as u32) << 16u32) | ((b1 as u32) << 8u32) | (b0 as u32)
}

/// A vector of `n` zero bytes.
fn zeroed(n: usize) -> (v: Vec<u8>)
    ensures
        v@ == Seq::new(n as nat, |i: int| 0u8),
{
    let mut v: Vec<u8> = Vec::with_capacity(n);
    let mut i: usize = 0;
    while i < n
        invariant
            i <= n,
            v@ == Seq::new(i as nat, |j: int| 0u8),
        decreases n - i,
    {
        v.push(0);
        i = i + 1;
        assert(v@ =~= Seq::new(i as nat, |j: int| 0u8));
    }
    v
}

/// Set every byte of `v` to zero.
fn fill_zero(v: &mut Vec<u8>)
    ensures
        final(v)@ == Seq::new(old(v)@.len(), |i: int| 0u8),
{
    let n = v.len();
    let mut i: usize = 0;
    while i < n
        invariant
            n == v@.len(),
            i <= n,
            forall|j: int| 0 <= j < i ==> v@[j] == 0u8,
        decreases n - i,
    {
        v.set(i, 0);
        i = i + 1;
    }
    assert(v@ =~= Seq::new(n as nat, |i: int| 0u8));
}

/// A well-formed bus holds 2MB of RAM, 1KB of scratchpad and 512KB of BIOS.
pub proof fn lemma_wf_sizes(b: &Bus)
    requires
        b.wf(),
    ensures
        b.ram_spec().len() == 0x20_0000,
        b.scratchpad_spec().len() == 0x400,
        b.bios_spec().len() == 0x8_0000,
{
}

/// A write that does not cover a RAM or scratchpad byte cell leaves the
/// byte that every address of that cell reads.
pub proof fn lemma_write_keeps_cell(old: Bus, new: Bus, w: u32, width: int, value: u32, vaddr: u32)
    requires
        old.wf(),
        width == 1 || width == 2 || width == 4,
        cell_spec(vaddr).0 == MemoryRegion::RAM || cell_spec(vaddr).0 == MemoryRegion::Scratchpad,
        write_effect(old, new, w, width, value),
        !covers(w, width, cell_spec(vaddr)),
    ensures
        new.read8_spec(vaddr) == old.read8_spec(vaddr),
{
    let paddr = translate_spec(vaddr);
    let c = cell_spec(vaddr);
    let wc = cell_spec(w);
    if region_spec(paddr) == MemoryRegion::Scratchpad {
        lemma_scratch_offset(paddr);
    }
    let wp = translate_spec(w);
    if region_spec(wp) == MemoryRegion::Scratchpad {
        lemma_scratch_offset(wp);
    }
    lemma_aligned_paddr(w);
    lemma_wf_sizes(&old);
    if aligned_for(w, width) && wc.0 == c.0 {
        if c.0 == MemoryRegion::RAM {
            lemma_store_keeps(old.ram_spec(), wc.1, width, value, c.1);
        } else {
            lemma_store_keeps(old.scratchpad_spec(), wc.1, width, value, c.1);
        }
    }
    if c.0 == MemoryRegion::RAM {
        assert(new.read8_spec(vaddr) == Ok::<u8, EmulatorError>(new.ram_spec()[c.1]));
        assert(old.read8_spec(vaddr) == Ok::<u8, EmulatorError>(old.ram_spec()[c.1]));
    } else {
        assert(new.read8_spec(vaddr) == Ok::<u8, EmulatorError>(new.scratchpad_spec()[c.1]));
        assert(old.read8_spec(vaddr) == Ok::<u8, EmulatorError>(old.scratchpad_spec()[c.1]));
    }
}

/// A store of `width` bytes at `p` leaves every byte outside them.
proof fn lemma_store_keeps(mem: Seq<u8>, p: int, width: int, value: u32, i: int)
    requires
        0 <= i < mem.len(),
        0 <= p,
        p + width <= mem.len(),
        !(p <= i < p + width),
        width == 1 || width == 2 || width == 4,
    ensures
        store_spec(mem, p, width, value)[i] == mem[i],
        store_spec(mem, p, width, value).len() == mem.len(),
{
}

/// The `i`-th later write of a sequence: `buses[i + 2]` is `buses[i + 1]`
/// after a write of `widths[i]` (1, 2 or 4) bytes of `values[i]` at
/// `addrs[i]`, and that write does not cover the cell of `vaddr`.
pub open spec fn later_write_spec(
    buses: Seq<Bus>,
    addrs: Seq<u32>,
    widths: Seq<int>,
    values: Seq<u32>,
    vaddr: u32,
    i: int,
) -> bool {
    &&& (widths[i] == 1 || widths[i] == 2 || widths[i] == 4)
    &&& write_effect(buses[i + 1], buses[i + 2], addrs[i], widths[i], values[i])
    &&& !covers(addrs[i], widths[i], cell_spec(vaddr))
}

/// A byte written to RAM or the scratchpad reads back, through any address
/// of the same cell (the scratchpad is mirrored every 1KB of its 4KB
/// window), after any number of later writes of any width, as long as none
/// of them covers that cell. `buses[0]` is the bus before the byte write,
/// `buses[1]` after it, and `buses[i + 2]` after the later write of
/// `widths[i]` bytes of `values[i]` at `addrs[i]`.
pub proof fn law_read_after_later_writes(
    buses: Seq<Bus>,
    addrs: Seq<u32>,
    widths: Seq<int>,
    values: Seq<u32>,
    w: u32,
    v: u8,
    vaddr: u32,
)
    requires
        buses.len() == addrs.len() + 2,
        widths.len() == addrs.len(),
        values.len() == addrs.len(),
        forall|i: int| 0 <= i < buses.len() ==> #[trigger] buses[i].wf(),
        cell_spec(w) == cell_spec(vaddr),
        cell_spec(vaddr).0 == MemoryRegion::RAM || cell_spec(vaddr).0 == MemoryRegion::Scratchpad,
        write_effect(buses[0], buses[1], w, 1, v as u32),
        forall|i: int|
            0 <= i < addrs.len() ==> #[trigger] later_write_spec(buses, addrs, widths, values, vaddr, i),
    ensures
        buses.last().read8_spec(vaddr) == Ok::<u8, EmulatorError>(v),
    decreases addrs.len(),
{
    let n = addrs.len();
    let c = cell_spec(vaddr);
    if n == 0 {
        let paddr = translate_spec(vaddr);
        if region_spec(paddr) == MemoryRegion::Scratchpad {
            lemma_scratch_offset(paddr);
        }
        let wp = translate_spec(w);
        if region_spec(wp) == MemoryRegion::Scratchpad {
            lemma_scratch_offset(wp);
        }
        assert(buses[0].wf());
        lemma_wf_sizes(&buses[0]);
        assert(buses.last() == buses[1]);
        if c.0 == MemoryRegion::RAM {
            assert(buses[1].ram_spec()[c.1] == v);
            assert(buses[1].read8_spec(vaddr) == Ok::<u8, EmulatorError>(buses[1].ram_spec()[c.1]));
        } else {
            assert(buses[1].scratchpad_spec()[c.1] == v);
            assert(buses[1].read8_spec(vaddr) == Ok::<u8, EmulatorError>(
                buses[1].scratchpad_spec()[c.1],
            ));
        }
    } else {
        let k = (n - 1) as int;
        let b2 = buses.drop_last();
        let a2 = addrs.drop_last();
        let w2 = widths.drop_last();
        let v2 = values.drop_last();
        assert forall|i: int| 0 <= i < b2.len() implies #[trigger] b2[i].wf() by {
            assert(b2[i] == buses[i]);
            assert(buses[i].wf());
        }
        assert forall|i: int| 0 <= i < a2.len() implies #[trigger] later_write_spec(
            b2,
            a2,
            w2,
            v2,
            vaddr,
            i,
        ) by {
            assert(later_write_spec(buses, addrs, widths, values, vaddr, i));
            assert(b2[i + 1] == buses[i + 1]);
            assert(b2[i + 2] == buses[i + 2]);
            assert(a2[i] == addrs[i] && w2[i] == widths[i] && v2[i] == values[i]);
        }
        assert(b2[0] == buses[0] && b2[1] == buses[1]);
        law_read_after_later_writes(b2, a2, w2, v2, w, v, vaddr);
        assert(b2.last() == buses[k + 1]);
        assert(buses[k + 1].wf());
        assert(later_write_spec(buses, addrs, widths, values, vaddr, k));
        lemma_write_keeps_cell(buses[k + 1], buses[k + 2], addrs[k], widths[k], values[k], vaddr);
        assert(buses.last() == buses[k + 2]);
    }
}

/// The physical address of an aligned virtual address is aligned.
proof fn lemma_aligned_paddr(vaddr: u32)
    ensures
        vaddr & 1 == 0 ==> translate_spec(vaddr) & 1 == 0,
        vaddr & 3 == 0 ==> translate_spec(vaddr) & 3 == 0,
        vaddr & 1 == 0 && translate_spec(vaddr) <= 0x001F_FFFF ==> translate_spec(vaddr) + 1 <= 0x001F_FFFF,
        vaddr & 3 == 0 && translate_spec(vaddr) <= 0x001F_FFFF ==> translate_spec(vaddr) + 3 <= 0x001F_FFFF,
        vaddr & 1 == 0 && translate_spec(vaddr) <= 0x1FC7_FFFF ==> translate_spec(vaddr) + 1 <= 0x1FC7_FFFF,
        vaddr & 3 == 0 && translate_spec(vaddr) <= 0x1FC7_FFFF ==> translate_spec(vaddr) + 3 <= 0x1FC7_FFFF,
        vaddr & 1 == 0 && 0x1F80_0000 <= translate_spec(vaddr) ==> scratch_offset_spec(translate_spec(vaddr)) + 1 < 0x400,
        vaddr & 3 == 0 && 0x1F80_0000 <= translate_spec(vaddr) ==> scratch_offset_spec(translate_spec(vaddr)) + 3 < 0x400,
{
    let p = vaddr & 0x1FFF_FFFF;
    assert({
        &&& vaddr & 1 == 0 ==> p & 1 == 0
        &&& vaddr & 3 == 0 ==> p & 3 == 0
        &&& p & 1 == 0 && p <= 0x001F_FFFF ==> p + 1 <= 0x001F_FFFF
        &&& p & 3 == 0 && p <= 0x001F_FFFF ==> p + 3 <= 0x001F_FFFF
        &&& p & 1 == 0 && p <= 0x1FC7_FFFF ==> p + 1 <= 0x1FC7_FFFF
        &&& p & 3 == 0 && p <= 0x1FC7_FFFF ==> p + 3 <= 0x1FC7_FFFF
        &&& p & 1 == 0 && 0x1F80_0000 <= p ==> ((p - 0x1F80_0000) as u32 & 0x3FF) + 1 < 0x400
        &&& p & 3 == 0 && 0x1F80_0000 <= p ==> ((p - 0x1F80_0000) as u32 & 0x3FF) + 3 < 0x400
    }) by (bit_vector)
        requires
            p == vaddr & 0x1FFF_FFFF,
    ;
}

/// A scratchpad offset is below 1KB.
proof fn lemma_scratch_offset(paddr: u32)
    requires
        0x1F80_0000 <= paddr,
    ensures
        scratch_offset_spec(paddr) < 0x400,
{
    let d = (paddr - 0x1F80_0000) as u32;
    assert(d & 0x3FF < 0x400) by (bit_vector);
}

} // verus!
