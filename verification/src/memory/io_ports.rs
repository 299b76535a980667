//! Memory-mapped I/O registers: the GPU ports (GP0/GPUREAD, GP1/GPUSTAT),
//! the interrupt controller (I_STAT, I_MASK) and the values that the
//! registers of devices not attached to this bus read as.

use vstd::prelude::*;

use super::Bus;
use crate::error::EmulatorError;
use crate::gpu::gp0::gp0_post;
use crate::gpu::gp1::gp1_post;
use crate::gpu::gpustat_spec;
use super::device_ports::{detached_read32, detached_read32_spec, device_read32_source, device_read32_spec};
use crate::gpu::transfer::{gpuread_post, gpuread_value};

verus! {

/// What an 8-bit I/O read returns: the CD-ROM index/status register reads
/// 0x18 (parameter FIFO empty and not full, no drive attached); every other
/// 8-bit register reads 0.
pub open spec fn io_read8_spec(paddr: u32) -> u8 {
    if paddr == 0x1F80_1800 {
        0x18
    } else {
        0
    }
}

/// What a 16-bit I/O read returns: 0 (no SPU attached).
pub open spec fn io_read16_spec(paddr: u32) -> u16 {
    0
}

impl Bus {
    /// RAM, scratchpad, BIOS, the cache control register and the icache
    /// queues are unchanged.
    pub open spec fn same_storage(&self, other: &Bus) -> bool {
        &&& self.ram_spec() == other.ram_spec()
        &&& self.scratchpad_spec() == other.scratchpad_spec()
        &&& self.bios_spec() == other.bios_spec()
        &&& self.cache_control_spec() == other.cache_control_spec()
        &&& self.same_queues(other)
    }

    /// What a 32-bit I/O read returns: GPUREAD and GPUSTAT from the GPU,
    /// I_STAT and I_MASK from the interrupt controller (0 when absent); the
    /// controller-port, DMA and timer registers, whose devices this bus does
    /// not hold, read as detached (see [`detached_read32_spec`]), and every
    /// other register as 0.
    pub open spec fn io_read32_spec(&self, paddr: u32) -> u32 {
        if paddr == Self::GPU_GP0 {
            match self.gpu_spec() {
                Some(g) => gpuread_value(g),
                None => 0,
            }
        } else if paddr == Self::GPU_GP1 {
            match self.gpu_spec() {
                Some(g) => gpustat_spec(g.status),
                None => 0,
            }
        } else if paddr == Self::I_STAT {
            match self.interrupt_controller_spec() {
                Some(ic) => ic.status_spec() as u32,
                None => 0,
            }
        } else if paddr == Self::I_MASK {
            match self.interrupt_controller_spec() {
                Some(ic) => ic.mask_spec() as u32,
                None => 0,
            }
        } else {
            detached_read32_spec(device_read32_spec(paddr))
        }
    }

    /// The state after a 32-bit I/O read: a GPUREAD advances the attached
    /// GPU's VRAM-to-CPU transfer; no other read changes anything.
    pub open spec fn io_read32_post(&self, old: &Bus, paddr: u32) -> bool {
        if paddr == Self::GPU_GP0 && old.gpu_spec() is Some {
            &&& self.gpu_spec() matches Some(g2) && gpuread_post(old.gpu_spec()->0, g2)
            &&& self.interrupt_controller_spec() == old.interrupt_controller_spec()
            &&& self.same_storage(old)
        } else {
            *self == *old
        }
    }

    /// The state after a 32-bit I/O write: GP0 and GP1 words go to the
    /// attached GPU, I_STAT and I_MASK writes to the attached interrupt
    /// controller; other writes, and writes to absent devices, change nothing.
    pub open spec fn io_write32_post(&self, old: &Bus, paddr: u32, value: u32) -> bool {
        &&& self.same_storage(old)
        &&& if paddr == Self::GPU_GP0 || paddr == Self::GPU_GP1 {
            &&& self.interrupt_controller_spec() == old.interrupt_controller_spec()
            &&& match old.gpu_spec() {
                Some(g) => self.gpu_spec() matches Some(g2) && (if paddr == Self::GPU_GP0 {
                    gp0_post(g, g2, value)
                } else {
                    gp1_post(g, g2, value)
                }),
                None => self.gpu_spec() is None,
            }
        } else if paddr == Self::I_STAT || paddr == Self::I_MASK {
            &&& self.gpu_spec() == old.gpu_spec()
            &&& match old.interrupt_controller_spec() {
                Some(ic) => self.interrupt_controller_spec() matches Some(ic2) && (if paddr
                    == Self::I_STAT {
                    ic2.status_spec() == ic.status_spec() & (value as u16) && ic2.mask_spec()
                        == ic.mask_spec()
                } else {
                    ic2.mask_spec() == value as u16 && ic2.status_spec() == ic.status_spec()
                }),
                None => self.interrupt_controller_spec() is None,
            }
        } else {
            self.same_devices(old)
        }
    }

    /// Read an 8-bit I/O register.
    pub fn read_io_port8(&self, paddr: u32) -> (r: Result<u8, EmulatorError>)
        ensures
            r == Ok::<u8, EmulatorError>(io_read8_spec(paddr)),
    {
        if paddr == Self::CDROM_INDEX {
            Ok(0x18)
        } else {
            Ok(0)
        }
    }

    /// Write an 8-bit I/O register: no 8-bit device is attached to this
    /// bus, so the write is dropped.
    pub fn write_io_port8(&mut self, paddr: u32, value: u8) -> (r: Result<(), EmulatorError>)
        ensures
            r is Ok,
            *final(self) == *old(self),
    {
        Ok(())
    }

    /// Read a 16-bit I/O register.
    pub fn read_io_port16(&self, paddr: u32) -> (r: Result<u16, EmulatorError>)
        ensures
            r == Ok::<u16, EmulatorError>(io_read16_spec(paddr)),
    {
        Ok(0)
    }

    /// Write a 16-bit I/O register: no 16-bit device is attached to this
    /// bus, so the write is dropped.
    pub fn write_io_port16(&mut self, paddr: u32, value: u16) -> (r: Result<(), EmulatorError>)
        ensures
            r is Ok,
            *final(self) == *old(self),
    {
        Ok(())
    }

    /// Read a 32-bit I/O register.
    pub fn read_io_port32(&mut self, paddr: u32) -> (r: Result<u32, EmulatorError>)
        requires
            old(self).wf(),
        ensures
            final(self).wf(),
            r == Ok::<u32, EmulatorError>(old(self).io_read32_spec(paddr)),
            final(self).io_read32_post(old(self), paddr),
    {
        if paddr == Self::GPU_GP0 {
            match &mut self.gpu {
                Some(gpu) => Ok(gpu.read_gpuread()),
                None => Ok(0),
            }
        } else if paddr == Self::GPU_GP1 {
            match &self.gpu {
                Some(gpu) => Ok(gpu.status()),
                None => Ok(0),
            }
        } else if paddr == Self::I_STAT {
            match &self.interrupt_controller {
                Some(ic) => Ok(ic.read_status()),
                None => Ok(0),
            }
        } else if paddr == Self::I_MASK {
            match &self.interrupt_controller {
                Some(ic) => Ok(ic.read_mask()),
                None => Ok(0),
            }
        } else {
            Ok(detached_read32(device_read32_source(paddr)))
        }
    }

    /// Write a 32-bit I/O register.
    pub fn write_io_port32(&mut self, paddr: u32, value: u32) -> (r: Result<(), EmulatorError>)
        requires
            old(self).wf(),
        ensures
            final(self).wf(),
            r is Ok,
            final(self).io_write32_post(old(self), paddr, value),
    {
        if paddr == Self::GPU_GP0 {
            if let Some(gpu) = &mut self.gpu {
                gpu.write_gp0(value);
            }
        } else if paddr == Self::GPU_GP1 {
            if let Some(gpu) = &mut self.gpu {
                gpu.write_gp1(value);
            }
        } else if paddr == Self::I_STAT {
            if let Some(ic) = &mut self.interrupt_controller {
                ic.write_status(value);
            }
        } else if paddr == Self::I_MASK {
            if let Some(ic) = &mut self.interrupt_controller {
                ic.write_mask(value);
            }
        }
        Ok(())
    }
}

} // verus!
