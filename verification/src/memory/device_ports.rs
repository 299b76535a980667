//! Routing of 32-bit accesses to the controller ports, the DMA controller
//! and the timers: from the physical address (and the written word), which
//! register of which device is asked, and with what value.

use vstd::prelude::*;

use super::Bus;

verus! {

/// Start of the DMA channel registers (7 channels of 16 bytes).
pub const DMA_CHANNELS_START: u32 = 0x1F80_1080;
/// End (inclusive) of the DMA channel registers.
pub const DMA_CHANNELS_END: u32 = 0x1F80_10EF;

/// What a 32-bit write to a device register asks of the device.
#[derive(Debug, Clone, Copy, PartialEq, Eq, Structural)]
pub enum DevicePortWrite {
    /// Send a byte on the controller port (JOY_TX_DATA).
    JoyTxData(u8),
    /// Set the controller port mode (JOY_MODE).
    JoyMode(u16),
    /// Set the controller port control register (JOY_CTRL).
    JoyCtrl(u16),
    /// Set the controller port baud reload value (JOY_BAUD).
    JoyBaud(u16),
    /// Set a DMA channel's base address (MADR).
    DmaMadr { channel: u32, value: u32 },
    /// Set a DMA channel's block control (BCR).
    DmaBcr { channel: u32, value: u32 },
    /// Set a DMA channel's channel control (CHCR).
    DmaChcr { channel: u32, value: u32 },
    /// Set the DMA control register (DPCR).
    DmaControl(u32),
    /// Set the DMA interrupt register (DICR).
    DmaInterrupt(u32),
    /// A DMA channel offset other than MADR, BCR and CHCR: ignored.
    DmaUnused,
    /// Set a timer's counter.
    TimerCounter { channel: u32, value: u16 },
    /// Set a timer's mode.
    TimerMode { channel: u32, value: u16 },
    /// Set a timer's target.
    TimerTarget { channel: u32, value: u16 },
    /// Not a controller-port, DMA or timer register.
    Unrouted,
}

/// Which device register a 32-bit read reads.
#[derive(Debug, Clone, Copy, PartialEq, Eq, Structural)]
pub enum DevicePortRead {
    /// The received controller byte (JOY_RX_DATA).
    JoyRxData,
    /// The controller port status (JOY_STAT).
    JoyStat,
    /// The controller port mode (JOY_MODE).
    JoyMode,
    /// The controller port control register (JOY_CTRL).
    JoyCtrl,
    /// The controller port baud reload value (JOY_BAUD).
    JoyBaud,
    /// A DMA channel's base address (MADR).
    DmaMadr(u32),
    /// A DMA channel's block control (BCR).
    DmaBcr(u32),
    /// A DMA channel's channel control (CHCR).
    DmaChcr(u32),
    /// The DMA control register (DPCR).
    DmaControl,
    /// The DMA interrupt register (DICR).
    DmaInterrupt,
    /// A DMA channel offset other than MADR, BCR and CHCR: reads 0.
    DmaUnused,
    /// A timer's counter.
    TimerCounter(u32),
    /// A timer's mode.
    TimerMode(u32),
    /// A timer's target.
    TimerTarget(u32),
    /// Not a controller-port, DMA or timer register.
    Unrouted,
}

/// The DMA channel of an address in the channel registers.
pub open spec fn dma_channel_spec(paddr: u32) -> u32 {
    ((paddr - DMA_CHANNELS_START) / 16) as u32
}

/// The register offset within its DMA channel of an address in the channel
/// registers.
pub open spec fn dma_reg_spec(paddr: u32) -> u32 {
    ((paddr - DMA_CHANNELS_START) % 16) as u32
}

/// Start of the timer registers (3 timers of 16 bytes: counter, mode and
/// target at offsets 0, 4 and 8).
pub const TIMERS_START: u32 = 0x1F80_1100;
/// End (inclusive) of the timer registers.
pub const TIMERS_END: u32 = 0x1F80_112F;

/// The timer of an address in the timer registers.
pub open spec fn timer_channel_spec(paddr: u32) -> u32 {
    ((paddr - TIMERS_START) / 16) as u32
}

/// The register offset within its timer of an address in the timer registers.
pub open spec fn timer_reg_spec(paddr: u32) -> u32 {
    ((paddr - TIMERS_START) % 16) as u32
}

/// The request of a 32-bit write of `value` to `paddr`.
pub open spec fn device_write32_spec(paddr: u32, value: u32) -> DevicePortWrite {
    if paddr == Bus::JOY_DATA {
        DevicePortWrite::JoyTxData(value as u8)
    } else if paddr == Bus::JOY_MODE {
        DevicePortWrite::JoyMode(value as u16)
    } else if paddr == Bus::JOY_CTRL {
        DevicePortWrite::JoyCtrl(value as u16)
    } else if paddr == Bus::JOY_BAUD {
        DevicePortWrite::JoyBaud(value as u16)
    } else if DMA_CHANNELS_START <= paddr <= DMA_CHANNELS_END {
        let channel = dma_channel_spec(paddr);
        let reg = dma_reg_spec(paddr);
        if reg == 0 {
            DevicePortWrite::DmaMadr { channel, value }
        } else if reg == 4 {
            DevicePortWrite::DmaBcr { channel, value }
        } else if reg == 8 {
            DevicePortWrite::DmaChcr { channel, value }
        } else {
            DevicePortWrite::DmaUnused
        }
    } else if paddr == Bus::DMA_DPCR {
        DevicePortWrite::DmaControl(value)
    } else if paddr == Bus::DMA_DICR {
        DevicePortWrite::DmaInterrupt(value)
    } else if TIMERS_START <= paddr <= TIMERS_END && timer_reg_spec(paddr) == 0 {
        DevicePortWrite::TimerCounter { channel: timer_channel_spec(paddr), value: value as u16 }
    } else if TIMERS_START <= paddr <= TIMERS_END && timer_reg_spec(paddr) == 4 {
        DevicePortWrite::TimerMode { channel: timer_channel_spec(paddr), value: value as u16 }
    } else if TIMERS_START <= paddr <= TIMERS_END && timer_reg_spec(paddr) == 8 {
        DevicePortWrite::TimerTarget { channel: timer_channel_spec(paddr), value: value as u16 }
    } else {
        DevicePortWrite::Unrouted
    }
}

/// The register a 32-bit read of `paddr` reads.
pub open spec fn device_read32_spec(paddr: u32) -> DevicePortRead {
    if paddr == Bus::JOY_DATA {
        DevicePortRead::JoyRxData
    } else if paddr == Bus::JOY_STAT {
        DevicePortRead::JoyStat
    } else if paddr == Bus::JOY_MODE {
        DevicePortRead::JoyMode
    } else if paddr == Bus::JOY_CTRL {
        DevicePortRead::JoyCtrl
    } else if paddr == Bus::JOY_BAUD {
        DevicePortRead::JoyBaud
    } else if DMA_CHANNELS_START <= paddr <= DMA_CHANNELS_END {
        let channel = dma_channel_spec(paddr);
        let reg = dma_reg_spec(paddr);
        if reg == 0 {
            DevicePortRead::DmaMadr(channel)
        } else if reg == 4 {
            DevicePortRead::DmaBcr(channel)
        } else if reg == 8 {
            DevicePortRead::DmaChcr(channel)
        } else {
            DevicePortRead::DmaUnused
        }
    } else if paddr == Bus::DMA_DPCR {
        DevicePortRead::DmaControl
    } else if paddr == Bus::DMA_DICR {
        DevicePortRead::DmaInterrupt
    } else if TIMERS_START <= paddr <= TIMERS_END && timer_reg_spec(paddr) == 0 {
        DevicePortRead::TimerCounter(timer_channel_spec(paddr))
    } else if TIMERS_START <= paddr <= TIMERS_END && timer_reg_spec(paddr) == 4 {
        DevicePortRead::TimerMode(timer_channel_spec(paddr))
    } else if TIMERS_START <= paddr <= TIMERS_END && timer_reg_spec(paddr) == 8 {
        DevicePortRead::TimerTarget(timer_channel_spec(paddr))
    } else {
        DevicePortRead::Unrouted
    }
}

/// What a device register reads as when its device is not attached to the
/// bus: the controller port idles (data 0xFF, status 0x05 = ready to send
/// and receive, mode 0x0D), DPCR holds its reset value 0x07654321, and every
/// other register reads 0.
pub open spec fn detached_read32_spec(source: DevicePortRead) -> u32 {
    match source {
        DevicePortRead::JoyRxData => 0xFF,
        DevicePortRead::JoyStat => 0x05,
        DevicePortRead::JoyMode => 0x0D,
        DevicePortRead::DmaControl => 0x0765_4321,
        _ => 0,
    }
}

/// Decide which device register a 32-bit write asks to set, and with what.
pub fn device_write32_action(paddr: u32, value: u32) -> (a: DevicePortWrite)
    ensures
        a == device_write32_spec(paddr, value),
{
    if paddr == Bus::JOY_DATA {
        DevicePortWrite::JoyTxData(value as u8)
    } else if paddr == Bus::JOY_MODE {
        DevicePortWrite::JoyMode(value as u16)
    } else if paddr == Bus::JOY_CTRL {
        DevicePortWrite::JoyCtrl(value as u16)
    } else if paddr == Bus::JOY_BAUD {
        DevicePortWrite::JoyBaud(value as u16)
    } else if DMA_CHANNELS_START <= paddr && paddr <= DMA_CHANNELS_END {
        let offset = paddr - DMA_CHANNELS_START;
        let channel = offset / 16;
        let reg = offset % 16;
        if reg == 0 {
            DevicePortWrite::DmaMadr { channel, value }
        } else if reg == 4 {
            DevicePortWrite::DmaBcr { channel, value }
        } else if reg == 8 {
            DevicePortWrite::DmaChcr { channel, value }
        } else {
            DevicePortWrite::DmaUnused
        }
    } else if paddr == Bus::DMA_DPCR {
        DevicePortWrite::DmaControl(value)
    } else if paddr == Bus::DMA_DICR {
        DevicePortWrite::DmaInterrupt(value)
    } else if TIMERS_START <= paddr && paddr <= TIMERS_END {
        let offset = paddr - TIMERS_START;
        let channel = offset / 16;
        let reg = offset % 16;
        if reg == 0 {
            DevicePortWrite::TimerCounter { channel, value: value as u16 }
        } else if reg == 4 {
            DevicePortWrite::TimerMode { channel, value: value as u16 }
        } else if reg == 8 {
            DevicePortWrite::TimerTarget { channel, value: value as u16 }
        } else {
            DevicePortWrite::Unrouted
        }
    } else {
        DevicePortWrite::Unrouted
    }
}

/// Decide which device register a 32-bit read reads.
pub fn device_read32_source(paddr: u32) -> (s: DevicePortRead)
    ensures
        s == device_read32_spec(paddr),
{
    if paddr == Bus::JOY_DATA {
        DevicePortRead::JoyRxData
    } else if paddr == Bus::JOY_STAT {
        DevicePortRead::JoyStat
    } else if paddr == Bus::JOY_MODE {
        DevicePortRead::JoyMode
    } else if paddr == Bus::JOY_CTRL {
        DevicePortRead::JoyCtrl
    } else if paddr == Bus::JOY_BAUD {
        DevicePortRead::JoyBaud
    } else if DMA_CHANNELS_START <= paddr && paddr <= DMA_CHANNELS_END {
        let offset = paddr - DMA_CHANNELS_START;
        let channel = offset / 16;
        let reg = offset % 16;
        if reg == 0 {
            DevicePortRead::DmaMadr(channel)
        } else if reg == 4 {
            DevicePortRead::DmaBcr(channel)
        } else if reg == 8 {
            DevicePortRead::DmaChcr(channel)
        } else {
            DevicePortRead::DmaUnused
        }
    } else if paddr == Bus::DMA_DPCR {
        DevicePortRead::DmaControl
    } else if paddr == Bus::DMA_DICR {
        DevicePortRead::DmaInterrupt
    } else if TIMERS_START <= paddr && paddr <= TIMERS_END {
        let offset = paddr - TIMERS_START;
        let channel = offset / 16;
        let reg = offset % 16;
        if reg == 0 {
            DevicePortRead::TimerCounter(channel)
        } else if reg == 4 {
            DevicePortRead::TimerMode(channel)
        } else if reg == 8 {
            DevicePortRead::TimerTarget(channel)
        } else {
            DevicePortRead::Unrouted
        }
    } else {
        DevicePortRead::Unrouted
    }
}

/// What a device register reads as when its device is not attached.
pub fn detached_read32(source: DevicePortRead) -> (r: u32)
    ensures
        r == detached_read32_spec(source),
{
    match source {
        DevicePortRead::JoyRxData => 0xFF,
        DevicePortRead::JoyStat => 0x05,
        DevicePortRead::JoyMode => 0x0D,
        DevicePortRead::DmaControl => 0x0765_4321,
        _ => 0,
    }
}

} // verus!
