//! Routing of 8-bit accesses to the CD-ROM controller's four ports
//! (0x1F801800-0x1F801803). The controller's index register selects which
//! of its internal registers ports 1-3 reach; these functions decide, from
//! the port, the index and the written byte, what the controller is asked
//! to do.

use vstd::prelude::*;

use super::Bus;

verus! {

/// What an 8-bit write to a CD-ROM port asks of the controller.
#[derive(Debug, Clone, Copy, PartialEq, Eq, Structural)]
pub enum CdromPortWrite {
    /// Select the internal register bank (port 0).
    SetIndex(u8),
    /// Execute a command byte (port 1, index 0).
    Command(u8),
    /// Push a byte onto the parameter FIFO (port 1, index 1-3).
    Parameter(u8),
    /// Acknowledge the interrupt flags set in the byte (port 2, index 0 or 2).
    AckInterrupt(u8),
    /// Set the interrupt enable register (port 2, index 1 or 3; port 3,
    /// index 1).
    EnableInterrupt(u8),
    /// Nothing is done: the request and audio-volume registers, an index
    /// above 3, or an address that is not a CD-ROM port.
    Ignore,
}

/// Where an 8-bit read of a CD-ROM port takes its value from.
#[derive(Debug, Clone, Copy, PartialEq, Eq, Structural)]
pub enum CdromPortRead {
    /// The status register (port 0).
    Status,
    /// The next byte of the response FIFO, 0 when empty (port 1, index 0-3).
    PopResponse,
    /// The interrupt flag register.
    InterruptFlag,
    /// The interrupt enable register.
    InterruptEnable,
    /// The value 0: an index above 3, or an address that is not a CD-ROM port.
    Zero,
}

/// The action of an 8-bit write of `value` to `paddr` with the controller's
/// index register at `index`.
pub open spec fn cdrom_write8_spec(paddr: u32, index: u8, value: u8) -> CdromPortWrite {
    if paddr == Bus::CDROM_INDEX {
        CdromPortWrite::SetIndex(value)
    } else if paddr == Bus::CDROM_REG1 {
        if index == 0 {
            CdromPortWrite::Command(value)
        } else if index <= 3 {
            CdromPortWrite::Parameter(value)
        } else {
            CdromPortWrite::Ignore
        }
    } else if paddr == Bus::CDROM_REG2 {
        if index == 0 || index == 2 {
            CdromPortWrite::AckInterrupt(value)
        } else if index == 1 || index == 3 {
            CdromPortWrite::EnableInterrupt(value)
        } else {
            CdromPortWrite::Ignore
        }
    } else if paddr == Bus::CDROM_REG3 && index == 1 {
        CdromPortWrite::EnableInterrupt(value)
    } else {
        CdromPortWrite::Ignore
    }
}

/// The source of an 8-bit read of `paddr` with the controller's index
/// register at `index`.
pub open spec fn cdrom_read8_spec(paddr: u32, index: u8) -> CdromPortRead {
    if paddr == Bus::CDROM_INDEX {
        CdromPortRead::Status
    } else if paddr == Bus::CDROM_REG1 && index <= 3 {
        CdromPortRead::PopResponse
    } else if (paddr == Bus::CDROM_REG2 && (index == 0 || index == 2)) || (paddr
        == Bus::CDROM_REG3 && (index == 1 || index == 3)) {
        CdromPortRead::InterruptFlag
    } else if (paddr == Bus::CDROM_REG2 && (index == 1 || index == 3)) || (paddr
        == Bus::CDROM_REG3 && (index == 0 || index == 2)) {
        CdromPortRead::InterruptEnable
    } else {
        CdromPortRead::Zero
    }
}

/// Decide what an 8-bit write to a CD-ROM port asks of the controller.
pub fn cdrom_write8_action(paddr: u32, index: u8, value: u8) -> (a: CdromPortWrite)
    ensures
        a == cdrom_write8_spec(paddr, index, value),
{
    if paddr == Bus::CDROM_INDEX {
        CdromPortWrite::SetIndex(value)
    } else if paddr == Bus::CDROM_REG1 {
        match index {
            0 => CdromPortWrite::Command(value),
            1..=3 => CdromPortWrite::Parameter(value),
            _ => CdromPortWrite::Ignore,
        }
    } else if paddr == Bus::CDROM_REG2 {
        match index {
            0 | 2 => CdromPortWrite::AckInterrupt(value),
            1 | 3 => CdromPortWrite::EnableInterrupt(value),
            _ => CdromPortWrite::Ignore,
        }
    } else if paddr == Bus::CDROM_REG3 {
        match index {
            1 => CdromPortWrite::EnableInterrupt(value),
            _ => CdromPortWrite::Ignore,
        }
    } else {
        CdromPortWrite::Ignore
    }
}

/// Decide where an 8-bit read of a CD-ROM port takes its value from.
pub fn cdrom_read8_source(paddr: u32, index: u8) -> (s: CdromPortRead)
    ensures
        s == cdrom_read8_spec(paddr, index),
{
    if paddr == Bus::CDROM_INDEX {
        CdromPortRead::Status
    } else if paddr == Bus::CDROM_REG1 {
        match index {
            0..=3 => CdromPortRead::PopResponse,
            _ => CdromPortRead::Zero,
        }
    } else if paddr == Bus::CDROM_REG2 {
        match index {
            0 | 2 => CdromPortRead::InterruptFlag,
            1 | 3 => CdromPortRead::InterruptEnable,
            _ => CdromPortRead::Zero,
        }
    } else if paddr == Bus::CDROM_REG3 {
        match index {
            0 | 2 => CdromPortRead::InterruptEnable,
            1 | 3 => CdromPortRead::InterruptFlag,
            _ => CdromPortRead::Zero,
        }
    } else {
        CdromPortRead::Zero
    }
}

} // verus!
