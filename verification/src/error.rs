//! Errors reported by the emulator core.

use vstd::prelude::*;

verus! {

/// An error raised by a memory access or by loading a BIOS image.
#[derive(Debug, Clone, PartialEq, Eq)]
pub enum EmulatorError {
    /// A byte access (or a write to read-only memory) at an address that
    /// maps to no writable memory region.
    InvalidMemoryAccess { address: u32 },
    /// An aligned 16-bit or 32-bit access at an address that maps to no
    /// memory region.
    InvalidAddress { address: u32 },
    /// A 16-bit or 32-bit access at an address that is not a multiple of its size.
    UnalignedAccess { address: u32, size: u32 },
    /// The BIOS file could not be opened; holds its path.
    BiosNotFound(String),
    /// The BIOS image does not have the size of the BIOS ROM.
    InvalidBiosSize { expected: usize, got: usize },
    /// Reading the BIOS file failed; holds the reason.
    IoError(String),
}

} // verus!
