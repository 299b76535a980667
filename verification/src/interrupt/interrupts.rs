//! Interrupt source bits of the I_STAT and I_MASK registers.

use vstd::prelude::*;

verus! {

/// Vertical blank interrupt (bit 0).
pub const VBLANK: u16 = 0x0001;

/// GPU command/transfer complete interrupt (bit 1).
pub const GPU: u16 = 0x0002;

/// CD-ROM controller interrupt (bit 2).
pub const CDROM: u16 = 0x0004;

/// DMA transfer complete interrupt (bit 3).
pub const DMA: u16 = 0x0008;

/// Timer 0 interrupt (bit 4).
pub const TIMER0: u16 = 0x0010;

/// Timer 1 interrupt (bit 5).
pub const TIMER1: u16 = 0x0020;

/// Timer 2 interrupt (bit 6).
pub const TIMER2: u16 = 0x0040;

/// Controller/memory card interrupt (bit 7).
pub const CONTROLLER: u16 = 0x0080;

/// Serial I/O interrupt (bit 8).
pub const SIO: u16 = 0x0100;

/// Sound processing unit interrupt (bit 9).
pub const SPU: u16 = 0x0200;

/// Lightpen / IRQ10 interrupt (bit 10).
pub const LIGHTPEN: u16 = 0x0400;

} // verus!
