//! PlayStation interrupt controller.
//!
//! I_STAT (0x1F801070) holds the pending interrupt flags: a device sets a bit
//! by requesting an interrupt, and the CPU acknowledges by writing a value in
//! which the bits to clear are 0 (writing 1 leaves a bit unchanged).
//! I_MASK (0x1F801074) selects which flags reach the CPU.

use vstd::prelude::*;

pub mod interrupts;

verus! {

/// The interrupt controller: a 16-bit status register and a 16-bit mask.
pub struct InterruptController {
    status: u16,
    mask: u16,
}

/// An interrupt is signalled to the CPU when a flag is set in both registers.
pub open spec fn pending_spec(status: u16, mask: u16) -> bool {
    status & mask != 0
}

impl InterruptController {
    /// The I_STAT register.
    pub closed spec fn status_spec(&self) -> u16 {
        self.status
    }

    /// The I_MASK register.
    pub closed spec fn mask_spec(&self) -> u16 {
        self.mask
    }

    /// A controller with no flag set and every interrupt masked.
    pub fn new() -> (ic: Self)
        ensures
            ic.status_spec() == 0,
            ic.mask_spec() == 0,
    {
        InterruptController { status: 0, mask: 0 }
    }

    /// Set the flags of `interrupt` in I_STAT; the other flags are kept.
    pub fn request(&mut self, interrupt: u16)
        ensures
            final(self).status_spec() == old(self).status_spec() | interrupt,
            final(self).mask_spec() == old(self).mask_spec(),
    {
        self.status = self.status | interrupt;
    }

    /// Acknowledge: clear the flags whose bit in `value` is 0.
    pub fn acknowledge(&mut self, value: u16)
        ensures
            final(self).status_spec() == old(self).status_spec() & value,
            final(self).mask_spec() == old(self).mask_spec(),
    {
        self.status = self.status & value;
    }

    /// Whether an unmasked interrupt is pending.
    pub fn is_pending(&self) -> (r: bool)
        ensures
            r == pending_spec(self.status_spec(), self.mask_spec()),
    {
        (self.status & self.mask) != 0
    }

    /// Read I_STAT, zero-extended to 32 bits.
    pub fn read_status(&self) -> (r: u32)
        ensures
            r == self.status_spec() as u32,
    {
        self.status as u32
    }

    /// Write I_STAT: acknowledges with the low 16 bits of `value`.
    pub fn write_status(&mut self, value: u32)
        ensures
            final(self).status_spec() == old(self).status_spec() & (value as u16),
            final(self).mask_spec() == old(self).mask_spec(),
    {
        self.acknowledge(value as u16);
    }

    /// Read I_MASK, zero-extended to 32 bits.
    pub fn read_mask(&self) -> (r: u32)
        ensures
            r == self.mask_spec() as u32,
    {
        self.mask as u32
    }

    /// Write I_MASK: only the low 16 bits are kept.
    pub fn write_mask(&mut self, value: u32)
        ensures
            final(self).mask_spec() == value as u16,
            final(self).status_spec() == old(self).status_spec(),
    {
        self.mask = value as u16;
    }
}

impl Default for InterruptController {
    fn default() -> (ic: Self)
        ensures
            ic.status_spec() == 0,
            ic.mask_spec() == 0,
    {
        Self::new()
    }
}

/// A requested interrupt stays flagged: requesting the same flags twice is
/// the same as requesting them once.
pub proof fn law_request_idempotent(status: u16, interrupt: u16)
    ensures
        (status | interrupt) | interrupt == status | interrupt,
{
    assert((status | interrupt) | interrupt == status | interrupt) by (bit_vector);
}

/// Acknowledging with all bits set changes nothing; acknowledging with 0 clears every flag.
pub proof fn law_acknowledge_extremes(status: u16)
    ensures
        status & 0xFFFFu16 == status,
        status & 0u16 == 0,
{
    assert(status & 0xFFFFu16 == status) by (bit_vector);
    assert(status & 0u16 == 0) by (bit_vector);
}

/// Writing a 0 bit clears the flag; writing a 1 bit leaves it as it was;
/// no acknowledge sets a flag.
pub proof fn law_acknowledge_bitwise(status: u16, value: u16, bit: u16)
    requires
        bit < 16,
    ensures
        (value >> bit) & 1 == 0 ==> ((status & value) >> bit) & 1 == 0,
        (value >> bit) & 1 == 1 ==> ((status & value) >> bit) & 1 == (status >> bit) & 1,
        (status & value) & !status == 0,
{
    assert((value >> bit) & 1 == 0 ==> ((status & value) >> bit) & 1 == 0) by (bit_vector);
    assert((value >> bit) & 1 == 1 ==> ((status & value) >> bit) & 1 == (status >> bit) & 1)
        by (bit_vector);
    assert((status & value) & !status == 0) by (bit_vector);
}

/// A requested interrupt is pending exactly when its mask bit is set
/// (for a single-bit request on a controller with nothing else pending).
pub proof fn law_request_pending(mask: u16, bit: u16)
    requires
        bit < 16,
    ensures
        pending_spec(0u16 | (1u16 << bit), mask) <==> (mask >> bit) & 1 == 1,
{
    assert((0u16 | (1u16 << bit)) & mask != 0 <==> (mask >> bit) & 1 == 1) by (bit_vector)
        requires bit < 16;
}

} // verus!
