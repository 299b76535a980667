//! Trait for memory-mapped I/O devices, with 8-bit and 16-bit register
//! access derived from 32-bit access.

use vstd::prelude::*;

use crate::error::EmulatorError;

verus! {

/// The halfword of a 32-bit register value selected by bit 1 of `offset`.
pub open spec fn extract16_spec(value: u32, offset: u32) -> u16 {
    ((value >> (((offset & 2) * 8) as u32)) & 0xFFFF) as u16
}

/// The byte of a 32-bit register value selected by bits 0-1 of `offset`.
pub open spec fn extract8_spec(value: u32, offset: u32) -> u8 {
    ((value >> (((offset & 3) * 8) as u32)) & 0xFF) as u8
}

/// `current` with the halfword selected by bit 1 of `offset` replaced by `value`.
pub open spec fn merge16_spec(current: u32, value: u16, offset: u32) -> u32 {
    (current & !(0xFFFFu32 << (((offset & 2) * 8) as u32))) | ((value as u32) << (((offset & 2) * 8) as u32))
}

/// `current` with the byte selected by bits 0-1 of `offset` replaced by `value`.
pub open spec fn merge8_spec(current: u32, value: u8, offset: u32) -> u32 {
    (current & !(0xFFu32 << (((offset & 3) * 8) as u32))) | ((value as u32) << (((offset & 3) * 8) as u32))
}

/// The halfword and byte selectors of an offset.
proof fn lemma_offset_bits(offset: u32)
    ensures
        offset & 2 == 0 || offset & 2 == 2,
        offset & 2 == 0 ==> (offset ^ 2) & 2 == 2,
        offset & 2 == 2 ==> (offset ^ 2) & 2 == 0,
        offset & 3 <= 3,
{
    assert({
        &&& offset & 2 == 0 || offset & 2 == 2
        &&& offset & 2 == 0 ==> (offset ^ 2) & 2 == 2
        &&& offset & 2 == 2 ==> (offset ^ 2) & 2 == 0
        &&& offset & 3 <= 3
    }) by (bit_vector);
}

/// Extract a halfword from a 32-bit register value.
pub fn extract16(value: u32, offset: u32) -> (r: u16)
    ensures
        r == extract16_spec(value, offset),
{
    proof {
        lemma_offset_bits(offset);
    }
    let shift = (offset & 0x02) * 8;
    ((value >> shift) & 0xFFFF) as u16
}

/// Extract a byte from a 32-bit register value.
pub fn extract8(value: u32, offset: u32) -> (r: u8)
    ensures
        r == extract8_spec(value, offset),
{
    proof {
        lemma_offset_bits(offset);
    }
    let shift = (offset & 0x03) * 8;
    ((value >> shift) & 0xFF) as u8
}

/// Replace a halfword of a 32-bit register value.
pub fn merge16(current: u32, value: u16, offset: u32) -> (r: u32)
    ensures
        r == merge16_spec(current, value, offset),
{
    proof {
        lemma_offset_bits(offset);
    }
    let shift = (offset & 0x02) * 8;
    let mask = !(0xFFFFu32 << shift);
    (current & mask) | ((value as u32) << shift)
}

/// Replace a byte of a 32-bit register value.
pub fn merge8(current: u32, value: u8, offset: u32) -> (r: u32)
    ensures
        r == merge8_spec(current, value, offset),
{
    proof {
        lemma_offset_bits(offset);
    }
    let shift = (offset & 0x03) * 8;
    let mask = !(0xFFu32 << shift);
    (current & mask) | ((value as u32) << shift)
}

/// What a register access that reads the aligned 32-bit register `read`
/// gives at the halfword selected by `offset`.
pub open spec fn read16_spec(read: Result<u32, EmulatorError>, offset: u32) -> Result<u16, EmulatorError> {
    match read {
        Ok(value) => Ok(extract16_spec(value, offset)),
        Err(e) => Err(e),
    }
}

/// What a register access that reads the aligned 32-bit register `read`
/// gives at the byte selected by `offset`.
pub open spec fn read8_spec(read: Result<u32, EmulatorError>, offset: u32) -> Result<u8, EmulatorError> {
    match read {
        Ok(value) => Ok(extract8_spec(value, offset)),
        Err(e) => Err(e),
    }
}

/// The 32-bit register offset that holds the byte or halfword at `offset`.
pub open spec fn aligned_spec(offset: u32) -> u32 {
    offset & !0x03u32
}

/// A memory-mapped peripheral. Devices implement 32-bit register access;
/// 8-bit and 16-bit access read the aligned 32-bit register and select, or
/// read-modify-write, the addressed part of it.
///
/// A verified implementation describes itself by three spec functions: its
/// address range, what each 32-bit register reads as, and which states and
/// results a 32-bit register write may produce. Their defaults describe a
/// device that answers no address and refuses every register access.
pub trait IODevice {
    /// The inclusive range of physical addresses the device answers; by
    /// default an empty range.
    open spec fn address_range_spec(&self) -> (u32, u32) {
        (1, 0)
    }

    /// What reading the 32-bit register at a device-relative offset gives;
    /// by default every offset is refused.
    open spec fn register_spec(&self, offset: u32) -> Result<u32, EmulatorError> {
        Err(EmulatorError::InvalidMemoryAccess { address: offset })
    }

    /// Whether `self`, with result `r`, is a state that writing `value` to
    /// the 32-bit register at `offset` of `old` may produce; by default the
    /// write is refused and changes nothing.
    open spec fn write_spec(&self, old: &Self, offset: u32, value: u32, r: Result<(), EmulatorError>) -> bool {
        &&& r == Err::<(), EmulatorError>(EmulatorError::InvalidMemoryAccess { address: offset })
        &&& self == old
    }

    /// The inclusive range of physical addresses the device answers.
    fn address_range(&self) -> (r: (u32, u32))
        ensures
            r == self.address_range_spec(),
    ;

    /// Whether `addr` lies within the device's address range.
    fn contains(&self, addr: u32) -> (r: bool)
        ensures
            r == (self.address_range_spec().0 <= addr && addr <= self.address_range_spec().1),
    {
        let (start, end) = self.address_range();
        addr >= start && addr <= end
    }

    /// Read a 32-bit register at a device-relative offset.
    fn read_register(&self, offset: u32) -> (r: Result<u32, EmulatorError>)
        ensures
            r == self.register_spec(offset),
    ;

    /// Write a 32-bit register at a device-relative offset.
    fn write_register(&mut self, offset: u32, value: u32) -> (r: Result<(), EmulatorError>)
        ensures
            final(self).write_spec(old(self), offset, value, r),
    ;

    /// Read the halfword at `offset` out of the aligned 32-bit register.
    fn read_register16(&self, offset: u32) -> (r: Result<u16, EmulatorError>)
        ensures
            r == read16_spec(self.register_spec(aligned_spec(offset)), offset),
    {
        match self.read_register(offset & !0x03u32) {
            Ok(value) => Ok(extract16(value, offset)),
            Err(e) => Err(e),
        }
    }

    /// Replace the halfword at `offset` in the aligned 32-bit register: on a
    /// failed read the device is unchanged and the read's error returned,
    /// else the register is written with the halfword merged in.
    fn write_register16(&mut self, offset: u32, value: u16) -> (r: Result<(), EmulatorError>)
        ensures
            match old(self).register_spec(aligned_spec(offset)) {
                Ok(current) => final(self).write_spec(
                    old(self),
                    aligned_spec(offset),
                    merge16_spec(current, value, offset),
                    r,
                ),
                Err(e) => r == Err::<(), EmulatorError>(e) && &*final(self) == &*old(self),
            },
    {
        let aligned = offset & !0x03u32;
        match self.read_register(aligned) {
            Ok(current) => self.write_register(aligned, merge16(current, value, offset)),
            Err(e) => Err(e),
        }
    }

    /// Read the byte at `offset` out of the aligned 32-bit register.
    fn read_register8(&self, offset: u32) -> (r: Result<u8, EmulatorError>)
        ensures
            r == read8_spec(self.register_spec(aligned_spec(offset)), offset),
    {
        match self.read_register(offset & !0x03u32) {
            Ok(value) => Ok(extract8(value, offset)),
            Err(e) => Err(e),
        }
    }

    /// Replace the byte at `offset` in the aligned 32-bit register: on a
    /// failed read the device is unchanged and the read's error returned,
    /// else the register is written with the byte merged in.
    fn write_register8(&mut self, offset: u32, value: u8) -> (r: Result<(), EmulatorError>)
        ensures
            match old(self).register_spec(aligned_spec(offset)) {
                Ok(current) => final(self).write_spec(
                    old(self),
                    aligned_spec(offset),
                    merge8_spec(current, value, offset),
                    r,
                ),
                Err(e) => r == Err::<(), EmulatorError>(e) && &*final(self) == &*old(self),
            },
    {
        let aligned = offset & !0x03u32;
        match self.read_register(aligned) {
            Ok(current) => self.write_register(aligned, merge8(current, value, offset)),
            Err(e) => Err(e),
        }
    }

    /// A name for diagnostics; by default "Unknown Device".
    fn name(&self) -> (r: &str)
        default_ensures
            r@ == "Unknown Device"@,
    {
        "Unknown Device"
    }
}

/// Writing a halfword and reading it back gives the halfword, and the other
/// halfword of the register is unchanged.
pub proof fn law_register16_roundtrip(current: u32, value: u16, offset: u32)
    ensures
        extract16_spec(merge16_spec(current, value, offset), offset) == value,
        extract16_spec(merge16_spec(current, value, offset), offset ^ 2) == extract16_spec(
            current,
            offset ^ 2,
        ),
{
    let s: u32 = ((offset & 2) * 8) as u32;
    let t: u32 = (((offset ^ 2) & 2) * 8) as u32;
    lemma_offset_bits(offset);
    assert((((current & !(0xFFFFu32 << s)) | ((value as u32) << s)) >> s) & 0xFFFF == value as u32
        && (((current & !(0xFFFFu32 << s)) | ((value as u32) << s)) >> t) & 0xFFFF == (current >> t)
        & 0xFFFF) by (bit_vector)
        requires
            (s == 0 && t == 16) || (s == 16 && t == 0),
    ;
}

/// Writing a byte and reading it back gives the byte.
pub proof fn law_register8_roundtrip(current: u32, value: u8, offset: u32)
    ensures
        extract8_spec(merge8_spec(current, value, offset), offset) == value,
{
    let s: u32 = ((offset & 3) * 8) as u32;
    lemma_offset_bits(offset);
    assert((((current & !(0xFFu32 << s)) | ((value as u32) << s)) >> s) & 0xFF == value as u32)
        by (bit_vector)
        requires
            s == 0 || s == 8 || s == 16 || s == 24,
    ;
}

} // verus!
