//! Register field values as plain bit patterns.
//!
//! A hardware register is a machine word split into named fields. A value for
//! one field, or for several fields combined, is described here by the bits of
//! the register it covers and by what those bits shall hold. The bit patterns
//! themselves are produced by the `ruspiro-register` crate; this module only
//! states what that crate computes.

use ruspiro_register::{RegisterField, RegisterFieldValue};
use vstd::prelude::*;

verus! {

/// A value for one or more fields of a register, in register position.
#[derive(Clone, Copy, Debug, PartialEq, Eq, Structural)]
pub struct FieldValue {
    /// The register bits that the fields cover.
    pub mask: u64,
    /// What the covered bits hold.
    pub bits: u64,
}

/// `pattern` moved `offset` bits up inside a 64 bit register; nothing is left
/// of it once the offset reaches the register width.
pub open spec fn placed64(pattern: u64, offset: u64) -> u64 {
    if offset < 64 {
        pattern << offset
    } else {
        0
    }
}

/// `pattern` moved `offset` bits up inside a 32 bit register; nothing is left
/// of it once the offset reaches the register width.
pub open spec fn placed32(pattern: u32, offset: u32) -> u32 {
    if offset < 32 {
        pattern << offset
    } else {
        0
    }
}

/// The value of a field of a 64 bit register: `width_mask` are the low bits
/// that the field is wide, `offset` is the bit the field starts at.
pub open spec fn field64(width_mask: u64, offset: u64, value: u64) -> FieldValue {
    FieldValue { mask: placed64(width_mask, offset), bits: placed64(value & width_mask, offset) }
}

/// The value of a field of a 32 bit register.
pub open spec fn field32(width_mask: u32, offset: u32, value: u32) -> FieldValue {
    FieldValue {
        mask: placed32(width_mask, offset) as u64,
        bits: placed32(value & width_mask, offset) as u64,
    }
}

impl FieldValue {
    /// Both field values together: the union of the covered bits, each value
    /// cut down to the bits it covers.
    pub open spec fn union(self, other: FieldValue) -> FieldValue {
        FieldValue {
            mask: self.mask | other.mask,
            bits: (self.bits & self.mask) | (other.bits & other.mask),
        }
    }

    /// The register content after this value is written over `current`: the
    /// covered bits are replaced, all others stay.
    pub open spec fn written_over(self, current: u64) -> u64 {
        (current & !self.mask) | self.bits
    }

    /// Computes the register content after this value is written over
    /// `current`.
    pub fn write_over(&self, current: u64) -> (updated: u64)
        ensures
            updated == self.written_over(current),
    {
        (current & !self.mask) | self.bits
    }
}

/// Calls `RegisterField::<u32>::new` and `RegisterFieldValue::<u32>::new` of
/// `ruspiro-register` and reads the result back with `mask` and `raw_value`.
///
/// The crate keeps `value & width_mask` and shifts both it and the mask by
/// `offset` with `checked_shl`, which yields zero for a shift of 32 or more.
#[verifier::external_body]
pub(crate) fn field_value32(width_mask: u32, offset: u32, value: u32) -> (fv: FieldValue)
    ensures
        fv == field32(width_mask, offset, value),
{
    let v = RegisterFieldValue::<u32>::new(RegisterField::<u32>::new(width_mask, offset), value);
    FieldValue { mask: v.mask() as u64, bits: v.raw_value() as u64 }
}

/// Combines two field values with the `|` that `ruspiro-register` implements
/// for `RegisterFieldValue<u64>`.
///
/// Each operand enters as a field at offset zero, where the crate cuts its
/// value down to its mask; the result covers both masks and holds both values.
#[verifier::external_body]
pub(crate) fn merge(a: FieldValue, b: FieldValue) -> (fv: FieldValue)
    ensures
        fv == a.union(b),
{
    let left = RegisterFieldValue::<u64>::new(RegisterField::<u64>::new(a.mask, 0), a.bits);
    let right = RegisterFieldValue::<u64>::new(RegisterField::<u64>::new(b.mask, 0), b.bits);
    let v = left | right;
    FieldValue { mask: v.mask(), bits: v.raw_value() }
}

} // verus!
