//! The exception level that a core runs at, and how a core leaves the
//! hypervisor level.

use crate::field::FieldValue;
use crate::register::{Operation, SystemRegister};
use crate::system::{cpacr_el1_fpen_no_trap, currentel_el};
use vstd::prelude::*;

verus! {

/// The privilege levels of the architecture.
#[derive(Clone, Copy, Debug, PartialEq, Eq, Structural)]
pub enum ExceptionLevel {
    /// Applications.
    El0,
    /// The kernel.
    El1,
    /// The hypervisor.
    El2,
    /// The secure monitor.
    El3,
}

impl ExceptionLevel {
    /// The number of the level.
    pub open spec fn number(self) -> u64 {
        match self {
            ExceptionLevel::El0 => 0,
            ExceptionLevel::El1 => 1,
            ExceptionLevel::El2 => 2,
            ExceptionLevel::El3 => 3,
        }
    }

    /// Whether the MMU can be set up at this level.
    pub open spec fn is_supported(self) -> bool {
        self == ExceptionLevel::El1 || self == ExceptionLevel::El2
    }

    /// Reads the level out of the content of the current level register,
    /// where it stands in bits 2 and 3.
    pub fn current(currentel: u64) -> (level: ExceptionLevel)
        ensures
            level.number() == (currentel >> 2) & 0b11,
    {
        let el = currentel_el(currentel);
        assert((currentel >> 2) & 0b11 < 4) by (bit_vector);
        if el == 0 {
            ExceptionLevel::El0
        } else if el == 1 {
            ExceptionLevel::El1
        } else if el == 2 {
            ExceptionLevel::El2
        } else {
            ExceptionLevel::El3
        }
    }
}

/// The field value that stops floating point and vector instructions from
/// trapping.
pub open spec fn floating_point_untrapped() -> FieldValue {
    FieldValue { mask: 0x30_0000, bits: 0x30_0000 }
}

/// What a core does to reach the kernel level. At the hypervisor level it
/// drops one level and then lets floating point and vector instructions run
/// without a trap; at any other level nothing is done.
pub open spec fn el1_switch(current: ExceptionLevel) -> Seq<Operation> {
    if current == ExceptionLevel::El2 {
        seq![
            Operation::DropToEl1,
            Operation::update(SystemRegister::CpacrEl1, floating_point_untrapped()),
        ]
    } else {
        seq![]
    }
}

/// Plans the way to the kernel level for a core that runs at `current`.
pub fn switch_to_el1(current: ExceptionLevel) -> (operations: Vec<Operation>)
    ensures
        operations@ == el1_switch(current),
{
    let mut operations: Vec<Operation> = Vec::new();
    if current == ExceptionLevel::El2 {
        let no_trap = cpacr_el1_fpen_no_trap();
        assert(crate::field::field64(0x3, 20, 3) == floating_point_untrapped()) by (bit_vector);
        operations.push(Operation::DropToEl1);
        operations.push(Operation::write(SystemRegister::CpacrEl1, no_trap));
    }
    assert(operations@ =~= el1_switch(current));
    operations
}

/// Plans the way from the hypervisor mode to the supervisor mode of the
/// 32 bit architecture: the one routine that drops the mode.
pub fn switch_to_svc() -> (operations: Vec<Operation>)
    ensures
        operations@ == seq![Operation::DropToSvc],
{
    let mut operations: Vec<Operation> = Vec::new();
    operations.push(Operation::DropToSvc);
    assert(operations@ =~= seq![Operation::DropToSvc]);
    operations
}

} // verus!
