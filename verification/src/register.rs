//! The hardware operations that the bootstrap asks for, and what they do to
//! the system registers.
//!
//! The library never executes an operation. It hands out sequences of them,
//! and the model in this module says what a sequence leaves in the registers
//! when it is carried out in order.

use crate::field::FieldValue;
use vstd::prelude::*;

verus! {

/// The system registers that the bootstrap programs.
#[derive(Clone, Copy, Debug, PartialEq, Eq, Structural)]
pub enum SystemRegister {
    /// System control, kernel level.
    SctlrEl1,
    /// System control, hypervisor level.
    SctlrEl2,
    /// Memory attribute indirection, kernel level.
    MairEl1,
    /// Memory attribute indirection, hypervisor level.
    MairEl2,
    /// Translation table base, kernel level.
    Ttbr0El1,
    /// Translation table base, hypervisor level.
    Ttbr0El2,
    /// Translation control, kernel level.
    TcrEl1,
    /// Translation control, hypervisor level.
    TcrEl2,
    /// Hypervisor configuration.
    HcrEl2,
    /// Architectural feature access control.
    CpacrEl1,
    /// System control of the 32 bit architecture.
    Sctlr,
    /// Auxiliary control of the 32 bit architecture.
    Actlr,
    /// Translation table base control of the 32 bit architecture.
    Ttbcr,
    /// Translation table base of the 32 bit architecture.
    Ttbr0,
    /// Domain access control of the 32 bit architecture.
    Dacr,
}

/// One step that the caller carries out on the hardware.
#[derive(Clone, Copy, Debug, PartialEq, Eq, Structural)]
pub enum Operation {
    /// Read the register, replace the bits of `mask` by `bits`, write it back.
    Update { register: SystemRegister, mask: u64, bits: u64 },
    /// Write `value` to the register, whatever it held.
    Store { register: SystemRegister, value: u64 },
    /// Let one cycle pass.
    Nop,
    /// Wait until all memory accesses have completed.
    DataBarrier,
    /// Discard what the pipeline has fetched.
    InstructionBarrier,
    /// Wait until all stores are visible to the cores that share memory.
    StoreBarrier,
    /// Fill the translation tables.
    BuildTables,
    /// Leave the hypervisor level for the kernel level.
    DropToEl1,
    /// Leave the hypervisor mode for the supervisor mode.
    DropToSvc,
    /// Store the 32 bit `word` at the physical `address`.
    Write32 { address: u64, word: u32 },
    /// Store the 64 bit `doubleword` at the physical `address`.
    Write64 { address: u64, doubleword: u64 },
    /// Write back the data cache lines of `size` bytes from `start` on, so
    /// that memory holds what the cache held.
    FlushDataCache { start: u64, size: u64 },
    /// Wake the cores that wait for an event.
    SendEvent,
}

/// The content of every system register.
pub type RegisterFile = Map<SystemRegister, u64>;

impl Operation {
    /// The update that writes `value` to its fields of `register`.
    pub open spec fn update(register: SystemRegister, value: FieldValue) -> Operation {
        Operation::Update { register, mask: value.mask, bits: value.bits }
    }

    /// The registers after the operation, given the registers before it.
    /// Only updates and plain writes change a register.
    pub open spec fn effect(self, registers: RegisterFile) -> RegisterFile {
        match self {
            Operation::Update { register, mask, bits } => registers.insert(
                register,
                (registers[register] & !mask) | bits,
            ),
            Operation::Store { register, value } => registers.insert(register, value),
            _ => registers,
        }
    }

    /// Whether the operation writes to `register`.
    pub open spec fn touches(self, register: SystemRegister) -> bool {
        match self {
            Operation::Update { register: written, .. } => written == register,
            Operation::Store { register: written, .. } => written == register,
            _ => false,
        }
    }

    /// Makes the update that writes `value` to its fields of `register`.
    pub fn write(register: SystemRegister, value: FieldValue) -> (op: Operation)
        ensures
            op == Operation::update(register, value),
    {
        Operation::Update { register, mask: value.mask, bits: value.bits }
    }
}

/// Whether the register file holds a content for every register.
pub open spec fn is_complete(registers: RegisterFile) -> bool {
    forall|register: SystemRegister| registers.dom().contains(register)
}

/// The registers after the operations have been carried out in order.
pub open spec fn run(operations: Seq<Operation>, registers: RegisterFile) -> RegisterFile
    decreases operations.len(),
{
    if operations.len() == 0 {
        registers
    } else {
        operations.last().effect(run(operations.drop_last(), registers))
    }
}

/// Carrying out one operation more applies the effect of that operation to
/// what the operations before it have left.
pub proof fn run_one_more(operations: Seq<Operation>, count: int, registers: RegisterFile)
    requires
        0 <= count < operations.len(),
    ensures
        run(operations.take(count + 1), registers) == operations[count].effect(
            run(operations.take(count), registers),
        ),
{
    assert(operations.take(count + 1).drop_last() =~= operations.take(count));
}

/// A register that none of the operations from position `from` up to
/// position `to` writes to holds after them what it held before them.
pub proof fn unwritten_register_is_kept(
    operations: Seq<Operation>,
    register: SystemRegister,
    from: int,
    to: int,
    registers: RegisterFile,
)
    requires
        0 <= from <= to <= operations.len(),
        forall|i: int| from <= i < to ==> !(#[trigger] operations[i]).touches(register),
    ensures
        run(operations.take(to), registers)[register] == run(
            operations.take(from),
            registers,
        )[register],
    decreases to - from,
{
    if from < to {
        unwritten_register_is_kept(operations, register, from, to - 1, registers);
        run_one_more(operations, to - 1, registers);
        assert(!operations[to - 1].touches(register));
    }
}

} // verus!
