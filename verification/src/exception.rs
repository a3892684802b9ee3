//! Classification of trapped exceptions.
//!
//! The exception vector hands over which entry was taken together with the
//! syndrome, the saved status and two addresses. From these the handler
//! decides, for every possible input, which of four things happens: the
//! interrupt hook runs, the core stops silently, the core stops after a
//! diagnostic, or the exception is reported and the trapped code goes on.

use vstd::prelude::*;

verus! {

/// The entries of the exception vector, by the numbers the vector passes.
#[derive(Clone, Copy, Debug, PartialEq, Eq, Structural)]
pub enum ExceptionType {
    CurrentElSp0Sync,
    CurrentElSp0Irq,
    CurrentElSp0Fiq,
    CurrentElSp0SErr,
    CurrentElSpxSync,
    CurrentElSpxIrq,
    CurrentElSpxFiq,
    CurrentElSpxSErr,
    LowerEl64SpxSync,
    LowerEl64SpxIrq,
    LowerEl64SpxFiq,
    LowerEl64SpxSErr,
    LowerEl32SpxSync,
    LowerEl32SpxIrq,
    LowerEl32SpxFiq,
    LowerEl32SpxSErr,
    A32UndefInstruction,
    A32SoftwareInterrupt,
    A32PrefetchAbort,
    A32DataAbort,
    A32Irq,
    A32Fiq,
}

impl ExceptionType {
    /// The number under which the exception vector passes this entry.
    pub open spec fn number(self) -> u32 {
        match self {
            ExceptionType::CurrentElSp0Sync => 0x01,
            ExceptionType::CurrentElSp0Irq => 0x02,
            ExceptionType::CurrentElSp0Fiq => 0x03,
            ExceptionType::CurrentElSp0SErr => 0x04,
            ExceptionType::CurrentElSpxSync => 0x11,
            ExceptionType::CurrentElSpxIrq => 0x12,
            ExceptionType::CurrentElSpxFiq => 0x13,
            ExceptionType::CurrentElSpxSErr => 0x14,
            ExceptionType::LowerEl64SpxSync => 0x21,
            ExceptionType::LowerEl64SpxIrq => 0x22,
            ExceptionType::LowerEl64SpxFiq => 0x23,
            ExceptionType::LowerEl64SpxSErr => 0x24,
            ExceptionType::LowerEl32SpxSync => 0x31,
            ExceptionType::LowerEl32SpxIrq => 0x32,
            ExceptionType::LowerEl32SpxFiq => 0x33,
            ExceptionType::LowerEl32SpxSErr => 0x34,
            ExceptionType::A32UndefInstruction => 0x50,
            ExceptionType::A32SoftwareInterrupt => 0x51,
            ExceptionType::A32PrefetchAbort => 0x52,
            ExceptionType::A32DataAbort => 0x53,
            ExceptionType::A32Irq => 0x54,
            ExceptionType::A32Fiq => 0x55,
        }
    }

    /// Whether the entry is taken for an interrupt or a fast interrupt.
    pub open spec fn is_interrupt(self) -> bool {
        match self {
            ExceptionType::CurrentElSp0Irq
            | ExceptionType::CurrentElSp0Fiq
            | ExceptionType::CurrentElSpxIrq
            | ExceptionType::CurrentElSpxFiq
            | ExceptionType::LowerEl64SpxIrq
            | ExceptionType::LowerEl64SpxFiq
            | ExceptionType::LowerEl32SpxIrq
            | ExceptionType::LowerEl32SpxFiq
            | ExceptionType::A32Irq
            | ExceptionType::A32Fiq => true,
            _ => false,
        }
    }

    /// Whether the entry is the synchronous one of the current level on its
    /// own stack, the only one whose syndrome is decoded.
    pub open spec fn is_decoded(self) -> bool {
        self == ExceptionType::CurrentElSpxSync
    }

    /// Returns the number under which the exception vector passes this entry.
    pub fn code(self) -> (code: u32)
        ensures
            code == self.number(),
    {
        match self {
            ExceptionType::CurrentElSp0Sync => 0x01,
            ExceptionType::CurrentElSp0Irq => 0x02,
            ExceptionType::CurrentElSp0Fiq => 0x03,
            ExceptionType::CurrentElSp0SErr => 0x04,
            ExceptionType::CurrentElSpxSync => 0x11,
            ExceptionType::CurrentElSpxIrq => 0x12,
            ExceptionType::CurrentElSpxFiq => 0x13,
            ExceptionType::CurrentElSpxSErr => 0x14,
            ExceptionType::LowerEl64SpxSync => 0x21,
            ExceptionType::LowerEl64SpxIrq => 0x22,
            ExceptionType::LowerEl64SpxFiq => 0x23,
            ExceptionType::LowerEl64SpxSErr => 0x24,
            ExceptionType::LowerEl32SpxSync => 0x31,
            ExceptionType::LowerEl32SpxIrq => 0x32,
            ExceptionType::LowerEl32SpxFiq => 0x33,
            ExceptionType::LowerEl32SpxSErr => 0x34,
            ExceptionType::A32UndefInstruction => 0x50,
            ExceptionType::A32SoftwareInterrupt => 0x51,
            ExceptionType::A32PrefetchAbort => 0x52,
            ExceptionType::A32DataAbort => 0x53,
            ExceptionType::A32Irq => 0x54,
            ExceptionType::A32Fiq => 0x55,
        }
    }

    /// Finds the entry that the exception vector passes as `code`.
    pub fn from_code(code: u32) -> (entry: Option<ExceptionType>)
        ensures
            match entry {
                Some(e) => e.number() == code,
                None => forall|e: ExceptionType| e.number() != code,
            },
    {
        if code == 0x01 {
            Some(ExceptionType::CurrentElSp0Sync)
        } else if code == 0x02 {
            Some(ExceptionType::CurrentElSp0Irq)
        } else if code == 0x03 {
            Some(ExceptionType::CurrentElSp0Fiq)
        } else if code == 0x04 {
            Some(ExceptionType::CurrentElSp0SErr)
        } else if code == 0x11 {
            Some(ExceptionType::CurrentElSpxSync)
        } else if code == 0x12 {
            Some(ExceptionType::CurrentElSpxIrq)
        } else if code == 0x13 {
            Some(ExceptionType::CurrentElSpxFiq)
        } else if code == 0x14 {
            Some(ExceptionType::CurrentElSpxSErr)
        } else if code == 0x21 {
            Some(ExceptionType::LowerEl64SpxSync)
        } else if code == 0x22 {
            Some(ExceptionType::LowerEl64SpxIrq)
        } else if code == 0x23 {
            Some(ExceptionType::LowerEl64SpxFiq)
        } else if code == 0x24 {
            Some(ExceptionType::LowerEl64SpxSErr)
        } else if code == 0x31 {
            Some(ExceptionType::LowerEl32SpxSync)
        } else if code == 0x32 {
            Some(ExceptionType::LowerEl32SpxIrq)
        } else if code == 0x33 {
            Some(ExceptionType::LowerEl32SpxFiq)
        } else if code == 0x34 {
            Some(ExceptionType::LowerEl32SpxSErr)
        } else if code == 0x50 {
            Some(ExceptionType::A32UndefInstruction)
        } else if code == 0x51 {
            Some(ExceptionType::A32SoftwareInterrupt)
        } else if code == 0x52 {
            Some(ExceptionType::A32PrefetchAbort)
        } else if code == 0x53 {
            Some(ExceptionType::A32DataAbort)
        } else if code == 0x54 {
            Some(ExceptionType::A32Irq)
        } else if code == 0x55 {
            Some(ExceptionType::A32Fiq)
        } else {
            None
        }
    }
}

/// Why a synchronous exception of the current level stops the core for good.
#[derive(Clone, Copy, Debug, PartialEq, Eq, Structural)]
pub enum FatalCause {
    /// The syndrome names no reason.
    UnknownReason,
    /// A supervisor call from the 32 bit instruction set.
    SvcA32,
    /// A hypervisor call from the 32 bit instruction set.
    HvcA32,
    /// A secure monitor call from the 32 bit instruction set.
    SmcA32,
    /// A supervisor call from the 64 bit instruction set.
    SvcA64,
    /// A hypervisor call from the 64 bit instruction set.
    HvcA64,
    /// A secure monitor call from the 64 bit instruction set.
    SmcA64,
    /// An instruction could not be fetched.
    InstructionAbort,
    /// A data access of a lower level failed.
    DataAbortLowerEl,
    /// A data access of the current level failed.
    DataAbortSameEl(DataAbort),
    /// A class that the handler does not know.
    UnhandledSync,
}

/// What kind of fault a data abort reports in its status code.
#[derive(Clone, Copy, Debug, PartialEq, Eq, Structural)]
pub enum FaultStatus {
    /// No translation was found at the given level of the table walk.
    Translation { level: u8 },
    /// The access was not aligned as its kind demands.
    Alignment,
    /// A status code that is not decoded further.
    Other,
}

/// The decoded syndrome of a data abort taken from the current level.
#[derive(Clone, Copy, Debug, PartialEq, Eq, Structural)]
pub struct DataAbort {
    /// The fault came from a cache maintenance or address translation
    /// instruction.
    pub cache_maintenance: bool,
    /// The failing access was a write; a read otherwise.
    pub write: bool,
    /// The kind of fault.
    pub status: FaultStatus,
}

/// Everything that is reported of a fatal exception before the core stops.
#[derive(Clone, Copy, Debug, PartialEq, Eq, Structural)]
pub struct Diagnostic {
    /// Why the exception is fatal.
    pub cause: FatalCause,
    /// The exception class of the syndrome.
    pub class: u64,
    /// The instruction specific part of the syndrome.
    pub syndrome: u64,
    /// The address whose access faulted.
    pub fault_address: u64,
    /// The address that the exception would return to.
    pub return_address: u64,
    /// The processor status saved when the exception was taken.
    pub status: u64,
}

/// What is done about an exception.
#[derive(Clone, Copy, Debug, PartialEq, Eq, Structural)]
pub enum Handling {
    /// The interrupt service routine is called; nothing is reported.
    Interrupt,
    /// The core stops on a breakpoint instruction; nothing is reported.
    DebugBreak,
    /// The diagnostic is reported, then the core stops.
    Fatal(Diagnostic),
    /// The exception is reported as unhandled and the trapped code goes on.
    Unhandled,
}

/// The exception class: six bits of the syndrome, from bit 26 on.
pub open spec fn exception_class(esr: u64) -> u64 {
    (esr >> 26) & 0x3f
}

/// The instruction specific syndrome: the low 25 bits.
pub open spec fn instruction_syndrome(esr: u64) -> u64 {
    esr & 0x01ff_ffff
}

/// The exception class of a breakpoint instruction.
pub const CLASS_BREAKPOINT: u64 = 0b111100;

/// The kind of fault that the low six bits of a data abort syndrome name.
pub open spec fn fault_status(iss: u64) -> FaultStatus {
    let code = iss & 0x3f;
    if code == 0b000100 {
        FaultStatus::Translation { level: 0 }
    } else if code == 0b000101 {
        FaultStatus::Translation { level: 1 }
    } else if code == 0b000110 {
        FaultStatus::Translation { level: 2 }
    } else if code == 0b000111 {
        FaultStatus::Translation { level: 3 }
    } else if code == 0b100001 {
        FaultStatus::Alignment
    } else {
        FaultStatus::Other
    }
}

/// The decoded form of a data abort syndrome: bit 8 tells cache maintenance,
/// bit 6 tells a write, the low six bits tell the kind of fault.
pub open spec fn data_abort(iss: u64) -> DataAbort {
    DataAbort {
        cache_maintenance: iss & 0x100 == 0x100,
        write: iss & 0x40 == 0x40,
        status: fault_status(iss),
    }
}

/// Why an exception of the given class is fatal. The class of a breakpoint
/// instruction is not fatal and has no cause.
pub open spec fn fatal_cause(class: u64, iss: u64) -> FatalCause
    recommends
        class != CLASS_BREAKPOINT,
{
    if class == 0b000000 {
        FatalCause::UnknownReason
    } else if class == 0b010001 {
        FatalCause::SvcA32
    } else if class == 0b010010 {
        FatalCause::HvcA32
    } else if class == 0b010011 {
        FatalCause::SmcA32
    } else if class == 0b010101 {
        FatalCause::SvcA64
    } else if class == 0b010110 {
        FatalCause::HvcA64
    } else if class == 0b010111 {
        FatalCause::SmcA64
    } else if class == 0b100001 {
        FatalCause::InstructionAbort
    } else if class == 0b100100 {
        FatalCause::DataAbortLowerEl
    } else if class == 0b100101 {
        FatalCause::DataAbortSameEl(data_abort(iss))
    } else {
        FatalCause::UnhandledSync
    }
}

/// What is done about the exception with the given record.
pub open spec fn handling(
    exception: ExceptionType,
    esr: u64,
    spsr: u64,
    far: u64,
    elr: u64,
) -> Handling {
    if exception.is_interrupt() {
        Handling::Interrupt
    } else if !exception.is_decoded() {
        Handling::Unhandled
    } else if exception_class(esr) == CLASS_BREAKPOINT {
        Handling::DebugBreak
    } else {
        Handling::Fatal(
            Diagnostic {
                cause: fatal_cause(exception_class(esr), instruction_syndrome(esr)),
                class: exception_class(esr),
                syndrome: instruction_syndrome(esr),
                fault_address: far,
                return_address: elr,
                status: spsr,
            },
        )
    }
}

/// Decodes the syndrome of a data abort taken from the current level.
pub fn decode_data_abort(iss: u64) -> (abort: DataAbort)
    ensures
        abort == data_abort(iss),
{
    let code = iss & 0x3f;
    let status = if code == 0b000100 {
        FaultStatus::Translation { level: 0 }
    } else if code == 0b000101 {
        FaultStatus::Translation { level: 1 }
    } else if code == 0b000110 {
        FaultStatus::Translation { level: 2 }
    } else if code == 0b000111 {
        FaultStatus::Translation { level: 3 }
    } else if code == 0b100001 {
        FaultStatus::Alignment
    } else {
        FaultStatus::Other
    };
    DataAbort {
        cache_maintenance: iss & 0x100 == 0x100,
        write: iss & 0x40 == 0x40,
        status,
    }
}

/// Decides what is done about an exception.
///
/// Interrupts and fast interrupts of every level go to the interrupt service
/// routine. Of the other entries only the synchronous one of the current
/// level on its own stack is decoded: a breakpoint instruction stops the core
/// without a word, every other class is fatal and comes with its diagnostic.
/// What is left is reported as unhandled.
pub fn exception_handler_default(
    exception: ExceptionType,
    esr: u64,
    spsr: u64,
    far: u64,
    elr: u64,
) -> (outcome: Handling)
    ensures
        outcome == handling(exception, esr, spsr, far, elr),
{
    match exception {
        ExceptionType::CurrentElSpxSync => {
            let esr_ec = (esr >> 26) & 0x3f;
            let esr_iss = esr & 0x01FF_FFFF;
            let cause = match esr_ec {
                0b000000 => FatalCause::UnknownReason,
                0b010001 => FatalCause::SvcA32,
                0b010010 => FatalCause::HvcA32,
                0b010011 => FatalCause::SmcA32,
                0b010101 => FatalCause::SvcA64,
                0b010110 => FatalCause::HvcA64,
                0b010111 => FatalCause::SmcA64,
                0b100001 => FatalCause::InstructionAbort,
                0b100100 => FatalCause::DataAbortLowerEl,
                0b100101 => FatalCause::DataAbortSameEl(decode_data_abort(esr_iss)),
                0b111100 => {
                    return Handling::DebugBreak;
                },
                _ => FatalCause::UnhandledSync,
            };
            Handling::Fatal(
                Diagnostic {
                    cause,
                    class: esr_ec,
                    syndrome: esr_iss,
                    fault_address: far,
                    return_address: elr,
                    status: spsr,
                },
            )
        },
        ExceptionType::CurrentElSp0Irq
        | ExceptionType::CurrentElSp0Fiq
        | ExceptionType::CurrentElSpxIrq
        | ExceptionType::CurrentElSpxFiq
        | ExceptionType::LowerEl64SpxIrq
        | ExceptionType::LowerEl64SpxFiq
        | ExceptionType::LowerEl32SpxIrq
        | ExceptionType::LowerEl32SpxFiq
        | ExceptionType::A32Irq
        | ExceptionType::A32Fiq => Handling::Interrupt,
        _ => Handling::Unhandled,
    }
}

/// What the exception vector hands over when an exception is taken.
#[derive(Clone, Copy, Debug, PartialEq, Eq, Structural)]
pub struct ExceptionRecord {
    /// The entry of the vector that was taken.
    pub exception: ExceptionType,
    /// The syndrome: why the exception was taken.
    pub esr: u64,
    /// The processor status saved when the exception was taken.
    pub spsr: u64,
    /// The address whose access faulted.
    pub far: u64,
    /// The address that the exception would return to.
    pub elr: u64,
}

impl ExceptionRecord {
    /// What is done about the exception.
    pub open spec fn handling(self) -> Handling {
        handling(self.exception, self.esr, self.spsr, self.far, self.elr)
    }

    /// Decides what is done about the exception.
    pub fn handle(&self) -> (outcome: Handling)
        ensures
            outcome == self.handling(),
    {
        exception_handler_default(self.exception, self.esr, self.spsr, self.far, self.elr)
    }
}

impl FatalCause {
    /// The words in which the cause is reported.
    pub open spec fn words(self) -> Seq<char> {
        match self {
            FatalCause::UnknownReason => "Unknown Reason"@,
            FatalCause::SvcA32 => "SVC in a32 instruction called"@,
            FatalCause::HvcA32 => "HVC in a32 instruction called"@,
            FatalCause::SmcA32 => "SMC in a32 instruction called"@,
            FatalCause::SvcA64 => "SVC in a64 instruction called"@,
            FatalCause::HvcA64 => "HVC in a64 instruction called"@,
            FatalCause::SmcA64 => "SMC in a64 instruction called"@,
            FatalCause::InstructionAbort => "instruction abort"@,
            FatalCause::DataAbortLowerEl => "data abort lower EL"@,
            FatalCause::DataAbortSameEl(_) => "data abort same EL"@,
            FatalCause::UnhandledSync => "unhandled sync exception"@,
        }
    }

    /// Returns the words in which the cause is reported.
    pub fn message(&self) -> (text: &'static str)
        ensures
            text@ == self.words(),
    {
        match self {
            FatalCause::UnknownReason => "Unknown Reason",
            FatalCause::SvcA32 => "SVC in a32 instruction called",
            FatalCause::HvcA32 => "HVC in a32 instruction called",
            FatalCause::SmcA32 => "SMC in a32 instruction called",
            FatalCause::SvcA64 => "SVC in a64 instruction called",
            FatalCause::HvcA64 => "HVC in a64 instruction called",
            FatalCause::SmcA64 => "SMC in a64 instruction called",
            FatalCause::InstructionAbort => "instruction abort",
            FatalCause::DataAbortLowerEl => "data abort lower EL",
            FatalCause::DataAbortSameEl(_) => "data abort same EL",
            FatalCause::UnhandledSync => "unhandled sync exception",
        }
    }
}

/// Every exception is handled in exactly one of four ways, and which one is
/// decided by the vector entry and the exception class alone: interrupts are
/// forwarded, the decoded entry stops the core, silently for a breakpoint and
/// with a diagnostic otherwise, and all other entries are reported as
/// unhandled.
pub proof fn classification_is_total(
    exception: ExceptionType,
    esr: u64,
    spsr: u64,
    far: u64,
    elr: u64,
)
    ensures
        handling(exception, esr, spsr, far, elr) == Handling::Interrupt
            <==> exception.is_interrupt(),
        handling(exception, esr, spsr, far, elr) == Handling::DebugBreak <==> (
        exception.is_decoded() && exception_class(esr) == CLASS_BREAKPOINT),
        handling(exception, esr, spsr, far, elr) is Fatal <==> (exception.is_decoded()
            && exception_class(esr) != CLASS_BREAKPOINT),
        handling(exception, esr, spsr, far, elr) == Handling::Unhandled <==> (
        !exception.is_interrupt() && !exception.is_decoded()),
{
}

/// A fatal exception is reported with the addresses and the status of its
/// record, unchanged.
pub proof fn diagnostic_keeps_record(
    exception: ExceptionType,
    esr: u64,
    spsr: u64,
    far: u64,
    elr: u64,
)
    requires
        handling(exception, esr, spsr, far, elr) is Fatal,
    ensures
        handling(exception, esr, spsr, far, elr)->Fatal_0.fault_address == far,
        handling(exception, esr, spsr, far, elr)->Fatal_0.return_address == elr,
        handling(exception, esr, spsr, far, elr)->Fatal_0.status == spsr,
        handling(exception, esr, spsr, far, elr)->Fatal_0.class < 64,
        handling(exception, esr, spsr, far, elr)->Fatal_0.syndrome < 0x200_0000,
{
    assert((esr >> 26) & 0x3f < 64) by (bit_vector);
    assert(esr & 0x01ff_ffff < 0x200_0000) by (bit_vector);
}

/// No two entries of the exception vector share a number.
pub proof fn numbers_are_distinct(a: ExceptionType, b: ExceptionType)
    requires
        a.number() == b.number(),
    ensures
        a == b,
{
}

/// A data abort is read as a translation fault of a level exactly when the
/// low six bits of its syndrome are four plus that level.
pub proof fn translation_level_is_exact(iss: u64, level: u8)
    ensures
        data_abort(iss).status == (FaultStatus::Translation { level }) <==> (level < 4 && iss
            & 0x3f == 4 + level),
{
}

} // verus!
