use ruspiro_boot::exception::{
    decode_data_abort, exception_handler_default, DataAbort, Diagnostic, ExceptionType,
    FatalCause, FaultStatus, Handling,
};

const ALL: [ExceptionType; 22] = [
    ExceptionType::CurrentElSp0Sync,
    ExceptionType::CurrentElSp0Irq,
    ExceptionType::CurrentElSp0Fiq,
    ExceptionType::CurrentElSp0SErr,
    ExceptionType::CurrentElSpxSync,
    ExceptionType::CurrentElSpxIrq,
    ExceptionType::CurrentElSpxFiq,
    ExceptionType::CurrentElSpxSErr,
    ExceptionType::LowerEl64SpxSync,
    ExceptionType::LowerEl64SpxIrq,
    ExceptionType::LowerEl64SpxFiq,
    ExceptionType::LowerEl64SpxSErr,
    ExceptionType::LowerEl32SpxSync,
    ExceptionType::LowerEl32SpxIrq,
    ExceptionType::LowerEl32SpxFiq,
    ExceptionType::LowerEl32SpxSErr,
    ExceptionType::A32UndefInstruction,
    ExceptionType::A32SoftwareInterrupt,
    ExceptionType::A32PrefetchAbort,
    ExceptionType::A32DataAbort,
    ExceptionType::A32Irq,
    ExceptionType::A32Fiq,
];

fn esr_of(class: u64, iss: u64) -> u64 {
    (class << 26) | iss
}

fn fatal(outcome: Handling) -> Diagnostic {
    match outcome {
        Handling::Fatal(diagnostic) => diagnostic,
        other => panic!("expected a fatal exception, got {:?}", other),
    }
}

#[test]
fn vector_numbers_match_the_vector_table() {
    let expected: [u32; 22] = [
        0x01, 0x02, 0x03, 0x04, 0x11, 0x12, 0x13, 0x14, 0x21, 0x22, 0x23, 0x24, 0x31, 0x32, 0x33,
        0x34, 0x50, 0x51, 0x52, 0x53, 0x54, 0x55,
    ];
    for (entry, number) in ALL.iter().zip(expected.iter()) {
        assert_eq!(entry.code(), *number);
    }
}

#[test]
fn every_vector_number_is_found_again() {
    for entry in ALL.iter() {
        assert_eq!(ExceptionType::from_code(entry.code()), Some(*entry));
    }
}

#[test]
fn unknown_vector_numbers_are_refused() {
    let known: Vec<u32> = ALL.iter().map(|entry| entry.code()).collect();
    for code in 0u32..0x100 {
        if !known.contains(&code) {
            assert_eq!(ExceptionType::from_code(code), None);
        }
    }
    assert_eq!(ExceptionType::from_code(u32::MAX), None);
}

#[test]
fn interrupts_of_every_level_are_forwarded() {
    let interrupts = [
        ExceptionType::CurrentElSp0Irq,
        ExceptionType::CurrentElSp0Fiq,
        ExceptionType::CurrentElSpxIrq,
        ExceptionType::CurrentElSpxFiq,
        ExceptionType::LowerEl64SpxIrq,
        ExceptionType::LowerEl64SpxFiq,
        ExceptionType::LowerEl32SpxIrq,
        ExceptionType::LowerEl32SpxFiq,
        ExceptionType::A32Irq,
        ExceptionType::A32Fiq,
    ];
    for entry in interrupts.iter() {
        assert_eq!(
            exception_handler_default(*entry, esr_of(0b100101, 0x46), 1, 2, 3),
            Handling::Interrupt
        );
    }
}

#[test]
fn other_entries_are_reported_as_unhandled() {
    let others = [
        ExceptionType::CurrentElSp0Sync,
        ExceptionType::CurrentElSp0SErr,
        ExceptionType::CurrentElSpxSErr,
        ExceptionType::LowerEl64SpxSync,
        ExceptionType::LowerEl64SpxSErr,
        ExceptionType::LowerEl32SpxSync,
        ExceptionType::LowerEl32SpxSErr,
        ExceptionType::A32UndefInstruction,
        ExceptionType::A32SoftwareInterrupt,
        ExceptionType::A32PrefetchAbort,
        ExceptionType::A32DataAbort,
    ];
    for entry in others.iter() {
        assert_eq!(
            exception_handler_default(*entry, esr_of(0b111100, 0), 0, 0, 0),
            Handling::Unhandled
        );
    }
}

#[test]
fn every_entry_and_class_has_exactly_one_handling() {
    for entry in ALL.iter() {
        for class in 0u64..64 {
            let outcome = exception_handler_default(*entry, esr_of(class, 0), 7, 8, 9);
            let code = entry.code();
            let is_irq = if code < 0x50 {
                code & 0xf == 2 || code & 0xf == 3
            } else {
                code == 0x54 || code == 0x55
            };
            let decoded = *entry == ExceptionType::CurrentElSpxSync;
            match outcome {
                Handling::Interrupt => assert!(is_irq),
                Handling::Unhandled => assert!(!is_irq && !decoded),
                Handling::DebugBreak => assert!(decoded && class == 0b111100),
                Handling::Fatal(diagnostic) => {
                    assert!(decoded && class != 0b111100);
                    assert_eq!(diagnostic.class, class);
                }
            }
        }
    }
}

#[test]
fn each_class_has_its_cause() {
    let table = [
        (0b000000u64, FatalCause::UnknownReason),
        (0b010001, FatalCause::SvcA32),
        (0b010010, FatalCause::HvcA32),
        (0b010011, FatalCause::SmcA32),
        (0b010101, FatalCause::SvcA64),
        (0b010110, FatalCause::HvcA64),
        (0b010111, FatalCause::SmcA64),
        (0b100001, FatalCause::InstructionAbort),
        (0b100100, FatalCause::DataAbortLowerEl),
        (0b000001, FatalCause::UnhandledSync),
        (0b111111, FatalCause::UnhandledSync),
        (0b100000, FatalCause::UnhandledSync),
    ];
    for (class, cause) in table.iter() {
        let outcome =
            exception_handler_default(ExceptionType::CurrentElSpxSync, esr_of(*class, 0), 0, 0, 0);
        assert_eq!(fatal(outcome).cause, *cause);
    }
}

#[test]
fn write_fault_at_translation_level_two() {
    let far = 0xdead_beef_0000;
    let elr = 0x8_1234;
    let spsr = 0x3c5;
    let iss = (1 << 6) | 0b000110;
    let outcome = exception_handler_default(
        ExceptionType::CurrentElSpxSync,
        esr_of(0b100101, iss),
        spsr,
        far,
        elr,
    );
    assert_eq!(
        outcome,
        Handling::Fatal(Diagnostic {
            cause: FatalCause::DataAbortSameEl(DataAbort {
                cache_maintenance: false,
                write: true,
                status: FaultStatus::Translation { level: 2 },
            }),
            class: 0b100101,
            syndrome: 0x46,
            fault_address: far,
            return_address: elr,
            status: spsr,
        })
    );
}

#[test]
fn debug_break_halts_without_a_diagnostic() {
    let outcome = exception_handler_default(
        ExceptionType::CurrentElSpxSync,
        esr_of(0b111100, 0x1234),
        0x3c5,
        0x1000,
        0x2000,
    );
    assert_eq!(outcome, Handling::DebugBreak);
    let crash = exception_handler_default(
        ExceptionType::CurrentElSpxSync,
        esr_of(0b100001, 0),
        0x3c5,
        0x1000,
        0x2000,
    );
    assert!(matches!(crash, Handling::Fatal(_)));
    assert_ne!(outcome, crash);
}

#[test]
fn class_is_read_from_six_bits() {
    let esr = (1u64 << 40) | esr_of(0b010101, 0);
    let outcome = exception_handler_default(ExceptionType::CurrentElSpxSync, esr, 0, 0, 0);
    let diagnostic = fatal(outcome);
    assert_eq!(diagnostic.cause, FatalCause::SvcA64);
    assert_eq!(diagnostic.class, 0b010101);
}

#[test]
fn syndrome_is_the_low_25_bits() {
    let esr = esr_of(0b100001, 0x1ff_ffff) | (1 << 25);
    let outcome = exception_handler_default(ExceptionType::CurrentElSpxSync, esr, 0, 0, 0);
    assert_eq!(fatal(outcome).syndrome, 0x1ff_ffff);
}

#[test]
fn data_abort_flags_are_decoded() {
    assert_eq!(
        decode_data_abort(0),
        DataAbort { cache_maintenance: false, write: false, status: FaultStatus::Other }
    );
    assert_eq!(
        decode_data_abort(0x100),
        DataAbort { cache_maintenance: true, write: false, status: FaultStatus::Other }
    );
    assert_eq!(
        decode_data_abort(0x40),
        DataAbort { cache_maintenance: false, write: true, status: FaultStatus::Other }
    );
    assert_eq!(
        decode_data_abort(0x140 | 0b100001),
        DataAbort { cache_maintenance: true, write: true, status: FaultStatus::Alignment }
    );
}

#[test]
fn data_abort_status_codes_are_decoded() {
    for level in 0u8..4 {
        assert_eq!(
            decode_data_abort(4 + level as u64).status,
            FaultStatus::Translation { level }
        );
        assert_eq!(
            decode_data_abort(0x80 | (4 + level as u64)).status,
            FaultStatus::Translation { level }
        );
    }
    assert_eq!(decode_data_abort(0b100001).status, FaultStatus::Alignment);
    assert_eq!(decode_data_abort(0b000011).status, FaultStatus::Other);
    assert_eq!(decode_data_abort(0b001000).status, FaultStatus::Other);
    assert_eq!(decode_data_abort(0b100000).status, FaultStatus::Other);
}

#[test]
fn causes_are_reported_in_their_words() {
    let abort = decode_data_abort(0);
    assert_eq!(FatalCause::UnknownReason.message(), "Unknown Reason");
    assert_eq!(FatalCause::SvcA32.message(), "SVC in a32 instruction called");
    assert_eq!(FatalCause::HvcA32.message(), "HVC in a32 instruction called");
    assert_eq!(FatalCause::SmcA32.message(), "SMC in a32 instruction called");
    assert_eq!(FatalCause::SvcA64.message(), "SVC in a64 instruction called");
    assert_eq!(FatalCause::HvcA64.message(), "HVC in a64 instruction called");
    assert_eq!(FatalCause::SmcA64.message(), "SMC in a64 instruction called");
    assert_eq!(FatalCause::InstructionAbort.message(), "instruction abort");
    assert_eq!(FatalCause::DataAbortLowerEl.message(), "data abort lower EL");
    assert_eq!(FatalCause::DataAbortSameEl(abort).message(), "data abort same EL");
    assert_eq!(FatalCause::UnhandledSync.message(), "unhandled sync exception");
}

#[test]
fn record_is_handled_as_its_parts_are() {
    let record = ruspiro_boot::exception::ExceptionRecord {
        exception: ExceptionType::CurrentElSpxSync,
        esr: esr_of(0b100101, 0x147),
        spsr: 0x3c5,
        far: 0x4000_0000,
        elr: 0x8_0040,
    };
    assert_eq!(
        record.handle(),
        exception_handler_default(record.exception, record.esr, record.spsr, record.far, record.elr)
    );
    let diagnostic = fatal(record.handle());
    assert_eq!(
        diagnostic.cause,
        FatalCause::DataAbortSameEl(DataAbort {
            cache_maintenance: true,
            write: true,
            status: FaultStatus::Translation { level: 3 },
        })
    );
    assert_eq!(diagnostic.fault_address, 0x4000_0000);
    assert_eq!(diagnostic.return_address, 0x8_0040);
    let interrupt = ruspiro_boot::exception::ExceptionRecord {
        exception: ExceptionType::CurrentElSpxIrq,
        ..record
    };
    assert_eq!(interrupt.handle(), Handling::Interrupt);
}
