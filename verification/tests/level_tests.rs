use ruspiro_boot::exceptionlevel::{switch_to_el1, switch_to_svc, ExceptionLevel};
use ruspiro_boot::field::FieldValue;
use ruspiro_boot::register::{Operation, SystemRegister};

#[test]
fn level_is_read_from_bits_two_and_three() {
    assert_eq!(ExceptionLevel::current(0b0000), ExceptionLevel::El0);
    assert_eq!(ExceptionLevel::current(0b0100), ExceptionLevel::El1);
    assert_eq!(ExceptionLevel::current(0b1000), ExceptionLevel::El2);
    assert_eq!(ExceptionLevel::current(0b1100), ExceptionLevel::El3);
}

#[test]
fn other_bits_of_the_level_register_are_ignored() {
    assert_eq!(ExceptionLevel::current(0b0011), ExceptionLevel::El0);
    assert_eq!(ExceptionLevel::current(0xffff_ffff_ffff_fff7), ExceptionLevel::El1);
    assert_eq!(ExceptionLevel::current(0xffff_ffff_ffff_fffb), ExceptionLevel::El2);
    assert_eq!(ExceptionLevel::current(u64::MAX), ExceptionLevel::El3);
    assert_eq!(ExceptionLevel::current(1), ExceptionLevel::El0);
    assert_eq!(ExceptionLevel::current(2), ExceptionLevel::El0);
}

#[test]
fn hypervisor_drops_to_the_kernel_level() {
    assert_eq!(
        switch_to_el1(ExceptionLevel::El2),
        vec![
            Operation::DropToEl1,
            Operation::Update { register: SystemRegister::CpacrEl1, mask: 0x30_0000, bits: 0x30_0000 },
        ]
    );
}

#[test]
fn other_levels_stay_where_they_are() {
    assert_eq!(switch_to_el1(ExceptionLevel::El0), vec![]);
    assert_eq!(switch_to_el1(ExceptionLevel::El1), vec![]);
    assert_eq!(switch_to_el1(ExceptionLevel::El3), vec![]);
}

#[test]
fn hypervisor_mode_drops_to_supervisor_mode() {
    assert_eq!(switch_to_svc(), vec![Operation::DropToSvc]);
}

#[test]
fn field_value_replaces_its_bits_only() {
    let value = FieldValue { mask: 0x0ff0, bits: 0x0120 };
    assert_eq!(value.write_over(0), 0x0120);
    assert_eq!(value.write_over(0xffff_ffff_ffff_ffff), 0xffff_ffff_ffff_f12f);
    assert_eq!(value.write_over(0xabcd), 0xa12d);
    let update = Operation::write(SystemRegister::Dacr, value);
    assert_eq!(update, Operation::Update { register: SystemRegister::Dacr, mask: 0x0ff0, bits: 0x0120 });
}
