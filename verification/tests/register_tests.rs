use ruspiro_arch_aarch64::register::currentel;
use ruspiro_arch_aarch64::register::el1::{cpacr_el1, mair_el1, sctlr_el1, tcr_el1, ttbr0_el1};
use ruspiro_arch_aarch64::register::el2::{hcr_el2, mair_el2, sctlr_el2, tcr_el2, ttbr0_el2};
use ruspiro_boot::exceptionlevel::{switch_to_el1, ExceptionLevel};
use ruspiro_boot::mmu64::{
    disable_mmu_el1, disable_mmu_el2, initialize_mmu_el1, initialize_mmu_el2,
};
use ruspiro_boot::register::{Operation, SystemRegister};
use ruspiro_register::RegisterFieldValue;

fn update64(register: SystemRegister, value: RegisterFieldValue<u64>) -> Operation {
    Operation::Update { register, mask: value.mask(), bits: value.raw_value() }
}

fn update32(register: SystemRegister, value: RegisterFieldValue<u32>) -> Operation {
    Operation::Update {
        register,
        mask: u64::from(value.mask()),
        bits: u64::from(value.raw_value()),
    }
}

#[test]
fn kernel_level_programme_agrees_with_the_register_definitions() {
    for table_base in [0u64, 0x9_0000, 0x1234_5678_9000, u64::MAX] {
        assert_eq!(
            initialize_mmu_el1(table_base),
            vec![
                update64(
                    SystemRegister::MairEl1,
                    mair_el1::MAIR0::NGNRNE
                        | mair_el1::MAIR1::NGNRE
                        | mair_el1::MAIR2::GRE
                        | mair_el1::MAIR3::NC
                        | mair_el1::MAIR4::NORM,
                ),
                update64(SystemRegister::Ttbr0El1, ttbr0_el1::BADDR::with_value(table_base)),
                update32(
                    SystemRegister::TcrEl1,
                    tcr_el1::T0SZ::with_value(25)
                        | tcr_el1::EPD0::ENABLE
                        | tcr_el1::IRGN0::NM_IWB_RA_WA
                        | tcr_el1::ORGN0::NM_OWB_RA_WA
                        | tcr_el1::SH0::IS
                        | tcr_el1::TG0::_4KB
                        | tcr_el1::T1SZ::with_value(25)
                        | tcr_el1::EPD1::DISABLE
                        | tcr_el1::IRGN1::NM_IWB_RA_WA
                        | tcr_el1::ORGN1::NM_OWB_RA_WA
                        | tcr_el1::SH1::IS
                        | tcr_el1::TG1::_4KB
                        | tcr_el1::IPS::_32BITS
                        | tcr_el1::TBI0::IGNORE,
                ),
                update64(
                    SystemRegister::SctlrEl1,
                    sctlr_el1::M::ENABLE
                        | sctlr_el1::A::DISABLE
                        | sctlr_el1::C::ENABLE
                        | sctlr_el1::SA::DISABLE
                        | sctlr_el1::I::ENABLE,
                ),
                Operation::Nop,
                Operation::Nop,
            ]
        );
    }
}

#[test]
fn hypervisor_level_programme_agrees_with_the_register_definitions() {
    for table_base in [0u64, 0x9_0000, 0x1234_5678_9000, u64::MAX] {
        assert_eq!(
            initialize_mmu_el2(table_base),
            vec![
                update64(
                    SystemRegister::MairEl2,
                    mair_el2::MAIR0::NGNRNE
                        | mair_el2::MAIR1::NGNRE
                        | mair_el2::MAIR2::GRE
                        | mair_el2::MAIR3::NC
                        | mair_el2::MAIR4::NORM,
                ),
                update64(SystemRegister::Ttbr0El2, ttbr0_el2::BADDR::with_value(table_base)),
                update32(
                    SystemRegister::TcrEl2,
                    tcr_el2::T0SZ::with_value(25)
                        | tcr_el2::IRGN0::NM_IWB_RA_WA
                        | tcr_el2::ORGN0::NM_OWB_RA_WA
                        | tcr_el2::SH0::IS
                        | tcr_el2::TG0::_4KB
                        | tcr_el2::PS::_32BITS
                        | tcr_el2::TBI::IGNORE,
                ),
                update64(SystemRegister::HcrEl2, hcr_el2::DC::DISABLE | hcr_el2::VM::DISABLE),
                update64(
                    SystemRegister::SctlrEl2,
                    sctlr_el2::M::ENABLE
                        | sctlr_el2::A::DISABLE
                        | sctlr_el2::C::ENABLE
                        | sctlr_el2::SA::DISABLE
                        | sctlr_el2::I::ENABLE,
                ),
                Operation::Nop,
                Operation::Nop,
            ]
        );
    }
}

#[test]
fn disabling_agrees_with_the_register_definitions() {
    assert_eq!(
        disable_mmu_el1(),
        vec![update64(
            SystemRegister::SctlrEl1,
            sctlr_el1::M::DISABLE | sctlr_el1::C::DISABLE | sctlr_el1::I::DISABLE,
        )]
    );
    assert_eq!(
        disable_mmu_el2(),
        vec![update64(
            SystemRegister::SctlrEl2,
            sctlr_el2::M::DISABLE | sctlr_el2::C::DISABLE | sctlr_el2::I::DISABLE,
        )]
    );
}

#[test]
fn floating_point_access_agrees_with_the_register_definitions() {
    assert_eq!(
        switch_to_el1(ExceptionLevel::El2)[1],
        update64(SystemRegister::CpacrEl1, cpacr_el1::FPEN::NO_TRAP)
    );
}

#[test]
fn level_agrees_with_the_register_definitions() {
    for raw in [0u64, 4, 8, 12, 0xffff_ffff_ffff_fff3, 0x1234_5678, u64::MAX] {
        let level = RegisterFieldValue::<u64>::from_raw(currentel::EL::Field, raw);
        let expected = if level == currentel::EL::EL0 {
            ExceptionLevel::El0
        } else if level == currentel::EL::EL1 {
            ExceptionLevel::El1
        } else if level == currentel::EL::EL2 {
            ExceptionLevel::El2
        } else {
            ExceptionLevel::El3
        };
        assert_eq!(ExceptionLevel::current(raw), expected);
    }
}
