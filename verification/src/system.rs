//! The named field values of the 64 bit system registers.
//!
//! The positions of the fields and the numbers behind the names are those of
//! the register definitions in the `ruspiro-arch-aarch64` crate. Each
//! function in here hands out one of them as a plain bit pattern and states
//! what that crate defines; none of it is computed in this library.

use crate::field::{field32, field64, FieldValue};
use ruspiro_arch_aarch64::register::currentel;
use ruspiro_arch_aarch64::register::el1::{cpacr_el1, mair_el1, sctlr_el1, tcr_el1, ttbr0_el1};
use ruspiro_arch_aarch64::register::el2::{hcr_el2, mair_el2, sctlr_el2, tcr_el2, ttbr0_el2};
use ruspiro_register::RegisterFieldValue;
use vstd::prelude::*;

verus! {

/// Reads the level out of the raw content of the current level register
/// with `RegisterFieldValue::<u64>::from_raw` and `value` of
/// `ruspiro-register`, on the field `EL::Field` of the current level
/// register in `ruspiro-arch-aarch64`: the field of 2 bits from bit 2 on.
/// The crate shifts the raw content down to the field and keeps the bits of
/// the field.
#[verifier::external_body]
pub(crate) fn currentel_el(raw: u64) -> (level: u64)
    ensures
        level == (raw >> 2) & 0b11,
{
    RegisterFieldValue::<u64>::from_raw(currentel::EL::Field, raw).value()
}

/// `sctlr_el1::M::ENABLE` of `ruspiro-arch-aarch64`, system control register
/// of the kernel level: the field of 1 bit from bit 0 on, holding 1.
#[verifier::external_body]
pub(crate) fn sctlr_el1_m_enable() -> (field: FieldValue)
    ensures
        field == field64(0x1, 0, 1),
{
    let v = sctlr_el1::M::ENABLE;
    FieldValue { mask: v.mask(), bits: v.raw_value() }
}

/// `sctlr_el1::A::DISABLE` of `ruspiro-arch-aarch64`, system control register
/// of the kernel level: the field of 1 bit from bit 1 on, holding 0.
#[verifier::external_body]
pub(crate) fn sctlr_el1_a_disable() -> (field: FieldValue)
    ensures
        field == field64(0x1, 1, 0),
{
    let v = sctlr_el1::A::DISABLE;
    FieldValue { mask: v.mask(), bits: v.raw_value() }
}

/// `sctlr_el1::C::ENABLE` of `ruspiro-arch-aarch64`, system control register
/// of the kernel level: the field of 1 bit from bit 2 on, holding 1.
#[verifier::external_body]
pub(crate) fn sctlr_el1_c_enable() -> (field: FieldValue)
    ensures
        field == field64(0x1, 2, 1),
{
    let v = sctlr_el1::C::ENABLE;
    FieldValue { mask: v.mask(), bits: v.raw_value() }
}

/// `sctlr_el1::SA::DISABLE` of `ruspiro-arch-aarch64`, system control
/// register of the kernel level: the field of 1 bit from bit 3 on, holding 0.
#[verifier::external_body]
pub(crate) fn sctlr_el1_sa_disable() -> (field: FieldValue)
    ensures
        field == field64(0x1, 3, 0),
{
    let v = sctlr_el1::SA::DISABLE;
    FieldValue { mask: v.mask(), bits: v.raw_value() }
}

/// `sctlr_el1::I::ENABLE` of `ruspiro-arch-aarch64`, system control register
/// of the kernel level: the field of 1 bit from bit 12 on, holding 1.
#[verifier::external_body]
pub(crate) fn sctlr_el1_i_enable() -> (field: FieldValue)
    ensures
        field == field64(0x1, 12, 1),
{
    let v = sctlr_el1::I::ENABLE;
    FieldValue { mask: v.mask(), bits: v.raw_value() }
}

/// `sctlr_el1::M::DISABLE` of `ruspiro-arch-aarch64`, system control register
/// of the kernel level: the field of 1 bit from bit 0 on, holding 0.
#[verifier::external_body]
pub(crate) fn sctlr_el1_m_disable() -> (field: FieldValue)
    ensures
        field == field64(0x1, 0, 0),
{
    let v = sctlr_el1::M::DISABLE;
    FieldValue { mask: v.mask(), bits: v.raw_value() }
}

/// `sctlr_el1::C::DISABLE` of `ruspiro-arch-aarch64`, system control register
/// of the kernel level: the field of 1 bit from bit 2 on, holding 0.
#[verifier::external_body]
pub(crate) fn sctlr_el1_c_disable() -> (field: FieldValue)
    ensures
        field == field64(0x1, 2, 0),
{
    let v = sctlr_el1::C::DISABLE;
    FieldValue { mask: v.mask(), bits: v.raw_value() }
}

/// `sctlr_el1::I::DISABLE` of `ruspiro-arch-aarch64`, system control register
/// of the kernel level: the field of 1 bit from bit 12 on, holding 0.
#[verifier::external_body]
pub(crate) fn sctlr_el1_i_disable() -> (field: FieldValue)
    ensures
        field == field64(0x1, 12, 0),
{
    let v = sctlr_el1::I::DISABLE;
    FieldValue { mask: v.mask(), bits: v.raw_value() }
}

/// `sctlr_el2::M::ENABLE` of `ruspiro-arch-aarch64`, system control register
/// of the hypervisor level: the field of 1 bit from bit 0 on, holding 1.
#[verifier::external_body]
pub(crate) fn sctlr_el2_m_enable() -> (field: FieldValue)
    ensures
        field == field64(0x1, 0, 1),
{
    let v = sctlr_el2::M::ENABLE;
    FieldValue { mask: v.mask(), bits: v.raw_value() }
}

/// `sctlr_el2::A::DISABLE` of `ruspiro-arch-aarch64`, system control register
/// of the hypervisor level: the field of 1 bit from bit 1 on, holding 0.
#[verifier::external_body]
pub(crate) fn sctlr_el2_a_disable() -> (field: FieldValue)
    ensures
        field == field64(0x1, 1, 0),
{
    let v = sctlr_el2::A::DISABLE;
    FieldValue { mask: v.mask(), bits: v.raw_value() }
}

/// `sctlr_el2::C::ENABLE` of `ruspiro-arch-aarch64`, system control register
/// of the hypervisor level: the field of 1 bit from bit 2 on, holding 1.
#[verifier::external_body]
pub(crate) fn sctlr_el2_c_enable() -> (field: FieldValue)
    ensures
        field == field64(0x1, 2, 1),
{
    let v = sctlr_el2::C::ENABLE;
    FieldValue { mask: v.mask(), bits: v.raw_value() }
}

/// `sctlr_el2::SA::DISABLE` of `ruspiro-arch-aarch64`, system control
/// register of the hypervisor level: the field of 1 bit from bit 3 on,
/// holding 0.
#[verifier::external_body]
pub(crate) fn sctlr_el2_sa_disable() -> (field: FieldValue)
    ensures
        field == field64(0x1, 3, 0),
{
    let v = sctlr_el2::SA::DISABLE;
    FieldValue { mask: v.mask(), bits: v.raw_value() }
}

/// `sctlr_el2::I::ENABLE` of `ruspiro-arch-aarch64`, system control register
/// of the hypervisor level: the field of 1 bit from bit 12 on, holding 1.
#[verifier::external_body]
pub(crate) fn sctlr_el2_i_enable() -> (field: FieldValue)
    ensures
        field == field64(0x1, 12, 1),
{
    let v = sctlr_el2::I::ENABLE;
    FieldValue { mask: v.mask(), bits: v.raw_value() }
}

/// `sctlr_el2::M::DISABLE` of `ruspiro-arch-aarch64`, system control register
/// of the hypervisor level: the field of 1 bit from bit 0 on, holding 0.
#[verifier::external_body]
pub(crate) fn sctlr_el2_m_disable() -> (field: FieldValue)
    ensures
        field == field64(0x1, 0, 0),
{
    let v = sctlr_el2::M::DISABLE;
    FieldValue { mask: v.mask(), bits: v.raw_value() }
}

/// `sctlr_el2::C::DISABLE` of `ruspiro-arch-aarch64`, system control register
/// of the hypervisor level: the field of 1 bit from bit 2 on, holding 0.
#[verifier::external_body]
pub(crate) fn sctlr_el2_c_disable() -> (field: FieldValue)
    ensures
        field == field64(0x1, 2, 0),
{
    let v = sctlr_el2::C::DISABLE;
    FieldValue { mask: v.mask(), bits: v.raw_value() }
}

/// `sctlr_el2::I::DISABLE` of `ruspiro-arch-aarch64`, system control register
/// of the hypervisor level: the field of 1 bit from bit 12 on, holding 0.
#[verifier::external_body]
pub(crate) fn sctlr_el2_i_disable() -> (field: FieldValue)
    ensures
        field == field64(0x1, 12, 0),
{
    let v = sctlr_el2::I::DISABLE;
    FieldValue { mask: v.mask(), bits: v.raw_value() }
}

/// `mair_el1::MAIR0::NGNRNE` of `ruspiro-arch-aarch64`, memory attribute
/// register of the kernel level: the field of 8 bits from bit 0 on, holding
/// 0.
#[verifier::external_body]
pub(crate) fn mair_el1_mair0_ngnrne() -> (field: FieldValue)
    ensures
        field == field64(0xff, 0, 0),
{
    let v = mair_el1::MAIR0::NGNRNE;
    FieldValue { mask: v.mask(), bits: v.raw_value() }
}

/// `mair_el1::MAIR1::NGNRE` of `ruspiro-arch-aarch64`, memory attribute
/// register of the kernel level: the field of 8 bits from bit 8 on, holding
/// 4.
#[verifier::external_body]
pub(crate) fn mair_el1_mair1_ngnre() -> (field: FieldValue)
    ensures
        field == field64(0xff, 8, 4),
{
    let v = mair_el1::MAIR1::NGNRE;
    FieldValue { mask: v.mask(), bits: v.raw_value() }
}

/// `mair_el1::MAIR2::GRE` of `ruspiro-arch-aarch64`, memory attribute
/// register of the kernel level: the field of 8 bits from bit 16 on, holding
/// 12.
#[verifier::external_body]
pub(crate) fn mair_el1_mair2_gre() -> (field: FieldValue)
    ensures
        field == field64(0xff, 16, 12),
{
    let v = mair_el1::MAIR2::GRE;
    FieldValue { mask: v.mask(), bits: v.raw_value() }
}

/// `mair_el1::MAIR3::NC` of `ruspiro-arch-aarch64`, memory attribute register
/// of the kernel level: the field of 8 bits from bit 24 on, holding 68.
#[verifier::external_body]
pub(crate) fn mair_el1_mair3_nc() -> (field: FieldValue)
    ensures
        field == field64(0xff, 24, 68),
{
    let v = mair_el1::MAIR3::NC;
    FieldValue { mask: v.mask(), bits: v.raw_value() }
}

/// `mair_el1::MAIR4::NORM` of `ruspiro-arch-aarch64`, memory attribute
/// register of the kernel level: the field of 8 bits from bit 32 on, holding
/// 255.
#[verifier::external_body]
pub(crate) fn mair_el1_mair4_norm() -> (field: FieldValue)
    ensures
        field == field64(0xff, 32, 255),
{
    let v = mair_el1::MAIR4::NORM;
    FieldValue { mask: v.mask(), bits: v.raw_value() }
}

/// `mair_el2::MAIR0::NGNRNE` of `ruspiro-arch-aarch64`, memory attribute
/// register of the hypervisor level: the field of 8 bits from bit 0 on,
/// holding 0.
#[verifier::external_body]
pub(crate) fn mair_el2_mair0_ngnrne() -> (field: FieldValue)
    ensures
        field == field64(0xff, 0, 0),
{
    let v = mair_el2::MAIR0::NGNRNE;
    FieldValue { mask: v.mask(), bits: v.raw_value() }
}

/// `mair_el2::MAIR1::NGNRE` of `ruspiro-arch-aarch64`, memory attribute
/// register of the hypervisor level: the field of 8 bits from bit 8 on,
/// holding 4.
#[verifier::external_body]
pub(crate) fn mair_el2_mair1_ngnre() -> (field: FieldValue)
    ensures
        field == field64(0xff, 8, 4),
{
    let v = mair_el2::MAIR1::NGNRE;
    FieldValue { mask: v.mask(), bits: v.raw_value() }
}

/// `mair_el2::MAIR2::GRE` of `ruspiro-arch-aarch64`, memory attribute
/// register of the hypervisor level: the field of 8 bits from bit 16 on,
/// holding 12.
#[verifier::external_body]
pub(crate) fn mair_el2_mair2_gre() -> (field: FieldValue)
    ensures
        field == field64(0xff, 16, 12),
{
    let v = mair_el2::MAIR2::GRE;
    FieldValue { mask: v.mask(), bits: v.raw_value() }
}

/// `mair_el2::MAIR3::NC` of `ruspiro-arch-aarch64`, memory attribute register
/// of the hypervisor level: the field of 8 bits from bit 24 on, holding 68.
#[verifier::external_body]
pub(crate) fn mair_el2_mair3_nc() -> (field: FieldValue)
    ensures
        field == field64(0xff, 24, 68),
{
    let v = mair_el2::MAIR3::NC;
    FieldValue { mask: v.mask(), bits: v.raw_value() }
}

/// `mair_el2::MAIR4::NORM` of `ruspiro-arch-aarch64`, memory attribute
/// register of the hypervisor level: the field of 8 bits from bit 32 on,
/// holding 255.
#[verifier::external_body]
pub(crate) fn mair_el2_mair4_norm() -> (field: FieldValue)
    ensures
        field == field64(0xff, 32, 255),
{
    let v = mair_el2::MAIR4::NORM;
    FieldValue { mask: v.mask(), bits: v.raw_value() }
}

/// `ttbr0_el1::BADDR::with_value` of `ruspiro-arch-aarch64`, translation
/// table base register of the kernel level: the field of 48 bits from bit 0
/// on, holding what of `value` fits into it.
#[verifier::external_body]
pub(crate) fn ttbr0_el1_baddr(value: u64) -> (field: FieldValue)
    ensures
        field == field64(0xffffffffffff, 0, value),
{
    let v = ttbr0_el1::BADDR::with_value(value);
    FieldValue { mask: v.mask(), bits: v.raw_value() }
}

/// `ttbr0_el2::BADDR::with_value` of `ruspiro-arch-aarch64`, translation
/// table base register of the hypervisor level: the field of 48 bits from bit
/// 0 on, holding what of `value` fits into it.
#[verifier::external_body]
pub(crate) fn ttbr0_el2_baddr(value: u64) -> (field: FieldValue)
    ensures
        field == field64(0xffffffffffff, 0, value),
{
    let v = ttbr0_el2::BADDR::with_value(value);
    FieldValue { mask: v.mask(), bits: v.raw_value() }
}

/// `tcr_el1::T0SZ::with_value` of `ruspiro-arch-aarch64`, translation control
/// register of the kernel level: the field of 6 bits from bit 0 on, holding
/// what of `value` fits into it.
#[verifier::external_body]
pub(crate) fn tcr_el1_t0sz(value: u32) -> (field: FieldValue)
    ensures
        field == field32(0x3f, 0, value),
{
    let v = tcr_el1::T0SZ::with_value(value);
    FieldValue { mask: v.mask() as u64, bits: v.raw_value() as u64 }
}

/// `tcr_el1::EPD0::ENABLE` of `ruspiro-arch-aarch64`, translation control
/// register of the kernel level: the field of 1 bit from bit 7 on, holding 0.
#[verifier::external_body]
pub(crate) fn tcr_el1_epd0_enable() -> (field: FieldValue)
    ensures
        field == field32(0x1, 7, 0),
{
    let v = tcr_el1::EPD0::ENABLE;
    FieldValue { mask: v.mask() as u64, bits: v.raw_value() as u64 }
}

/// `tcr_el1::IRGN0::NM_IWB_RA_WA` of `ruspiro-arch-aarch64`, translation
/// control register of the kernel level: the field of 2 bits from bit 8 on,
/// holding 1.
#[verifier::external_body]
pub(crate) fn tcr_el1_irgn0_nm_iwb_ra_wa() -> (field: FieldValue)
    ensures
        field == field32(0x3, 8, 1),
{
    let v = tcr_el1::IRGN0::NM_IWB_RA_WA;
    FieldValue { mask: v.mask() as u64, bits: v.raw_value() as u64 }
}

/// `tcr_el1::ORGN0::NM_OWB_RA_WA` of `ruspiro-arch-aarch64`, translation
/// control register of the kernel level: the field of 2 bits from bit 10 on,
/// holding 1.
#[verifier::external_body]
pub(crate) fn tcr_el1_orgn0_nm_owb_ra_wa() -> (field: FieldValue)
    ensures
        field == field32(0x3, 10, 1),
{
    let v = tcr_el1::ORGN0::NM_OWB_RA_WA;
    FieldValue { mask: v.mask() as u64, bits: v.raw_value() as u64 }
}

/// `tcr_el1::SH0::IS` of `ruspiro-arch-aarch64`, translation control register
/// of the kernel level: the field of 2 bits from bit 12 on, holding 3.
#[verifier::external_body]
pub(crate) fn tcr_el1_sh0_is() -> (field: FieldValue)
    ensures
        field == field32(0x3, 12, 3),
{
    let v = tcr_el1::SH0::IS;
    FieldValue { mask: v.mask() as u64, bits: v.raw_value() as u64 }
}

/// `tcr_el1::TG0::_4KB` of `ruspiro-arch-aarch64`, translation control
/// register of the kernel level: the field of 2 bits from bit 14 on, holding
/// 0.
#[verifier::external_body]
pub(crate) fn tcr_el1_tg0_4kb() -> (field: FieldValue)
    ensures
        field == field32(0x3, 14, 0),
{
    let v = tcr_el1::TG0::_4KB;
    FieldValue { mask: v.mask() as u64, bits: v.raw_value() as u64 }
}

/// `tcr_el1::T1SZ::with_value` of `ruspiro-arch-aarch64`, translation control
/// register of the kernel level: the field of 5 bits from bit 16 on, holding
/// what of `value` fits into it.
#[verifier::external_body]
pub(crate) fn tcr_el1_t1sz(value: u32) -> (field: FieldValue)
    ensures
        field == field32(0x1f, 16, value),
{
    let v = tcr_el1::T1SZ::with_value(value);
    FieldValue { mask: v.mask() as u64, bits: v.raw_value() as u64 }
}

/// `tcr_el1::EPD1::DISABLE` of `ruspiro-arch-aarch64`, translation control
/// register of the kernel level: the field of 1 bit from bit 23 on, holding
/// 1.
#[verifier::external_body]
pub(crate) fn tcr_el1_epd1_disable() -> (field: FieldValue)
    ensures
        field == field32(0x1, 23, 1),
{
    let v = tcr_el1::EPD1::DISABLE;
    FieldValue { mask: v.mask() as u64, bits: v.raw_value() as u64 }
}

/// `tcr_el1::IRGN1::NM_IWB_RA_WA` of `ruspiro-arch-aarch64`, translation
/// control register of the kernel level: the field of 2 bits from bit 24 on,
/// holding 1.
#[verifier::external_body]
pub(crate) fn tcr_el1_irgn1_nm_iwb_ra_wa() -> (field: FieldValue)
    ensures
        field == field32(0x3, 24, 1),
{
    let v = tcr_el1::IRGN1::NM_IWB_RA_WA;
    FieldValue { mask: v.mask() as u64, bits: v.raw_value() as u64 }
}

/// `tcr_el1::ORGN1::NM_OWB_RA_WA` of `ruspiro-arch-aarch64`, translation
/// control register of the kernel level: the field of 2 bits from bit 26 on,
/// holding 1.
#[verifier::external_body]
pub(crate) fn tcr_el1_orgn1_nm_owb_ra_wa() -> (field: FieldValue)
    ensures
        field == field32(0x3, 26, 1),
{
    let v = tcr_el1::ORGN1::NM_OWB_RA_WA;
    FieldValue { mask: v.mask() as u64, bits: v.raw_value() as u64 }
}

/// `tcr_el1::SH1::IS` of `ruspiro-arch-aarch64`, translation control register
/// of the kernel level: the field of 2 bits from bit 28 on, holding 3.
#[verifier::external_body]
pub(crate) fn tcr_el1_sh1_is() -> (field: FieldValue)
    ensures
        field == field32(0x3, 28, 3),
{
    let v = tcr_el1::SH1::IS;
    FieldValue { mask: v.mask() as u64, bits: v.raw_value() as u64 }
}

/// `tcr_el1::TG1::_4KB` of `ruspiro-arch-aarch64`, translation control
/// register of the kernel level: the field of 2 bits from bit 30 on, holding
/// 0.
#[verifier::external_body]
pub(crate) fn tcr_el1_tg1_4kb() -> (field: FieldValue)
    ensures
        field == field32(0x3, 30, 0),
{
    let v = tcr_el1::TG1::_4KB;
    FieldValue { mask: v.mask() as u64, bits: v.raw_value() as u64 }
}

/// `tcr_el1::IPS::_32BITS` of `ruspiro-arch-aarch64`, translation control
/// register of the kernel level: the field of 3 bits from bit 32 on, holding
/// 0. The register is defined with 32 bits, so the shift leaves nothing of
/// the field: no bit is covered.
#[verifier::external_body]
pub(crate) fn tcr_el1_ips_32bits() -> (field: FieldValue)
    ensures
        field == field32(0x7, 32, 0),
{
    let v = tcr_el1::IPS::_32BITS;
    FieldValue { mask: v.mask() as u64, bits: v.raw_value() as u64 }
}

/// `tcr_el1::TBI0::IGNORE` of `ruspiro-arch-aarch64`, translation control
/// register of the kernel level: the field of 1 bit from bit 27 on, holding
/// 1.
#[verifier::external_body]
pub(crate) fn tcr_el1_tbi0_ignore() -> (field: FieldValue)
    ensures
        field == field32(0x1, 27, 1),
{
    let v = tcr_el1::TBI0::IGNORE;
    FieldValue { mask: v.mask() as u64, bits: v.raw_value() as u64 }
}

/// `tcr_el2::T0SZ::with_value` of `ruspiro-arch-aarch64`, translation control
/// register of the hypervisor level: the field of 6 bits from bit 0 on,
/// holding what of `value` fits into it.
#[verifier::external_body]
pub(crate) fn tcr_el2_t0sz(value: u32) -> (field: FieldValue)
    ensures
        field == field32(0x3f, 0, value),
{
    let v = tcr_el2::T0SZ::with_value(value);
    FieldValue { mask: v.mask() as u64, bits: v.raw_value() as u64 }
}

/// `tcr_el2::IRGN0::NM_IWB_RA_WA` of `ruspiro-arch-aarch64`, translation
/// control register of the hypervisor level: the field of 2 bits from bit 8
/// on, holding 1.
#[verifier::external_body]
pub(crate) fn tcr_el2_irgn0_nm_iwb_ra_wa() -> (field: FieldValue)
    ensures
        field == field32(0x3, 8, 1),
{
    let v = tcr_el2::IRGN0::NM_IWB_RA_WA;
    FieldValue { mask: v.mask() as u64, bits: v.raw_value() as u64 }
}

/// `tcr_el2::ORGN0::NM_OWB_RA_WA` of `ruspiro-arch-aarch64`, translation
/// control register of the hypervisor level: the field of 2 bits from bit 10
/// on, holding 1.
#[verifier::external_body]
pub(crate) fn tcr_el2_orgn0_nm_owb_ra_wa() -> (field: FieldValue)
    ensures
        field == field32(0x3, 10, 1),
{
    let v = tcr_el2::ORGN0::NM_OWB_RA_WA;
    FieldValue { mask: v.mask() as u64, bits: v.raw_value() as u64 }
}

/// `tcr_el2::SH0::IS` of `ruspiro-arch-aarch64`, translation control register
/// of the hypervisor level: the field of 2 bits from bit 12 on, holding 3.
#[verifier::external_body]
pub(crate) fn tcr_el2_sh0_is() -> (field: FieldValue)
    ensures
        field == field32(0x3, 12, 3),
{
    let v = tcr_el2::SH0::IS;
    FieldValue { mask: v.mask() as u64, bits: v.raw_value() as u64 }
}

/// `tcr_el2::TG0::_4KB` of `ruspiro-arch-aarch64`, translation control
/// register of the hypervisor level: the field of 2 bits from bit 14 on,
/// holding 0.
#[verifier::external_body]
pub(crate) fn tcr_el2_tg0_4kb() -> (field: FieldValue)
    ensures
        field == field32(0x3, 14, 0),
{
    let v = tcr_el2::TG0::_4KB;
    FieldValue { mask: v.mask() as u64, bits: v.raw_value() as u64 }
}

/// `tcr_el2::PS::_32BITS` of `ruspiro-arch-aarch64`, translation control
/// register of the hypervisor level: the field of 3 bits from bit 16 on,
/// holding 0.
#[verifier::external_body]
pub(crate) fn tcr_el2_ps_32bits() -> (field: FieldValue)
    ensures
        field == field32(0x7, 16, 0),
{
    let v = tcr_el2::PS::_32BITS;
    FieldValue { mask: v.mask() as u64, bits: v.raw_value() as u64 }
}

/// `tcr_el2::TBI::IGNORE` of `ruspiro-arch-aarch64`, translation control
/// register of the hypervisor level: the field of 1 bit from bit 20 on,
/// holding 1.
#[verifier::external_body]
pub(crate) fn tcr_el2_tbi_ignore() -> (field: FieldValue)
    ensures
        field == field32(0x1, 20, 1),
{
    let v = tcr_el2::TBI::IGNORE;
    FieldValue { mask: v.mask() as u64, bits: v.raw_value() as u64 }
}

/// `hcr_el2::DC::DISABLE` of `ruspiro-arch-aarch64`, hypervisor configuration
/// register: the field of 1 bit from bit 12 on, holding 0.
#[verifier::external_body]
pub(crate) fn hcr_el2_dc_disable() -> (field: FieldValue)
    ensures
        field == field64(0x1, 12, 0),
{
    let v = hcr_el2::DC::DISABLE;
    FieldValue { mask: v.mask(), bits: v.raw_value() }
}

/// `hcr_el2::VM::DISABLE` of `ruspiro-arch-aarch64`, hypervisor configuration
/// register: the field of 1 bit from bit 0 on, holding 0.
#[verifier::external_body]
pub(crate) fn hcr_el2_vm_disable() -> (field: FieldValue)
    ensures
        field == field64(0x1, 0, 0),
{
    let v = hcr_el2::VM::DISABLE;
    FieldValue { mask: v.mask(), bits: v.raw_value() }
}

/// `cpacr_el1::FPEN::NO_TRAP` of `ruspiro-arch-aarch64`, feature access
/// control register: the field of 2 bits from bit 20 on, holding 3.
#[verifier::external_body]
pub(crate) fn cpacr_el1_fpen_no_trap() -> (field: FieldValue)
    ensures
        field == field64(0x3, 20, 3),
{
    let v = cpacr_el1::FPEN::NO_TRAP;
    FieldValue { mask: v.mask(), bits: v.raw_value() }
}

} // verus!
