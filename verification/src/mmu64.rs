//! Translation tables and MMU programme of the 64 bit architecture.
//!
//! Memory is mapped one to one in blocks of 2 MB. The second level of the
//! table holds one descriptor per block; the top level holds one descriptor
//! per gigabyte, each pointing into the second level. Everything below the
//! peripheral base is normal cacheable memory, everything from there on is
//! device memory.

use crate::exceptionlevel::ExceptionLevel;
use crate::field::{field32, field64, merge, FieldValue};
use crate::register::{
    is_complete, run, run_one_more, unwritten_register_is_kept, Operation, RegisterFile,
    SystemRegister,
};
use crate::system::{
    hcr_el2_dc_disable, hcr_el2_vm_disable, mair_el1_mair0_ngnrne, mair_el1_mair1_ngnre,
    mair_el1_mair2_gre, mair_el1_mair3_nc, mair_el1_mair4_norm, mair_el2_mair0_ngnrne,
    mair_el2_mair1_ngnre, mair_el2_mair2_gre, mair_el2_mair3_nc, mair_el2_mair4_norm,
    sctlr_el1_a_disable, sctlr_el1_c_disable, sctlr_el1_c_enable, sctlr_el1_i_disable,
    sctlr_el1_i_enable, sctlr_el1_m_disable, sctlr_el1_m_enable, sctlr_el1_sa_disable,
    sctlr_el2_a_disable, sctlr_el2_c_disable, sctlr_el2_c_enable, sctlr_el2_i_disable,
    sctlr_el2_i_enable, sctlr_el2_m_disable, sctlr_el2_m_enable, sctlr_el2_sa_disable,
    tcr_el1_epd0_enable, tcr_el1_epd1_disable, tcr_el1_ips_32bits, tcr_el1_irgn0_nm_iwb_ra_wa,
    tcr_el1_irgn1_nm_iwb_ra_wa, tcr_el1_orgn0_nm_owb_ra_wa, tcr_el1_orgn1_nm_owb_ra_wa,
    tcr_el1_sh0_is, tcr_el1_sh1_is, tcr_el1_t0sz, tcr_el1_t1sz, tcr_el1_tbi0_ignore,
    tcr_el1_tg0_4kb, tcr_el1_tg1_4kb, tcr_el2_irgn0_nm_iwb_ra_wa, tcr_el2_orgn0_nm_owb_ra_wa,
    tcr_el2_ps_32bits, tcr_el2_sh0_is, tcr_el2_t0sz, tcr_el2_tbi_ignore, tcr_el2_tg0_4kb,
    ttbr0_el1_baddr, ttbr0_el2_baddr,
};
use vstd::prelude::*;

verus! {

/// Bytes that one block descriptor maps.
pub const BLOCK_SIZE: u64 = 0x20_0000;

/// Block descriptors in the second level.
pub const BLOCK_COUNT: usize = 513;

/// Block descriptors that one top level descriptor reaches.
pub const BLOCKS_PER_TABLE: usize = 512;

/// The first block of device memory.
pub const FIRST_DEVICE_BLOCK: usize = 504;

/// The address from which on memory belongs to the peripherals.
pub const PERIPHERAL_BASE: u64 = 0x3F00_0000;

/// The first address that is no longer mapped.
pub const ADDRESS_SPACE_END: u64 = 0x4020_0000;

/// Attribute index of device memory that is neither gathered, reordered nor
/// acknowledged early.
pub const ATTRIBUTE_DEVICE: u64 = 0;

/// Attribute index of normal, fully cacheable memory.
pub const ATTRIBUTE_NORMAL: u64 = 4;

/// Attribute indices that the attribute register defines.
pub const ATTRIBUTE_COUNT: u64 = 5;

/// The descriptor of the block with the given index: its address, the access
/// flag, and for normal memory inner shareability and attribute index 4, for
/// device memory no shareability and attribute index 0.
pub open spec fn block_descriptor(index: int) -> u64
    recommends
        0 <= index < BLOCK_COUNT,
{
    if index < FIRST_DEVICE_BLOCK {
        ((index * BLOCK_SIZE) as u64) | 0x711
    } else {
        ((index * BLOCK_SIZE) as u64) | 0x401
    }
}

/// The top level descriptor that points to the table at `next`.
pub open spec fn table_descriptor(next: u64) -> u64 {
    0x8000_0000_0000_0000 | next | 0b11
}

/// The address that a block descriptor maps.
pub open spec fn output_address(descriptor: u64) -> u64 {
    descriptor & 0x0000_ffff_ffe0_0000
}

/// The attribute index that a block descriptor selects.
pub open spec fn attribute_index(descriptor: u64) -> u64 {
    (descriptor >> 2) & 0b111
}

/// The shareability that a block descriptor asks for.
pub open spec fn shareability(descriptor: u64) -> u64 {
    (descriptor >> 8) & 0b11
}

/// Whether a descriptor is valid and describes a block.
pub open spec fn is_block(descriptor: u64) -> bool {
    descriptor & 0b11 == 0b01
}

/// Whether a descriptor is valid and points to a table.
pub open spec fn is_table(descriptor: u64) -> bool {
    descriptor & 0b11 == 0b11
}

/// Whether the access flag of a block descriptor is set.
pub open spec fn is_accessed(descriptor: u64) -> bool {
    descriptor & 0x400 == 0x400
}

/// The address of the table that a top level descriptor points to.
pub open spec fn next_table(descriptor: u64) -> u64 {
    descriptor & 0x0000_ffff_ffff_f000
}

/// The two levels of the translation table.
pub struct MmuConfig {
    /// Top level: one descriptor per gigabyte.
    pub ttlb_lvl0: [u64; 512],
    /// Second level: one descriptor per block of 2 MB.
    pub ttlb_lvl1: [u64; 513],
}

/// Computes the descriptor of the block with the given index.
pub fn make_block_descriptor(index: usize) -> (descriptor: u64)
    requires
        index < BLOCK_COUNT,
    ensures
        descriptor == block_descriptor(index as int),
{
    let address: u64 = index as u64 * BLOCK_SIZE;
    assert(address | 0x710 | 0b01 == address | 0x711 && address | 0x400 | 0b01 == address | 0x401)
        by (bit_vector);
    if index < FIRST_DEVICE_BLOCK {
        address | 0x710 | 0b01
    } else {
        address | 0x400 | 0b01
    }
}

impl MmuConfig {
    /// Whether the second level maps every block one to one and the top
    /// level points to its two halves, the second level lying at
    /// `level1_base`.
    pub open spec fn maps_memory(&self, level1_base: u64) -> bool {
        &&& forall|i: int|
            0 <= i < BLOCK_COUNT ==> #[trigger] self.ttlb_lvl1@[i] == block_descriptor(i)
        &&& self.ttlb_lvl0@[0] == table_descriptor(level1_base)
        &&& self.ttlb_lvl0@[1] == table_descriptor((level1_base + 0x1000) as u64)
    }

    /// Tables in which no descriptor is valid.
    pub fn new() -> (config: MmuConfig)
        ensures
            forall|i: int| 0 <= i < 512 ==> #[trigger] config.ttlb_lvl0@[i] == 0,
            forall|i: int| 0 <= i < 513 ==> #[trigger] config.ttlb_lvl1@[i] == 0,
    {
        MmuConfig { ttlb_lvl0: [0u64; 512], ttlb_lvl1: [0u64; 513] }
    }

    /// Fills both levels: every block of the second level is mapped to
    /// itself, and the first two descriptors of the top level point to the
    /// second level, which lies at `level1_base`. The rest of the top level
    /// stays as it was.
    pub fn setup_page_tables(&mut self, level1_base: u64)
        requires
            level1_base <= u64::MAX - 0x1000,
        ensures
            final(self).maps_memory(level1_base),
            forall|i: int| 2 <= i < 512 ==> final(self).ttlb_lvl0@[i] == old(self).ttlb_lvl0@[i],
    {
        let second_half: u64 = level1_base + 0x1000;
        self.ttlb_lvl0[0] = 0x8000_0000_0000_0000 | level1_base | 0b11;
        self.ttlb_lvl0[1] = 0x8000_0000_0000_0000 | second_half | 0b11;
        let mut i: usize = 0;
        while i < BLOCK_COUNT
            invariant
                i <= BLOCK_COUNT,
                self.ttlb_lvl0@ == old(self).ttlb_lvl0@.update(
                    0,
                    table_descriptor(level1_base),
                ).update(1, table_descriptor((level1_base + 0x1000) as u64)),
                forall|k: int| 0 <= k < i ==> #[trigger] self.ttlb_lvl1@[k] == block_descriptor(k),
            decreases BLOCK_COUNT - i,
        {
            let descriptor = make_block_descriptor(i);
            self.ttlb_lvl1[i] = descriptor;
            i += 1;
        }
    }
}

/// Reads the address that a block descriptor maps.
pub fn block_address(descriptor: u64) -> (address: u64)
    ensures
        address == output_address(descriptor),
{
    descriptor & 0x0000_ffff_ffe0_0000
}

/// Reads the attribute index that a block descriptor selects.
pub fn block_attribute(descriptor: u64) -> (index: u64)
    ensures
        index == attribute_index(descriptor),
        index < 8,
{
    assert((descriptor >> 2) & 0b111 < 8) by (bit_vector);
    (descriptor >> 2) & 0b111
}

/// Tells whether a descriptor is valid and describes a block.
pub fn block_is_valid(descriptor: u64) -> (valid: bool)
    ensures
        valid == is_block(descriptor),
{
    descriptor & 0b11 == 0b01
}

proof fn fields_of_normal_block(index: u64)
    by (bit_vector)
    requires
        index < 504,
    ensures
        ((index * 0x20_0000) as u64 | 0x711) & 0x0000_ffff_ffe0_0000 == index * 0x20_0000,
        (((index * 0x20_0000) as u64 | 0x711) >> 2) & 0b111 == 4,
        (((index * 0x20_0000) as u64 | 0x711) >> 8) & 0b11 == 3,
        ((index * 0x20_0000) as u64 | 0x711) & 0b11 == 0b01,
        ((index * 0x20_0000) as u64 | 0x711) & 0x400 == 0x400,
{
}

proof fn fields_of_device_block(index: u64)
    by (bit_vector)
    requires
        504 <= index < 513,
    ensures
        ((index * 0x20_0000) as u64 | 0x401) & 0x0000_ffff_ffe0_0000 == index * 0x20_0000,
        (((index * 0x20_0000) as u64 | 0x401) >> 2) & 0b111 == 0,
        (((index * 0x20_0000) as u64 | 0x401) >> 8) & 0b11 == 0,
        ((index * 0x20_0000) as u64 | 0x401) & 0b11 == 0b01,
        ((index * 0x20_0000) as u64 | 0x401) & 0x400 == 0x400,
{
}

/// What the descriptor of a block says depends on the index of the block
/// alone. It is a valid block descriptor with the access flag set; it maps
/// the block to itself; below the peripheral base it selects normal memory,
/// shared by all cores, and from the peripheral base on device memory, not
/// shared. No other attribute index occurs.
pub proof fn block_descriptor_fields(index: int)
    requires
        0 <= index < BLOCK_COUNT,
    ensures
        is_block(block_descriptor(index)),
        is_accessed(block_descriptor(index)),
        output_address(block_descriptor(index)) == index * BLOCK_SIZE,
        index * BLOCK_SIZE < PERIPHERAL_BASE ==> attribute_index(block_descriptor(index))
            == ATTRIBUTE_NORMAL && shareability(block_descriptor(index)) == 3,
        index * BLOCK_SIZE >= PERIPHERAL_BASE ==> attribute_index(block_descriptor(index))
            == ATTRIBUTE_DEVICE && shareability(block_descriptor(index)) == 0,
        attribute_index(block_descriptor(index)) < ATTRIBUTE_COUNT,
{
    if index < FIRST_DEVICE_BLOCK {
        fields_of_normal_block(index as u64);
    } else {
        fields_of_device_block(index as u64);
    }
}

impl MmuConfig {
    /// The first address that the block with the given index maps.
    pub open spec fn block_start(&self, index: int) -> int {
        output_address(self.ttlb_lvl1@[index]) as int
    }

    /// The first address behind the block with the given index.
    pub open spec fn block_end(&self, index: int) -> int {
        self.block_start(index) + BLOCK_SIZE
    }

    /// Whether the block with the given index maps `address`.
    pub open spec fn block_covers(&self, index: int, address: int) -> bool {
        self.block_start(index) <= address < self.block_end(index)
    }

    /// The blocks of filled tables lie side by side in the order of their
    /// indices, from address zero to the end of the mapped address space. So
    /// every address below that end is mapped by one block and no other.
    pub proof fn blocks_tile_memory(&self, level1_base: u64)
        requires
            self.maps_memory(level1_base),
        ensures
            self.block_start(0) == 0,
            forall|i: int|
                0 <= i < BLOCK_COUNT - 1 ==> self.block_end(i) == #[trigger] self.block_start(
                    i + 1,
                ),
            self.block_end(BLOCK_COUNT - 1) == ADDRESS_SPACE_END,
            forall|i: int, address: int|
                0 <= i < BLOCK_COUNT && 0 <= address < ADDRESS_SPACE_END ==> (
                #[trigger] self.block_covers(i, address) <==> i == address / (BLOCK_SIZE as int)),
    {
        assert forall|i: int| 0 <= i < BLOCK_COUNT implies #[trigger] self.block_start(i) == i
            * BLOCK_SIZE by {
            block_descriptor_fields(i);
        }
        assert forall|i: int, address: int|
            0 <= i < BLOCK_COUNT && 0 <= address < ADDRESS_SPACE_END implies (
        #[trigger] self.block_covers(i, address) <==> i == address / (BLOCK_SIZE as int)) by {
            assert(self.block_start(i) == i * BLOCK_SIZE);
        }
    }

    /// In filled tables a block is device memory exactly if it lies at or
    /// above the peripheral base; every other block is normal memory.
    pub proof fn device_memory_starts_at_peripheral_base(&self, level1_base: u64)
        requires
            self.maps_memory(level1_base),
        ensures
            forall|i: int|
                0 <= i < BLOCK_COUNT ==> attribute_index(#[trigger] self.ttlb_lvl1@[i]) == (
                if self.block_start(i) >= PERIPHERAL_BASE {
                    ATTRIBUTE_DEVICE
                } else {
                    ATTRIBUTE_NORMAL
                }),
    {
        assert forall|i: int| 0 <= i < BLOCK_COUNT implies attribute_index(
            #[trigger] self.ttlb_lvl1@[i],
        ) == (if self.block_start(i) >= PERIPHERAL_BASE {
            ATTRIBUTE_DEVICE
        } else {
            ATTRIBUTE_NORMAL
        }) by {
            block_descriptor_fields(i);
        }
    }

    /// Where the second level lies on a page boundary within the 48 bit
    /// address space, the first two descriptors of filled tables are valid
    /// table descriptors: the first points to the second level, the next to
    /// the descriptor that follows the first 512 blocks.
    pub proof fn top_level_reaches_blocks(&self, level1_base: u64)
        requires
            self.maps_memory(level1_base),
            level1_base & 0xfff == 0,
            level1_base < 0x0000_ffff_ffff_f000,
        ensures
            is_table(self.ttlb_lvl0@[0]),
            is_table(self.ttlb_lvl0@[1]),
            next_table(self.ttlb_lvl0@[0]) == level1_base,
            next_table(self.ttlb_lvl0@[1]) == level1_base + BLOCKS_PER_TABLE * 8,
    {
        let second: u64 = (level1_base + 0x1000) as u64;
        assert((0x8000_0000_0000_0000 | level1_base | 0b11) & 0b11 == 0b11 && (0x8000_0000_0000_0000
            | level1_base | 0b11) & 0x0000_ffff_ffff_f000 == level1_base) by (bit_vector)
            requires
                level1_base & 0xfff == 0,
                level1_base < 0x0000_ffff_ffff_f000,
        ;
        assert((0x8000_0000_0000_0000 | second | 0b11) & 0b11 == 0b11 && (0x8000_0000_0000_0000
            | second | 0b11) & 0x0000_ffff_ffff_f000 == second) by (bit_vector)
            requires
                level1_base & 0xfff == 0,
                level1_base < 0x0000_ffff_ffff_f000,
                second == level1_base + 0x1000,
        ;
    }
}

/// The five memory attributes, one byte for each index from 0 to 4.
pub open spec fn memory_attributes() -> FieldValue {
    FieldValue { mask: 0xff_ffff_ffff, bits: 0xff_440c_0400 }
}

/// The attribute encoding that the attribute register defines for an index.
pub open spec fn attribute_encoding(index: u64) -> u64
    recommends
        index < 8,
{
    (memory_attributes().bits >> (8 * index) as u64) & 0xff
}

/// The attribute register defines the five classes in the order of their
/// indices: device memory that is neither gathered nor reordered nor
/// acknowledged early (encoded 0x00), device memory that is acknowledged
/// early (0x04), device memory that is also gathered and reordered (0x0C),
/// normal memory that is not cached (0x44), and normal memory that is fully
/// cached (0xFF). So the index of device blocks selects the first of them
/// and the index of normal blocks the last.
pub proof fn attribute_classes()
    ensures
        attribute_encoding(0) == 0x00,
        attribute_encoding(1) == 0x04,
        attribute_encoding(2) == 0x0C,
        attribute_encoding(3) == 0x44,
        attribute_encoding(4) == 0xFF,
        attribute_encoding(ATTRIBUTE_DEVICE) == 0x00,
        attribute_encoding(ATTRIBUTE_NORMAL) == 0xFF,
        memory_attributes().mask == 0xff_ffff_ffff,
{
    assert((0xff_440c_0400u64 >> 0u64) & 0xff == 0x00 && (0xff_440c_0400u64 >> 8u64) & 0xff == 0x04
        && (0xff_440c_0400u64 >> 16u64) & 0xff == 0x0C && (0xff_440c_0400u64 >> 24u64) & 0xff
        == 0x44 && (0xff_440c_0400u64 >> 32u64) & 0xff == 0xFF) by (bit_vector);
}

/// The table base field holding `table_base`: the low 48 bits.
pub open spec fn table_base_value(table_base: u64) -> FieldValue {
    FieldValue { mask: 0xffff_ffff_ffff, bits: table_base & 0xffff_ffff_ffff }
}

/// Translation control at the kernel level, as the field values of the
/// register definition compose it. In the lower half: 39 bit addresses,
/// table walks enabled, walks write-back cacheable in the inner and the
/// outer region and inner shareable, 4 KB granule. In the upper half:
/// 39 bit addresses, table walks disabled, walks write-back cacheable in
/// the inner region and inner shareable. The register is defined with 32
/// bits: the field of the physical address size lies above them and is not
/// written, and the value that ignores the top byte stands at bit 27, in
/// the outer cacheability of the upper half, which so holds 0b11.
pub open spec fn translation_control_el1() -> FieldValue {
    FieldValue { mask: 0xff9f_ffbf, bits: 0x3d99_3519 }
}

/// Translation control at the hypervisor level: 39 bit addresses, walks
/// write-back cacheable in the inner and the outer region and inner
/// shareable, 4 KB granule, 32 bit physical addresses, top byte ignored.
pub open spec fn translation_control_el2() -> FieldValue {
    FieldValue { mask: 0x17_ff3f, bits: 0x10_3519 }
}

/// The bits of a register value from `offset` on, as many as `width_mask`
/// has.
pub open spec fn bits_at(value: u64, offset: u64, width_mask: u64) -> u64 {
    (value >> offset) & width_mask
}

/// What translation control at the kernel level holds, field by field, and
/// that it covers no bit above bit 31.
pub proof fn translation_control_el1_fields()
    ensures
        bits_at(translation_control_el1().bits, 0, 0x3f) == 25,
        bits_at(translation_control_el1().bits, 7, 1) == 0,
        bits_at(translation_control_el1().bits, 8, 0b11) == 0b01,
        bits_at(translation_control_el1().bits, 10, 0b11) == 0b01,
        bits_at(translation_control_el1().bits, 12, 0b11) == 0b11,
        bits_at(translation_control_el1().bits, 14, 0b11) == 0b00,
        bits_at(translation_control_el1().bits, 16, 0x1f) == 25,
        bits_at(translation_control_el1().bits, 23, 1) == 1,
        bits_at(translation_control_el1().bits, 24, 0b11) == 0b01,
        bits_at(translation_control_el1().bits, 26, 0b11) == 0b11,
        bits_at(translation_control_el1().bits, 28, 0b11) == 0b11,
        bits_at(translation_control_el1().bits, 30, 0b11) == 0b00,
        translation_control_el1().mask <= 0xffff_ffff,
        translation_control_el1().bits & !translation_control_el1().mask == 0,
{
    assert((0x3d99_3519u64 >> 0u64) & 0x3f == 25 && (0x3d99_3519u64 >> 7u64) & 1 == 0 && (
    0x3d99_3519u64 >> 8u64) & 0b11 == 0b01 && (0x3d99_3519u64 >> 10u64) & 0b11 == 0b01 && (
    0x3d99_3519u64 >> 12u64) & 0b11 == 0b11 && (0x3d99_3519u64 >> 14u64) & 0b11 == 0b00 && (
    0x3d99_3519u64 >> 16u64) & 0x1f == 25 && (0x3d99_3519u64 >> 23u64) & 1 == 1 && (0x3d99_3519u64
        >> 24u64) & 0b11 == 0b01 && (0x3d99_3519u64 >> 26u64) & 0b11 == 0b11 && (0x3d99_3519u64
        >> 28u64) & 0b11 == 0b11 && (0x3d99_3519u64 >> 30u64) & 0b11 == 0b00 && 0x3d99_3519u64
        & !0xff9f_ffbfu64 == 0) by (bit_vector);
}

/// What translation control at the hypervisor level holds, field by field.
pub proof fn translation_control_el2_fields()
    ensures
        bits_at(translation_control_el2().bits, 0, 0x3f) == 25,
        bits_at(translation_control_el2().bits, 8, 0b11) == 0b01,
        bits_at(translation_control_el2().bits, 10, 0b11) == 0b01,
        bits_at(translation_control_el2().bits, 12, 0b11) == 0b11,
        bits_at(translation_control_el2().bits, 14, 0b11) == 0b00,
        bits_at(translation_control_el2().bits, 16, 0b111) == 0b000,
        bits_at(translation_control_el2().bits, 20, 1) == 1,
        translation_control_el2().bits & !translation_control_el2().mask == 0,
{
    assert((0x10_3519u64 >> 0u64) & 0x3f == 25 && (0x10_3519u64 >> 8u64) & 0b11 == 0b01 && (
    0x10_3519u64 >> 10u64) & 0b11 == 0b01 && (0x10_3519u64 >> 12u64) & 0b11 == 0b11 && (
    0x10_3519u64 >> 14u64) & 0b11 == 0b00 && (0x10_3519u64 >> 16u64) & 0b111 == 0b000 && (
    0x10_3519u64 >> 20u64) & 1 == 1 && 0x10_3519u64 & !0x17_ff3fu64 == 0) by (bit_vector);
}

/// The hypervisor configuration with the second stage and the default
/// cacheability switched off.
pub open spec fn hypervisor_configuration() -> FieldValue {
    FieldValue { mask: 0x1001, bits: 0 }
}

/// System control with the MMU and both caches on and the alignment checks
/// off.
pub open spec fn control_enabled() -> FieldValue {
    FieldValue { mask: 0x100f, bits: 0x1005 }
}

/// System control with the MMU and both caches off.
pub open spec fn control_disabled() -> FieldValue {
    FieldValue { mask: 0x1005, bits: 0 }
}

/// The operations that switch the MMU and the caches off at the kernel
/// level.
pub open spec fn el1_disabling() -> Seq<Operation> {
    seq![Operation::update(SystemRegister::SctlrEl1, control_disabled())]
}

/// The operations that switch the MMU and the caches off at the hypervisor
/// level.
pub open spec fn el2_disabling() -> Seq<Operation> {
    seq![Operation::update(SystemRegister::SctlrEl2, control_disabled())]
}

/// The operations that program and enable the MMU at the kernel level, for
/// a top level table at `table_base`.
pub open spec fn el1_programme(table_base: u64) -> Seq<Operation> {
    seq![
        Operation::update(SystemRegister::MairEl1, memory_attributes()),
        Operation::update(SystemRegister::Ttbr0El1, table_base_value(table_base)),
        Operation::update(SystemRegister::TcrEl1, translation_control_el1()),
        Operation::update(SystemRegister::SctlrEl1, control_enabled()),
        Operation::Nop,
        Operation::Nop,
    ]
}

/// The operations that program and enable the MMU at the hypervisor level,
/// for a top level table at `table_base`.
pub open spec fn el2_programme(table_base: u64) -> Seq<Operation> {
    seq![
        Operation::update(SystemRegister::MairEl2, memory_attributes()),
        Operation::update(SystemRegister::Ttbr0El2, table_base_value(table_base)),
        Operation::update(SystemRegister::TcrEl2, translation_control_el2()),
        Operation::update(SystemRegister::HcrEl2, hypervisor_configuration()),
        Operation::update(SystemRegister::SctlrEl2, control_enabled()),
        Operation::Nop,
        Operation::Nop,
    ]
}

/// The two idle cycles and the two barriers that let a change of the system
/// control register settle.
pub open spec fn settling() -> Seq<Operation> {
    seq![
        Operation::Nop,
        Operation::Nop,
        Operation::DataBarrier,
        Operation::InstructionBarrier,
    ]
}

/// The operations that switch the MMU off at a supported level and let the
/// change settle.
pub open spec fn disabling(level: ExceptionLevel) -> Seq<Operation>
    recommends
        level.is_supported(),
{
    if level == ExceptionLevel::El1 {
        el1_disabling() + settling()
    } else {
        el2_disabling() + settling()
    }
}

/// The operations that fill the tables, on the first core only: the tables
/// are built once and shared by all cores.
pub open spec fn table_building(core: u32) -> Seq<Operation> {
    if core == 0 {
        seq![Operation::BuildTables, Operation::StoreBarrier]
    } else {
        seq![]
    }
}

/// The operations that program and enable the MMU at a supported level.
pub open spec fn programme(level: ExceptionLevel, table_base: u64) -> Seq<Operation>
    recommends
        level.is_supported(),
{
    if level == ExceptionLevel::El1 {
        el1_programme(table_base)
    } else {
        el2_programme(table_base)
    }
}

/// Everything a core does to run with the MMU enabled: switch it off and
/// let that settle, fill the tables if the core is the first, then program
/// and enable it.
pub open spec fn initialization(core: u32, level: ExceptionLevel, table_base: u64) -> Seq<
    Operation,
>
    recommends
        level.is_supported(),
{
    disabling(level) + table_building(core) + programme(level, table_base)
}

/// The level at which a core was asked to set up the MMU although no
/// programme exists for it.
#[derive(Clone, Copy, Debug, PartialEq, Eq, Structural)]
pub struct UnsupportedLevel {
    pub level: ExceptionLevel,
}

/// The five attribute entries compose to the attribute register value.
proof fn attributes_compose()
    ensures
        field64(0xff, 0, 0).union(field64(0xff, 8, 4)).union(field64(0xff, 16, 12)).union(
            field64(0xff, 24, 68),
        ).union(field64(0xff, 32, 255)) == memory_attributes(),
{
    assert(field64(0xff, 0, 0).union(field64(0xff, 8, 4)).union(field64(0xff, 16, 12)).union(
        field64(0xff, 24, 68),
    ).union(field64(0xff, 32, 255)) == memory_attributes()) by (bit_vector);
}

/// The five control fields compose to the enabling and to the disabling
/// value of the system control register.
proof fn control_composes()
    ensures
        field64(1, 0, 1).union(field64(1, 1, 0)).union(field64(1, 2, 1)).union(
            field64(1, 3, 0),
        ).union(field64(1, 12, 1)) == control_enabled(),
        field64(1, 0, 0).union(field64(1, 2, 0)).union(field64(1, 12, 0)) == control_disabled(),
{
    assert(field64(1, 0, 1).union(field64(1, 1, 0)).union(field64(1, 2, 1)).union(
        field64(1, 3, 0),
    ).union(field64(1, 12, 1)) == control_enabled() && field64(1, 0, 0).union(
        field64(1, 2, 0),
    ).union(field64(1, 12, 0)) == control_disabled()) by (bit_vector);
}

/// The table base field holds the low 48 bits of the address.
proof fn table_base_composes(table_base: u64)
    ensures
        field64(0xffff_ffff_ffff, 0, table_base) == table_base_value(table_base),
{
    assert((0xffff_ffff_ffffu64 << 0u64) == 0xffff_ffff_ffff && ((table_base & 0xffff_ffff_ffff)
        << 0u64) == table_base & 0xffff_ffff_ffff) by (bit_vector);
}

/// Composes the memory attribute register of the kernel level from its five
/// entries.
fn memory_attributes_el1() -> (value: FieldValue)
    ensures
        value == memory_attributes(),
{
    proof {
        attributes_compose();
    }
    let value = merge(mair_el1_mair0_ngnrne(), mair_el1_mair1_ngnre());
    let value = merge(value, mair_el1_mair2_gre());
    let value = merge(value, mair_el1_mair3_nc());
    merge(value, mair_el1_mair4_norm())
}

/// Composes the memory attribute register of the hypervisor level from its
/// five entries.
fn memory_attributes_el2() -> (value: FieldValue)
    ensures
        value == memory_attributes(),
{
    proof {
        attributes_compose();
    }
    let value = merge(mair_el2_mair0_ngnrne(), mair_el2_mair1_ngnre());
    let value = merge(value, mair_el2_mair2_gre());
    let value = merge(value, mair_el2_mair3_nc());
    merge(value, mair_el2_mair4_norm())
}

/// Composes the system control value that enables the MMU at the kernel
/// level.
fn control_enabled_el1() -> (value: FieldValue)
    ensures
        value == control_enabled(),
{
    proof {
        control_composes();
    }
    let value = merge(sctlr_el1_m_enable(), sctlr_el1_a_disable());
    let value = merge(value, sctlr_el1_c_enable());
    let value = merge(value, sctlr_el1_sa_disable());
    merge(value, sctlr_el1_i_enable())
}

/// Composes the system control value that enables the MMU at the
/// hypervisor level.
fn control_enabled_el2() -> (value: FieldValue)
    ensures
        value == control_enabled(),
{
    proof {
        control_composes();
    }
    let value = merge(sctlr_el2_m_enable(), sctlr_el2_a_disable());
    let value = merge(value, sctlr_el2_c_enable());
    let value = merge(value, sctlr_el2_sa_disable());
    merge(value, sctlr_el2_i_enable())
}

/// Composes the system control value that disables the MMU at the kernel
/// level.
fn control_disabled_el1() -> (value: FieldValue)
    ensures
        value == control_disabled(),
{
    proof {
        control_composes();
    }
    merge(merge(sctlr_el1_m_disable(), sctlr_el1_c_disable()), sctlr_el1_i_disable())
}

/// Composes the system control value that disables the MMU at the
/// hypervisor level.
fn control_disabled_el2() -> (value: FieldValue)
    ensures
        value == control_disabled(),
{
    proof {
        control_composes();
    }
    merge(merge(sctlr_el2_m_disable(), sctlr_el2_c_disable()), sctlr_el2_i_disable())
}

/// Composes the translation control value of the kernel level.
fn translation_control_el1_value() -> (value: FieldValue)
    ensures
        value == translation_control_el1(),
{
    assert(field32(0x3f, 0, 25).union(field32(1, 7, 0)).union(field32(0b11, 8, 1)).union(
        field32(0b11, 10, 1),
    ).union(field32(0b11, 12, 3)).union(field32(0b11, 14, 0)).union(field32(0x1f, 16, 25)).union(
        field32(1, 23, 1),
    ).union(field32(0b11, 24, 1)).union(field32(0b11, 26, 1)).union(field32(0b11, 28, 3)).union(
        field32(0b11, 30, 0),
    ).union(field32(0b111, 32, 0)).union(field32(1, 27, 1)) == translation_control_el1())
        by (bit_vector);
    let value = merge(tcr_el1_t0sz(25), tcr_el1_epd0_enable());
    let value = merge(value, tcr_el1_irgn0_nm_iwb_ra_wa());
    let value = merge(value, tcr_el1_orgn0_nm_owb_ra_wa());
    let value = merge(value, tcr_el1_sh0_is());
    let value = merge(value, tcr_el1_tg0_4kb());
    let value = merge(value, tcr_el1_t1sz(25));
    let value = merge(value, tcr_el1_epd1_disable());
    let value = merge(value, tcr_el1_irgn1_nm_iwb_ra_wa());
    let value = merge(value, tcr_el1_orgn1_nm_owb_ra_wa());
    let value = merge(value, tcr_el1_sh1_is());
    let value = merge(value, tcr_el1_tg1_4kb());
    let value = merge(value, tcr_el1_ips_32bits());
    merge(value, tcr_el1_tbi0_ignore())
}

/// Composes the translation control value of the hypervisor level.
fn translation_control_el2_value() -> (value: FieldValue)
    ensures
        value == translation_control_el2(),
{
    assert(field32(0x3f, 0, 25).union(field32(0b11, 8, 1)).union(field32(0b11, 10, 1)).union(
        field32(0b11, 12, 3),
    ).union(field32(0b11, 14, 0)).union(field32(0b111, 16, 0)).union(field32(1, 20, 1))
        == translation_control_el2()) by (bit_vector);
    let value = merge(tcr_el2_t0sz(25), tcr_el2_irgn0_nm_iwb_ra_wa());
    let value = merge(value, tcr_el2_orgn0_nm_owb_ra_wa());
    let value = merge(value, tcr_el2_sh0_is());
    let value = merge(value, tcr_el2_tg0_4kb());
    let value = merge(value, tcr_el2_ps_32bits());
    merge(value, tcr_el2_tbi_ignore())
}

/// Composes the hypervisor configuration value.
fn hypervisor_configuration_value() -> (value: FieldValue)
    ensures
        value == hypervisor_configuration(),
{
    assert(field64(1, 12, 0).union(field64(1, 0, 0)) == hypervisor_configuration())
        by (bit_vector);
    merge(hcr_el2_dc_disable(), hcr_el2_vm_disable())
}

/// Plans the operations that switch the MMU and the caches off at the kernel
/// level.
pub fn disable_mmu_el1() -> (operations: Vec<Operation>)
    ensures
        operations@ == el1_disabling(),
{
    let mut operations: Vec<Operation> = Vec::new();
    operations.push(Operation::write(SystemRegister::SctlrEl1, control_disabled_el1()));
    assert(operations@ =~= el1_disabling());
    operations
}

/// Plans the operations that switch the MMU and the caches off at the
/// hypervisor level.
pub fn disable_mmu_el2() -> (operations: Vec<Operation>)
    ensures
        operations@ == el2_disabling(),
{
    let mut operations: Vec<Operation> = Vec::new();
    operations.push(Operation::write(SystemRegister::SctlrEl2, control_disabled_el2()));
    assert(operations@ =~= el2_disabling());
    operations
}

/// Plans the operations that program and enable the MMU at the kernel
/// level: memory attributes, table base, translation control, then the
/// enable bits, followed by two idle cycles.
pub fn initialize_mmu_el1(table_base: u64) -> (operations: Vec<Operation>)
    ensures
        operations@ == el1_programme(table_base),
{
    let mut operations: Vec<Operation> = Vec::new();
    operations.push(Operation::write(SystemRegister::MairEl1, memory_attributes_el1()));
    proof {
        table_base_composes(table_base);
    }
    operations.push(Operation::write(SystemRegister::Ttbr0El1, ttbr0_el1_baddr(table_base)));
    operations.push(Operation::write(SystemRegister::TcrEl1, translation_control_el1_value()));
    operations.push(Operation::write(SystemRegister::SctlrEl1, control_enabled_el1()));
    operations.push(Operation::Nop);
    operations.push(Operation::Nop);
    assert(operations@ =~= el1_programme(table_base));
    operations
}

/// Plans the operations that program and enable the MMU at the hypervisor
/// level: memory attributes, table base, translation control, hypervisor
/// configuration, then the enable bits, followed by two idle cycles.
pub fn initialize_mmu_el2(table_base: u64) -> (operations: Vec<Operation>)
    ensures
        operations@ == el2_programme(table_base),
{
    let mut operations: Vec<Operation> = Vec::new();
    operations.push(Operation::write(SystemRegister::MairEl2, memory_attributes_el2()));
    proof {
        table_base_composes(table_base);
    }
    operations.push(Operation::write(SystemRegister::Ttbr0El2, ttbr0_el2_baddr(table_base)));
    operations.push(Operation::write(SystemRegister::TcrEl2, translation_control_el2_value()));
    operations.push(Operation::write(SystemRegister::HcrEl2, hypervisor_configuration_value()));
    operations.push(Operation::write(SystemRegister::SctlrEl2, control_enabled_el2()));
    operations.push(Operation::Nop);
    operations.push(Operation::Nop);
    assert(operations@ =~= el2_programme(table_base));
    operations
}

/// Plans the operations that switch the MMU off at the given level and let
/// the change settle. The tables stay as they are. A level without an MMU
/// programme is refused.
pub fn disable_mmu(level: ExceptionLevel) -> (plan: Result<Vec<Operation>, UnsupportedLevel>)
    ensures
        match plan {
            Ok(operations) => level.is_supported() && operations@ == disabling(level),
            Err(refused) => !level.is_supported() && refused.level == level,
        },
{
    let mut operations = match level {
        ExceptionLevel::El1 => disable_mmu_el1(),
        ExceptionLevel::El2 => disable_mmu_el2(),
        _ => {
            return Err(UnsupportedLevel { level });
        },
    };
    operations.push(Operation::Nop);
    operations.push(Operation::Nop);
    operations.push(Operation::DataBarrier);
    operations.push(Operation::InstructionBarrier);
    assert(operations@ =~= disabling(level));
    Ok(operations)
}

/// Plans everything that the core with the given number does to run with
/// the MMU enabled at the given level, the top level table lying at
/// `table_base`. The MMU is switched off first and the change left to
/// settle; the first core then fills the tables; at last the MMU is
/// programmed and enabled. A level without an MMU programme is refused.
pub fn initialize_mmu(core: u32, level: ExceptionLevel, table_base: u64) -> (plan: Result<
    Vec<Operation>,
    UnsupportedLevel,
>)
    ensures
        match plan {
            Ok(operations) => level.is_supported() && operations@ == initialization(
                core,
                level,
                table_base,
            ),
            Err(refused) => !level.is_supported() && refused.level == level,
        },
{
    let mut operations = match disable_mmu(level) {
        Ok(operations) => operations,
        Err(refused) => {
            return Err(refused);
        },
    };
    if core == 0 {
        operations.push(Operation::BuildTables);
        operations.push(Operation::StoreBarrier);
    }
    assert(operations@ =~= disabling(level) + table_building(core));
    let mut programme = match level {
        ExceptionLevel::El1 => initialize_mmu_el1(table_base),
        _ => initialize_mmu_el2(table_base),
    };
    operations.append(&mut programme);
    Ok(operations)
}

/// The system control register of a supported level.
pub open spec fn control_register(level: ExceptionLevel) -> SystemRegister
    recommends
        level.is_supported(),
{
    if level == ExceptionLevel::El1 {
        SystemRegister::SctlrEl1
    } else {
        SystemRegister::SctlrEl2
    }
}

/// The translation table base register of a supported level.
pub open spec fn base_register(level: ExceptionLevel) -> SystemRegister
    recommends
        level.is_supported(),
{
    if level == ExceptionLevel::El1 {
        SystemRegister::Ttbr0El1
    } else {
        SystemRegister::Ttbr0El2
    }
}

/// The position of the operation that enables the MMU: it is followed by
/// the two idle cycles only.
pub open spec fn enabling_position(core: u32, level: ExceptionLevel, table_base: u64) -> int {
    initialization(core, level, table_base).len() - 3
}

/// The tables are filled by the first core and by no other, once, while the
/// MMU of that core is still to be programmed, and the stores are made
/// visible to the other cores right after.
pub proof fn tables_are_built_by_first_core(core: u32, level: ExceptionLevel, table_base: u64)
    requires
        level.is_supported(),
    ensures
        initialization(core, level, table_base).contains(Operation::BuildTables) <==> core == 0,
        forall|i: int|
            0 <= i < initialization(core, level, table_base).len() && initialization(
                core,
                level,
                table_base,
            )[i] == Operation::BuildTables ==> i == disabling(level).len(),
        core == 0 ==> initialization(core, level, table_base)[disabling(level).len() as int + 1]
            == Operation::StoreBarrier && disabling(level).len() + 1 < enabling_position(
            core,
            level,
            table_base,
        ),
{
    let operations = initialization(core, level, table_base);
    if core == 0 {
        assert(operations[disabling(level).len() as int] == Operation::BuildTables);
    }
}

/// From the first operation of the initialization until the one that
/// enables the MMU, the MMU and both caches are off: the translation is
/// never programmed, nor are the tables filled, with the MMU on.
pub proof fn mmu_is_off_until_enabled(
    core: u32,
    level: ExceptionLevel,
    table_base: u64,
    registers: RegisterFile,
    count: int,
)
    requires
        level.is_supported(),
        is_complete(registers),
        1 <= count <= enabling_position(core, level, table_base),
    ensures
        run(initialization(core, level, table_base).take(count), registers)[control_register(
            level,
        )] & 0x1005 == 0,
{
    let operations = initialization(core, level, table_base);
    let control = control_register(level);
    let before = registers[control];
    run_one_more(operations, 0, registers);
    assert(operations.take(0) =~= Seq::<Operation>::empty());
    assert(operations[0] == Operation::update(control, control_disabled()));
    assert(((before & !0x1005u64) | 0) & 0x1005 == 0) by (bit_vector);
    assert forall|i: int| 1 <= i < count implies !(#[trigger] operations[i]).touches(control) by {
        operation_at(core, level, table_base, i);
    }
    unwritten_register_is_kept(operations, control, 1, count, registers);
}

/// What stands at each position of the initialization between the first
/// operation and the enabling one: nothing that writes to the system
/// control register.
proof fn operation_at(core: u32, level: ExceptionLevel, table_base: u64, position: int)
    requires
        level.is_supported(),
        1 <= position < enabling_position(core, level, table_base),
    ensures
        !initialization(core, level, table_base)[position].touches(control_register(level)),
{
    let head = disabling(level) + table_building(core);
    let tail = programme(level, table_base);
    assert(initialization(core, level, table_base) == head + tail);
    if position < head.len() {
        if position >= disabling(level).len() {
            assert(head[position] == table_building(core)[position - disabling(level).len()]);
        }
    } else {
        assert((head + tail)[position] == tail[position - head.len()]);
    }
}

/// Whatever the registers hold before, after the initialization the MMU and
/// both caches are on and the alignment checks are off, the other bits of
/// the system control register are as they were, and the table base
/// register points to the table.
pub proof fn initialization_enables_mmu(
    core: u32,
    level: ExceptionLevel,
    table_base: u64,
    registers: RegisterFile,
)
    requires
        level.is_supported(),
        is_complete(registers),
    ensures
        run(initialization(core, level, table_base), registers)[control_register(level)] & 0x100f
            == 0x1005,
        run(initialization(core, level, table_base), registers)[control_register(level)] & !0x100fu64
            == registers[control_register(level)] & !0x100fu64,
        run(initialization(core, level, table_base), registers)[base_register(level)]
            & 0xffff_ffff_ffff == table_base & 0xffff_ffff_ffff,
{
    let operations = initialization(core, level, table_base);
    let control = control_register(level);
    let base = base_register(level);
    let enabling = enabling_position(core, level, table_base);
    let head = disabling(level) + table_building(core);
    let tail = programme(level, table_base);
    assert(operations == head + tail);
    assert(operations.take(operations.len() as int) =~= operations);
    assert(operations.take(0) =~= Seq::<Operation>::empty());

    // the system control register
    assert forall|i: int| 1 <= i < enabling implies !(#[trigger] operations[i]).touches(
        control,
    ) by {
        operation_at(core, level, table_base, i);
    }
    run_one_more(operations, 0, registers);
    unwritten_register_is_kept(operations, control, 1, enabling, registers);
    run_one_more(operations, enabling, registers);
    assert(operations[enabling] == tail[enabling - head.len()]);
    assert(operations[enabling + 1] == tail[enabling + 1 - head.len()]);
    assert(operations[enabling + 2] == tail[enabling + 2 - head.len()]);
    unwritten_register_is_kept(
        operations,
        control,
        enabling + 1,
        operations.len() as int,
        registers,
    );
    let before = registers[control];
    assert((((before & !0x1005u64) | 0) & !0x100fu64 | 0x1005) & 0x100f == 0x1005 && (((before
        & !0x1005u64) | 0) & !0x100fu64 | 0x1005) & !0x100fu64 == before & !0x100fu64)
        by (bit_vector);

    // the table base register
    let writing: int = head.len() as int + 1;
    assert(operations[writing] == tail[1]);
    assert forall|i: int| 0 <= i < writing implies !(#[trigger] operations[i]).touches(base) by {
        if i < head.len() {
            if i >= disabling(level).len() {
                assert(head[i] == table_building(core)[i - disabling(level).len()]);
            }
        } else {
            assert(operations[i] == tail[i - head.len()]);
        }
    }
    assert forall|i: int| writing < i < operations.len() implies !(
    #[trigger] operations[i]).touches(base) by {
        assert(operations[i] == tail[i - head.len()]);
    }
    unwritten_register_is_kept(operations, base, 0, writing, registers);
    run_one_more(operations, writing, registers);
    unwritten_register_is_kept(operations, base, writing + 1, operations.len() as int, registers);
    let held = registers[base];
    assert(((held & !0xffff_ffff_ffffu64) | (table_base & 0xffff_ffff_ffff)) & 0xffff_ffff_ffff
        == table_base & 0xffff_ffff_ffff) by (bit_vector);
}

} // verus!
