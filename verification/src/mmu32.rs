//! Translation table and MMU programme of the 32 bit architecture.
//!
//! Memory is mapped one to one in sections of 1 MB by a single table of
//! 4096 descriptors. Everything below the peripheral base is normal cacheable
//! memory, everything from there on is device memory.
//!
//! The fields of the 32 bit system registers are laid out in this module
//! itself: the `ruspiro-arch-aarch64` crate defines the registers of the
//! 64 bit architecture only.

use crate::field::{field32, field_value32, merge, FieldValue};
use crate::register::{
    is_complete, run, run_one_more, unwritten_register_is_kept, Operation, RegisterFile,
    SystemRegister,
};
use vstd::prelude::*;

verus! {

/// Bytes that one section descriptor maps.
pub const SECTION_SIZE: u32 = 0x10_0000;

/// Descriptors in the table.
pub const SECTION_COUNT: usize = 4096;

/// The first section of device memory.
pub const FIRST_DEVICE_SECTION: usize = 0x3f0;

/// The address from which on memory belongs to the peripherals.
pub const PERIPHERAL_BASE: u32 = 0x3F00_0000;

/// The end of the address space: the first address that 32 bits cannot
/// hold.
pub const ADDRESS_SPACE_END: u64 = 0x1_0000_0000;

/// The descriptor bits of normal memory: a section, write-back and
/// write-allocate cacheable, full access, shareable.
pub const NORMAL_SECTION: u32 = 0x9_1C0E;

/// The descriptor bits of device memory: a section, shareable device, never
/// executed, full access.
pub const DEVICE_SECTION: u32 = 0x9_0C16;

/// The descriptor of the section with the given index.
pub open spec fn section_descriptor(index: int) -> u32
    recommends
        0 <= index < SECTION_COUNT,
{
    if index < FIRST_DEVICE_SECTION {
        ((index * SECTION_SIZE) as u32) | NORMAL_SECTION
    } else {
        ((index * SECTION_SIZE) as u32) | DEVICE_SECTION
    }
}

/// The address that a section descriptor maps.
pub open spec fn section_address(descriptor: u32) -> u32 {
    descriptor & 0xfff0_0000
}

/// Whether a descriptor describes a section.
pub open spec fn is_section(descriptor: u32) -> bool {
    descriptor & 0x4_0003 == 0b10
}

/// The memory type that a section descriptor selects: the three type
/// extension bits, then the cacheable bit, then the bufferable bit.
pub open spec fn memory_type(descriptor: u32) -> u32 {
    ((descriptor >> 12) & 0b111) << 2 | ((descriptor >> 2) & 0b11)
}

/// The memory type of normal memory, write-back and write-allocate.
pub const TYPE_NORMAL: u32 = 0b00111;

/// The memory type of shareable device memory.
pub const TYPE_DEVICE: u32 = 0b00001;

/// The translation table.
pub struct MmuConfig {
    /// One descriptor per section of 1 MB.
    pub ttlb: [u32; 4096],
}

/// Computes the descriptor of the section with the given index.
pub fn make_section_descriptor(index: usize) -> (descriptor: u32)
    requires
        index < SECTION_COUNT,
    ensures
        descriptor == section_descriptor(index as int),
{
    let address: u32 = index as u32 * SECTION_SIZE;
    if index < FIRST_DEVICE_SECTION {
        address | 0b10010001110000001110
    } else {
        address | 0x9_0c16
    }
}

/// Reads the address that a section descriptor maps.
pub fn read_section_address(descriptor: u32) -> (address: u32)
    ensures
        address == section_address(descriptor),
{
    descriptor & 0xfff0_0000
}

/// Reads the memory type that a section descriptor selects.
pub fn read_memory_type(descriptor: u32) -> (kind: u32)
    ensures
        kind == memory_type(descriptor),
{
    ((descriptor >> 12) & 0b111) << 2 | ((descriptor >> 2) & 0b11)
}

proof fn fields_of_normal_section(index: u32)
    by (bit_vector)
    requires
        index < 0x3f0,
    ensures
        ((index * 0x10_0000) as u32 | 0x9_1C0E) & 0xfff0_0000 == index * 0x10_0000,
        ((index * 0x10_0000) as u32 | 0x9_1C0E) & 0x4_0003 == 0b10,
        ((((index * 0x10_0000) as u32 | 0x9_1C0E) >> 12) & 0b111) << 2 | ((((index
            * 0x10_0000) as u32 | 0x9_1C0E) >> 2) & 0b11) == 0b00111,
{
}

proof fn fields_of_device_section(index: u32)
    by (bit_vector)
    requires
        0x3f0 <= index < 4096,
    ensures
        ((index * 0x10_0000) as u32 | 0x9_0C16) & 0xfff0_0000 == index * 0x10_0000,
        ((index * 0x10_0000) as u32 | 0x9_0C16) & 0x4_0003 == 0b10,
        ((((index * 0x10_0000) as u32 | 0x9_0C16) >> 12) & 0b111) << 2 | ((((index
            * 0x10_0000) as u32 | 0x9_0C16) >> 2) & 0b11) == 0b00001,
{
}

/// What the descriptor of a section says depends on the index of the
/// section alone. It describes a section and maps the section to itself;
/// below the peripheral base it selects normal memory and from the
/// peripheral base on device memory.
pub proof fn section_descriptor_fields(index: int)
    requires
        0 <= index < SECTION_COUNT,
    ensures
        is_section(section_descriptor(index)),
        section_address(section_descriptor(index)) == index * SECTION_SIZE,
        index * SECTION_SIZE < PERIPHERAL_BASE ==> memory_type(section_descriptor(index))
            == TYPE_NORMAL,
        index * SECTION_SIZE >= PERIPHERAL_BASE ==> memory_type(section_descriptor(index))
            == TYPE_DEVICE,
{
    if index < FIRST_DEVICE_SECTION {
        fields_of_normal_section(index as u32);
    } else {
        fields_of_device_section(index as u32);
    }
}

impl MmuConfig {
    /// Whether every section is mapped one to one.
    pub open spec fn maps_memory(&self) -> bool {
        forall|i: int|
            0 <= i < SECTION_COUNT ==> #[trigger] self.ttlb@[i] == section_descriptor(i)
    }

    /// The first address that the section with the given index maps.
    pub open spec fn section_start(&self, index: int) -> int {
        section_address(self.ttlb@[index]) as int
    }

    /// Whether the section with the given index maps `address`.
    pub open spec fn section_covers(&self, index: int, address: int) -> bool {
        self.section_start(index) <= address < self.section_start(index) + SECTION_SIZE
    }

    /// A table in which no descriptor is valid.
    pub fn new() -> (config: MmuConfig)
        ensures
            forall|i: int| 0 <= i < 4096 ==> #[trigger] config.ttlb@[i] == 0,
    {
        MmuConfig { ttlb: [0u32; 4096] }
    }

    /// Fills the table: every section is mapped to itself.
    pub fn setup_page_tables(&mut self)
        ensures
            final(self).maps_memory(),
    {
        let mut i: usize = 0;
        while i < SECTION_COUNT
            invariant
                i <= SECTION_COUNT,
                forall|k: int| 0 <= k < i ==> #[trigger] self.ttlb@[k] == section_descriptor(k),
            decreases SECTION_COUNT - i,
        {
            let descriptor = make_section_descriptor(i);
            self.ttlb[i] = descriptor;
            i += 1;
        }
    }

    /// The sections of a filled table lie side by side in the order of
    /// their indices, from address zero to the end of the address space. So
    /// every address is mapped by one section and no other.
    pub proof fn sections_tile_memory(&self)
        requires
            self.maps_memory(),
        ensures
            self.section_start(0) == 0,
            forall|i: int|
                0 <= i < SECTION_COUNT - 1 ==> self.section_start(i) + SECTION_SIZE
                    == #[trigger] self.section_start(i + 1),
            self.section_start(SECTION_COUNT - 1) + SECTION_SIZE == ADDRESS_SPACE_END,
            forall|i: int, address: int|
                0 <= i < SECTION_COUNT && 0 <= address < ADDRESS_SPACE_END ==> (
                #[trigger] self.section_covers(i, address) <==> i == address / (
                SECTION_SIZE as int)),
    {
        assert forall|i: int| 0 <= i < SECTION_COUNT implies #[trigger] self.section_start(i)
            == i * SECTION_SIZE by {
            section_descriptor_fields(i);
        }
        assert forall|i: int, address: int|
            0 <= i < SECTION_COUNT && 0 <= address < ADDRESS_SPACE_END implies (
        #[trigger] self.section_covers(i, address) <==> i == address / (SECTION_SIZE as int)) by {
            assert(self.section_start(i) == i * SECTION_SIZE);
        }
    }

    /// In a filled table a section is device memory exactly if it lies at
    /// or above the peripheral base; every other one is normal memory.
    pub proof fn device_memory_starts_at_peripheral_base(&self)
        requires
            self.maps_memory(),
        ensures
            forall|i: int|
                0 <= i < SECTION_COUNT ==> memory_type(#[trigger] self.ttlb@[i]) == (
                if self.section_start(i) >= PERIPHERAL_BASE {
                    TYPE_DEVICE
                } else {
                    TYPE_NORMAL
                }),
    {
        assert forall|i: int| 0 <= i < SECTION_COUNT implies memory_type(
            #[trigger] self.ttlb@[i],
        ) == (if self.section_start(i) >= PERIPHERAL_BASE {
            TYPE_DEVICE
        } else {
            TYPE_NORMAL
        }) by {
            section_descriptor_fields(i);
        }
    }
}

/// System control with the MMU and both caches off.
pub open spec fn control_disabled() -> FieldValue {
    FieldValue { mask: 0x1005, bits: 0 }
}

/// System control with the MMU and both caches on.
pub open spec fn control_enabled() -> FieldValue {
    FieldValue { mask: 0x1005, bits: 0x1005 }
}

/// Auxiliary control that opens the two processor control registers for
/// writing.
pub open spec fn auxiliary_control() -> FieldValue {
    FieldValue { mask: 0b11, bits: 0b11 }
}

/// The table base register for a table at `table_base`: the address without
/// its low 14 bits, walks shareable, write-back write-allocate cacheable in
/// the outer and the inner region.
pub open spec fn table_base_value(table_base: u32) -> FieldValue {
    FieldValue { mask: 0xffff_c07a, bits: ((table_base & 0xffff_c000) | 0x6a) as u64 }
}

/// Domain access control with every domain under manager access.
pub open spec fn domain_access() -> FieldValue {
    FieldValue { mask: 0xffff_ffff, bits: 0xffff_ffff }
}

/// The two idle cycles and the two barriers that let a change of the system
/// control register settle.
pub open spec fn settling() -> Seq<Operation> {
    seq![
        Operation::Nop,
        Operation::Nop,
        Operation::DataBarrier,
        Operation::InstructionBarrier,
    ]
}

/// The operations that switch the MMU and the caches off and let the change
/// settle.
pub open spec fn disabling() -> Seq<Operation> {
    seq![Operation::update(SystemRegister::Sctlr, control_disabled())] + settling()
}

/// The operations that prepare the translation: the processor control
/// registers are opened and the table base control is cleared, so that the
/// first table base register alone is used.
pub open spec fn preparation() -> Seq<Operation> {
    seq![
        Operation::update(SystemRegister::Actlr, auxiliary_control()),
        Operation::Store { register: SystemRegister::Ttbcr, value: 0 },
        Operation::InstructionBarrier,
    ]
}

/// The operation that fills the table, on the first core only.
pub open spec fn table_building(core: u32) -> Seq<Operation> {
    if core == 0 {
        seq![Operation::BuildTables]
    } else {
        seq![]
    }
}

/// The operations that program and enable the MMU for a table at
/// `table_base`.
pub open spec fn programme(table_base: u32) -> Seq<Operation> {
    seq![
        Operation::update(SystemRegister::Ttbr0, table_base_value(table_base)),
        Operation::update(SystemRegister::Dacr, domain_access()),
        Operation::update(SystemRegister::Sctlr, control_enabled()),
    ] + settling()
}

/// Everything a core does to run with the MMU enabled.
pub open spec fn initialization(core: u32, table_base: u32) -> Seq<Operation> {
    disabling() + preparation() + table_building(core) + programme(table_base)
}

/// Composes the system control value with the MMU and both caches switched
/// on or off.
fn control_value(enable: bool) -> (value: FieldValue)
    ensures
        value == if enable {
            control_enabled()
        } else {
            control_disabled()
        },
{
    let setting: u32 = if enable {
        1
    } else {
        0
    };
    let m = field_value32(1, 0, setting);
    let i = field_value32(1, 12, setting);
    let c = field_value32(1, 2, setting);
    assert(field32(1, 0, 1).union(field32(1, 12, 1)).union(field32(1, 2, 1)) == control_enabled()
        && field32(1, 0, 0).union(field32(1, 12, 0)).union(field32(1, 2, 0))
        == control_disabled()) by (bit_vector);
    merge(merge(m, i), c)
}

/// Composes the auxiliary control value.
fn auxiliary_control_value() -> (value: FieldValue)
    ensures
        value == auxiliary_control(),
{
    let cpuactlr = field_value32(1, 0, 1);
    let cpuectlr = field_value32(1, 1, 1);
    assert(field32(1, 0, 1).union(field32(1, 1, 1)) == auxiliary_control()) by (bit_vector);
    merge(cpuactlr, cpuectlr)
}

/// Composes the value of the table base register.
fn table_base_field(table_base: u32) -> (value: FieldValue)
    ensures
        value == table_base_value(table_base),
{
    let ttb0 = field_value32(0x3_ffff, 14, table_base >> 14);
    let s = field_value32(1, 1, 1);
    let rgn = field_value32(0b11, 3, 0b01);
    let nos = field_value32(1, 5, 1);
    let irgn0 = field_value32(1, 6, 0b1);
    let attributes = merge(merge(merge(s, rgn), nos), irgn0);
    assert(field32(1, 1, 1).union(field32(0b11, 3, 0b01)).union(field32(1, 5, 1)).union(
        field32(1, 6, 0b1),
    ) == (FieldValue { mask: 0x7a, bits: 0x6a })) by (bit_vector);
    let value = merge(ttb0, attributes);
    assert((0x3_ffffu32 << 14u32) as u64 | 0x7a == 0xffff_c07a && (((((table_base >> 14u32)
        & 0x3_ffff) << 14u32) as u64) & ((0x3_ffffu32 << 14u32) as u64)) | (0x6au64 & 0x7a) == ((
    table_base & 0xffff_c000) | 0x6a) as u64) by (bit_vector);
    value
}

/// Composes the domain access value: manager access for each of the sixteen
/// domains.
fn domain_access_value() -> (value: FieldValue)
    ensures
        value == domain_access(),
{
    let d0 = field_value32(0b11, 0, 0b11);
    let d1 = field_value32(0b11, 2, 0b11);
    let d2 = field_value32(0b11, 4, 0b11);
    let d3 = field_value32(0b11, 6, 0b11);
    let d4 = field_value32(0b11, 8, 0b11);
    let d5 = field_value32(0b11, 10, 0b11);
    let d6 = field_value32(0b11, 12, 0b11);
    let d7 = field_value32(0b11, 14, 0b11);
    let d8 = field_value32(0b11, 16, 0b11);
    let d9 = field_value32(0b11, 18, 0b11);
    let d10 = field_value32(0b11, 20, 0b11);
    let d11 = field_value32(0b11, 22, 0b11);
    let d12 = field_value32(0b11, 24, 0b11);
    let d13 = field_value32(0b11, 26, 0b11);
    let d14 = field_value32(0b11, 28, 0b11);
    let d15 = field_value32(0b11, 30, 0b11);
    assert(field32(0b11, 0, 0b11).union(
        field32(0b11, 2, 0b11),
    ).union(
        field32(0b11, 4, 0b11),
    ).union(
        field32(0b11, 6, 0b11),
    ).union(
        field32(0b11, 8, 0b11),
    ).union(
        field32(0b11, 10, 0b11),
    ).union(
        field32(0b11, 12, 0b11),
    ).union(
        field32(0b11, 14, 0b11),
    ).union(
        field32(0b11, 16, 0b11),
    ).union(
        field32(0b11, 18, 0b11),
    ).union(
        field32(0b11, 20, 0b11),
    ).union(
        field32(0b11, 22, 0b11),
    ).union(
        field32(0b11, 24, 0b11),
    ).union(
        field32(0b11, 26, 0b11),
    ).union(
        field32(0b11, 28, 0b11),
    ).union(
        field32(0b11, 30, 0b11),
    ) == domain_access()) by (bit_vector);
    let low = merge(merge(merge(merge(merge(merge(merge(d0, d1), d2), d3), d4), d5), d6), d7);
    let high = merge(
        merge(merge(merge(merge(merge(merge(merge(low, d8), d9), d10), d11), d12), d13), d14),
        d15,
    );
    high
}

/// Plans the operations that switch the MMU and the caches off and let the
/// change settle. The table stays as it is.
pub fn disable_mmu() -> (operations: Vec<Operation>)
    ensures
        operations@ == disabling(),
{
    let mut operations: Vec<Operation> = Vec::new();
    operations.push(Operation::write(SystemRegister::Sctlr, control_value(false)));
    operations.push(Operation::Nop);
    operations.push(Operation::Nop);
    operations.push(Operation::DataBarrier);
    operations.push(Operation::InstructionBarrier);
    assert(operations@ =~= disabling());
    operations
}

/// Plans everything that the core with the given number does to run with
/// the MMU enabled, the table lying at `table_base`. The MMU is switched
/// off first; the first core then fills the table; at last the MMU is
/// programmed and enabled.
pub fn initialize_mmu(core: u32, table_base: u32) -> (operations: Vec<Operation>)
    ensures
        operations@ == initialization(core, table_base),
{
    let mut operations = disable_mmu();
    operations.push(Operation::write(SystemRegister::Actlr, auxiliary_control_value()));
    operations.push(Operation::Store { register: SystemRegister::Ttbcr, value: 0 });
    operations.push(Operation::InstructionBarrier);
    if core == 0 {
        operations.push(Operation::BuildTables);
    }
    operations.push(Operation::write(SystemRegister::Ttbr0, table_base_field(table_base)));
    operations.push(Operation::write(SystemRegister::Dacr, domain_access_value()));
    operations.push(Operation::write(SystemRegister::Sctlr, control_value(true)));
    operations.push(Operation::Nop);
    operations.push(Operation::Nop);
    operations.push(Operation::DataBarrier);
    operations.push(Operation::InstructionBarrier);
    assert(operations@ =~= initialization(core, table_base));
    operations
}

/// The position of the operation that enables the MMU: it is followed by
/// the settling only.
pub open spec fn enabling_position(core: u32, table_base: u32) -> int {
    initialization(core, table_base).len() - 5
}

/// The table is filled by the first core and by no other, once, after the
/// MMU was switched off and before it is enabled.
pub proof fn table_is_built_by_first_core(core: u32, table_base: u32)
    ensures
        initialization(core, table_base).contains(Operation::BuildTables) <==> core == 0,
        forall|i: int|
            0 <= i < initialization(core, table_base).len() && initialization(core, table_base)[i]
                == Operation::BuildTables ==> i == 8 && i < enabling_position(core, table_base),
{
    let operations = initialization(core, table_base);
    if core == 0 {
        assert(operations[8] == Operation::BuildTables);
    }
}

/// What stands at each position of the initialization between the first
/// operation and the enabling one: nothing that writes to the system
/// control register.
proof fn operation_at(core: u32, table_base: u32, position: int)
    requires
        1 <= position < enabling_position(core, table_base),
    ensures
        !initialization(core, table_base)[position].touches(SystemRegister::Sctlr),
{
    let head = disabling() + preparation();
    let middle = table_building(core);
    let tail = programme(table_base);
    assert(initialization(core, table_base) == head + middle + tail);
    if position < head.len() {
        if position >= disabling().len() {
            assert(head[position] == preparation()[position - disabling().len()]);
        }
    } else if position < head.len() + middle.len() {
        assert((head + middle)[position] == middle[position - head.len()]);
    } else {
        assert((head + middle + tail)[position] == tail[position - head.len() - middle.len()]);
    }
}

/// From the first operation of the initialization until the one that
/// enables the MMU, the MMU and both caches are off.
pub proof fn mmu_is_off_until_enabled(
    core: u32,
    table_base: u32,
    registers: RegisterFile,
    count: int,
)
    requires
        is_complete(registers),
        1 <= count <= enabling_position(core, table_base),
    ensures
        run(initialization(core, table_base).take(count), registers)[SystemRegister::Sctlr]
            & 0x1005 == 0,
{
    let operations = initialization(core, table_base);
    let before = registers[SystemRegister::Sctlr];
    run_one_more(operations, 0, registers);
    assert(operations.take(0) =~= Seq::<Operation>::empty());
    assert(operations[0] == Operation::update(SystemRegister::Sctlr, control_disabled()));
    assert(((before & !0x1005u64) | 0) & 0x1005 == 0) by (bit_vector);
    assert forall|i: int| 1 <= i < count implies !(#[trigger] operations[i]).touches(
        SystemRegister::Sctlr,
    ) by {
        operation_at(core, table_base, i);
    }
    unwritten_register_is_kept(operations, SystemRegister::Sctlr, 1, count, registers);
}

/// Whatever the registers hold before, after the initialization the MMU and
/// both caches are on and the other bits of the system control register are
/// as they were.
pub proof fn initialization_enables_mmu(core: u32, table_base: u32, registers: RegisterFile)
    requires
        is_complete(registers),
    ensures
        run(initialization(core, table_base), registers)[SystemRegister::Sctlr] & 0x1005
            == 0x1005,
        run(initialization(core, table_base), registers)[SystemRegister::Sctlr] & !0x1005u64
            == registers[SystemRegister::Sctlr] & !0x1005u64,
{
    let operations = initialization(core, table_base);
    let control = SystemRegister::Sctlr;
    let enabling = enabling_position(core, table_base);
    let front = disabling() + preparation() + table_building(core);
    let tail = programme(table_base);
    assert(operations == front + tail);
    assert(operations.take(operations.len() as int) =~= operations);
    assert(operations.take(0) =~= Seq::<Operation>::empty());
    assert forall|i: int| 1 <= i < enabling implies !(#[trigger] operations[i]).touches(
        control,
    ) by {
        operation_at(core, table_base, i);
    }
    run_one_more(operations, 0, registers);
    unwritten_register_is_kept(operations, control, 1, enabling, registers);
    run_one_more(operations, enabling, registers);
    assert(operations[enabling] == tail[enabling - front.len()]);
    assert forall|i: int| enabling < i < operations.len() implies !(
    #[trigger] operations[i]).touches(control) by {
        assert(operations[i] == tail[i - front.len()]);
    }
    unwritten_register_is_kept(
        operations,
        control,
        enabling + 1,
        operations.len() as int,
        registers,
    );
    let before = registers[control];
    assert((((before & !0x1005u64) | 0) & !0x1005u64 | 0x1005) & 0x1005 == 0x1005 && (((before
        & !0x1005u64) | 0) & !0x1005u64 | 0x1005) & !0x1005u64 == before & !0x1005u64)
        by (bit_vector);
}

} // verus!
