use ruspiro_boot::mmu;
use ruspiro_boot::mmu32::{
    disable_mmu, initialize_mmu, make_section_descriptor, read_memory_type,
    read_section_address, MmuConfig, ADDRESS_SPACE_END, PERIPHERAL_BASE, SECTION_COUNT,
    SECTION_SIZE, TYPE_DEVICE, TYPE_NORMAL,
};
use ruspiro_boot::register::{Operation, SystemRegister};

fn update(register: SystemRegister, mask: u64, bits: u64) -> Operation {
    Operation::Update { register, mask, bits }
}

#[test]
fn section_descriptors_have_their_exact_bits() {
    assert_eq!(make_section_descriptor(0), 0x9_1c0e);
    assert_eq!(make_section_descriptor(1), 0x19_1c0e);
    assert_eq!(make_section_descriptor(0x3ef), 0x3ef9_1c0e);
    assert_eq!(make_section_descriptor(0x3f0), 0x3f09_0c16);
    assert_eq!(make_section_descriptor(0xffe), 0xffe9_0c16);
    assert_eq!(make_section_descriptor(0xfff), 0xfff9_0c16);
}

#[test]
fn sections_cover_the_address_space_without_gaps() {
    let mut config = MmuConfig::new();
    config.setup_page_tables();
    let mut expected_start = 0u64;
    for index in 0..SECTION_COUNT {
        let descriptor = config.ttlb[index];
        assert_eq!(descriptor, make_section_descriptor(index));
        assert_eq!(descriptor & 0x4_0003, 0b10);
        assert_eq!(read_section_address(descriptor) as u64, expected_start);
        expected_start += SECTION_SIZE as u64;
    }
    assert_eq!(expected_start, ADDRESS_SPACE_END);
    assert_eq!(expected_start, 0x1_0000_0000);
}

#[test]
fn device_sections_begin_at_the_peripheral_base() {
    let mut config = MmuConfig::new();
    config.setup_page_tables();
    for index in 0..SECTION_COUNT {
        let descriptor = config.ttlb[index];
        if read_section_address(descriptor) >= PERIPHERAL_BASE {
            assert_eq!(read_memory_type(descriptor), TYPE_DEVICE);
        } else {
            assert_eq!(read_memory_type(descriptor), TYPE_NORMAL);
        }
    }
    assert_eq!(read_memory_type(config.ttlb[0x3ef]), 0b00111);
    assert_eq!(read_memory_type(config.ttlb[0x3f0]), 0b00001);
}

#[test]
fn top_megabyte_is_mapped() {
    let mut config = MmuConfig::new();
    assert!(config.ttlb.iter().all(|d| *d == 0));
    config.setup_page_tables();
    assert_eq!(config.ttlb.len(), SECTION_COUNT);
    assert_eq!(config.ttlb[4095], 0xfff9_0c16);
    assert_eq!(read_section_address(config.ttlb[4095]), 0xfff0_0000);
    assert_eq!(read_memory_type(config.ttlb[4095]), TYPE_DEVICE);
    assert!(config.ttlb.iter().all(|d| *d & 0x4_0003 == 0b10));
}

#[test]
fn filling_overwrites_what_the_table_held() {
    let mut config = MmuConfig::new();
    config.ttlb[4095] = 0x1234;
    config.ttlb[3] = 0xffff_ffff;
    config.setup_page_tables();
    assert_eq!(config.ttlb[4095], 0xfff9_0c16);
    assert_eq!(config.ttlb[3], 0x39_1c0e);
}

#[test]
fn memory_type_is_read_from_five_bits() {
    assert_eq!(read_memory_type(0xffff_ffff), 0b11111);
    assert_eq!(read_memory_type(0x0000_7000), 0b11100);
    assert_eq!(read_memory_type(0x0000_000c), 0b00011);
    assert_eq!(read_section_address(0xffff_ffff), 0xfff0_0000);
}

#[test]
fn disabling_switches_mmu_and_caches_off() {
    assert_eq!(
        disable_mmu(),
        vec![
            update(SystemRegister::Sctlr, 0x1005, 0),
            Operation::Nop,
            Operation::Nop,
            Operation::DataBarrier,
            Operation::InstructionBarrier,
        ]
    );
}

#[test]
fn first_core_builds_the_table() {
    assert_eq!(
        initialize_mmu(0, 0x0010_4000),
        vec![
            update(SystemRegister::Sctlr, 0x1005, 0),
            Operation::Nop,
            Operation::Nop,
            Operation::DataBarrier,
            Operation::InstructionBarrier,
            update(SystemRegister::Actlr, 0x3, 0x3),
            Operation::Store { register: SystemRegister::Ttbcr, value: 0 },
            Operation::InstructionBarrier,
            Operation::BuildTables,
            update(SystemRegister::Ttbr0, 0xffff_c07a, 0x0010_406a),
            update(SystemRegister::Dacr, 0xffff_ffff, 0xffff_ffff),
            update(SystemRegister::Sctlr, 0x1005, 0x1005),
            Operation::Nop,
            Operation::Nop,
            Operation::DataBarrier,
            Operation::InstructionBarrier,
        ]
    );
}

#[test]
fn other_cores_use_the_table_as_it_is() {
    for core in [1u32, 2, 3, u32::MAX] {
        let operations = initialize_mmu(core, 0x0010_4000);
        assert_eq!(operations.len(), 15);
        assert!(!operations.contains(&Operation::BuildTables));
        assert_eq!(operations[8], update(SystemRegister::Ttbr0, 0xffff_c07a, 0x0010_406a));
    }
}

#[test]
fn table_base_loses_its_low_bits() {
    let operations = initialize_mmu(1, 0xffff_ffff);
    assert_eq!(operations[8], update(SystemRegister::Ttbr0, 0xffff_c07a, 0xffff_c06a));
    let operations = initialize_mmu(1, 0x3fff);
    assert_eq!(operations[8], update(SystemRegister::Ttbr0, 0xffff_c07a, 0x6a));
}

#[test]
fn host_has_no_mmu_to_program() {
    assert_eq!(mmu::initialize_mmu(0), vec![]);
    assert_eq!(mmu::initialize_mmu(3), vec![]);
    assert_eq!(mmu::disable_mmu(), vec![]);
}
