use walnut_os::efi::structures::{
    destroy_system_table, exit_boot_service_int, load_system_table, read_u32_le, read_u64_le,
    register_system_table, EfiHandle, EfiMemoryDescriptor, EfiMemoryType, EfiStatus,
    EfiSystemTable, EfiTableHeader, Error, SystemTableRegistry, DESCRIPTOR_SIZE, EFI_PAGE_SIZE,
};
use walnut_os::efi::{
    checked_free_memory, classify_memory_map, exit_boot_services, free_memory, query_memory_map,
    MemoryMapQuery, MemoryMapReply, MEMORY_MAP_CAPACITY,
};

const ALL_TYPES: [EfiMemoryType; 15] = [
    EfiMemoryType::Reserved,
    EfiMemoryType::LoaderCode,
    EfiMemoryType::LoaderData,
    EfiMemoryType::BootServicesCode,
    EfiMemoryType::BootServicesData,
    EfiMemoryType::RuntimeServicesCode,
    EfiMemoryType::RuntimeServicesData,
    EfiMemoryType::Conventional,
    EfiMemoryType::Unusable,
    EfiMemoryType::AcpiReclaim,
    EfiMemoryType::AcpiNonVolatile,
    EfiMemoryType::Mmio,
    EfiMemoryType::MmioPortSpace,
    EfiMemoryType::PalCode,
    EfiMemoryType::PersistentMemory,
];

fn table(boot_services: usize) -> EfiSystemTable {
    EfiSystemTable {
        header: EfiTableHeader {
            signature: 0x5453_5953_2049_4249,
            revision: 0x0002_0046,
            header_size: 120,
            crc32: 0,
            reserved: 0,
        },
        firmware_vendor: 0x1000,
        firmware_revision: 1,
        console_in_handle: EfiHandle(1),
        console_in: 0x2000,
        console_out_handle: EfiHandle(2),
        console_out: 0x3000,
        console_err_handle: EfiHandle(3),
        console_err: 0x4000,
        runtime_services: 0x5000,
        boot_services,
        number_of_tables: 0,
        tables: 0,
    }
}

fn put_descriptor(buf: &mut [u8], offset: usize, typ: u32, start: u64, pages: u64) {
    buf[offset..offset + 4].copy_from_slice(&typ.to_le_bytes());
    buf[offset + 8..offset + 16].copy_from_slice(&start.to_le_bytes());
    buf[offset + 16..offset + 24].copy_from_slice(&0u64.to_le_bytes());
    buf[offset + 24..offset + 32].copy_from_slice(&pages.to_le_bytes());
    buf[offset + 32..offset + 40].copy_from_slice(&0xfu64.to_le_bytes());
}

fn synthetic_map(stride: usize) -> Vec<u8> {
    let mut buf = vec![0xaau8; 3 * stride];
    put_descriptor(&mut buf, 0, 7, 0x10_0000, 10);
    put_descriptor(&mut buf, stride, 4, 0x20_0000, 5);
    put_descriptor(&mut buf, 2 * stride, 0, 0x30_0000, 2);
    buf
}

#[test]
fn four_memory_types_are_available_after_exit() {
    for typ in ALL_TYPES {
        let expected = matches!(
            typ,
            EfiMemoryType::BootServicesCode
                | EfiMemoryType::BootServicesData
                | EfiMemoryType::Conventional
                | EfiMemoryType::PersistentMemory
        );
        assert_eq!(typ.available_post_exit_boot_services(), expected);
        assert_eq!(typ.available_post_brexit(), expected);
    }
    assert!(EfiMemoryType::BootServicesCode.available_post_exit_boot_services());
    assert!(EfiMemoryType::BootServicesData.available_post_exit_boot_services());
    assert!(EfiMemoryType::Conventional.available_post_exit_boot_services());
    assert!(EfiMemoryType::PersistentMemory.available_post_exit_boot_services());
    assert!(!EfiMemoryType::Reserved.available_post_exit_boot_services());
    assert!(!EfiMemoryType::LoaderCode.available_post_exit_boot_services());
    assert!(!EfiMemoryType::LoaderData.available_post_exit_boot_services());
    assert!(!EfiMemoryType::RuntimeServicesCode.available_post_exit_boot_services());
    assert!(!EfiMemoryType::RuntimeServicesData.available_post_exit_boot_services());
    assert!(!EfiMemoryType::Unusable.available_post_exit_boot_services());
    assert!(!EfiMemoryType::AcpiReclaim.available_post_exit_boot_services());
    assert!(!EfiMemoryType::AcpiNonVolatile.available_post_exit_boot_services());
    assert!(!EfiMemoryType::Mmio.available_post_exit_boot_services());
    assert!(!EfiMemoryType::MmioPortSpace.available_post_exit_boot_services());
    assert!(!EfiMemoryType::PalCode.available_post_exit_boot_services());
}

#[test]
fn memory_type_codes_map_to_the_fifteen_types() {
    for (code, typ) in ALL_TYPES.iter().enumerate() {
        assert_eq!(EfiMemoryType::from(code as u32), *typ);
        assert_eq!(typ.code(), code as u32);
    }
    assert_eq!(EfiMemoryType::from(0), EfiMemoryType::Reserved);
    assert_eq!(EfiMemoryType::from(2), EfiMemoryType::LoaderData);
    assert_eq!(EfiMemoryType::from(7), EfiMemoryType::Conventional);
    assert_eq!(EfiMemoryType::from(14), EfiMemoryType::PersistentMemory);
}

#[test]
fn numbers_are_read_lowest_byte_first() {
    let bytes: [u8; 10] = [0xff, 0x78, 0x56, 0x34, 0x12, 0xef, 0xcd, 0xab, 0x90, 0x01];
    assert_eq!(read_u32_le(&bytes, 1), 0x1234_5678);
    assert_eq!(read_u32_le(&bytes, 0), 0x3456_78ff);
    assert_eq!(read_u64_le(&bytes, 1), 0x90ab_cdef_1234_5678);
    assert_eq!(read_u64_le(&bytes, 2), 0x0190_abcd_ef12_3456);
    let ones = [0xffu8; 8];
    assert_eq!(read_u32_le(&ones, 4), u32::MAX);
    assert_eq!(read_u64_le(&ones, 0), u64::MAX);
}

#[test]
fn descriptor_is_read_from_its_fixed_layout() {
    let mut buf = vec![0u8; 100];
    buf[7..11].copy_from_slice(&9u32.to_le_bytes());
    buf[11..15].copy_from_slice(&0xdead_beefu32.to_le_bytes());
    buf[15..23].copy_from_slice(&0x1111_2222_3333_4444u64.to_le_bytes());
    buf[23..31].copy_from_slice(&0x5555_6666_7777_8888u64.to_le_bytes());
    buf[31..39].copy_from_slice(&0x9999_aaaa_bbbb_ccccu64.to_le_bytes());
    buf[39..47].copy_from_slice(&0xdddd_eeee_ffff_0001u64.to_le_bytes());
    let d = EfiMemoryDescriptor::read(&buf, 7);
    assert_eq!(
        d,
        EfiMemoryDescriptor {
            typ: 9,
            physical_start: 0x1111_2222_3333_4444,
            virtual_start: 0x5555_6666_7777_8888,
            number_of_pages: 0x9999_aaaa_bbbb_cccc,
            attribute: 0xdddd_eeee_ffff_0001,
        }
    );
    assert_eq!(DESCRIPTOR_SIZE, 40);
    assert_eq!(EFI_PAGE_SIZE, 4096);
}

#[test]
fn synthetic_map_has_sixty_kib_free() {
    let buf = synthetic_map(40);
    assert_eq!(free_memory(&buf, 120, 40), 61440);
    assert_eq!(checked_free_memory(&buf, 120, 40), Some(61440));
    assert_eq!(free_memory(&buf, 120, 40), (10 + 5) * 4096);
}

#[test]
fn walk_honours_a_wider_stride() {
    let buf = synthetic_map(48);
    assert_eq!(free_memory(&buf, 144, 48), 61440);
    assert_eq!(checked_free_memory(&buf, 144, 48), Some(61440));
    let buf = synthetic_map(64);
    assert_eq!(free_memory(&buf, 192, 64), 61440);
}

#[test]
fn walk_stops_at_the_reported_size() {
    let buf = synthetic_map(40);
    assert_eq!(free_memory(&buf, 0, 40), 0);
    assert_eq!(free_memory(&buf, 40, 40), 40960);
    assert_eq!(free_memory(&buf, 80, 40), 61440);
    assert_eq!(checked_free_memory(&buf, 0, 40), Some(0));
    assert_eq!(checked_free_memory(&buf, 40, 40), Some(40960));
    // A descriptor that begins below the reported size is visited whole.
    assert_eq!(free_memory(&buf, 1, 40), 40960);
    assert_eq!(free_memory(&buf, 41, 40), 61440);
    assert_eq!(checked_free_memory(&buf, 41, 40), Some(61440));
}

#[test]
fn every_available_type_counts() {
    for (code, typ) in ALL_TYPES.iter().enumerate() {
        let mut buf = vec![0u8; 40];
        put_descriptor(&mut buf, 0, code as u32, 0, 3);
        let expected = if typ.available_post_exit_boot_services() { 3 * 4096 } else { 0 };
        assert_eq!(free_memory(&buf, 40, 40), expected);
        assert_eq!(checked_free_memory(&buf, 40, 40), Some(expected));
    }
}

#[test]
fn malformed_maps_are_told_apart() {
    let buf = synthetic_map(40);
    // a stride of zero
    assert_eq!(checked_free_memory(&buf, 120, 0), None);
    assert_eq!(checked_free_memory(&buf, 0, 0), None);
    // a descriptor that runs past the buffer
    assert_eq!(checked_free_memory(&buf, 121, 40), None);
    assert_eq!(checked_free_memory(&buf[..119], 119, 40), None);
    assert_eq!(checked_free_memory(&buf[..10], 1, 40), None);
    // a type code that the firmware does not define
    let mut unknown = synthetic_map(40);
    put_descriptor(&mut unknown, 40, 15, 0, 1);
    assert_eq!(checked_free_memory(&unknown, 120, 40), None);
    assert_eq!(checked_free_memory(&unknown, 40, 40), Some(40960));
    // usable bytes beyond 64 bits, in one descriptor and in the sum
    let mut big = synthetic_map(40);
    put_descriptor(&mut big, 0, 7, 0, 1 << 52);
    assert_eq!(checked_free_memory(&big, 120, 40), None);
    let mut sum = synthetic_map(40);
    put_descriptor(&mut sum, 0, 7, 0, (1 << 52) - 1);
    put_descriptor(&mut sum, 40, 7, 0, 1);
    assert_eq!(checked_free_memory(&sum, 120, 40), None);
    assert_eq!(checked_free_memory(&sum, 40, 40), Some(u64::MAX - 4095));
    // pages that are not usable are never multiplied
    let mut reserved = synthetic_map(40);
    put_descriptor(&mut reserved, 80, 0, 0, u64::MAX);
    assert_eq!(checked_free_memory(&reserved, 120, 40), Some(61440));
    assert_eq!(free_memory(&reserved, 120, 40), 61440);
}

#[test]
fn registry_takes_one_table_at_a_time() {
    let mut registry = SystemTableRegistry::new();
    assert_eq!(register_system_table(&mut registry, table(0x1000)), Ok(()));
    assert_eq!(
        register_system_table(&mut registry, table(0x2000)),
        Err(Error::CouldntRegisterSystemTable)
    );
    assert_eq!(load_system_table(&registry), Ok(&table(0x1000)));
    destroy_system_table(&mut registry);
    assert_eq!(register_system_table(&mut registry, table(0x2000)), Ok(()));
    assert_eq!(load_system_table(&registry), Ok(&table(0x2000)));
}

#[test]
fn load_fails_without_a_table() {
    let mut registry = SystemTableRegistry::new();
    assert_eq!(load_system_table(&registry), Err(Error::CouldntAccessSystemTable));
    register_system_table(&mut registry, table(0x1000)).unwrap();
    assert!(load_system_table(&registry).is_ok());
    destroy_system_table(&mut registry);
    assert_eq!(load_system_table(&registry), Err(Error::CouldntAccessSystemTable));
    destroy_system_table(&mut registry);
    assert_eq!(load_system_table(&registry), Err(Error::CouldntAccessSystemTable));
}

#[test]
fn exit_status_is_judged_by_zero() {
    assert_eq!(exit_boot_service_int(EfiStatus(0)), Ok(()));
    assert_eq!(
        exit_boot_service_int(EfiStatus(0x8000_0000_0000_0002)),
        Err(Error::CouldntExitBootService(EfiStatus(0x8000_0000_0000_0002)))
    );
    assert_eq!(
        exit_boot_service_int(EfiStatus(1)),
        Err(Error::CouldntExitBootService(EfiStatus(1)))
    );
    assert!(EfiStatus(0).is_success());
    assert!(!EfiStatus(5).is_success());
}

#[test]
fn handoff_needs_a_registered_table() {
    let registry = SystemTableRegistry::new();
    assert_eq!(query_memory_map(&registry), Err(Error::CouldntAccessSystemTable));
}

#[test]
fn handoff_runs_from_query_to_destruction() {
    let mut registry = SystemTableRegistry::new();
    register_system_table(&mut registry, table(0xb007)).unwrap();
    let query = query_memory_map(&registry).unwrap();
    assert_eq!(query, MemoryMapQuery { boot_services: 0xb007, capacity: 16 * 1024 });
    assert_eq!(MEMORY_MAP_CAPACITY, 16 * 1024);

    let mut mmap = vec![0u8; query.capacity];
    mmap[..144].copy_from_slice(&synthetic_map(48));
    let reply = MemoryMapReply {
        status: EfiStatus(0),
        mmap,
        mmap_size: 144,
        map_key: 0x4b45_59,
        descriptor_size: 48,
        descriptor_version: 1,
    };
    let request = classify_memory_map(query, EfiHandle(0x1d), &reply).unwrap();
    assert_eq!(request.boot_services, 0xb007);
    assert_eq!(request.image_handle, EfiHandle(0x1d));
    assert_eq!(request.map_key, 0x4b45_59);
    assert_eq!(request.free_memory, 61440);

    assert_eq!(exit_boot_services(&mut registry, request, EfiStatus(0)), Ok(61440));
    assert_eq!(load_system_table(&registry), Err(Error::CouldntAccessSystemTable));
    assert_eq!(query_memory_map(&registry), Err(Error::CouldntAccessSystemTable));
}

#[test]
fn refused_memory_map_ends_the_handoff() {
    let mut registry = SystemTableRegistry::new();
    register_system_table(&mut registry, table(0xb007)).unwrap();
    let query = query_memory_map(&registry).unwrap();
    let reply = MemoryMapReply {
        status: EfiStatus(0x8000_0000_0000_0005),
        mmap: vec![0u8; 16],
        mmap_size: 4096,
        map_key: 0,
        descriptor_size: 0,
        descriptor_version: 0,
    };
    assert_eq!(
        classify_memory_map(query, EfiHandle(1), &reply),
        Err(Error::CouldntGetMemoryMap(EfiStatus(0x8000_0000_0000_0005)))
    );
    assert!(load_system_table(&registry).is_ok());
}

#[test]
fn refused_exit_keeps_the_table() {
    let mut registry = SystemTableRegistry::new();
    register_system_table(&mut registry, table(0xb007)).unwrap();
    let query = query_memory_map(&registry).unwrap();
    let reply = MemoryMapReply {
        status: EfiStatus(0),
        mmap: synthetic_map(40),
        mmap_size: 120,
        map_key: 77,
        descriptor_size: 40,
        descriptor_version: 1,
    };
    let request = classify_memory_map(query, EfiHandle(1), &reply).unwrap();
    assert_eq!(
        exit_boot_services(&mut registry, request, EfiStatus(2)),
        Err(Error::CouldntExitBootService(EfiStatus(2)))
    );
    assert_eq!(load_system_table(&registry), Ok(&table(0xb007)));
}
