//! The records of the firmware interface, as plain values, and the
//! registry that holds the system table.
//!
//! Where the firmware's own layout holds a pointer, a record here holds
//! the address as an integer: the records describe what the firmware
//! handed over and are never followed from here.

use vstd::prelude::*;

verus! {

/// The size in bytes of the pages that the firmware counts memory in.
pub const EFI_PAGE_SIZE: u64 = 4096;

/// What the firmware handoff reports when it cannot go on.
#[derive(Clone, Copy, Debug, PartialEq, Eq, Structural)]
pub enum Error {
    /// There was no memory area found that is available after
    /// exiting boot services
    NoValidMemoryArea,
    /// No system table is registered: none was yet, or it was destroyed.
    CouldntAccessSystemTable,
    /// A system table is registered already.
    CouldntRegisterSystemTable,
    /// The firmware refused to end its boot services, with this status.
    CouldntExitBootService(EfiStatus),
    /// The firmware refused to hand out its memory map, with this status.
    CouldntGetMemoryMap(EfiStatus),
    /// A firmware status that has no variant of its own.
    Unknown(u64),
}

/// A 128-bit identifier of a firmware table or protocol.
#[derive(Clone, Copy, Debug, PartialEq, Eq, PartialOrd, Ord)]
pub struct EfiGuid(pub u32, pub u16, pub u16, pub [u8; 8]);

/// Collection fo related interfaces
/// Type: `void *`
#[derive(Clone, Copy, Debug, PartialEq, Eq, Structural)]
pub struct EfiHandle(pub u64);

/// What a firmware call returns: zero for success, anything else for a
/// failure.
#[derive(Clone, Copy, Debug, PartialEq, Eq, Structural)]
pub struct EfiStatus(pub u64);

impl EfiStatus {
    /// Whether the status stands for success.
    pub open spec fn spec_is_success(&self) -> bool {
        self.0 == 0
    }

    /// Whether the status stands for success.
    #[verifier::when_used_as_spec(spec_is_success)]
    pub fn is_success(&self) -> (r: bool)
        ensures
            r == (self.0 == 0),
    {
        self.0 == 0
    }
}

/// The header that every firmware table begins with.
#[derive(Clone, Copy, Default, Debug, PartialEq, Eq, Structural)]
pub struct EfiTableHeader {
    pub signature: u64,
    pub revision: u32,
    pub header_size: u32,
    pub crc32: u32,
    pub reserved: u32,
}

/// One entry of the system table's list of configuration tables.
#[derive(Clone, Copy, Debug, PartialEq, Eq)]
pub struct EfiConfigurationTable {
    pub guid: EfiGuid,
    /// a pointer to the `VendorTable`
    pub table: usize,
}

/// The structure defining all boot services
/// supplied by the UEFI firmware.
///
/// Is destroyed when `ExitBootServices` is called
/// on the `EfiSystemTable`
///
/// Of its entries only two are named here, each by the address of the
/// firmware's function.
#[derive(Clone, Copy, Debug, PartialEq, Eq, Structural)]
pub struct EfiBootServices {
    pub header: EfiTableHeader,
    /// `get_memory_map(mmap_size, mmap, map_key, descriptor_size,
    /// descriptor_version) -> status`
    pub get_memory_map: usize,
    /// `exit_boot_services(image_handle, map_key) -> status`
    pub exit_boot_services: usize,
}

/// The system table that the firmware hands to the kernel's entry point.
#[derive(Clone, Copy, Debug, PartialEq, Eq, Structural)]
pub struct EfiSystemTable {
    pub header: EfiTableHeader,
    pub firmware_vendor: usize,
    pub firmware_revision: u32,
    pub console_in_handle: EfiHandle,
    pub console_in: usize,
    pub console_out_handle: EfiHandle,
    pub console_out: usize,
    pub console_err_handle: EfiHandle,
    pub console_err: usize,
    pub runtime_services: usize,
    pub boot_services: usize,
    pub number_of_tables: usize,
    pub tables: usize,
}

/// What a region of the firmware's memory map is used for.
#[derive(Clone, Copy, Debug, PartialEq, Eq, Structural)]
pub enum EfiMemoryType {
    /// This enum variant is not used.
    Reserved,
    /// The code portions of a loaded UEFI application.
    LoaderCode,
    /// The data portions of a loaded UEFI applications,
    /// as well as any memory allocated by it.
    LoaderData,
    /// Code of the boot drivers.
    ///
    /// Can be reused after OS is loaded.
    BootServicesCode,
    /// Memory used to store boot drivers' data.
    ///
    /// Can be reused after OS is loaded.
    BootServicesData,
    /// Runtime drivers' code.
    RuntimeServicesCode,
    /// Runtime services' code.
    RuntimeServicesData,
    /// Free usable memory.
    Conventional,
    /// Memory in which errors have been detected.
    Unusable,
    /// Memory that holds ACPI tables.
    /// Can be reclaimed after they are parsed.
    AcpiReclaim,
    /// Firmware-reserved addresses.
    AcpiNonVolatile,
    /// A region used for memory-mapped I/O.
    Mmio,
    /// Address space used for memory-mapped port I/O.
    MmioPortSpace,
    /// Address space which is part of the processor.
    PalCode,
    /// Memory region which is usable and is also non-volatile.
    PersistentMemory,
}

/// The greatest type code that the firmware defines.
pub const MAX_MEMORY_TYPE: u32 = 14;

impl EfiMemoryType {
    /// The type that the firmware writes as `v`. Codes above
    /// `MAX_MEMORY_TYPE` stand for no type; on them the value is
    /// `Reserved` and means nothing.
    pub open spec fn spec_from(v: u32) -> EfiMemoryType {
        if v == 1 {
            EfiMemoryType::LoaderCode
        } else if v == 2 {
            EfiMemoryType::LoaderData
        } else if v == 3 {
            EfiMemoryType::BootServicesCode
        } else if v == 4 {
            EfiMemoryType::BootServicesData
        } else if v == 5 {
            EfiMemoryType::RuntimeServicesCode
        } else if v == 6 {
            EfiMemoryType::RuntimeServicesData
        } else if v == 7 {
            EfiMemoryType::Conventional
        } else if v == 8 {
            EfiMemoryType::Unusable
        } else if v == 9 {
            EfiMemoryType::AcpiReclaim
        } else if v == 10 {
            EfiMemoryType::AcpiNonVolatile
        } else if v == 11 {
            EfiMemoryType::Mmio
        } else if v == 12 {
            EfiMemoryType::MmioPortSpace
        } else if v == 13 {
            EfiMemoryType::PalCode
        } else if v == 14 {
            EfiMemoryType::PersistentMemory
        } else {
            EfiMemoryType::Reserved
        }
    }

    /// The code that the firmware writes for the type.
    pub open spec fn spec_code(self) -> u32 {
        match self {
            EfiMemoryType::Reserved => 0,
            EfiMemoryType::LoaderCode => 1,
            EfiMemoryType::LoaderData => 2,
            EfiMemoryType::BootServicesCode => 3,
            EfiMemoryType::BootServicesData => 4,
            EfiMemoryType::RuntimeServicesCode => 5,
            EfiMemoryType::RuntimeServicesData => 6,
            EfiMemoryType::Conventional => 7,
            EfiMemoryType::Unusable => 8,
            EfiMemoryType::AcpiReclaim => 9,
            EfiMemoryType::AcpiNonVolatile => 10,
            EfiMemoryType::Mmio => 11,
            EfiMemoryType::MmioPortSpace => 12,
            EfiMemoryType::PalCode => 13,
            EfiMemoryType::PersistentMemory => 14,
        }
    }

    /// Whether memory of the type is free for general use once the boot
    /// services have been exited.
    pub open spec fn spec_available(&self) -> bool {
        self is BootServicesCode || self is BootServicesData || self is Conventional
            || self is PersistentMemory
    }

    /// The type that the firmware writes as `v`, which must be one of the
    /// codes that the firmware defines.
    pub fn from(v: u32) -> (r: EfiMemoryType)
        requires
            v <= MAX_MEMORY_TYPE,
        ensures
            r == Self::spec_from(v),
            r.spec_code() == v,
    {
        match v {
            0 => EfiMemoryType::Reserved,
            1 => EfiMemoryType::LoaderCode,
            2 => EfiMemoryType::LoaderData,
            3 => EfiMemoryType::BootServicesCode,
            4 => EfiMemoryType::BootServicesData,
            5 => EfiMemoryType::RuntimeServicesCode,
            6 => EfiMemoryType::RuntimeServicesData,
            7 => EfiMemoryType::Conventional,
            8 => EfiMemoryType::Unusable,
            9 => EfiMemoryType::AcpiReclaim,
            10 => EfiMemoryType::AcpiNonVolatile,
            11 => EfiMemoryType::Mmio,
            12 => EfiMemoryType::MmioPortSpace,
            13 => EfiMemoryType::PalCode,
            _ => EfiMemoryType::PersistentMemory,
        }
    }

    /// The code that the firmware writes for the type.
    #[verifier::when_used_as_spec(spec_code)]
    pub fn code(self) -> (r: u32)
        ensures
            r == self.spec_code(),
            r <= MAX_MEMORY_TYPE,
            Self::spec_from(r) == self,
    {
        match self {
            EfiMemoryType::Reserved => 0,
            EfiMemoryType::LoaderCode => 1,
            EfiMemoryType::LoaderData => 2,
            EfiMemoryType::BootServicesCode => 3,
            EfiMemoryType::BootServicesData => 4,
            EfiMemoryType::RuntimeServicesCode => 5,
            EfiMemoryType::RuntimeServicesData => 6,
            EfiMemoryType::Conventional => 7,
            EfiMemoryType::Unusable => 8,
            EfiMemoryType::AcpiReclaim => 9,
            EfiMemoryType::AcpiNonVolatile => 10,
            EfiMemoryType::Mmio => 11,
            EfiMemoryType::MmioPortSpace => 12,
            EfiMemoryType::PalCode => 13,
            EfiMemoryType::PersistentMemory => 14,
        }
    }

    /// Returns whether or not the memory type is available
    /// for general purpose use after boot services have been exited.
    #[verifier::when_used_as_spec(spec_available)]
    pub fn available_post_exit_boot_services(&self) -> (r: bool)
        ensures
            r == self.spec_available(),
    {
        matches!(
            self,
            EfiMemoryType::BootServicesCode | EfiMemoryType::BootServicesData
                | EfiMemoryType::Conventional | EfiMemoryType::PersistentMemory
        )
    }

    /// The same question under its short name.
    pub fn available_post_brexit(&self) -> (r: bool)
        ensures
            r == self.spec_available(),
    {
        self.available_post_exit_boot_services()
    }
}

/// The natural size in bytes of a memory descriptor. The firmware may
/// write its descriptors further apart than this.
pub const DESCRIPTOR_SIZE: usize = 40;

/// One region of the firmware's memory map.
#[derive(Clone, Copy, Default, Debug, PartialEq, Eq, Structural)]
pub struct EfiMemoryDescriptor {
    pub typ: u32,
    pub physical_start: u64,
    pub virtual_start: u64,
    pub number_of_pages: u64,
    pub attribute: u64,
}

/// The 32-bit number whose four bytes stand at `at` in `bytes`, the
/// lowest first.
pub open spec fn spec_u32_le(bytes: Seq<u8>, at: int) -> u32
    recommends
        0 <= at,
        at + 4 <= bytes.len(),
{
    (bytes[at] + bytes[at + 1] * 0x100 + bytes[at + 2] * 0x1_0000 + bytes[at + 3] * 0x100_0000) as u32
}

/// The 64-bit number whose eight bytes stand at `at` in `bytes`, the
/// lowest first.
pub open spec fn spec_u64_le(bytes: Seq<u8>, at: int) -> u64
    recommends
        0 <= at,
        at + 8 <= bytes.len(),
{
    (spec_u32_le(bytes, at) + spec_u32_le(bytes, at + 4) * 0x1_0000_0000) as u64
}

/// Reads the 32-bit number that stands at `at`, lowest byte first.
pub fn read_u32_le(bytes: &[u8], at: usize) -> (r: u32)
    requires
        at + 4 <= bytes.len(),
    ensures
        r == spec_u32_le(bytes@, at as int),
{
    let b0: u32 = bytes[at] as u32;
    let b1: u32 = bytes[at + 1] as u32;
    let b2: u32 = bytes[at + 2] as u32;
    let b3: u32 = bytes[at + 3] as u32;
    b0 + b1 * 0x100 + b2 * 0x1_0000 + b3 * 0x100_0000
}

/// Reads the 64-bit number that stands at `at`, lowest byte first.
pub fn read_u64_le(bytes: &[u8], at: usize) -> (r: u64)
    requires
        at + 8 <= bytes.len(),
    ensures
        r == spec_u64_le(bytes@, at as int),
{
    let low: u64 = read_u32_le(bytes, at) as u64;
    let high: u64 = read_u32_le(bytes, at + 4) as u64;
    low + high * 0x1_0000_0000
}

impl EfiMemoryDescriptor {
    /// The descriptor that the firmware wrote at `offset` in `bytes`: the
    /// type in the first four bytes, then, after four bytes that mean
    /// nothing, four 64-bit fields.
    pub open spec fn spec_read(bytes: Seq<u8>, offset: int) -> EfiMemoryDescriptor
        recommends
            0 <= offset,
            offset + DESCRIPTOR_SIZE <= bytes.len(),
    {
        EfiMemoryDescriptor {
            typ: spec_u32_le(bytes, offset),
            physical_start: spec_u64_le(bytes, offset + 8),
            virtual_start: spec_u64_le(bytes, offset + 16),
            number_of_pages: spec_u64_le(bytes, offset + 24),
            attribute: spec_u64_le(bytes, offset + 32),
        }
    }

    /// Reads the descriptor that the firmware wrote at `offset`.
    pub fn read(bytes: &[u8], offset: usize) -> (r: EfiMemoryDescriptor)
        requires
            offset + DESCRIPTOR_SIZE <= bytes.len(),
        ensures
            r == Self::spec_read(bytes@, offset as int),
    {
        EfiMemoryDescriptor {
            typ: read_u32_le(bytes, offset),
            physical_start: read_u64_le(bytes, offset + 8),
            virtual_start: read_u64_le(bytes, offset + 16),
            number_of_pages: read_u64_le(bytes, offset + 24),
            attribute: read_u64_le(bytes, offset + 32),
        }
    }

    /// Whether the firmware defines the descriptor's type code.
    pub open spec fn spec_has_known_type(&self) -> bool {
        self.typ <= MAX_MEMORY_TYPE
    }

    /// The bytes of the region that are free for general use once the
    /// boot services have been exited: all of them or none.
    pub open spec fn spec_usable_bytes(&self) -> nat {
        if EfiMemoryType::spec_from(self.typ).spec_available() {
            (self.number_of_pages * EFI_PAGE_SIZE) as nat
        } else {
            0
        }
    }
}

/// The holder of the system table: empty, or holding the one table that
/// was registered. Whoever owns the registry passes it on by reference;
/// there is no other way to the table.
#[derive(Debug)]
pub struct SystemTableRegistry {
    table: Option<EfiSystemTable>,
}

impl View for SystemTableRegistry {
    type V = Option<EfiSystemTable>;

    /// The table that is registered, if one is.
    closed spec fn view(&self) -> Option<EfiSystemTable> {
        self.table
    }
}

impl SystemTableRegistry {
    /// A registry that holds no table.
    pub fn new() -> (r: SystemTableRegistry)
        ensures
            r@ is None,
    {
        SystemTableRegistry { table: None }
    }
}

/// Saves the system table upon entry of the kernel. A registry takes one
/// table only: a second registration is refused and changes nothing.
/// Whoever registers holds the registry alone for the length of the call,
/// so of several callers exactly one is the first.
pub fn register_system_table(
    registry: &mut SystemTableRegistry,
    system_table: EfiSystemTable,
) -> (r: Result<(), Error>)
    ensures
        (final(registry)@, r) == spec_register(old(registry)@, system_table),
{
    if registry.table.is_some() {
        return Err(Error::CouldntRegisterSystemTable);
    }
    registry.table = Some(system_table);
    Ok(())
}

/// Hands out the registered system table, or refuses where none is
/// registered: before the first registration and after a destruction.
pub fn load_system_table(registry: &SystemTableRegistry) -> (r: Result<&EfiSystemTable, Error>)
    ensures
        r is Ok <==> registry@ is Some,
        r is Ok ==> spec_load(registry@) == Ok::<EfiSystemTable, Error>(*r->Ok_0),
        r is Err ==> spec_load(registry@) == Err::<EfiSystemTable, Error>(r->Err_0),
{
    match &registry.table {
        Some(table) => Ok(table),
        None => Err(Error::CouldntAccessSystemTable),
    }
}

/// Empties the registry, whatever it held.
pub fn destroy_system_table(registry: &mut SystemTableRegistry)
    ensures
        final(registry)@ == spec_destroy(old(registry)@),
{
    registry.table = None;
}

/// Judges what the firmware answered to the call that ends its boot
/// services: success for a status of zero, and otherwise the error that
/// carries the status.
pub fn exit_boot_service_int(status: EfiStatus) -> (r: Result<(), Error>)
    ensures
        status.0 == 0 ==> r is Ok,
        status.0 != 0 ==> r == Err::<(), Error>(Error::CouldntExitBootService(status)),
{
    if status.0 != 0 {
        return Err(Error::CouldntExitBootService(status));
    }
    Ok(())
}

/// What registering `table` makes of a registry that holds `slot`, and
/// what it answers.
pub open spec fn spec_register(slot: Option<EfiSystemTable>, table: EfiSystemTable) -> (
    Option<EfiSystemTable>,
    Result<(), Error>,
) {
    if slot is None {
        (Some(table), Ok(()))
    } else {
        (slot, Err(Error::CouldntRegisterSystemTable))
    }
}

/// What loading answers on a registry that holds `slot`.
pub open spec fn spec_load(slot: Option<EfiSystemTable>) -> Result<EfiSystemTable, Error> {
    match slot {
        Some(table) => Ok(table),
        None => Err(Error::CouldntAccessSystemTable),
    }
}

/// What destroying makes of a registry that holds `slot`.
pub open spec fn spec_destroy(slot: Option<EfiSystemTable>) -> Option<EfiSystemTable> {
    None
}

/// A registry that is empty takes the first table that is offered and
/// refuses a second one, which leaves the first in place; once destroyed
/// it takes a table again.
pub proof fn lemma_register_once(first: EfiSystemTable, second: EfiSystemTable)
    ensures
        spec_register(None, first) == (Some(first), Ok::<(), Error>(())),
        spec_register(Some(first), second) == (
            Some(first),
            Err::<(), Error>(Error::CouldntRegisterSystemTable),
        ),
        spec_register(spec_destroy(Some(first)), second) == (Some(second), Ok::<(), Error>(())),
{
}

/// Whatever a registry held, once it is destroyed there is no table to
/// load from it.
pub proof fn lemma_load_after_destroy(slot: Option<EfiSystemTable>)
    ensures
        spec_load(spec_destroy(slot)) == Err::<EfiSystemTable, Error>(
            Error::CouldntAccessSystemTable,
        ),
{
}

} // verus!
