//! The handoff from the firmware: the memory map and its classification,
//! the console, and the protocol that ends the boot services.
//!
//! The firmware itself is called by whoever uses this module; this module
//! decides. The handoff passes through five states, each of which is a
//! value in the caller's hands:
//!
//! * *unregistered*: the [`structures::SystemTableRegistry`] is empty, and
//!   [`query_memory_map`] refuses;
//! * *registered*: the registry holds the table, and [`query_memory_map`]
//!   names the query to make;
//! * *map queried*: [`classify_memory_map`] has taken the firmware's
//!   answer and made out an [`ExitRequest`], which holds the key of that
//!   map and the usable memory;
//! * *exited*: the firmware has agreed to the request, which
//!   [`exit_boot_services`] learns from the status it is given;
//! * *destroyed*: [`exit_boot_services`] has emptied the registry and
//!   returned the usable memory.
//!
//! Nothing is tried twice. Each refusal by the firmware ends the handoff
//! with the error that carries its status.

pub mod console;
pub mod structures;

pub use console::output_string;
pub use structures::{
    register_system_table, EfiHandle, EfiMemoryType, EfiStatus, EfiSystemTable,
};

use structures::{
    destroy_system_table, exit_boot_service_int, load_system_table, EfiMemoryDescriptor, Error,
    SystemTableRegistry, DESCRIPTOR_SIZE, EFI_PAGE_SIZE, MAX_MEMORY_TYPE,
};
use vstd::arithmetic::div_mod::lemma_fundamental_div_mod;
use vstd::prelude::*;

verus! {

/// How many descriptors a walk over `mmap_size` bytes visits when it
/// starts at offset zero and goes on by `stride` bytes while the offset
/// is below `mmap_size`.
pub open spec fn descriptor_count(mmap_size: nat, stride: nat) -> nat {
    if mmap_size == 0 || stride == 0 {
        0
    } else {
        ((mmap_size - 1) / (stride as int) + 1) as nat
    }
}

/// The descriptor that the walk visits as its `k`-th, counted from zero.
pub open spec fn descriptor_at(mmap: Seq<u8>, stride: nat, k: nat) -> EfiMemoryDescriptor {
    EfiMemoryDescriptor::spec_read(mmap, (k * stride) as int)
}

/// The bytes that the first `count` descriptors of the map report as
/// free for general use once the boot services have been exited.
pub open spec fn usable_bytes(mmap: Seq<u8>, stride: nat, count: nat) -> nat
    decreases count,
{
    if count == 0 {
        0
    } else {
        usable_bytes(mmap, stride, (count - 1) as nat) + descriptor_at(
            mmap,
            stride,
            (count - 1) as nat,
        ).spec_usable_bytes()
    }
}

/// Whether the `k`-th descriptor lies within the buffer and has a type
/// that the firmware defines.
pub open spec fn descriptor_readable(mmap: Seq<u8>, stride: nat, k: nat) -> bool {
    k * stride + DESCRIPTOR_SIZE <= mmap.len() && descriptor_at(
        mmap,
        stride,
        k,
    ).spec_has_known_type()
}

/// What a memory map must meet to be classified: the stride is not zero,
/// every descriptor that the walk visits can be read and has a known
/// type, and the usable bytes add up to a 64-bit number.
pub open spec fn memory_map_well_formed(mmap: Seq<u8>, mmap_size: nat, stride: nat) -> bool {
    &&& stride > 0
    &&& forall|k: nat|
        k < descriptor_count(mmap_size, stride) ==> #[trigger] descriptor_readable(mmap, stride, k)
    &&& usable_bytes(mmap, stride, descriptor_count(mmap_size, stride)) <= u64::MAX
}

/// The usable bytes of a map: what the classification of a well-formed
/// map returns.
pub open spec fn spec_free_memory(mmap: Seq<u8>, mmap_size: nat, stride: nat) -> nat {
    usable_bytes(mmap, stride, descriptor_count(mmap_size, stride))
}

/// The usable bytes of more descriptors are no fewer.
pub proof fn lemma_usable_bytes_grow(mmap: Seq<u8>, stride: nat, few: nat, many: nat)
    requires
        few <= many,
    ensures
        usable_bytes(mmap, stride, few) <= usable_bytes(mmap, stride, many),
    decreases many,
{
    if few < many {
        lemma_usable_bytes_grow(mmap, stride, few, (many - 1) as nat);
    }
}

/// An offset below `mmap_size` that is `k` strides from the start belongs
/// to a descriptor that the walk visits, and it is the last one where
/// the next offset is no longer below `mmap_size`.
proof fn lemma_walk(mmap_size: nat, stride: nat, k: nat)
    requires
        stride > 0,
        k * stride < mmap_size,
    ensures
        k < descriptor_count(mmap_size, stride),
        (k + 1) * stride >= mmap_size ==> k + 1 == descriptor_count(mmap_size, stride),
{
    let x = mmap_size - 1;
    let d = stride as int;
    let q = x / d;
    let r = x % d;
    lemma_fundamental_div_mod(x, d);
    assert(k < q + 1) by (nonlinear_arith)
        requires
            k * d <= d * q + r,
            0 <= r < d,
            d > 0,
    ;
    if (k + 1) * stride >= mmap_size {
        assert(k + 1 > q) by (nonlinear_arith)
            requires
                (k + 1) * d > d * q + r,
                0 <= r < d,
                d > 0,
        ;
    }
}

/// Walks the memory map in strides of `desc_size` bytes and adds up the
/// bytes of every region that is free for general use once the boot
/// services have been exited.
pub fn free_memory(mmap: &[u8], mmap_size: usize, desc_size: usize) -> (total: u64)
    requires
        memory_map_well_formed(mmap@, mmap_size as nat, desc_size as nat),
    ensures
        total == spec_free_memory(mmap@, mmap_size as nat, desc_size as nat),
{
    let ghost count = descriptor_count(mmap_size as nat, desc_size as nat);
    let ghost stride = desc_size as nat;
    let mut free_memory: u64 = 0;
    let mut offset: usize = 0;
    let mut k: Ghost<nat> = Ghost(0);
    while offset < mmap_size
        invariant
            memory_map_well_formed(mmap@, mmap_size as nat, stride),
            count == descriptor_count(mmap_size as nat, stride),
            stride == desc_size,
            k@ <= count,
            offset < mmap_size ==> offset == k@ * stride,
            offset >= mmap_size ==> k@ == count,
            free_memory == usable_bytes(mmap@, stride, k@),
        decreases count - k@,
    {
        proof {
            lemma_walk(mmap_size as nat, stride, k@);
            assert(descriptor_readable(mmap@, stride, k@));
            lemma_usable_bytes_grow(mmap@, stride, k@ + 1, count);
        }
        let entry = EfiMemoryDescriptor::read(mmap, offset);
        let typ = EfiMemoryType::from(entry.typ);
        if typ.available_post_exit_boot_services() {
            free_memory += entry.number_of_pages * EFI_PAGE_SIZE;
        }
        proof {
            assert((k@ + 1) * stride == k@ * stride + stride) by (nonlinear_arith);
            k@ = k@ + 1;
        }
        if desc_size >= mmap_size - offset {
            offset = mmap_size;
        } else {
            offset += desc_size;
        }
    }
    free_memory
}

/// Classifies a memory map of which nothing is known: the usable bytes
/// where the map is well formed, and `None` where it is not, which is
/// where `free_memory` must not be called.
pub fn checked_free_memory(mmap: &[u8], mmap_size: usize, desc_size: usize) -> (r: Option<u64>)
    ensures
        r is Some <==> memory_map_well_formed(mmap@, mmap_size as nat, desc_size as nat),
        r is Some ==> r->Some_0 == spec_free_memory(mmap@, mmap_size as nat, desc_size as nat),
{
    if desc_size == 0 {
        return None;
    }
    let ghost count = descriptor_count(mmap_size as nat, desc_size as nat);
    let ghost stride = desc_size as nat;
    let mut free_memory: u64 = 0;
    let mut offset: usize = 0;
    let mut k: Ghost<nat> = Ghost(0);
    while offset < mmap_size
        invariant
            count == descriptor_count(mmap_size as nat, stride),
            stride == desc_size,
            stride > 0,
            k@ <= count,
            offset < mmap_size ==> offset == k@ * stride,
            offset >= mmap_size ==> k@ == count,
            forall|j: nat| j < k@ ==> #[trigger] descriptor_readable(mmap@, stride, j),
            free_memory == usable_bytes(mmap@, stride, k@),
        decreases count - k@,
    {
        proof {
            lemma_walk(mmap_size as nat, stride, k@);
            lemma_usable_bytes_grow(mmap@, stride, k@ + 1, count);
        }
        if mmap.len() < DESCRIPTOR_SIZE || offset > mmap.len() - DESCRIPTOR_SIZE {
            assert(!descriptor_readable(mmap@, stride, k@));
            return None;
        }
        let entry = EfiMemoryDescriptor::read(mmap, offset);
        if entry.typ > MAX_MEMORY_TYPE {
            assert(!descriptor_readable(mmap@, stride, k@));
            return None;
        }
        let typ = EfiMemoryType::from(entry.typ);
        if typ.available_post_exit_boot_services() {
            let bytes = match entry.number_of_pages.checked_mul(EFI_PAGE_SIZE) {
                Some(bytes) => bytes,
                None => {
                    return None;
                },
            };
            free_memory = match free_memory.checked_add(bytes) {
                Some(sum) => sum,
                None => {
                    return None;
                },
            };
        }
        proof {
            assert((k@ + 1) * stride == k@ * stride + stride) by (nonlinear_arith);
            k@ = k@ + 1;
        }
        if desc_size >= mmap_size - offset {
            offset = mmap_size;
        } else {
            offset += desc_size;
        }
    }
    Some(free_memory)
}

/// The size in bytes of the buffer that the memory map is asked into.
pub const MEMORY_MAP_CAPACITY: usize = 16384;

/// The first call to make to the firmware: ask the boot services at
/// this address for the memory map, into a buffer of this capacity.
#[derive(Clone, Copy, Debug, PartialEq, Eq, Structural)]
pub struct MemoryMapQuery {
    pub boot_services: usize,
    pub capacity: usize,
}

/// What the firmware answered to the query for its memory map: the
/// status, the buffer and how much of it is filled, the key of the map,
/// and the stride and version of the descriptors.
#[derive(Debug)]
pub struct MemoryMapReply {
    pub status: EfiStatus,
    pub mmap: Vec<u8>,
    pub mmap_size: usize,
    pub map_key: u64,
    pub descriptor_size: usize,
    pub descriptor_version: u32,
}

/// The second and last call to make to the firmware: end the boot
/// services of the image with this handle, under the key of the map
/// that was classified. It holds the usable memory that the
/// classification found, to be returned once the firmware has agreed.
///
/// The key is good for one call and only as long as the map is not
/// queried again, so a request is neither copied nor made by hand: it
/// comes out of `classify_memory_map` and goes into
/// `exit_boot_services`.
#[derive(Debug, PartialEq, Eq, Structural)]
pub struct ExitRequest {
    pub boot_services: usize,
    pub image_handle: EfiHandle,
    pub map_key: u64,
    pub free_memory: u64,
}

/// What `classify_memory_map` returns for a reply.
pub open spec fn spec_classify(
    query: MemoryMapQuery,
    image_handle: EfiHandle,
    reply: MemoryMapReply,
) -> Result<ExitRequest, Error> {
    if reply.status.0 != 0 {
        Err(Error::CouldntGetMemoryMap(reply.status))
    } else {
        Ok(
            ExitRequest {
                boot_services: query.boot_services,
                image_handle,
                map_key: reply.map_key,
                free_memory: spec_free_memory(
                    reply.mmap@,
                    reply.mmap_size as nat,
                    reply.descriptor_size as nat,
                ) as u64,
            },
        )
    }
}

/// Begins the handoff: with a system table registered, says which query
/// to make for the memory map; with none, refuses.
pub fn query_memory_map(registry: &SystemTableRegistry) -> (r: Result<MemoryMapQuery, Error>)
    ensures
        registry@ is None ==> r == Err::<MemoryMapQuery, Error>(Error::CouldntAccessSystemTable),
        registry@ is Some ==> r == Ok::<MemoryMapQuery, Error>(
            MemoryMapQuery {
                boot_services: registry@->Some_0.boot_services,
                capacity: MEMORY_MAP_CAPACITY,
            },
        ),
{
    match load_system_table(registry) {
        Ok(table) => Ok(
            MemoryMapQuery { boot_services: table.boot_services, capacity: MEMORY_MAP_CAPACITY },
        ),
        Err(e) => Err(e),
    }
}

/// Takes the firmware's answer to the query. A status other than zero
/// ends the handoff with the error that carries it. Otherwise the map is
/// classified and the request to end the boot services is made out,
/// under the key that came with this very map.
pub fn classify_memory_map(
    query: MemoryMapQuery,
    image_handle: EfiHandle,
    reply: &MemoryMapReply,
) -> (r: Result<ExitRequest, Error>)
    requires
        reply.status.0 == 0 ==> memory_map_well_formed(
            reply.mmap@,
            reply.mmap_size as nat,
            reply.descriptor_size as nat,
        ),
    ensures
        r == spec_classify(query, image_handle, *reply),
{
    if reply.status.0 != 0 {
        return Err(Error::CouldntGetMemoryMap(reply.status));
    }
    let free_memory = free_memory(reply.mmap.as_slice(), reply.mmap_size, reply.descriptor_size);
    Ok(
        ExitRequest {
            boot_services: query.boot_services,
            image_handle,
            map_key: reply.map_key,
            free_memory,
        },
    )
}

/// Takes the firmware's answer to the request to end its boot services.
/// On success the system table is destroyed and the usable memory is
/// returned, in bytes. On a status other than zero the handoff ends with
/// the error that carries it, and the registry is left as it was.
pub fn exit_boot_services(
    registry: &mut SystemTableRegistry,
    request: ExitRequest,
    status: EfiStatus,
) -> (r: Result<u64, Error>)
    ensures
        status.0 == 0 ==> r == Ok::<u64, Error>(request.free_memory),
        status.0 == 0 ==> final(registry)@ is None,
        status.0 != 0 ==> r == Err::<u64, Error>(Error::CouldntExitBootService(status)),
        status.0 != 0 ==> final(registry)@ == old(registry)@,
{
    match exit_boot_service_int(status) {
        Ok(()) => {
            destroy_system_table(registry);
            Ok(request.free_memory)
        },
        Err(e) => Err(e),
    }
}

} // verus!
