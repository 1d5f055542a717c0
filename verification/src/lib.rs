//! Early boot-time memory handling for a kernel started by UEFI firmware:
//! typed addresses and pages, the registry of the firmware system table,
//! the classification of the firmware memory map, and the protocol that
//! ends the firmware's boot services.

pub mod memory;
pub mod efi;

pub use memory::addr::{Addr, PhysAddr, VirtAddr};
