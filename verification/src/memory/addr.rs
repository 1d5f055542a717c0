//! Virtual and physical addresses: 64-bit values with no invariant of
//! their own. Alignment is asked of an address only by the operations
//! that need it.

use super::utils::{align_down, align_up, is_power_of_two, spec_align_down, spec_align_up};
use core::cmp::Ordering;
use core::ops::{Add, Sub};
use vstd::prelude::*;
use vstd::std_specs::cmp::PartialOrdSpecImpl;
use vstd::std_specs::ops::{AddSpecImpl, SubSpecImpl};

verus! {

/// What virtual and physical addresses have in common.
pub trait Addr: Sized {
    /// The raw 64-bit value of the address.
    spec fn value(&self) -> u64;

    /// Wraps a raw 64-bit value.
    fn from_u64(addr: u64) -> (r: Self)
        ensures
            r.value() == addr,
    ;

    /// The raw 64-bit value.
    fn as_u64(&self) -> (r: u64)
        ensures
            r == self.value(),
    ;

    /// Whether the address is a multiple of `align`.
    fn is_aligned(&self, align: u64) -> (r: bool)
        requires
            align != 0,
        ensures
            r == (self.value() % align == 0),
    ;

    /// The address rounded up to the next multiple of `align`, a power
    /// of two; zero where that multiple no longer fits in 64 bits.
    fn align_up(&self, align: u64) -> (r: Self)
        requires
            is_power_of_two(align),
        ensures
            r.value() == spec_align_up(self.value(), align),
    ;

    /// The address rounded down to a multiple of `align`, a power of two.
    fn align_down(&self, align: u64) -> (r: Self)
        requires
            is_power_of_two(align),
        ensures
            r.value() == spec_align_down(self.value(), align),
    ;
}

/// A virtual address.
#[derive(Clone, Copy, Debug, PartialEq, Eq, Structural, Ord, Hash)]
pub struct VirtAddr(pub u64);

/// A physical address.
#[derive(Clone, Copy, Debug, PartialEq, Eq, Structural, Ord, Hash)]
pub struct PhysAddr(pub u64);

impl Addr for VirtAddr {
    open spec fn value(&self) -> u64 {
        self.0
    }

    fn from_u64(addr: u64) -> (r: Self) {
        VirtAddr(addr)
    }

    fn as_u64(&self) -> (r: u64) {
        self.0
    }

    fn is_aligned(&self, align: u64) -> (r: bool) {
        self.0 % align == 0
    }

    fn align_up(&self, align: u64) -> (r: Self) {
        VirtAddr(align_up(self.0, align))
    }

    fn align_down(&self, align: u64) -> (r: Self) {
        VirtAddr(align_down(self.0, align))
    }
}

impl Addr for PhysAddr {
    open spec fn value(&self) -> u64 {
        self.0
    }

    fn from_u64(addr: u64) -> (r: Self) {
        PhysAddr(addr)
    }

    fn as_u64(&self) -> (r: u64) {
        self.0
    }

    fn is_aligned(&self, align: u64) -> (r: bool) {
        self.0 % align == 0
    }

    fn align_up(&self, align: u64) -> (r: Self) {
        PhysAddr(align_up(self.0, align))
    }

    fn align_down(&self, align: u64) -> (r: Self) {
        PhysAddr(align_down(self.0, align))
    }
}

impl PartialOrd for VirtAddr {
    /// Addresses are ordered as their raw values are.
    fn partial_cmp(&self, other: &Self) -> (r: Option<Ordering>) {
        self.0.partial_cmp(&other.0)
    }
}

impl PartialOrdSpecImpl for VirtAddr {
    open spec fn obeys_partial_cmp_spec() -> bool {
        true
    }

    open spec fn partial_cmp_spec(&self, other: &Self) -> Option<Ordering> {
        if self.0 < other.0 {
            Some(Ordering::Less)
        } else if self.0 > other.0 {
            Some(Ordering::Greater)
        } else {
            Some(Ordering::Equal)
        }
    }
}

impl Add<u64> for VirtAddr {
    type Output = VirtAddr;

    /// The address `rhs` bytes further on.
    fn add(self, rhs: u64) -> (r: VirtAddr) {
        VirtAddr(self.0 + rhs)
    }
}

impl AddSpecImpl<u64> for VirtAddr {
    open spec fn obeys_add_spec() -> bool {
        true
    }

    open spec fn add_req(self, rhs: u64) -> bool {
        self.0 + rhs <= u64::MAX
    }

    open spec fn add_spec(self, rhs: u64) -> VirtAddr {
        VirtAddr((self.0 + rhs) as u64)
    }
}

impl Sub<u64> for VirtAddr {
    type Output = VirtAddr;

    /// The address `rhs` bytes before this one.
    fn sub(self, rhs: u64) -> (r: VirtAddr) {
        VirtAddr(self.0 - rhs)
    }
}

impl SubSpecImpl<u64> for VirtAddr {
    open spec fn obeys_sub_spec() -> bool {
        true
    }

    open spec fn sub_req(self, rhs: u64) -> bool {
        rhs <= self.0
    }

    open spec fn sub_spec(self, rhs: u64) -> VirtAddr {
        VirtAddr((self.0 - rhs) as u64)
    }
}

impl Sub<VirtAddr> for VirtAddr {
    type Output = u64;

    /// The distance in bytes from `rhs` up to this address.
    fn sub(self, rhs: VirtAddr) -> (r: u64) {
        self.0 - rhs.0
    }
}

impl SubSpecImpl<VirtAddr> for VirtAddr {
    open spec fn obeys_sub_spec() -> bool {
        true
    }

    open spec fn sub_req(self, rhs: VirtAddr) -> bool {
        rhs.0 <= self.0
    }

    open spec fn sub_spec(self, rhs: VirtAddr) -> u64 {
        (self.0 - rhs.0) as u64
    }
}

impl PartialOrd for PhysAddr {
    /// Addresses are ordered as their raw values are.
    fn partial_cmp(&self, other: &Self) -> (r: Option<Ordering>) {
        self.0.partial_cmp(&other.0)
    }
}

impl PartialOrdSpecImpl for PhysAddr {
    open spec fn obeys_partial_cmp_spec() -> bool {
        true
    }

    open spec fn partial_cmp_spec(&self, other: &Self) -> Option<Ordering> {
        if self.0 < other.0 {
            Some(Ordering::Less)
        } else if self.0 > other.0 {
            Some(Ordering::Greater)
        } else {
            Some(Ordering::Equal)
        }
    }
}

impl Add<u64> for PhysAddr {
    type Output = PhysAddr;

    /// The address `rhs` bytes further on.
    fn add(self, rhs: u64) -> (r: PhysAddr) {
        PhysAddr(self.0 + rhs)
    }
}

impl AddSpecImpl<u64> for PhysAddr {
    open spec fn obeys_add_spec() -> bool {
        true
    }

    open spec fn add_req(self, rhs: u64) -> bool {
        self.0 + rhs <= u64::MAX
    }

    open spec fn add_spec(self, rhs: u64) -> PhysAddr {
        PhysAddr((self.0 + rhs) as u64)
    }
}

impl Sub<u64> for PhysAddr {
    type Output = PhysAddr;

    /// The address `rhs` bytes before this one.
    fn sub(self, rhs: u64) -> (r: PhysAddr) {
        PhysAddr(self.0 - rhs)
    }
}

impl SubSpecImpl<u64> for PhysAddr {
    open spec fn obeys_sub_spec() -> bool {
        true
    }

    open spec fn sub_req(self, rhs: u64) -> bool {
        rhs <= self.0
    }

    open spec fn sub_spec(self, rhs: u64) -> PhysAddr {
        PhysAddr((self.0 - rhs) as u64)
    }
}

impl Sub<PhysAddr> for PhysAddr {
    type Output = u64;

    /// The distance in bytes from `rhs` up to this address.
    fn sub(self, rhs: PhysAddr) -> (r: u64) {
        self.0 - rhs.0
    }
}

impl SubSpecImpl<PhysAddr> for PhysAddr {
    open spec fn obeys_sub_spec() -> bool {
        true
    }

    open spec fn sub_req(self, rhs: PhysAddr) -> bool {
        rhs.0 <= self.0
    }

    open spec fn sub_spec(self, rhs: PhysAddr) -> u64 {
        (self.0 - rhs.0) as u64
    }
}

} // verus!
