use walnut_os::memory::utils::{align_down, align_up, power_of_two};
use walnut_os::{Addr, PhysAddr, VirtAddr};

#[test]
fn align_down_gives_greatest_multiple_below() {
    assert_eq!(align_down(0x1234, 0x1000), 0x1000);
    assert_eq!(align_down(0x1000, 0x1000), 0x1000);
    assert_eq!(align_down(0xfff, 0x1000), 0);
    assert_eq!(align_down(0, 0x1000), 0);
    assert_eq!(align_down(u64::MAX, 0x1000), 0xffff_ffff_ffff_f000);
    assert_eq!(align_down(12345, 1), 12345);
    assert_eq!(align_down(u64::MAX, 1 << 63), 1 << 63);
}

#[test]
fn align_up_gives_least_multiple_above() {
    assert_eq!(align_up(0x1234, 0x1000), 0x2000);
    assert_eq!(align_up(0x1000, 0x1000), 0x1000);
    assert_eq!(align_up(1, 0x1000), 0x1000);
    assert_eq!(align_up(0, 0x1000), 0);
    assert_eq!(align_up(12345, 1), 12345);
    assert_eq!(align_up(0x20_0001, 0x20_0000), 0x40_0000);
}

#[test]
fn align_up_wraps_to_zero_at_the_top() {
    assert_eq!(align_up(u64::MAX, 0x1000), 0);
    assert_eq!(align_up(0xffff_ffff_ffff_f001, 0x1000), 0);
    assert_eq!(align_up(0xffff_ffff_ffff_f000, 0x1000), 0xffff_ffff_ffff_f000);
    assert_eq!(align_up((1 << 63) + 1, 1 << 63), 0);
}

#[test]
fn alignment_bounds_hold_on_samples() {
    let addrs: [u64; 7] = [0, 1, 4095, 4096, 4097, 0xdead_beef, 0x7fff_ffff_ffff_ffff];
    let aligns: [u64; 5] = [1, 2, 4096, 0x20_0000, 0x4000_0000];
    for addr in addrs {
        for align in aligns {
            let down = align_down(addr, align);
            let up = align_up(addr, align);
            assert!(down <= addr);
            assert!(addr <= up);
            assert_eq!(down % align, 0);
            assert_eq!(up % align, 0);
            assert!(addr - down < align);
            assert!(up - addr < align);
        }
    }
}

#[test]
fn align_down_of_align_up_is_align_up() {
    let addrs: [u64; 6] = [0, 1, 4095, 4097, 0xdead_beef, u64::MAX];
    let aligns: [u64; 4] = [1, 8, 4096, 0x4000_0000];
    for addr in addrs {
        for align in aligns {
            let up = align_up(addr, align);
            assert_eq!(align_down(up, align), up);
        }
    }
}

#[test]
fn power_of_two_tells_powers_from_others() {
    assert!(power_of_two(1));
    assert!(power_of_two(2));
    assert!(power_of_two(4096));
    assert!(power_of_two(1 << 63));
    assert!(!power_of_two(0));
    assert!(!power_of_two(3));
    assert!(!power_of_two(4097));
    assert!(!power_of_two(u64::MAX));
}

#[test]
fn address_reports_its_alignment() {
    assert!(VirtAddr(0x2000).is_aligned(0x1000));
    assert!(!VirtAddr(0x2001).is_aligned(0x1000));
    assert!(VirtAddr(9).is_aligned(3));
    assert!(!VirtAddr(10).is_aligned(3));
    assert!(PhysAddr(0).is_aligned(7));
    assert!(PhysAddr(0x4000_0000).is_aligned(0x20_0000));
}

#[test]
fn address_aligns_as_its_value_does() {
    assert_eq!(VirtAddr(0x1234).align_down(0x1000), VirtAddr(0x1000));
    assert_eq!(VirtAddr(0x1234).align_up(0x1000), VirtAddr(0x2000));
    assert_eq!(PhysAddr(0x1234).align_down(0x100), PhysAddr(0x1200));
    assert_eq!(PhysAddr(0x1234).align_up(0x100), PhysAddr(0x1300));
    assert_eq!(VirtAddr::from_u64(77).as_u64(), 77);
    assert_eq!(PhysAddr::from_u64(78).as_u64(), 78);
}

#[test]
fn address_arithmetic_is_on_the_raw_value() {
    assert_eq!(VirtAddr(0x1000) + 0x234, VirtAddr(0x1234));
    assert_eq!(VirtAddr(0x1234) - 0x234, VirtAddr(0x1000));
    assert_eq!(VirtAddr(0x5000) - VirtAddr(0x1000), 0x4000);
    assert_eq!(PhysAddr(1) + 2, PhysAddr(3));
    assert_eq!(PhysAddr(3) - 2, PhysAddr(1));
    assert_eq!(PhysAddr(10) - PhysAddr(10), 0);
}

#[test]
fn addresses_are_ordered_by_value() {
    assert!(VirtAddr(1) < VirtAddr(2));
    assert!(VirtAddr(2) <= VirtAddr(2));
    assert!(VirtAddr(3) > VirtAddr(2));
    assert!(PhysAddr(0) < PhysAddr(u64::MAX));
    assert_eq!(VirtAddr(5).max(VirtAddr(9)), VirtAddr(9));
}
