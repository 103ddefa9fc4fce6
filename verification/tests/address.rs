use cmos_core::memory::address::Address;
use cmos_core::memory::address::ZeroPageAddress;

#[test]
fn test_from_bytes() {
    let address = Address::from_bytes(0xca, 0xbb);
    assert_eq!(address.0, 0xbbca)
}

#[test]
fn test_add() {
    let address = Address(0x1000).add(0x0001);
    assert_eq!(address.0, 0x1001)
}

#[test]
fn test_add_page_check() {
    let (address, crossed) = Address(0x00ff).add_check_page_cross(0x0001);
    assert_eq!(address.0, 0x0100);
    assert_eq!(crossed, true);

    let (address, crossed) = Address(0x01fa).add_check_page_cross(0x0001);
    assert_eq!(address.0, 0x01fb);
    assert_eq!(crossed, false);
}

#[test]
fn test_add_wraps_around() {
    let address = Address(0xffff).add(0x01);
    assert_eq!(address.0, 0x0000);

    let (address, crossed) = Address(0xffff).add_check_page_cross(0x02);
    assert_eq!(address.0, 0x0001);
    assert_eq!(crossed, true);
}

#[test]
fn test_zero_page_wrapping_add_stays_in_page_zero() {
    let zp = ZeroPageAddress(0xff).wrapping_add(0x02);
    assert_eq!(zp.0, 0x01);
    assert_eq!(zp.upgrade().0, 0x0001);
}
