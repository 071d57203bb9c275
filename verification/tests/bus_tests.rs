use m68k_core::bus::Bus;
use m68k_core::types::{Fault, Size};

fn mega_map() -> Bus {
    // ROM 0x000000-0x0FFFFF, RAM 0xFF0000-0xFFFFFF.
    Bus::new(vec![0u8; 0x10_0000], 0x00_0000, 0x0F_FFFF, 0xFF_0000, 0xFF_FFFF).expect("valid map")
}

#[test]
fn odd_word_and_long_accesses_raise_address_error() {
    let mut b = mega_map();
    assert_eq!(b.read(0x0001, Size::Word), Err(Fault::AddressError));
    assert_eq!(b.read(0x0001, Size::Long), Err(Fault::AddressError));
    assert_eq!(b.read(0xFF_0101, Size::Word), Err(Fault::AddressError));
    assert_eq!(b.write(0xFF_0101, Size::Word, 0), Err(Fault::AddressError));
    assert_eq!(b.write(0xFF_0101, Size::Long, 0), Err(Fault::AddressError));
    // Misalignment outranks every other fault, even on unmapped addresses.
    assert_eq!(b.read(0x20_0001, Size::Long), Err(Fault::AddressError));
}

#[test]
fn even_accesses_never_raise_address_error() {
    let mut b = mega_map();
    assert_eq!(b.read(0x0000, Size::Word), Ok(0));
    assert_eq!(b.read(0xFF_0100, Size::Long), Ok(0));
    assert!(b.write(0xFF_0100, Size::Word, 1).is_ok());
    // Other faults may still occur, but never the alignment one.
    assert_eq!(b.read(0x20_0000, Size::Word), Err(Fault::UnmappedAddress));
    assert_eq!(b.write(0x0000, Size::Word, 1), Err(Fault::WriteProtect));
    // Odd byte accesses are fine too.
    assert_eq!(b.read(0x0001, Size::Byte), Ok(0));
}

#[test]
fn mega_drive_map_routes_as_declared() {
    let mut b = mega_map();
    // A write into ROM fails with write protection.
    assert_eq!(b.write(0x00_0010, Size::Byte, 0xAA), Err(Fault::WriteProtect));
    // RAM takes the write and reads it back.
    assert_eq!(b.write(0xFF_0010, Size::Byte, 0xAA), Ok(()));
    assert_eq!(b.read(0xFF_0010, Size::Byte), Ok(0xAA));
    // The gap between the regions is unmapped.
    assert_eq!(b.read(0x20_0000, Size::Byte), Err(Fault::UnmappedAddress));
}

#[test]
fn values_are_stored_big_endian() {
    let mut b = mega_map();
    assert_eq!(b.write(0xFF_0000, Size::Long, 0x0102_0304), Ok(()));
    assert_eq!(b.read(0xFF_0000, Size::Byte), Ok(0x01));
    assert_eq!(b.read(0xFF_0001, Size::Byte), Ok(0x02));
    assert_eq!(b.read(0xFF_0002, Size::Byte), Ok(0x03));
    assert_eq!(b.read(0xFF_0003, Size::Byte), Ok(0x04));
    assert_eq!(b.read(0xFF_0000, Size::Word), Ok(0x0102));
    assert_eq!(b.read(0xFF_0002, Size::Word), Ok(0x0304));
    assert_eq!(b.read(0xFF_0000, Size::Long), Ok(0x0102_0304));
}

#[test]
fn rom_contents_are_readable_at_their_range() {
    let mut img = vec![0u8; 0x100];
    img[0x10] = 0xDE;
    img[0x11] = 0xAD;
    let b = Bus::new(img, 0x1000, 0x10FF, 0xFF_0000, 0xFF_FFFF).expect("valid map");
    assert_eq!(b.read(0x1010, Size::Word), Ok(0xDEAD));
    // Below and above the declared range is unmapped.
    assert_eq!(b.read(0x0FFE, Size::Word), Err(Fault::UnmappedAddress));
    assert_eq!(b.read(0x1100, Size::Byte), Err(Fault::UnmappedAddress));
}

#[test]
fn accesses_straddling_a_region_end_are_unmapped() {
    let b = Bus::new(vec![0u8; 0x100], 0x1000, 0x10FF, 0xFF_0000, 0xFF_FFFF).expect("valid map");
    assert_eq!(b.read(0x10FE, Size::Long), Err(Fault::UnmappedAddress));
    assert_eq!(b.read(0x10FE, Size::Word), Ok(0));
}

#[test]
fn overlapping_or_inverted_ranges_are_rejected() {
    // Overlap between ROM and RAM.
    assert!(Bus::new(vec![0u8; 0x100], 0x0000, 0x00FF, 0x0080, 0x017F).is_none());
    // Inverted ROM range.
    assert!(Bus::new(vec![0u8; 0x100], 0x0100, 0x0001, 0xFF_0000, 0xFF_FFFF).is_none());
    // ROM image length not matching the declared range.
    assert!(Bus::new(vec![0u8; 0x100], 0x0000, 0x01FF, 0xFF_0000, 0xFF_FFFF).is_none());
    // A bound outside the 24-bit space.
    assert!(Bus::new(vec![0u8; 0x100], 0x0000, 0x00FF, 0xFF_0000, 0x100_0000).is_none());
}
