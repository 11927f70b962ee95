use gameboy_core::memory::{InterruptFlags, ROM_SIZE};
use gameboy_core::{Memory, MemoryError, CPU};

const LOGO: [u8; 48] = [
    0xCE, 0xED, 0x66, 0x66, 0xCC, 0x0D, 0x00, 0x0B, 0x03, 0x73, 0x00, 0x83, 0x00, 0x0C, 0x00,
    0x0D, 0x00, 0x08, 0x11, 0x1F, 0x88, 0x89, 0x00, 0x0E, 0xDC, 0xCC, 0x6E, 0xE6, 0xDD, 0xDD,
    0xD9, 0x99, 0xBB, 0xBB, 0x67, 0x63, 0x6E, 0x0E, 0xEC, 0xCC, 0xDD, 0xDC, 0x99, 0x9F, 0xBB,
    0xB9, 0x33, 0x3E,
];

fn rom_with_logo() -> Vec<u8> {
    let mut rom = vec![0; ROM_SIZE];
    rom[0x0104..0x0134].copy_from_slice(&LOGO);
    rom
}

#[test]
fn rom_of_exact_size_is_accepted() {
    assert!(Memory::new(None, vec![0; 0x8000]).is_ok());
    assert!(CPU::new(None, vec![0; 0x8000]).is_ok());
}

#[test]
fn rom_one_byte_too_long_is_refused() {
    assert_eq!(Memory::new(None, vec![0; 0x8001]).err(), Some(MemoryError::RomTooLarge(0x8001)));
    assert!(matches!(CPU::new(None, vec![0; 0x8001]), Err(MemoryError::RomTooLarge(0x8001))));
}

#[test]
fn construction_fills_unmapped_bytes() {
    let m = Memory::new(Some(vec![1, 2, 3]), vec![0x11, 0x22, 0x33]).unwrap();
    assert_eq!(m.read_byte(0x0000), 0x11);
    assert_eq!(m.read_byte(0x0002), 0x33);
    assert_eq!(m.read_byte(0x0003), 0xFF);
    assert_eq!(m.read_byte(0xC000), 0xFF);
    assert_eq!(m.read_byte(0xFFFE), 0xFF);
    assert_eq!(m.read_byte(0xFFFF), 0x00);
    assert_eq!(m.interrupt_flags(), InterruptFlags::new());
}

#[test]
fn byte_range_is_inclusive() {
    let m = Memory::new(None, vec![10, 11, 12, 13, 14]).unwrap();
    assert_eq!(m.read_byte_range(1, 3), vec![11, 12, 13]);
    assert_eq!(m.read_byte_range(4, 4), vec![14]);
    assert_eq!(m.read_byte_range(4, 5), vec![14, 0xFF]);
    assert_eq!(m.read_byte_range(3, 1), Vec::<u8>::new());
    assert_eq!(m.read_byte_range(0xFFFE, 0xFFFF), vec![0xFF, 0x00]);
}

#[test]
fn header_with_logo_passes() {
    let m = Memory::new(None, rom_with_logo()).unwrap();
    assert_eq!(m.verify_logo(), Ok(()));
}

#[test]
fn header_with_reordered_logo_passes() {
    let mut rom = vec![0; ROM_SIZE];
    let mut reversed = LOGO;
    reversed.reverse();
    rom[0x0104..0x0134].copy_from_slice(&reversed);
    let m = Memory::new(None, rom).unwrap();
    assert_eq!(m.verify_logo(), Ok(()));
}

#[test]
fn header_missing_one_logo_byte_fails() {
    let mut rom = rom_with_logo();
    // 0xCE occurs once in the logo.
    rom[0x0104] = 0x00;
    let m = Memory::new(None, rom).unwrap();
    assert_eq!(m.verify_logo(), Err(MemoryError::LogoMismatch));
}

#[test]
fn blank_header_fails() {
    let m = Memory::new(None, vec![0; ROM_SIZE]).unwrap();
    assert_eq!(m.verify_logo(), Err(MemoryError::LogoMismatch));
    let m = Memory::new(None, Vec::new()).unwrap();
    assert_eq!(m.verify_logo(), Err(MemoryError::LogoMismatch));
}
