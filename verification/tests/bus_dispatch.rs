//! The bus: alignment checking, range dispatch, boot-ROM word assembly, and
//! the write rules of the configuration registers.
use psemu_core::bus::AddressRange;
use psemu_core::bus::BIOS_SIZE;
use psemu_core::bus::Interconnect;
use psemu_core::errors::PsemuCoreError;

fn bus_with_rom(patch: &[(usize, u8)]) -> Interconnect {
    let mut rom = vec![0u8; BIOS_SIZE as usize];
    for &(i, b) in patch {
        rom[i] = b;
    }
    Interconnect::new(rom)
}

#[test]
fn address_range_is_half_open() {
    let r = AddressRange { starting_addr: 0x100, last_addr: 0x110 };
    assert!(r.contains(0x100));
    assert!(r.contains(0x10C));
    assert!(!r.contains(0x110));
    assert!(!r.contains(0xFC));
}

#[test]
fn unaligned_load_faults() {
    let bus = bus_with_rom(&[]);
    assert_eq!(bus.load32(0x00000001), Err(PsemuCoreError::UnalignedAddress(0x00000001)));
    assert_eq!(bus.load32(0xbfc00002), Err(PsemuCoreError::UnalignedAddress(0xbfc00002)));
    assert_eq!(bus.load32(0xbfc00003), Err(PsemuCoreError::UnalignedAddress(0xbfc00003)));
}

#[test]
fn unaligned_store_faults() {
    let mut bus = bus_with_rom(&[]);
    assert_eq!(bus.store32(0x00000001, 0), Err(PsemuCoreError::UnalignedAddress(0x00000001)));
    assert_eq!(bus.store32(0x1f801002, 0), Err(PsemuCoreError::UnalignedAddress(0x1f801002)));
}

#[test]
fn unmapped_load_faults() {
    let bus = bus_with_rom(&[]);
    assert_eq!(bus.load32(0x00000010), Err(PsemuCoreError::UnmappedAddress(0x00000010)));
    // One word past the end of the boot ROM.
    assert_eq!(bus.load32(0xbfc80000), Err(PsemuCoreError::UnmappedAddress(0xbfc80000)));
}

#[test]
fn rom_word_assembly_is_little_endian() {
    // The byte at the lowest address is the least significant.
    let bus = bus_with_rom(&[(0, 0x78), (1, 0x56), (2, 0x34), (3, 0x12)]);
    assert_eq!(bus.load32(0xbfc00000), Ok(0x12345678));
}

#[test]
fn rom_word_round_trip_at_offset() {
    let bus = bus_with_rom(&[(0x1000, 0xEF), (0x1001, 0xBE), (0x1002, 0xAD), (0x1003, 0xDE)]);
    let w = bus.load32(0xbfc01000).unwrap();
    assert_eq!(w, 0xDEADBEEF);
    assert_eq!((w & 0xFF) as u8, 0xEF);
    assert_eq!(((w >> 8) & 0xFF) as u8, 0xBE);
    assert_eq!(((w >> 16) & 0xFF) as u8, 0xAD);
    assert_eq!(((w >> 24) & 0xFF) as u8, 0xDE);
}

#[test]
fn rom_last_word_is_readable() {
    let last = (BIOS_SIZE - 4) as usize;
    let bus = bus_with_rom(&[(last, 0x01), (last + 3, 0x02)]);
    assert_eq!(bus.load32(0xbfc00000 + BIOS_SIZE - 4), Ok(0x02000001));
}

#[test]
fn expansion_base_registers_validate_writes() {
    let mut bus = bus_with_rom(&[]);
    // Each expansion base register accepts only its hardcoded value.
    assert_eq!(bus.store32(0x1f801000, 0x1f000000), Ok(()));
    assert_eq!(
        bus.store32(0x1f801000, 0x12345678),
        Err(PsemuCoreError::InvalidConfigurationWrite(0x1f801000, 0x12345678))
    );
    assert_eq!(bus.store32(0x1f801004, 0x1f802000), Ok(()));
    assert_eq!(
        bus.store32(0x1f801004, 0),
        Err(PsemuCoreError::InvalidConfigurationWrite(0x1f801004, 0))
    );
}

#[test]
fn other_mem_control_writes_are_acknowledged() {
    let mut bus = bus_with_rom(&[]);
    assert_eq!(bus.store32(0x1f801008, 0xDEADBEEF), Ok(()));
    assert_eq!(bus.store32(0x1f801020, 0), Ok(()));
}

#[test]
fn ram_size_and_cache_control_accept_any_write() {
    let mut bus = bus_with_rom(&[]);
    assert_eq!(bus.store32(0x1f801060, 0x00000B88), Ok(()));
    assert_eq!(bus.store32(0x1f801060, 0xFFFFFFFF), Ok(()));
    assert_eq!(bus.store32(0xfffe0130, 0x0001e988), Ok(()));
}

#[test]
fn unmapped_store_faults() {
    let mut bus = bus_with_rom(&[]);
    assert_eq!(bus.store32(0x00000010, 1), Err(PsemuCoreError::UnmappedAddress(0x00000010)));
    // The boot ROM is read-only: a store there falls outside every writable
    // region.
    assert_eq!(bus.store32(0xbfc00000, 1), Err(PsemuCoreError::UnmappedAddress(0xbfc00000)));
}
