//! Memory bus: the interconnect that owns the memory-mapped devices and
//! dispatches 32-bit loads and stores to the device whose address range
//! claims the address.
//!
//! Devices in the initial table: the boot ROM (read-only, little-endian word
//! assembly over an immutable byte buffer), the memory-control registers
//! (write-validated against two fixed expected base addresses), the RAM-size
//! register and the cache-control register (writes accepted and discarded by
//! design of the emulated hardware).
use vstd::prelude::*;

verus! {

use crate::errors::PsemuCoreError;

/// Base address of the boot ROM; also the program-counter reset vector.
pub const BIOS_START: u32 = 0xbfc0_0000;

/// Size of the boot ROM image in bytes.
pub const BIOS_SIZE: u32 = 512 * 1024;

/// First address past the boot ROM.
pub const BIOS_END: u32 = 0xbfc0_0000 + 512 * 1024;

/// Base address of the memory-control register block.
pub const MEM_CONTROL_START: u32 = 0x1f80_1000;

/// First address past the memory-control register block.
pub const MEM_CONTROL_END: u32 = 0x1f80_1004 + 32;

/// Base address of the RAM-size register.
pub const RAM_SIZE_START: u32 = 0x1f80_1060;

/// First address past the RAM-size register.
pub const RAM_SIZE_END: u32 = 0x1f80_1060 + 4;

/// Base address of the cache-control register.
pub const CACHE_CONTROL_START: u32 = 0xfffe_0130;

/// First address past the cache-control register.
pub const CACHE_CONTROL_END: u32 = 0xfffe_0130 + 4;

/// The single legal value of the expansion 1 base-address register
/// (memory-control offset 0).
pub const EXPANSION_1_BASE: u32 = 0x1f00_0000;

/// The single legal value of the expansion 2 base-address register
/// (memory-control offset 4).
pub const EXPANSION_2_BASE: u32 = 0x1f80_2000;

/// A half-open interval `[starting_addr, last_addr)` of the address space,
/// bound to one memory-mapped device.
#[derive(Clone, Copy, Debug, PartialEq, Eq, Structural)]
pub struct AddressRange {
    pub starting_addr: u32,
    pub last_addr: u32,
}

impl AddressRange {
    /// Half-open membership: `starting_addr <= addr < last_addr`.
    pub open spec fn spec_contains(self, addr: u32) -> bool {
        self.starting_addr <= addr && addr < self.last_addr
    }

    /// Whether this range claims `addr`.
    pub fn contains(&self, addr: u32) -> (r: bool)
        ensures
            r == self.spec_contains(addr),
    {
        self.starting_addr <= addr && addr < self.last_addr
    }
}

/// The boot-ROM range.
pub open spec fn spec_bios_range() -> AddressRange {
    AddressRange { starting_addr: BIOS_START, last_addr: BIOS_END }
}

/// The memory-control register range.
pub open spec fn spec_mem_control_range() -> AddressRange {
    AddressRange { starting_addr: MEM_CONTROL_START, last_addr: MEM_CONTROL_END }
}

/// The RAM-size register range.
pub open spec fn spec_ram_size_range() -> AddressRange {
    AddressRange { starting_addr: RAM_SIZE_START, last_addr: RAM_SIZE_END }
}

/// The cache-control register range.
pub open spec fn spec_cache_control_range() -> AddressRange {
    AddressRange { starting_addr: CACHE_CONTROL_START, last_addr: CACHE_CONTROL_END }
}

/// The boot-ROM range as a value.
pub fn bios_range() -> (r: AddressRange)
    ensures
        r == spec_bios_range(),
{
    AddressRange { starting_addr: BIOS_START, last_addr: BIOS_END }
}

/// The memory-control register range as a value.
pub fn mem_control_range() -> (r: AddressRange)
    ensures
        r == spec_mem_control_range(),
{
    AddressRange { starting_addr: MEM_CONTROL_START, last_addr: MEM_CONTROL_END }
}

/// The RAM-size register range as a value.
pub fn ram_size_range() -> (r: AddressRange)
    ensures
        r == spec_ram_size_range(),
{
    AddressRange { starting_addr: RAM_SIZE_START, last_addr: RAM_SIZE_END }
}

/// The cache-control register range as a value.
pub fn cache_control_range() -> (r: AddressRange)
    ensures
        r == spec_cache_control_range(),
{
    AddressRange { starting_addr: CACHE_CONTROL_START, last_addr: CACHE_CONTROL_END }
}

/// The boot ROM: a read-only device backed by an immutable byte buffer.
pub struct Bios {
    data: Vec<u8>,
}

impl View for Bios {
    type V = Seq<u8>;

    /// A boot ROM is modelled by its byte contents.
    closed spec fn view(&self) -> Seq<u8> {
        self.data@
    }
}

/// The 32-bit word stored at `offset`, assembled little-endian: the byte at
/// `offset` is least significant.
pub open spec fn spec_word_at(rom: Seq<u8>, offset: int) -> u32
    recommends
        0 <= offset,
        offset + 4 <= rom.len(),
{
    ((rom[offset + 3] as u32) << 24u32) | ((rom[offset + 2] as u32) << 16u32) | ((rom[offset + 1]
        as u32) << 8u32) | (rom[offset] as u32)
}

impl Bios {
    /// A boot ROM over `data`, which must be a full-sized image; a CPU cannot
    /// be constructed without firmware.
    pub fn new(data: Vec<u8>) -> (r: Bios)
        requires
            data@.len() == BIOS_SIZE,
        ensures
            r@ == data@,
    {
        Bios { data }
    }

    /// The word at `offset`, assembled little-endian (the byte at `offset` is
    /// least significant).
    pub fn load32(&self, offset: u32) -> (r: u32)
        requires
            offset + 4 <= self@.len(),
        ensures
            r == spec_word_at(self@, offset as int),
    {
        let offset = offset as usize;
        // The buffer length fits in usize, so the offsets below cannot wrap.
        let _len = self.data.len();

        let b0: u32 = self.data[offset] as u32;
        let b1: u32 = self.data[offset + 1] as u32;
        let b2: u32 = self.data[offset + 2] as u32;
        let b3: u32 = self.data[offset + 3] as u32;

        (b3 << 24u32) | (b2 << 16u32) | (b1 << 8u32) | b0
    }
}

/// What a load returns for every address: a fault on a misaligned address,
/// the boot-ROM word for an address the ROM claims, and an unmapped-address
/// fault otherwise.
pub open spec fn spec_load32(rom: Seq<u8>, addr: u32) -> Result<u32, PsemuCoreError>
    recommends
        rom.len() == BIOS_SIZE,
{
    if addr % 4 != 0 {
        Err(PsemuCoreError::UnalignedAddress(addr))
    } else if spec_bios_range().spec_contains(addr) {
        Ok(spec_word_at(rom, addr - BIOS_START))
    } else {
        Err(PsemuCoreError::UnmappedAddress(addr))
    }
}

/// What a store returns for every address and value: a fault on a misaligned
/// address; validation against the single legal value on the two expansion
/// base-address registers, acknowledgement of every other memory-control
/// write; silent acknowledgement on the RAM-size and cache-control registers;
/// and an unmapped-address fault elsewhere.  No store changes bus state.
pub open spec fn spec_store32(addr: u32, val: u32) -> Result<(), PsemuCoreError> {
    if addr % 4 != 0 {
        Err(PsemuCoreError::UnalignedAddress(addr))
    } else if spec_mem_control_range().spec_contains(addr) {
        let offset = addr - MEM_CONTROL_START;
        if offset == 0 && val != EXPANSION_1_BASE {
            Err(PsemuCoreError::InvalidConfigurationWrite(addr, val))
        } else if offset == 4 && val != EXPANSION_2_BASE {
            Err(PsemuCoreError::InvalidConfigurationWrite(addr, val))
        } else {
            Ok(())
        }
    } else if spec_ram_size_range().spec_contains(addr) {
        Ok(())
    } else if spec_cache_control_range().spec_contains(addr) {
        Ok(())
    } else {
        Err(PsemuCoreError::UnmappedAddress(addr))
    }
}

/// The interconnect: owns the device mappings and routes each access to the
/// device whose range claims the address, checked in a fixed priority order.
pub struct Interconnect {
    bios: Bios,
}

impl View for Interconnect {
    type V = Seq<u8>;

    /// The bus is modelled by its boot-ROM contents: no other device owns
    /// backing storage.
    closed spec fn view(&self) -> Seq<u8> {
        self.bios@
    }
}

impl Interconnect {
    /// Whether the bus is well formed: its boot ROM holds a full image.
    pub open spec fn wf(&self) -> bool {
        self@.len() == BIOS_SIZE
    }

    /// A bus over a boot-ROM image.
    pub fn new(bios_data: Vec<u8>) -> (r: Interconnect)
        requires
            bios_data@.len() == BIOS_SIZE,
        ensures
            r@ == bios_data@,
            r.wf(),
    {
        Interconnect { bios: Bios::new(bios_data) }
    }

    /// A 32-bit load dispatched to the claiming device, per [`spec_load32`].
    pub fn load32(&self, addr: u32) -> (r: Result<u32, PsemuCoreError>)
        requires
            self.wf(),
        ensures
            r == spec_load32(self@, addr),
    {
        // Word addresses must be aligned by 4
        if addr % 4 != 0 {
            return Err(PsemuCoreError::UnalignedAddress(addr));
        }
        if bios_range().contains(addr) {
            // The addr relative to the boot ROM's starting address
            let offset: u32 = addr - BIOS_START;
            return Ok(self.bios.load32(offset));
        }
        Err(PsemuCoreError::UnmappedAddress(addr))
    }

    /// A 32-bit store dispatched to the claiming device, per [`spec_store32`].
    /// No device in the initial table owns writable storage, so the bus is
    /// left unchanged.
    pub fn store32(&mut self, addr: u32, val: u32) -> (r: Result<(), PsemuCoreError>)
        ensures
            r == spec_store32(addr, val),
            *final(self) == *old(self),
    {
        // Word addresses must be aligned by 4
        if addr % 4 != 0 {
            return Err(PsemuCoreError::UnalignedAddress(addr));
        }
        if mem_control_range().contains(addr) {
            // The addr relative to the memory-control block's starting address
            let offset: u32 = addr - MEM_CONTROL_START;

            // These registers hold the base addresses of the expansion 1 and 2
            // register maps; neither may ever be changed from its hardcoded value.
            if offset == 0 && val != EXPANSION_1_BASE {
                return Err(PsemuCoreError::InvalidConfigurationWrite(addr, val));
            }
            if offset == 4 && val != EXPANSION_2_BASE {
                return Err(PsemuCoreError::InvalidConfigurationWrite(addr, val));
            }
            // Every other memory-control write is acknowledged and discarded.
            Ok(())
        } else if ram_size_range().contains(addr) {
            // Writes to the RAM-size register have no backing effect.
            Ok(())
        } else if cache_control_range().contains(addr) {
            // Writes to the cache-control register have no backing effect.
            Ok(())
        } else {
            Err(PsemuCoreError::UnmappedAddress(addr))
        }
    }
}

/// Any misaligned address faults with `UnalignedAddress`, on a load and on a
/// store alike.
pub proof fn lemma_unaligned_access_faults(rom: Seq<u8>, addr: u32, val: u32)
    requires
        addr % 4 != 0,
    ensures
        spec_load32(rom, addr) == Err::<u32, PsemuCoreError>(PsemuCoreError::UnalignedAddress(addr)),
        spec_store32(addr, val) == Err::<(), PsemuCoreError>(PsemuCoreError::UnalignedAddress(addr)),
{
}

/// Round trip through the boot ROM: the word loaded at `offset` carries the
/// four source bytes little-endian — the byte at `offset` is the least
/// significant byte of the word, and so on upward.
pub proof fn lemma_rom_word_little_endian(rom: Seq<u8>, offset: int)
    requires
        0 <= offset,
        offset + 4 <= rom.len(),
    ensures
        spec_word_at(rom, offset) & 0xFF == rom[offset],
        (spec_word_at(rom, offset) >> 8u32) & 0xFF == rom[offset + 1],
        (spec_word_at(rom, offset) >> 16u32) & 0xFF == rom[offset + 2],
        (spec_word_at(rom, offset) >> 24u32) & 0xFF == rom[offset + 3],
{
    let b0 = rom[offset];
    let b1 = rom[offset + 1];
    let b2 = rom[offset + 2];
    let b3 = rom[offset + 3];
    let w = spec_word_at(rom, offset);
    assert(w == ((b3 as u32) << 24u32) | ((b2 as u32) << 16u32) | ((b1 as u32) << 8u32) | (b0
        as u32));
    assert({
        let w2 = ((b3 as u32) << 24u32) | ((b2 as u32) << 16u32) | ((b1 as u32) << 8u32) | (b0
            as u32);
        w2 & 0xFF == b0 && (w2 >> 8u32) & 0xFF == b1 && (w2 >> 16u32) & 0xFF == b2 && (w2 >> 24u32)
            & 0xFF == b3
    }) by (bit_vector);
}

} // verus!

