use vstd::prelude::*;

verus! {

/// ROM bank 0.
pub const BANK_0_START: usize = 0x0000;
pub const BANK_0_END: usize = 0x3FFF;
pub const BANK_0_SIZE: usize = BANK_0_END - BANK_0_START + 1;

/// Switchable ROM bank.
pub const BANK_N_START: usize = 0x4000;
pub const BANK_N_END: usize = 0x7FFF;
pub const BANK_N_SIZE: usize = BANK_N_END - BANK_N_START + 1;

/// Video RAM.
pub const VRAM_START: usize = 0x8000;
pub const VRAM_END: usize = 0x9FFF;
pub const VRAM_SIZE: usize = VRAM_END - VRAM_START + 1;

/// Cartridge RAM.
pub const EXTERNAL_RAM_START: usize = 0xA000;
pub const EXTERNAL_RAM_END: usize = 0xBFFF;
pub const EXTERNAL_RAM_SIZE: usize = EXTERNAL_RAM_END - EXTERNAL_RAM_START + 1;

/// Work RAM, first bank.
pub const WRAM_1_START: usize = 0xC000;
pub const WRAM_1_END: usize = 0xCFFF;
pub const WRAM_1_SIZE: usize = WRAM_1_END - WRAM_1_START + 1;

/// Work RAM, second bank.
pub const WRAM_2_START: usize = 0xD000;
pub const WRAM_2_END: usize = 0xDFFF;
pub const WRAM_2_SIZE: usize = WRAM_2_END - WRAM_2_START + 1;

/// Mirror of work RAM.
pub const ECHO_RAM_START: usize = 0xE000;
pub const ECHO_RAM_END: usize = 0xFDFF;
pub const ECHO_RAM_SIZE: usize = ECHO_RAM_END - ECHO_RAM_START + 1;

/// Object attribute memory.
pub const OAM_START: usize = 0xFE00;
pub const OAM_END: usize = 0xFE9F;
pub const OAM_SIZE: usize = OAM_END - OAM_START + 1;

/// Unusable region.
pub const UNUSABLE_START: usize = 0xFEA0;
pub const UNUSABLE_END: usize = 0xFEFF;
pub const UNUSABLE_SIZE: usize = UNUSABLE_END - UNUSABLE_START + 1;

/// I/O registers.
pub const IO_REGISTERS_START: usize = 0xFF00;
pub const IO_REGISTERS_END: usize = 0xFF7F;
pub const IO_REGISTERS_SIZE: usize = IO_REGISTERS_END - IO_REGISTERS_START + 1;

/// High RAM.
pub const HRAM_START: usize = 0xFF80;
pub const HRAM_END: usize = 0xFFEE;
pub const HRAM_SIZE: usize = HRAM_END - HRAM_START + 1;

/// The interrupt-enable register, the one address above the byte array.
pub const INTERRUPT_ENABLE: usize = 0xFFFF;

/// The largest cartridge image that the ROM banks hold.
pub const ROM_SIZE: usize = BANK_0_SIZE + BANK_N_SIZE;

/// Pending interrupts, one flag per source.
#[derive(Clone, Copy, Debug, PartialEq, Eq, Structural)]
pub struct InterruptFlags {
    pub vblank: bool,
    pub stat: bool,
    pub timer: bool,
    pub serial: bool,
    pub joypad: bool,
}

impl InterruptFlags {
    /// No interrupt pending.
    pub open spec fn cleared() -> InterruptFlags {
        InterruptFlags { vblank: false, stat: false, timer: false, serial: false, joypad: false }
    }

    pub fn new() -> (r: InterruptFlags)
        ensures
            r == InterruptFlags::cleared(),
    {
        InterruptFlags { vblank: false, stat: false, timer: false, serial: false, joypad: false }
    }
}

/// Why a memory bus could not be built or its cartridge was rejected.
#[derive(Clone, Copy, Debug, PartialEq, Eq, Structural)]
pub enum MemoryError {
    /// The cartridge image, of the given length, does not fit in the ROM banks.
    RomTooLarge(usize),
    /// The cartridge header does not hold the reference logo.
    LogoMismatch,
}

/// The reference logo that every cartridge header carries.
pub open spec fn logo_bytes() -> Seq<u8> {
    seq![
        0xCE, 0xED, 0x66, 0x66, 0xCC, 0x0D, 0x00, 0x0B, 0x03, 0x73, 0x00, 0x83,
        0x00, 0x0C, 0x00, 0x0D, 0x00, 0x08, 0x11, 0x1F, 0x88, 0x89, 0x00, 0x0E,
        0xDC, 0xCC, 0x6E, 0xE6, 0xDD, 0xDD, 0xD9, 0x99, 0xBB, 0xBB, 0x67, 0x63,
        0x6E, 0x0E, 0xEC, 0xCC, 0xDD, 0xDC, 0x99, 0x9F, 0xBB, 0xB9, 0x33, 0x3E,
    ]
}

/// The header region `0x0104..=0x0133` of an address space.
pub open spec fn header_of(mem: Seq<u8>) -> Seq<u8> {
    mem.subrange(0x0104, 0x0134)
}

/// Every byte of the reference logo occurs somewhere in `header` (a subset check,
/// not a positional one).
pub open spec fn holds_logo(header: Seq<u8>) -> bool {
    forall|j: int| 0 <= j < logo_bytes().len() ==> header.contains(#[trigger] logo_bytes()[j])
}

/// The address space right after construction: the cartridge image at the bottom,
/// `0xFF` in every other byte of the array, and a cleared interrupt-enable register.
pub open spec fn power_on_image(rom: Seq<u8>) -> Seq<u8> {
    Seq::new(
        0x10000,
        |i: int|
            if i < rom.len() {
                rom[i]
            } else if i < INTERRUPT_ENABLE {
                0xFFu8
            } else {
                0u8
            },
    )
}

/// A cartridge whose header region `0x0104..=0x0133` holds every byte of the reference
/// logo passes the logo check once loaded; one whose header lacks any of them fails it.
pub proof fn lemma_header_round_trip(rom: Seq<u8>)
    requires
        0x0134 <= rom.len() <= ROM_SIZE,
    ensures
        holds_logo(header_of(power_on_image(rom))) == holds_logo(rom.subrange(0x0104, 0x0134)),
        (exists|j: int|
            0 <= j < logo_bytes().len() && !rom.subrange(0x0104, 0x0134).contains(
                #[trigger] logo_bytes()[j],
            )) ==> !holds_logo(header_of(power_on_image(rom))),
{
    assert(header_of(power_on_image(rom)) =~= rom.subrange(0x0104, 0x0134));
}

/// The flat address space: a byte array for `0x0000..0xFFFF` and the interrupt-enable
/// register at `0xFFFF`.
pub struct Memory {
    bus: Vec<u8>,
    interrupt_enable: u8,
    interrupt_flags: InterruptFlags,
}

impl View for Memory {
    type V = Seq<u8>;

    /// The byte at each of the `0x10000` addresses.
    closed spec fn view(&self) -> Seq<u8> {
        self.bus@.push(self.interrupt_enable)
    }
}

impl Memory {
    #[verifier::type_invariant]
    spec fn inv(self) -> bool {
        self.bus@.len() == INTERRUPT_ENABLE
    }

    /// The interrupts that are pending.
    pub closed spec fn pending_interrupts(&self) -> InterruptFlags {
        self.interrupt_flags
    }

    pub fn interrupt_flags(&self) -> (r: InterruptFlags)
        ensures
            r == self.pending_interrupts(),
    {
        self.interrupt_flags
    }

    /// Builds the address space around a cartridge image. The boot ROM is accepted and
    /// not used.
    pub fn new(boot_rom: Option<Vec<u8>>, rom: Vec<u8>) -> (r: Result<Memory, MemoryError>)
        ensures
            r is Ok <==> rom@.len() <= ROM_SIZE,
            match r {
                Ok(m) => m@ == power_on_image(rom@) && m.pending_interrupts() == InterruptFlags::cleared(),
                Err(e) => e == MemoryError::RomTooLarge(rom@.len() as usize),
            },
    {
        let rom_size = rom.len();
        if rom_size > ROM_SIZE {
            return Err(MemoryError::RomTooLarge(rom_size));
        }
        let mut bus: Vec<u8> = Vec::new();
        let mut i: usize = 0;
        while i < INTERRUPT_ENABLE
            invariant
                i <= INTERRUPT_ENABLE,
                rom_size == rom@.len() <= ROM_SIZE,
                bus@.len() == i,
                forall|k: int| 0 <= k < i ==> #[trigger] bus@[k] == power_on_image(rom@)[k],
            decreases INTERRUPT_ENABLE - i,
        {
            if i < rom_size {
                bus.push(rom[i]);
            } else {
                bus.push(0xFF);
            }
            i += 1;
        }
        let m = Memory { bus, interrupt_enable: 0, interrupt_flags: InterruptFlags::new() };
        assert(m@ =~= power_on_image(rom@));
        Ok(m)
    }

    pub fn read_byte(&self, address: u16) -> (r: u8)
        ensures
            r == self@[address as int],
    {
        proof {
            use_type_invariant(self);
        }
        if (address as usize) < self.bus.len() {
            self.bus[address as usize]
        } else {
            self.interrupt_enable
        }
    }

    /// The bytes from `start` to `end`, both included; empty when `start > end`.
    pub fn read_byte_range(&self, start: u16, end: u16) -> (r: Vec<u8>)
        ensures
            r@ == (if start <= end {
                self@.subrange(start as int, end + 1)
            } else {
                Seq::empty()
            }),
    {
        proof {
            use_type_invariant(self);
        }
        let mut result: Vec<u8> = Vec::new();
        let mut address: u32 = start as u32;
        while address <= end as u32
            invariant
                start <= address <= end + 1 || (start > end && address == start),
                self@.len() == 0x10000,
                start <= end ==> result@ == self@.subrange(start as int, address as int),
                start > end ==> result@.len() == 0,
            decreases end + 1 - address,
        {
            let byte = self.read_byte(address as u16);
            result.push(byte);
            proof {
                assert(result@ =~= self@.subrange(start as int, address + 1));
            }
            address += 1;
        }
        proof {
            if start <= end {
                assert(address == end + 1);
            } else {
                assert(result@ =~= Seq::empty());
            }
        }
        result
    }

    /// Checks that the cartridge header `0x0104..=0x0133` holds every byte of the
    /// reference logo.
    pub fn verify_logo(&self) -> (r: Result<(), MemoryError>)
        ensures
            r is Ok <==> holds_logo(header_of(self@)),
            r is Err ==> r == Err::<(), MemoryError>(MemoryError::LogoMismatch),
    {
        proof {
            use_type_invariant(self);
        }
        let header = self.read_byte_range(0x0104, 0x0133);
        let logo = self.official_logo();
        let mut j: usize = 0;
        while j < logo.len()
            invariant
                j <= logo@.len(),
                logo@ == logo_bytes(),
                header@ == header_of(self@),
                forall|k: int| 0 <= k < j ==> header@.contains(#[trigger] logo_bytes()[k]),
            decreases logo@.len() - j,
        {
            if !contains_byte(&header, logo[j]) {
                assert(!header@.contains(logo_bytes()[j as int]));
                return Err(MemoryError::LogoMismatch);
            }
            j += 1;
        }
        Ok(())
    }

    fn official_logo(&self) -> (r: Vec<u8>)
        ensures
            r@ == logo_bytes(),
    {
        let v: Vec<u8> = vec![
            0xCE, 0xED, 0x66, 0x66, 0xCC, 0x0D, 0x00, 0x0B, 0x03, 0x73, 0x00, 0x83,
            0x00, 0x0C, 0x00, 0x0D, 0x00, 0x08, 0x11, 0x1F, 0x88, 0x89, 0x00, 0x0E,
            0xDC, 0xCC, 0x6E, 0xE6, 0xDD, 0xDD, 0xD9, 0x99, 0xBB, 0xBB, 0x67, 0x63,
            0x6E, 0x0E, 0xEC, 0xCC, 0xDD, 0xDC, 0x99, 0x9F, 0xBB, 0xB9, 0x33, 0x3E,
        ];
        assert(v@ =~= logo_bytes());
        v
    }
}

/// Whether `b` occurs in `v`.
fn contains_byte(v: &Vec<u8>, b: u8) -> (r: bool)
    ensures
        r == v@.contains(b),
{
    let mut i: usize = 0;
    while i < v.len()
        invariant
            i <= v@.len(),
            forall|k: int| 0 <= k < i ==> v@[k] != b,
        decreases v@.len() - i,
    {
        if v[i] == b {
            assert(v@[i as int] == b);
            return true;
        }
        i += 1;
    }
    false
}

} // verus!
