//! Cartridge images and the mapper that each one asks for.
//!
//! A cartridge image starts with a 16-byte header: the four magic bytes
//! `N`, `E`, `S`, `0x1A`, the number of 16 KiB program banks, the number of
//! 8 KiB character banks, and two flag bytes. An optional 512-byte trainer
//! follows, then the program banks, then the character banks.

use crate::mapper::board::Board;
use vstd::prelude::*;

pub mod board;
pub mod cnrom;
pub mod nrom;
pub mod sxrom;
pub mod txrom;
pub mod uxrom;

verus! {

/// Bytes in the header of a cartridge image.
pub const HEADER_LEN: usize = 16;

/// Bytes in a trainer, where the header announces one.
pub const TRAINER_LEN: usize = 512;

/// Bytes in one bank of program ROM.
pub const PRG_BANK_LEN: usize = 16384;

/// Bytes in one bank of character ROM.
pub const CHR_BANK_LEN: usize = 8192;

/// Bytes of character RAM that a cartridge without character ROM gets.
pub const CHR_RAM_LEN: usize = 8192;

/// How the two physical nametables are laid out over the four logical ones.
#[derive(Debug, Copy, Clone, PartialEq, Eq, Structural)]
pub enum Mirroring {
    Horizontal,
    Vertical,
    SingleScreen0,
    SingleScreen1,
    FourScreen,
}

/// The mapper circuits that are supported, by their customary names.
#[derive(Debug, Copy, Clone, PartialEq, Eq, Structural)]
pub enum MapperKind {
    Nrom,
    Sxrom,
    Uxrom,
    Cnrom,
    Txrom,
}

/// Why a cartridge image was refused.
#[derive(Debug, Copy, Clone, PartialEq, Eq, Structural)]
pub enum RomError {
    /// The image does not start with the magic bytes.
    InvalidHeader,
    /// The image ends before the header, trainer and banks it announces.
    Truncated,
    /// The header names a mapper that is not supported.
    UnsupportedMapper(u8),
}

/// The operations that every mapper offers to the rest of the console.
pub trait Mapper {
    /// Reads a byte from the cartridge's part of an address space.
    fn read(&mut self, addr: u16) -> u8;

    /// Writes a byte, which may change the mapper's bank registers.
    fn write(&mut self, addr: u16, val: u8);

    /// Whether the mapper is asserting its interrupt line.
    fn irq_pending(&self) -> bool;

    /// The nametable layout currently selected.
    fn mirroring(&self) -> Mirroring;

    /// Advances the mapper by one dot of the picture unit.
    fn step(&mut self, dot: u16, scanline: i16, a12_rising: bool);

    /// The cartridge behind the mapper.
    fn cart(&self) -> &Cartridge;

    /// The cartridge behind the mapper, for writing to its RAM.
    fn cart_mut(&mut self) -> &mut Cartridge;
}

/// What the header of a cartridge image says.
#[derive(Debug, Copy, Clone, PartialEq, Eq, Structural)]
pub struct Header {
    /// Number of 16 KiB banks of program ROM.
    pub prg_banks: u8,
    /// Number of 8 KiB banks of character ROM.
    pub chr_banks: u8,
    pub mapper_num: u8,
    pub mirroring: Mirroring,
    pub battery: bool,
    pub trainer: bool,
}

/// A parsed cartridge image.
#[derive(Debug, Clone)]
pub struct Cartridge {
    header: Header,
    prg_rom: Vec<u8>,
    chr_rom: Vec<u8>,
    chr_ram: Vec<u8>,
}

/// Whether `bytes` starts with the four magic bytes.
pub open spec fn spec_has_magic(bytes: Seq<u8>) -> bool {
    &&& bytes.len() >= 4
    &&& bytes[0] == 0x4Eu8
    &&& bytes[1] == 0x45u8
    &&& bytes[2] == 0x53u8
    &&& bytes[3] == 0x1Au8
}

/// The mapper number: its high nibble from the seventh byte, its low nibble
/// from the high nibble of the sixth.
pub open spec fn spec_mapper_num(flags6: u8, flags7: u8) -> u8 {
    (flags7 & 0xF0u8) | (flags6 >> 4u8)
}

/// Four-screen wins over the horizontal/vertical bit.
pub open spec fn spec_mirroring(flags6: u8) -> Mirroring {
    if flags6 & 0x08u8 != 0 {
        Mirroring::FourScreen
    } else if flags6 & 0x01u8 != 0 {
        Mirroring::Vertical
    } else {
        Mirroring::Horizontal
    }
}

/// The header that the first 16 bytes of `bytes` encode.
pub open spec fn spec_header(bytes: Seq<u8>) -> Header
    recommends
        bytes.len() >= HEADER_LEN,
{
    Header {
        prg_banks: bytes[4],
        chr_banks: bytes[5],
        mapper_num: spec_mapper_num(bytes[6], bytes[7]),
        mirroring: spec_mirroring(bytes[6]),
        battery: bytes[6] & 0x02u8 != 0,
        trainer: bytes[6] & 0x04u8 != 0,
    }
}

/// Where program ROM starts in an image with header `h`.
pub open spec fn spec_prg_start(h: Header) -> int {
    if h.trainer {
        HEADER_LEN + TRAINER_LEN
    } else {
        HEADER_LEN as int
    }
}

/// Where character ROM starts in an image with header `h`.
pub open spec fn spec_chr_start(h: Header) -> int {
    spec_prg_start(h) + h.prg_banks * PRG_BANK_LEN
}

/// The length of an image with header `h` and nothing after its banks.
pub open spec fn spec_image_len(h: Header) -> int {
    spec_chr_start(h) + h.chr_banks * CHR_BANK_LEN
}

/// The reason for which `bytes` is refused as a cartridge image, if any.
pub open spec fn spec_parse_error(bytes: Seq<u8>) -> Option<RomError> {
    if !spec_has_magic(bytes) {
        Some(RomError::InvalidHeader)
    } else if bytes.len() < HEADER_LEN || bytes.len() < spec_image_len(spec_header(bytes)) {
        Some(RomError::Truncated)
    } else {
        None
    }
}

/// The mapper with the given number, if it is supported.
pub open spec fn spec_mapper_kind(mapper_num: u8) -> Option<MapperKind> {
    if mapper_num == 0 {
        Some(MapperKind::Nrom)
    } else if mapper_num == 1 {
        Some(MapperKind::Sxrom)
    } else if mapper_num == 2 {
        Some(MapperKind::Uxrom)
    } else if mapper_num == 3 {
        Some(MapperKind::Cnrom)
    } else if mapper_num == 4 {
        Some(MapperKind::Txrom)
    } else {
        None
    }
}

/// The reason for which `bytes` cannot be loaded, if any: a refused image,
/// or else a mapper that is not supported.
pub open spec fn spec_load_error(bytes: Seq<u8>) -> Option<RomError> {
    if spec_parse_error(bytes) is Some {
        spec_parse_error(bytes)
    } else if spec_mapper_kind(spec_header(bytes).mapper_num) is None {
        Some(RomError::UnsupportedMapper(spec_header(bytes).mapper_num))
    } else {
        None
    }
}

/// Character RAM as a cartridge first has it: all zero.
pub open spec fn spec_blank_chr_ram() -> Seq<u8> {
    Seq::new(CHR_RAM_LEN as nat, |i: int| 0u8)
}

impl Cartridge {
    pub closed spec fn spec_header(&self) -> Header {
        self.header
    }

    pub closed spec fn spec_prg_rom(&self) -> Seq<u8> {
        self.prg_rom@
    }

    pub closed spec fn spec_chr_rom(&self) -> Seq<u8> {
        self.chr_rom@
    }

    pub closed spec fn spec_chr_ram(&self) -> Seq<u8> {
        self.chr_ram@
    }

    /// The ROMs have the sizes that the header gives, whole banks each, and
    /// character RAM is there exactly when character ROM is not.
    pub open spec fn wf(&self) -> bool {
        &&& self.spec_prg_rom().len() == self.spec_header().prg_banks * PRG_BANK_LEN
        &&& self.spec_chr_rom().len() == self.spec_header().chr_banks * CHR_BANK_LEN
        &&& self.spec_prg_rom().len() % (PRG_BANK_LEN as nat) == 0
        &&& self.spec_chr_rom().len() % (CHR_BANK_LEN as nat) == 0
        &&& self.spec_chr_ram().len() == if self.spec_header().chr_banks == 0 {
            CHR_RAM_LEN as nat
        } else {
            0nat
        }
    }

    /// Whether this is the cartridge that the image `bytes` holds: its
    /// header, its banks cut out of the image behind header and trainer,
    /// and blank character RAM where the image has no character ROM.
    pub open spec fn is_image_of(&self, bytes: Seq<u8>) -> bool {
        let h = spec_header(bytes);
        &&& self.spec_header() == h
        &&& self.spec_prg_rom() == bytes.subrange(spec_prg_start(h), spec_chr_start(h))
        &&& self.spec_chr_rom() == bytes.subrange(spec_chr_start(h), spec_image_len(h))
        &&& self.spec_chr_ram() == if h.chr_banks == 0 {
            spec_blank_chr_ram()
        } else {
            Seq::<u8>::empty()
        }
    }

    /// Parses a cartridge image. A trainer is skipped; bytes after the last
    /// bank are ignored.
    pub fn from_bytes(bytes: &[u8]) -> (r: Result<Cartridge, RomError>)
        ensures
            match spec_parse_error(bytes@) {
                Some(e) => r == Err::<Cartridge, RomError>(e),
                None => r is Ok && r->Ok_0.is_image_of(bytes@) && r->Ok_0.wf(),
            },
    {
        if bytes.len() < 4 || bytes[0] != 0x4E || bytes[1] != 0x45 || bytes[2] != 0x53
            || bytes[3] != 0x1A {
            return Err(RomError::InvalidHeader);
        }
        if bytes.len() < HEADER_LEN {
            return Err(RomError::Truncated);
        }
        let header = parse_header(bytes);
        let prg_start: usize = if header.trainer {
            HEADER_LEN + TRAINER_LEN
        } else {
            HEADER_LEN
        };
        let prg_len: usize = header.prg_banks as usize * PRG_BANK_LEN;
        let chr_len: usize = header.chr_banks as usize * CHR_BANK_LEN;
        let chr_start: usize = prg_start + prg_len;
        if bytes.len() < chr_start + chr_len {
            return Err(RomError::Truncated);
        }
        let prg_rom = copy_range(bytes, prg_start, chr_start);
        let chr_rom = copy_range(bytes, chr_start, chr_start + chr_len);
        let chr_ram = if header.chr_banks == 0 {
            zeroed(CHR_RAM_LEN)
        } else {
            Vec::new()
        };
        proof {
            assert(chr_ram@ =~= if header.chr_banks == 0 {
                spec_blank_chr_ram()
            } else {
                Seq::<u8>::empty()
            });
            lemma_whole_banks(header.prg_banks as nat, PRG_BANK_LEN as nat);
            lemma_whole_banks(header.chr_banks as nat, CHR_BANK_LEN as nat);
        }
        Ok(Cartridge { header, prg_rom, chr_rom, chr_ram })
    }

    /// The character memory that the picture unit sees: the ROM, or the
    /// RAM where there is no ROM.
    pub open spec fn spec_chr(&self) -> Seq<u8> {
        if self.spec_chr_rom().len() > 0 {
            self.spec_chr_rom()
        } else {
            self.spec_chr_ram()
        }
    }

    /// Whether `after` is this cartridge with `ram` for its character RAM:
    /// the header and the ROMs are the same.
    pub open spec fn spec_with_chr_ram(&self, ram: Seq<u8>, after: Cartridge) -> bool {
        &&& after.spec_header() == self.spec_header()
        &&& after.spec_prg_rom() == self.spec_prg_rom()
        &&& after.spec_chr_rom() == self.spec_chr_rom()
        &&& after.spec_chr_ram() == ram
    }

    /// Replaces character RAM by `ram`, of the same size.
    pub fn set_chr_ram(&mut self, ram: Vec<u8>)
        requires
            ram@.len() == old(self).spec_chr_ram().len(),
        ensures
            old(self).spec_with_chr_ram(ram@, *final(self)),
            old(self).wf() ==> final(self).wf(),
    {
        self.chr_ram = ram;
    }

    /// Writes a byte of character RAM.
    pub fn write_chr_ram(&mut self, index: usize, val: u8)
        requires
            index < old(self).spec_chr_ram().len(),
        ensures
            final(self).spec_chr_ram() == old(self).spec_chr_ram().update(index as int, val),
            final(self).spec_header() == old(self).spec_header(),
            final(self).spec_prg_rom() == old(self).spec_prg_rom(),
            final(self).spec_chr_rom() == old(self).spec_chr_rom(),
    {
        self.chr_ram.set(index, val);
    }

    pub fn header(&self) -> (h: Header)
        ensures
            h == self.spec_header(),
    {
        self.header
    }

    pub fn prg_rom(&self) -> (rom: &Vec<u8>)
        ensures
            rom@ == self.spec_prg_rom(),
    {
        &self.prg_rom
    }

    pub fn chr_rom(&self) -> (rom: &Vec<u8>)
        ensures
            rom@ == self.spec_chr_rom(),
    {
        &self.chr_rom
    }

    pub fn chr_ram(&self) -> (ram: &Vec<u8>)
        ensures
            ram@ == self.spec_chr_ram(),
    {
        &self.chr_ram
    }
}

proof fn lemma_whole_banks(n: nat, len: nat)
    requires
        len > 0,
    ensures
        (n * len) % len == 0,
{
    vstd::arithmetic::div_mod::lemma_mod_multiples_basic(n as int, len as int);
}

/// Reads the header fields out of the first 16 bytes.
fn parse_header(bytes: &[u8]) -> (h: Header)
    requires
        bytes@.len() >= HEADER_LEN,
    ensures
        h == spec_header(bytes@),
{
    let flags6: u8 = bytes[6];
    let flags7: u8 = bytes[7];
    let mirroring = if flags6 & 0x08 != 0 {
        Mirroring::FourScreen
    } else if flags6 & 0x01 != 0 {
        Mirroring::Vertical
    } else {
        Mirroring::Horizontal
    };
    Header {
        prg_banks: bytes[4],
        chr_banks: bytes[5],
        mapper_num: (flags7 & 0xF0) | (flags6 >> 4),
        mirroring,
        battery: flags6 & 0x02 != 0,
        trainer: flags6 & 0x04 != 0,
    }
}

/// Copies `bytes[start..end]`.
fn copy_range(bytes: &[u8], start: usize, end: usize) -> (out: Vec<u8>)
    requires
        start <= end <= bytes@.len(),
    ensures
        out@ == bytes@.subrange(start as int, end as int),
{
    let mut out: Vec<u8> = Vec::new();
    let mut i: usize = start;
    while i < end
        invariant
            start <= i <= end <= bytes@.len(),
            out@ == bytes@.subrange(start as int, i as int),
        decreases end - i,
    {
        out.push(bytes[i]);
        i += 1;
        assert(out@ =~= bytes@.subrange(start as int, i as int));
    }
    out
}

/// A vector of `n` zero bytes.
fn zeroed(n: usize) -> (out: Vec<u8>)
    ensures
        out@ == Seq::new(n as nat, |i: int| 0u8),
{
    let mut out: Vec<u8> = Vec::new();
    let mut i: usize = 0;
    while i < n
        invariant
            i <= n,
            out@ == Seq::new(i as nat, |j: int| 0u8),
        decreases n - i,
    {
        out.push(0);
        i += 1;
        assert(out@ =~= Seq::new(i as nat, |j: int| 0u8));
    }
    out
}

/// The mapper with the given number, if it is supported.
pub fn mapper_kind(mapper_num: u8) -> (k: Option<MapperKind>)
    ensures
        k == spec_mapper_kind(mapper_num),
{
    match mapper_num {
        0 => Some(MapperKind::Nrom),
        1 => Some(MapperKind::Sxrom),
        2 => Some(MapperKind::Uxrom),
        3 => Some(MapperKind::Cnrom),
        4 => Some(MapperKind::Txrom),
        _ => None,
    }
}

/// Parses a cartridge image and puts the cartridge on the board that its
/// header names, at power-on.
pub fn load_rom(bytes: &[u8]) -> (r: Result<Board, RomError>)
    ensures
        match spec_load_error(bytes@) {
            Some(e) => r is Err && r->Err_0 == e,
            None => {
                &&& r is Ok
                &&& Some(r->Ok_0.spec_kind()) == spec_mapper_kind(spec_header(bytes@).mapper_num)
                &&& r->Ok_0 == Board::spec_power_on(r->Ok_0.spec_kind(), r->Ok_0.spec_cart())
                &&& r->Ok_0.spec_cart().is_image_of(bytes@)
                &&& r->Ok_0.spec_cart().wf()
                &&& !r->Ok_0.spec_irq_pending()
            },
        },
{
    match Cartridge::from_bytes(bytes) {
        Err(e) => Err(e),
        Ok(cart) => match mapper_kind(cart.header().mapper_num) {
            Some(kind) => Ok(Board::power_on(kind, cart)),
            None => Err(RomError::UnsupportedMapper(cart.header().mapper_num)),
        },
    }
}

/// An image that is accepted has a supported mapper and holds every byte
/// that its header announces.
pub proof fn lemma_loaded_image_is_complete(bytes: Seq<u8>)
    requires
        spec_load_error(bytes) is None,
    ensures
        spec_has_magic(bytes),
        spec_header(bytes).mapper_num <= 4,
        bytes.len() >= spec_image_len(spec_header(bytes)),
        spec_image_len(spec_header(bytes)) >= HEADER_LEN,
{
}


/// Bytes in one nametable.
pub const NAMETABLE_LEN: u16 = 1024;

/// First address of the nametables in the picture unit's address space.
pub const NAMETABLE_START: u16 = 0x2000;

/// First address past the four logical nametables.
pub const NAMETABLE_END: u16 = 0x3000;

/// The byte of `mem` at `index`, or 0 where `mem` ends before it.
pub open spec fn spec_byte(mem: Seq<u8>, index: int) -> u8 {
    if 0 <= index < mem.len() {
        mem[index]
    } else {
        0
    }
}

pub fn byte_at(mem: &Vec<u8>, index: usize) -> (b: u8)
    ensures
        b == spec_byte(mem@, index as int),
{
    if index < mem.len() {
        mem[index]
    } else {
        0
    }
}

/// The physical nametable that logical nametable `table` (0 to 3) lies in.
///
/// Horizontal mirroring pairs the tables side by side, so the upper two
/// share one physical table and the lower two the other; vertical
/// mirroring pairs them one above the other. Four-screen keeps all four.
pub open spec fn spec_physical_table(table: int, mirroring: Mirroring) -> int {
    match mirroring {
        Mirroring::Horizontal => table / 2,
        Mirroring::Vertical => table % 2,
        Mirroring::SingleScreen0 => 0,
        Mirroring::SingleScreen1 => 1,
        Mirroring::FourScreen => table,
    }
}

/// The index into nametable memory that the nametable address `addr`
/// reaches.
pub open spec fn spec_nametable_index(addr: u16, mirroring: Mirroring) -> int
    recommends
        NAMETABLE_START <= addr < NAMETABLE_END,
{
    spec_physical_table((addr - NAMETABLE_START) / (NAMETABLE_LEN as int), mirroring)
        * NAMETABLE_LEN + (addr - NAMETABLE_START) % (NAMETABLE_LEN as int)
}

pub fn nametable_index(addr: u16, mirroring: Mirroring) -> (index: u16)
    requires
        NAMETABLE_START <= addr < NAMETABLE_END,
    ensures
        index == spec_nametable_index(addr, mirroring),
        index < 4 * NAMETABLE_LEN,
        mirroring != Mirroring::FourScreen ==> index < 2 * NAMETABLE_LEN,
{
    let offset: u16 = addr - NAMETABLE_START;
    let table: u16 = offset / NAMETABLE_LEN;
    let physical: u16 = match mirroring {
        Mirroring::Horizontal => table / 2,
        Mirroring::Vertical => table % 2,
        Mirroring::SingleScreen0 => 0,
        Mirroring::SingleScreen1 => 1,
        Mirroring::FourScreen => table,
    };
    physical * NAMETABLE_LEN + offset % NAMETABLE_LEN
}

/// Under horizontal mirroring the two upper nametables are one and the two
/// lower ones are one; under vertical mirroring the two left ones and the
/// two right ones are. The upper left and lower right never coincide.
pub proof fn lemma_mirrored_nametables_coincide(offset: u16)
    requires
        offset < NAMETABLE_LEN,
    ensures
        spec_nametable_index((0x2000 + offset) as u16, Mirroring::Horizontal)
            == spec_nametable_index((0x2400 + offset) as u16, Mirroring::Horizontal),
        spec_nametable_index((0x2800 + offset) as u16, Mirroring::Horizontal)
            == spec_nametable_index((0x2C00 + offset) as u16, Mirroring::Horizontal),
        spec_nametable_index((0x2000 + offset) as u16, Mirroring::Vertical)
            == spec_nametable_index((0x2800 + offset) as u16, Mirroring::Vertical),
        spec_nametable_index((0x2400 + offset) as u16, Mirroring::Vertical)
            == spec_nametable_index((0x2C00 + offset) as u16, Mirroring::Vertical),
        spec_nametable_index((0x2000 + offset) as u16, Mirroring::Horizontal)
            != spec_nametable_index((0x2C00 + offset) as u16, Mirroring::Horizontal),
        spec_nametable_index((0x2000 + offset) as u16, Mirroring::Vertical)
            != spec_nametable_index((0x2C00 + offset) as u16, Mirroring::Vertical),
{
}

/// Character RAM is no longer than memory can hold.
pub proof fn lemma_chr_ram_fits(cart: Cartridge)
    ensures
        cart.spec_chr_ram().len() <= usize::MAX,
{
    assert(cart.chr_ram.len() == cart.chr_ram@.len());
}

} // verus!
