//! NROM: program ROM at fixed addresses, character memory direct.

use crate::mapper::{byte_at, spec_byte, Cartridge, Mapper, Mirroring};
use vstd::prelude::*;

verus! {

/// First address of the program ROM window.
pub const PRG_START: u16 = 0x8000;

/// First address past the pattern tables.
pub const CHR_END: u16 = 0x2000;

/// The NROM board.
#[derive(Debug, Clone)]
pub struct Nrom {
    pub cart: Cartridge,
}

/// The byte that `addr` reaches on a board without bank switching.
///
/// Pattern table addresses reach character memory directly. Addresses
/// from `0x8000` reach program ROM, which repeats through the window, so
/// that 16 KiB of it appear at `0x8000` and again at `0xC000`. Every
/// other address reads as 0.
pub open spec fn spec_fixed_read(cart: Cartridge, addr: u16) -> u8 {
    if addr < CHR_END {
        spec_byte(cart.spec_chr(), addr as int)
    } else if addr >= PRG_START && cart.spec_prg_rom().len() > 0 {
        cart.spec_prg_rom()[(addr - PRG_START) % (cart.spec_prg_rom().len() as int)]
    } else {
        0
    }
}

/// The cartridge after a write to `addr` that reaches character memory:
/// character RAM takes the byte, character ROM does not.
pub open spec fn spec_chr_written(cart: Cartridge, after: Cartridge, addr: u16, val: u8) -> bool {
    &&& after.spec_header() == cart.spec_header()
    &&& after.spec_prg_rom() == cart.spec_prg_rom()
    &&& after.spec_chr_rom() == cart.spec_chr_rom()
    &&& after.spec_chr_ram() == if addr < CHR_END && cart.spec_chr_rom().len() == 0 && addr
        < cart.spec_chr_ram().len() {
        cart.spec_chr_ram().update(addr as int, val)
    } else {
        cart.spec_chr_ram()
    }
}

/// Reads character memory directly.
pub fn chr_read(cart: &Cartridge, addr: u16) -> (val: u8)
    requires
        addr < CHR_END,
    ensures
        val == spec_byte(cart.spec_chr(), addr as int),
{
    if cart.chr_rom().len() > 0 {
        byte_at(cart.chr_rom(), addr as usize)
    } else {
        byte_at(cart.chr_ram(), addr as usize)
    }
}

/// Reads program ROM through the window at `0x8000`.
pub fn prg_read(cart: &Cartridge, addr: u16) -> (val: u8)
    ensures
        addr >= PRG_START ==> val == spec_fixed_read(*cart, addr),
        addr < PRG_START ==> val == 0,
{
    let len = cart.prg_rom().len();
    if addr >= PRG_START && len > 0 {
        cart.prg_rom()[(addr - PRG_START) as usize % len]
    } else {
        0
    }
}

/// Writes character RAM, where the cartridge has it.
pub fn chr_write(cart: &mut Cartridge, addr: u16, val: u8)
    ensures
        spec_chr_written(*old(cart), *final(cart), addr, val),
{
    if addr < CHR_END && cart.chr_rom().len() == 0 && (addr as usize) < cart.chr_ram().len() {
        cart.write_chr_ram(addr as usize, val);
    }
}

impl Mapper for Nrom {
    fn read(&mut self, addr: u16) -> (val: u8)
        ensures
            val == spec_fixed_read(old(self).cart, addr),
            final(self).cart == old(self).cart,
    {
        if addr < CHR_END {
            chr_read(&self.cart, addr)
        } else {
            prg_read(&self.cart, addr)
        }
    }

    fn write(&mut self, addr: u16, val: u8)
        ensures
            spec_chr_written(old(self).cart, final(self).cart, addr, val),
    {
        chr_write(&mut self.cart, addr, val);
    }

    fn irq_pending(&self) -> (pending: bool)
        ensures
            !pending,
    {
        false
    }

    fn mirroring(&self) -> (m: Mirroring)
        ensures
            m == self.cart.spec_header().mirroring,
    {
        self.cart.header().mirroring
    }

    fn step(&mut self, dot: u16, scanline: i16, a12_rising: bool)
        ensures
            final(self).cart == old(self).cart,
    {
    }

    fn cart(&self) -> (cart: &Cartridge)
        ensures
            *cart == self.cart,
    {
        &self.cart
    }

    fn cart_mut(&mut self) -> (cart: &mut Cartridge)
        ensures
            *cart == old(self).cart,
            final(self).cart == *final(cart),
    {
        &mut self.cart
    }
}

impl Nrom {
    pub fn load(cart: Cartridge) -> (board: Self)
        ensures
            board.cart == cart,
    {
        Nrom { cart }
    }
}

/// With 16 KiB of program ROM, the half of the window at `0xC000` shows
/// what the half at `0x8000` shows.
pub proof fn lemma_small_prg_is_mirrored(cart: Cartridge, addr: u16)
    requires
        cart.spec_prg_rom().len() == 16384,
        0x8000 <= addr < 0xC000,
    ensures
        spec_fixed_read(cart, addr) == spec_fixed_read(cart, (addr + 0x4000) as u16),
        spec_fixed_read(cart, addr) == cart.spec_prg_rom()[addr - 0x8000],
{
}

} // verus!
