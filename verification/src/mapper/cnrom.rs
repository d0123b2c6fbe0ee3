//! CNROM: program ROM at fixed addresses, a switchable 8 KiB bank of
//! character ROM.

use crate::mapper::nrom::{chr_write, prg_read, spec_chr_written, spec_fixed_read, CHR_END, PRG_START};
use crate::mapper::{byte_at, spec_byte, Cartridge, Mapper, Mirroring, CHR_BANK_LEN};
use vstd::prelude::*;

verus! {

/// The CNROM board.
#[derive(Debug, Clone)]
pub struct Cnrom {
    pub cart: Cartridge,
    /// The bank of character ROM shown to the picture unit.
    pub chr_bank: u8,
}

/// Whole banks of character ROM on the cartridge.
pub open spec fn spec_chr_bank_count(cart: Cartridge) -> int {
    cart.spec_chr_rom().len() as int / (CHR_BANK_LEN as int)
}

/// The bank that writing `val` selects: its low two bits, wrapped to the
/// banks that the cartridge has.
pub open spec fn spec_selected_bank(cart: Cartridge, val: u8) -> int {
    if spec_chr_bank_count(cart) > 0 {
        ((val & 0x03u8) as int) % spec_chr_bank_count(cart)
    } else {
        0
    }
}

impl Cnrom {
    /// The selected bank is one that the cartridge has.
    pub open spec fn wf(&self) -> bool {
        self.chr_bank < spec_chr_bank_count(self.cart) || self.chr_bank == 0
    }

    /// The byte that `addr` reaches.
    pub open spec fn spec_read(&self, addr: u16) -> u8 {
        if addr < CHR_END {
            if self.cart.spec_chr_rom().len() > 0 {
                spec_byte(self.cart.spec_chr_rom(), self.chr_bank * CHR_BANK_LEN + addr)
            } else {
                spec_byte(self.cart.spec_chr_ram(), addr as int)
            }
        } else {
            spec_fixed_read(self.cart, addr)
        }
    }

    /// The board at power-on, with the first bank selected.
    pub fn load(cart: Cartridge) -> (board: Self)
        ensures
            board.cart == cart,
            board.chr_bank == 0,
            board.wf(),
    {
        Cnrom { cart, chr_bank: 0 }
    }
}

impl Mapper for Cnrom {
    fn read(&mut self, addr: u16) -> (val: u8)
        ensures
            val == old(self).spec_read(addr),
            *final(self) == *old(self),
    {
        if addr < CHR_END {
            if self.cart.chr_rom().len() > 0 {
                byte_at(self.cart.chr_rom(), self.chr_bank as usize * CHR_BANK_LEN + addr as usize)
            } else {
                byte_at(self.cart.chr_ram(), addr as usize)
            }
        } else {
            prg_read(&self.cart, addr)
        }
    }

    fn write(&mut self, addr: u16, val: u8)
        ensures
            addr >= PRG_START ==> final(self).cart == old(self).cart && final(self).chr_bank
                == spec_selected_bank(old(self).cart, val),
            addr < PRG_START ==> final(self).chr_bank == old(self).chr_bank && spec_chr_written(
                old(self).cart,
                final(self).cart,
                addr,
                val,
            ),
            old(self).wf() ==> final(self).wf(),
    {
        if addr >= PRG_START {
            let banks = self.cart.chr_rom().len() / CHR_BANK_LEN;
            let low: u8 = val & 0x03;
            proof {
                assert(val & 0x03u8 <= 3u8) by (bit_vector);
                if banks > 0 {
                    vstd::arithmetic::div_mod::lemma_mod_decreases(low as nat, banks as nat);
                }
            }
            if banks > 0 {
                self.chr_bank = (low as usize % banks) as u8;
            } else {
                self.chr_bank = 0;
            }
        } else {
            chr_write(&mut self.cart, addr, val);
        }
    }

    fn irq_pending(&self) -> (pending: bool)
        ensures
            !pending,
    {
        false
    }

    fn mirroring(&self) -> (m: Mirroring)
        ensures
            m == self.cart.spec_header().mirroring,
    {
        self.cart.header().mirroring
    }

    fn step(&mut self, dot: u16, scanline: i16, a12_rising: bool)
        ensures
            *final(self) == *old(self),
    {
    }

    fn cart(&self) -> (cart: &Cartridge)
        ensures
            *cart == self.cart,
    {
        &self.cart
    }

    fn cart_mut(&mut self) -> (cart: &mut Cartridge)
        ensures
            *cart == old(self).cart,
            final(self).cart == *final(cart),
            final(self).chr_bank == old(self).chr_bank,
    {
        &mut self.cart
    }
}

/// Whatever is written, the bank selected afterwards is one that the
/// cartridge has.
pub proof fn lemma_selected_bank_exists(cart: Cartridge, val: u8)
    requires
        spec_chr_bank_count(cart) > 0,
    ensures
        0 <= spec_selected_bank(cart, val) < spec_chr_bank_count(cart),
        spec_selected_bank(cart, val) < 4,
{
    assert(val & 0x03u8 <= 3u8) by (bit_vector);
    vstd::arithmetic::div_mod::lemma_mod_decreases(
        (val & 0x03u8) as nat,
        spec_chr_bank_count(cart) as nat,
    );
}

} // verus!
