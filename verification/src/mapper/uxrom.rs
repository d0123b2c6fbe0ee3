//! UxROM: a switchable 16 KiB program bank at `0x8000`, the last bank
//! fixed at `0xC000`, character memory direct.

use crate::mapper::nrom::{chr_read, chr_write, spec_chr_written, CHR_END, PRG_START};
use crate::mapper::{byte_at, spec_byte, Cartridge, Mapper, Mirroring, PRG_BANK_LEN};
use vstd::prelude::*;

verus! {

/// First address of the fixed bank's window.
pub const FIXED_START: u16 = 0xC000;

/// The UxROM board.
#[derive(Debug, Clone)]
pub struct Uxrom {
    pub cart: Cartridge,
    /// The bank shown at `0x8000`.
    pub prg_bank: u8,
}

/// Whole banks of program ROM on the cartridge.
pub open spec fn spec_prg_bank_count(cart: Cartridge) -> int {
    cart.spec_prg_rom().len() as int / (PRG_BANK_LEN as int)
}

/// The bank that writing `val` selects: its low four bits, wrapped to the
/// banks that the cartridge has.
pub open spec fn spec_latched_bank(cart: Cartridge, val: u8) -> int {
    if spec_prg_bank_count(cart) > 0 {
        ((val & 0x0Fu8) as int) % spec_prg_bank_count(cart)
    } else {
        0
    }
}

impl Uxrom {
    /// The selected bank is one that the cartridge has.
    pub open spec fn wf(&self) -> bool {
        self.prg_bank < spec_prg_bank_count(self.cart) || self.prg_bank == 0
    }

    /// The byte that `addr` reaches.
    pub open spec fn spec_read(&self, addr: u16) -> u8 {
        if addr < CHR_END {
            spec_byte(self.cart.spec_chr(), addr as int)
        } else if addr >= FIXED_START {
            if spec_prg_bank_count(self.cart) > 0 {
                spec_byte(
                    self.cart.spec_prg_rom(),
                    (spec_prg_bank_count(self.cart) - 1) * PRG_BANK_LEN + (addr - FIXED_START),
                )
            } else {
                0
            }
        } else if addr >= PRG_START {
            spec_byte(self.cart.spec_prg_rom(), self.prg_bank * PRG_BANK_LEN + (addr - PRG_START))
        } else {
            0
        }
    }

    /// The board at power-on, with the first bank selected.
    pub fn load(cart: Cartridge) -> (board: Self)
        ensures
            board.cart == cart,
            board.prg_bank == 0,
            board.wf(),
    {
        Uxrom { cart, prg_bank: 0 }
    }
}

impl Mapper for Uxrom {
    fn read(&mut self, addr: u16) -> (val: u8)
        ensures
            val == old(self).spec_read(addr),
            *final(self) == *old(self),
    {
        if addr < CHR_END {
            chr_read(&self.cart, addr)
        } else if addr >= FIXED_START {
            let banks = self.cart.prg_rom().len() / PRG_BANK_LEN;
            if banks > 0 {
                byte_at(self.cart.prg_rom(), (banks - 1) * PRG_BANK_LEN + (addr - FIXED_START) as usize)
            } else {
                0
            }
        } else if addr >= PRG_START {
            byte_at(
                self.cart.prg_rom(),
                self.prg_bank as usize * PRG_BANK_LEN + (addr - PRG_START) as usize,
            )
        } else {
            0
        }
    }

    fn write(&mut self, addr: u16, val: u8)
        ensures
            addr >= PRG_START ==> final(self).cart == old(self).cart && final(self).prg_bank
                == spec_latched_bank(old(self).cart, val),
            addr < PRG_START ==> final(self).prg_bank == old(self).prg_bank && spec_chr_written(
                old(self).cart,
                final(self).cart,
                addr,
                val,
            ),
            old(self).wf() ==> final(self).wf(),
    {
        if addr >= PRG_START {
            let banks = self.cart.prg_rom().len() / PRG_BANK_LEN;
            let low: u8 = val & 0x0F;
            proof {
                assert(val & 0x0Fu8 <= 15u8) by (bit_vector);
                if banks > 0 {
                    vstd::arithmetic::div_mod::lemma_mod_decreases(low as nat, banks as nat);
                }
            }
            if banks > 0 {
                self.prg_bank = (low as usize % banks) as u8;
            } else {
                self.prg_bank = 0;
            }
        } else {
            chr_write(&mut self.cart, addr, val);
        }
    }

    fn irq_pending(&self) -> (pending: bool)
        ensures
            !pending,
    {
        false
    }

    fn mirroring(&self) -> (m: Mirroring)
        ensures
            m == self.cart.spec_header().mirroring,
    {
        self.cart.header().mirroring
    }

    fn step(&mut self, dot: u16, scanline: i16, a12_rising: bool)
        ensures
            *final(self) == *old(self),
    {
    }

    fn cart(&self) -> (cart: &Cartridge)
        ensures
            *cart == self.cart,
    {
        &self.cart
    }

    fn cart_mut(&mut self) -> (cart: &mut Cartridge)
        ensures
            *cart == old(self).cart,
            final(self).cart == *final(cart),
            final(self).prg_bank == old(self).prg_bank,
    {
        &mut self.cart
    }
}

/// Whatever is written, the bank selected afterwards is one that the
/// cartridge has.
pub proof fn lemma_latched_bank_exists(cart: Cartridge, val: u8)
    requires
        spec_prg_bank_count(cart) > 0,
    ensures
        0 <= spec_latched_bank(cart, val) < spec_prg_bank_count(cart),
        spec_latched_bank(cart, val) < 16,
{
    assert(val & 0x0Fu8 <= 15u8) by (bit_vector);
    vstd::arithmetic::div_mod::lemma_mod_decreases(
        (val & 0x0Fu8) as nat,
        spec_prg_bank_count(cart) as nat,
    );
}

} // verus!
