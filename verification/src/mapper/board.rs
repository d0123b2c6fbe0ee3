//! The five boards behind one type, and what of a board a saved state
//! holds.

use crate::mapper::cnrom::Cnrom;
use crate::mapper::nrom::Nrom;
use crate::mapper::sxrom::{Mmc1, Sxrom};
use crate::mapper::txrom::{Mmc3, Txrom};
use crate::mapper::uxrom::Uxrom;
use crate::mapper::{Cartridge, Mapper, MapperKind, Mirroring};
use vstd::prelude::*;

verus! {

/// A cartridge on its board.
#[derive(Debug, Clone)]
pub enum Board {
    Nrom(Nrom),
    Sxrom(Sxrom),
    Uxrom(Uxrom),
    Cnrom(Cnrom),
    Txrom(Txrom),
}

/// The registers of a board: all of a board but its cartridge.
#[derive(Debug, Copy, Clone, PartialEq, Eq, Structural)]
pub enum MapperState {
    Nrom,
    Sxrom { mmc1: Mmc1, cycle: u64 },
    Uxrom { prg_bank: u8 },
    Cnrom { chr_bank: u8 },
    Txrom { mmc3: Mmc3 },
}

impl Board {
    pub open spec fn spec_kind(&self) -> MapperKind {
        match self {
            Board::Nrom(_) => MapperKind::Nrom,
            Board::Sxrom(_) => MapperKind::Sxrom,
            Board::Uxrom(_) => MapperKind::Uxrom,
            Board::Cnrom(_) => MapperKind::Cnrom,
            Board::Txrom(_) => MapperKind::Txrom,
        }
    }

    pub open spec fn spec_cart(&self) -> Cartridge {
        match self {
            Board::Nrom(b) => b.cart,
            Board::Sxrom(b) => b.cart,
            Board::Uxrom(b) => b.cart,
            Board::Cnrom(b) => b.cart,
            Board::Txrom(b) => b.cart,
        }
    }

    pub open spec fn spec_state(&self) -> MapperState {
        match self {
            Board::Nrom(_) => MapperState::Nrom,
            Board::Sxrom(b) => MapperState::Sxrom { mmc1: b.regs, cycle: b.cycle },
            Board::Uxrom(b) => MapperState::Uxrom { prg_bank: b.prg_bank },
            Board::Cnrom(b) => MapperState::Cnrom { chr_bank: b.chr_bank },
            Board::Txrom(b) => MapperState::Txrom { mmc3: b.regs },
        }
    }

    /// The board that holds `cart` with its registers as `state` says.
    pub open spec fn spec_restore(cart: Cartridge, state: MapperState) -> Board {
        match state {
            MapperState::Nrom => Board::Nrom(Nrom { cart }),
            MapperState::Sxrom { mmc1, cycle } => Board::Sxrom(Sxrom { cart, regs: mmc1, cycle }),
            MapperState::Uxrom { prg_bank } => Board::Uxrom(Uxrom { cart, prg_bank }),
            MapperState::Cnrom { chr_bank } => Board::Cnrom(Cnrom { cart, chr_bank }),
            MapperState::Txrom { mmc3 } => Board::Txrom(Txrom { cart, regs: mmc3 }),
        }
    }

    /// Only the TxROM board has an interrupt.
    pub open spec fn spec_irq_pending(&self) -> bool {
        match self {
            Board::Txrom(b) => b.regs.irq_pending,
            _ => false,
        }
    }

    pub open spec fn spec_mirroring(&self) -> Mirroring {
        match self {
            Board::Nrom(b) => b.cart.spec_header().mirroring,
            Board::Sxrom(b) => b.regs.spec_mirroring(),
            Board::Uxrom(b) => b.cart.spec_header().mirroring,
            Board::Cnrom(b) => b.cart.spec_header().mirroring,
            Board::Txrom(b) => b.regs.mirroring,
        }
    }

    pub open spec fn spec_read(&self, addr: u16) -> u8 {
        match self {
            Board::Nrom(b) => crate::mapper::nrom::spec_fixed_read(b.cart, addr),
            Board::Sxrom(b) => b.spec_read(addr),
            Board::Uxrom(b) => b.spec_read(addr),
            Board::Cnrom(b) => b.spec_read(addr),
            Board::Txrom(b) => b.spec_read(addr),
        }
    }

    /// The registers after `val` is written to `addr`, from `0x8000`.
    pub open spec fn spec_written_state(&self, addr: u16, val: u8) -> MapperState {
        match self {
            Board::Nrom(_) => MapperState::Nrom,
            Board::Sxrom(b) => MapperState::Sxrom {
                mmc1: if b.regs.wf() {
                    b.regs.spec_write(addr, val, b.cycle)
                } else {
                    b.regs
                },
                cycle: b.cycle,
            },
            Board::Uxrom(b) => MapperState::Uxrom {
                prg_bank: crate::mapper::uxrom::spec_latched_bank(b.cart, val) as u8,
            },
            Board::Cnrom(b) => MapperState::Cnrom {
                chr_bank: crate::mapper::cnrom::spec_selected_bank(b.cart, val) as u8,
            },
            Board::Txrom(b) => MapperState::Txrom { mmc3: b.regs.spec_write(addr, val) },
        }
    }

    /// The registers after one dot of the picture unit.
    pub open spec fn spec_stepped_state(&self, a12_rising: bool) -> MapperState {
        match self {
            Board::Txrom(b) => MapperState::Txrom {
                mmc3: if a12_rising {
                    b.regs.spec_clock(false).spec_clock(true)
                } else {
                    b.regs
                },
            },
            _ => self.spec_state(),
        }
    }

    /// The board of kind `kind` at power-on with `cart` on it.
    pub open spec fn spec_power_on(kind: MapperKind, cart: Cartridge) -> Board {
        match kind {
            MapperKind::Nrom => Board::Nrom(Nrom { cart }),
            MapperKind::Sxrom => Board::Sxrom(Sxrom::spec_load(cart)),
            MapperKind::Uxrom => Board::Uxrom(Uxrom { cart, prg_bank: 0 }),
            MapperKind::Cnrom => Board::Cnrom(Cnrom { cart, chr_bank: 0 }),
            MapperKind::Txrom => Board::Txrom(Txrom::spec_load(cart)),
        }
    }

    /// Puts `cart` on a board of kind `kind`, at power-on.
    pub fn power_on(kind: MapperKind, cart: Cartridge) -> (board: Board)
        ensures
            board == Self::spec_power_on(kind, cart),
            board.spec_kind() == kind,
            board.spec_cart() == cart,
            !board.spec_irq_pending(),
    {
        match kind {
            MapperKind::Nrom => Board::Nrom(Nrom::load(cart)),
            MapperKind::Sxrom => Board::Sxrom(Sxrom::load(cart)),
            MapperKind::Uxrom => Board::Uxrom(Uxrom::load(cart)),
            MapperKind::Cnrom => Board::Cnrom(Cnrom::load(cart)),
            MapperKind::Txrom => Board::Txrom(Txrom::load(cart)),
        }
    }

    pub fn kind(&self) -> (kind: MapperKind)
        ensures
            kind == self.spec_kind(),
    {
        match self {
            Board::Nrom(_) => MapperKind::Nrom,
            Board::Sxrom(_) => MapperKind::Sxrom,
            Board::Uxrom(_) => MapperKind::Uxrom,
            Board::Cnrom(_) => MapperKind::Cnrom,
            Board::Txrom(_) => MapperKind::Txrom,
        }
    }

    /// The board's registers, for a saved state.
    pub fn state(&self) -> (state: MapperState)
        ensures
            state == self.spec_state(),
    {
        match self {
            Board::Nrom(_) => MapperState::Nrom,
            Board::Sxrom(b) => MapperState::Sxrom { mmc1: b.regs, cycle: b.cycle },
            Board::Uxrom(b) => MapperState::Uxrom { prg_bank: b.prg_bank },
            Board::Cnrom(b) => MapperState::Cnrom { chr_bank: b.chr_bank },
            Board::Txrom(b) => MapperState::Txrom { mmc3: b.regs },
        }
    }

    /// Puts `cart` on the board that `state` was taken from.
    pub fn restore(cart: Cartridge, state: MapperState) -> (board: Board)
        ensures
            board == Self::spec_restore(cart, state),
            board.spec_state() == state,
            board.spec_cart() == cart,
    {
        match state {
            MapperState::Nrom => Board::Nrom(Nrom { cart }),
            MapperState::Sxrom { mmc1, cycle } => Board::Sxrom(Sxrom { cart, regs: mmc1, cycle }),
            MapperState::Uxrom { prg_bank } => Board::Uxrom(Uxrom { cart, prg_bank }),
            MapperState::Cnrom { chr_bank } => Board::Cnrom(Cnrom { cart, chr_bank }),
            MapperState::Txrom { mmc3 } => Board::Txrom(Txrom { cart, regs: mmc3 }),
        }
    }
}

impl MapperState {
    /// The kind of board that these registers belong to.
    pub open spec fn spec_kind(self) -> MapperKind {
        match self {
            MapperState::Nrom => MapperKind::Nrom,
            MapperState::Sxrom { .. } => MapperKind::Sxrom,
            MapperState::Uxrom { .. } => MapperKind::Uxrom,
            MapperState::Cnrom { .. } => MapperKind::Cnrom,
            MapperState::Txrom { .. } => MapperKind::Txrom,
        }
    }
}

impl MapperState {
    pub fn kind(self) -> (kind: MapperKind)
        ensures
            kind == self.spec_kind(),
    {
        match self {
            MapperState::Nrom => MapperKind::Nrom,
            MapperState::Sxrom { .. } => MapperKind::Sxrom,
            MapperState::Uxrom { .. } => MapperKind::Uxrom,
            MapperState::Cnrom { .. } => MapperKind::Cnrom,
            MapperState::Txrom { .. } => MapperKind::Txrom,
        }
    }
}

impl Board {
    /// Replaces the cartridge's character RAM by `ram`, of the same size.
    /// The board's registers and the ROMs stay.
    pub fn set_chr_ram(&mut self, ram: Vec<u8>)
        requires
            ram@.len() == old(self).spec_cart().spec_chr_ram().len(),
        ensures
            old(self).spec_cart().spec_with_chr_ram(ram@, final(self).spec_cart()),
            final(self).spec_state() == old(self).spec_state(),
            final(self).spec_kind() == old(self).spec_kind(),
    {
        match self {
            Board::Nrom(b) => b.cart.set_chr_ram(ram),
            Board::Sxrom(b) => b.cart.set_chr_ram(ram),
            Board::Uxrom(b) => b.cart.set_chr_ram(ram),
            Board::Cnrom(b) => b.cart.set_chr_ram(ram),
            Board::Txrom(b) => b.cart.set_chr_ram(ram),
        }
    }

    /// Sets the board's registers to `state`, if `state` is of the board's
    /// kind; the cartridge stays. Returns whether it was.
    pub fn set_state(&mut self, state: MapperState) -> (done: bool)
        ensures
            done == (state.spec_kind() == old(self).spec_kind()),
            done ==> *final(self) == Self::spec_restore(old(self).spec_cart(), state),
            !done ==> *final(self) == *old(self),
    {
        match (self, state) {
            (Board::Nrom(_), MapperState::Nrom) => true,
            (Board::Sxrom(b), MapperState::Sxrom { mmc1, cycle }) => {
                b.regs = mmc1;
                b.cycle = cycle;
                true
            },
            (Board::Uxrom(b), MapperState::Uxrom { prg_bank }) => {
                b.prg_bank = prg_bank;
                true
            },
            (Board::Cnrom(b), MapperState::Cnrom { chr_bank }) => {
                b.chr_bank = chr_bank;
                true
            },
            (Board::Txrom(b), MapperState::Txrom { mmc3 }) => {
                b.regs = mmc3;
                true
            },
            _ => false,
        }
    }
}

impl Board {
    /// Puts the board's registers back to what they are at power-on. The
    /// cartridge stays.
    pub fn power_cycle(&mut self)
        ensures
            *final(self) == Self::spec_power_on(old(self).spec_kind(), old(self).spec_cart()),
    {
        match self {
            Board::Nrom(_) => {},
            Board::Sxrom(b) => {
                let header = b.cart.header();
                let chr_banks: u8 = if header.chr_banks >= 16 {
                    32
                } else {
                    header.chr_banks * 2
                };
                b.regs = Mmc1::new(header.prg_banks, chr_banks);
                b.cycle = 0;
            },
            Board::Uxrom(b) => {
                b.prg_bank = 0;
            },
            Board::Cnrom(b) => {
                b.chr_bank = 0;
            },
            Board::Txrom(b) => {
                let header = b.cart.header();
                b.regs = Mmc3::new(
                    header.mirroring,
                    header.prg_banks as u16 * 2,
                    header.chr_banks as u16 * 8,
                );
            },
        }
    }
}

impl Mapper for Board {
    fn read(&mut self, addr: u16) -> (val: u8)
        ensures
            val == old(self).spec_read(addr),
            *final(self) == *old(self),
    {
        match self {
            Board::Nrom(b) => b.read(addr),
            Board::Sxrom(b) => b.read(addr),
            Board::Uxrom(b) => b.read(addr),
            Board::Cnrom(b) => b.read(addr),
            Board::Txrom(b) => b.read(addr),
        }
    }

    /// A write from `0x8000` goes to the board's registers, one to the
    /// pattern tables to character RAM where the cartridge has it.
    fn write(&mut self, addr: u16, val: u8)
        ensures
            final(self).spec_kind() == old(self).spec_kind(),
            crate::mapper::nrom::spec_chr_written(
                old(self).spec_cart(),
                final(self).spec_cart(),
                addr,
                val,
            ),
            final(self).spec_state() == if addr >= 0x8000 {
                old(self).spec_written_state(addr, val)
            } else {
                old(self).spec_state()
            },
    {
        match self {
            Board::Nrom(b) => b.write(addr, val),
            Board::Sxrom(b) => b.write(addr, val),
            Board::Uxrom(b) => b.write(addr, val),
            Board::Cnrom(b) => b.write(addr, val),
            Board::Txrom(b) => b.write(addr, val),
        }
    }

    fn irq_pending(&self) -> (pending: bool)
        ensures
            pending == self.spec_irq_pending(),
    {
        match self {
            Board::Txrom(b) => b.irq_pending(),
            _ => false,
        }
    }

    fn mirroring(&self) -> (m: Mirroring)
        ensures
            m == self.spec_mirroring(),
    {
        match self {
            Board::Nrom(b) => b.mirroring(),
            Board::Sxrom(b) => b.mirroring(),
            Board::Uxrom(b) => b.mirroring(),
            Board::Cnrom(b) => b.mirroring(),
            Board::Txrom(b) => b.mirroring(),
        }
    }

    fn step(&mut self, dot: u16, scanline: i16, a12_rising: bool)
        ensures
            final(self).spec_kind() == old(self).spec_kind(),
            final(self).spec_cart() == old(self).spec_cart(),
            final(self).spec_state() == old(self).spec_stepped_state(a12_rising),
    {
        match self {
            Board::Txrom(b) => b.step(dot, scanline, a12_rising),
            _ => {},
        }
    }

    fn cart(&self) -> (cart: &Cartridge)
        ensures
            *cart == self.spec_cart(),
    {
        match self {
            Board::Nrom(b) => b.cart(),
            Board::Sxrom(b) => b.cart(),
            Board::Uxrom(b) => b.cart(),
            Board::Cnrom(b) => b.cart(),
            Board::Txrom(b) => b.cart(),
        }
    }

    fn cart_mut(&mut self) -> (cart: &mut Cartridge)
        ensures
            *cart == old(self).spec_cart(),
            final(self).spec_cart() == *final(cart),
            final(self).spec_state() == old(self).spec_state(),
    {
        match self {
            Board::Nrom(b) => b.cart_mut(),
            Board::Sxrom(b) => b.cart_mut(),
            Board::Uxrom(b) => b.cart_mut(),
            Board::Cnrom(b) => b.cart_mut(),
            Board::Txrom(b) => b.cart_mut(),
        }
    }
}

/// A board at power-on has no interrupt pending, whatever its kind and
/// its cartridge.
pub proof fn lemma_power_on_has_no_interrupt(kind: MapperKind, cart: Cartridge)
    ensures
        !Board::spec_power_on(kind, cart).spec_irq_pending(),
        Board::spec_power_on(kind, cart).spec_kind() == kind,
        Board::spec_power_on(kind, cart).spec_cart() == cart,
{
}

/// A board restored from its cartridge and its registers is the board.
pub proof fn lemma_restore_undoes_state(board: Board)
    ensures
        Board::spec_restore(board.spec_cart(), board.spec_state()) == board,
{
}

} // verus!
