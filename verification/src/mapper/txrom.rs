//! TxROM (MMC3): eight bank registers behind a bank-select register, and a
//! scanline counter that raises an interrupt.
//!
//! The counter is clocked by rising edges of the picture unit's address
//! line A12, which happen once per scanline while rendering.

use crate::mapper::nrom::{chr_write, spec_chr_written, CHR_END, PRG_START};
use crate::mapper::{byte_at, spec_byte, Cartridge, Mapper, Mirroring};
use vstd::prelude::*;

verus! {

/// The registers of the board, told apart by `addr & 0xE001`.
#[derive(Debug, Copy, Clone, PartialEq, Eq, Structural)]
pub enum Register {
    BankSelect,
    BankData,
    Mirroring,
    PrgRamProtect,
    IrqLatch,
    IrqReload,
    IrqDisable,
    IrqEnable,
}

/// The eight bank registers.
#[derive(Debug, Copy, Clone, PartialEq, Eq, Structural)]
pub struct Banks {
    pub r0: u8,
    pub r1: u8,
    pub r2: u8,
    pub r3: u8,
    pub r4: u8,
    pub r5: u8,
    pub r6: u8,
    pub r7: u8,
}

impl Banks {
    /// Bank register `target`.
    pub open spec fn spec_get(self, target: u8) -> u8 {
        if target == 0 {
            self.r0
        } else if target == 1 {
            self.r1
        } else if target == 2 {
            self.r2
        } else if target == 3 {
            self.r3
        } else if target == 4 {
            self.r4
        } else if target == 5 {
            self.r5
        } else if target == 6 {
            self.r6
        } else {
            self.r7
        }
    }

    /// These registers with register `target` set to `val`.
    pub open spec fn spec_with(self, target: u8, val: u8) -> Banks {
        if target == 0 {
            Banks { r0: val, ..self }
        } else if target == 1 {
            Banks { r1: val, ..self }
        } else if target == 2 {
            Banks { r2: val, ..self }
        } else if target == 3 {
            Banks { r3: val, ..self }
        } else if target == 4 {
            Banks { r4: val, ..self }
        } else if target == 5 {
            Banks { r5: val, ..self }
        } else if target == 6 {
            Banks { r6: val, ..self }
        } else {
            Banks { r7: val, ..self }
        }
    }

    pub fn get(self, target: u8) -> (val: u8)
        ensures
            val == self.spec_get(target),
    {
        if target == 0 {
            self.r0
        } else if target == 1 {
            self.r1
        } else if target == 2 {
            self.r2
        } else if target == 3 {
            self.r3
        } else if target == 4 {
            self.r4
        } else if target == 5 {
            self.r5
        } else if target == 6 {
            self.r6
        } else {
            self.r7
        }
    }

    pub fn with(self, target: u8, val: u8) -> (out: Banks)
        ensures
            out == self.spec_with(target, val),
    {
        if target == 0 {
            Banks { r0: val, ..self }
        } else if target == 1 {
            Banks { r1: val, ..self }
        } else if target == 2 {
            Banks { r2: val, ..self }
        } else if target == 3 {
            Banks { r3: val, ..self }
        } else if target == 4 {
            Banks { r4: val, ..self }
        } else if target == 5 {
            Banks { r5: val, ..self }
        } else if target == 6 {
            Banks { r6: val, ..self }
        } else {
            Banks { r7: val, ..self }
        }
    }
}

/// The state of the board's registers.
#[derive(Debug, Copy, Clone, PartialEq, Eq, Structural)]
pub struct Mmc3 {
    /// The bank register that the next data write goes to, 0 to 7.
    pub target: u8,
    pub banks: Banks,
    pub mirroring: Mirroring,
    pub prg_ram_enabled: bool,
    pub irq_latch: u8,
    pub irq_counter: u8,
    pub irq_reload: bool,
    pub irq_enabled: bool,
    pub irq_pending: bool,
    /// The level of A12 at the last clock.
    pub last_a12: bool,
    /// Whether the switchable program bank is at `0xC000` and not at
    /// `0x8000`: bit 6 of the bank-select register.
    pub prg_mode: bool,
    /// Whether the two halves of the pattern tables are swapped: bit 7 of
    /// the bank-select register.
    pub chr_invert: bool,
    /// 8 KiB banks of program ROM on the cartridge.
    pub prg_banks: u16,
    /// 1 KiB banks of character memory on the cartridge.
    pub chr_banks: u16,
}

/// The bank number that writing `val` to bank register `target` stores:
/// `val` wrapped to the banks that the cartridge has, of program ROM for
/// registers 6 and 7 and of character memory for the others, and 0 where
/// it has none.
pub open spec fn spec_masked(target: u8, val: u8, prg_banks: u16, chr_banks: u16) -> u8 {
    if target >= 6 {
        if prg_banks > 0 {
            (val as u16 % prg_banks) as u8
        } else {
            0
        }
    } else {
        if chr_banks > 0 {
            (val as u16 % chr_banks) as u8
        } else {
            0
        }
    }
}

pub fn masked(target: u8, val: u8, prg_banks: u16, chr_banks: u16) -> (bank: u8)
    ensures
        bank == spec_masked(target, val, prg_banks, chr_banks),
        target >= 6 && prg_banks > 0 ==> bank < prg_banks,
        target < 6 && chr_banks > 0 ==> bank < chr_banks,
        bank <= val,
{
    if target >= 6 {
        if prg_banks > 0 {
            proof {
                vstd::arithmetic::div_mod::lemma_mod_decreases(val as nat, prg_banks as nat);
            }
            (val as u16 % prg_banks) as u8
        } else {
            0
        }
    } else {
        if chr_banks > 0 {
            proof {
                vstd::arithmetic::div_mod::lemma_mod_decreases(val as nat, chr_banks as nat);
            }
            (val as u16 % chr_banks) as u8
        } else {
            0
        }
    }
}

/// The register that a write to `addr` reaches, for `addr` from `0x8000`:
/// the address's top three bits pick a pair, its lowest bit one of the two.
pub open spec fn spec_register(addr: u16) -> Register
    recommends
        addr >= 0x8000,
{
    let odd = addr % 2 == 1;
    if addr < 0xA000 {
        if odd {
            Register::BankData
        } else {
            Register::BankSelect
        }
    } else if addr < 0xC000 {
        if odd {
            Register::PrgRamProtect
        } else {
            Register::Mirroring
        }
    } else if addr < 0xE000 {
        if odd {
            Register::IrqReload
        } else {
            Register::IrqLatch
        }
    } else {
        if odd {
            Register::IrqEnable
        } else {
            Register::IrqDisable
        }
    }
}

pub fn register(addr: u16) -> (r: Register)
    requires
        addr >= 0x8000,
    ensures
        r == spec_register(addr),
{
    let odd = addr % 2 == 1;
    if addr < 0xA000 {
        if odd {
            Register::BankData
        } else {
            Register::BankSelect
        }
    } else if addr < 0xC000 {
        if odd {
            Register::PrgRamProtect
        } else {
            Register::Mirroring
        }
    } else if addr < 0xE000 {
        if odd {
            Register::IrqReload
        } else {
            Register::IrqLatch
        }
    } else {
        if odd {
            Register::IrqEnable
        } else {
            Register::IrqDisable
        }
    }
}

impl Mmc3 {
    /// The bank-select register names one of the eight bank registers.
    pub open spec fn wf(self) -> bool {
        self.target < 8
    }

    /// The board after `val` is written to `addr`, for `addr` from
    /// `0x8000`.
    pub open spec fn spec_write(self, addr: u16, val: u8) -> Mmc3
        recommends
            addr >= 0x8000,
            self.wf(),
    {
        match spec_register(addr) {
            Register::BankSelect => Mmc3 {
                target: val % 8,
                prg_mode: (val / 64) % 2 == 1,
                chr_invert: val >= 128,
                ..self
            },
            Register::BankData => Mmc3 {
                banks: self.banks.spec_with(
                    self.target,
                    spec_masked(self.target, val, self.prg_banks, self.chr_banks),
                ),
                ..self
            },
            Register::Mirroring => Mmc3 {
                mirroring: if val % 2 == 1 {
                    Mirroring::Horizontal
                } else {
                    Mirroring::Vertical
                },
                ..self
            },
            Register::PrgRamProtect => Mmc3 { prg_ram_enabled: val >= 0x80, ..self },
            Register::IrqLatch => Mmc3 { irq_latch: val, ..self },
            Register::IrqReload => Mmc3 { irq_reload: true, irq_counter: 0, ..self },
            Register::IrqDisable => Mmc3 { irq_enabled: false, irq_pending: false, ..self },
            Register::IrqEnable => Mmc3 { irq_enabled: true, ..self },
        }
    }

    /// The counter after a rising edge of A12: reloaded from the latch
    /// where it was zero or a reload was asked for, else one less.
    pub open spec fn spec_counted(self) -> u8 {
        if self.irq_counter == 0 || self.irq_reload {
            self.irq_latch
        } else {
            (self.irq_counter - 1) as u8
        }
    }

    /// The board after one clock of the picture unit with A12 at `a12`.
    /// Only a rising edge counts; a counter that arrives at zero with the
    /// interrupt enabled raises it.
    pub open spec fn spec_clock(self, a12: bool) -> Mmc3 {
        if a12 && !self.last_a12 {
            Mmc3 {
                irq_counter: self.spec_counted(),
                irq_reload: false,
                irq_pending: self.irq_pending || (self.spec_counted() == 0 && self.irq_enabled),
                last_a12: a12,
                ..self
            }
        } else {
            Mmc3 { last_a12: a12, ..self }
        }
    }

    /// The board after `n` scanlines, each one a fall and a rise of A12.
    pub open spec fn spec_scanlines(self, n: nat) -> Mmc3
        decreases n,
    {
        if n == 0 {
            self
        } else {
            self.spec_scanlines((n - 1) as nat).spec_clock(false).spec_clock(true)
        }
    }

    /// The registers at power-on: every bank register 0, the interrupt
    /// disabled and not pending.
    pub open spec fn spec_new(mirroring: Mirroring, prg_banks: u16, chr_banks: u16) -> Mmc3 {
        Mmc3 {
            target: 0,
            banks: Banks { r0: 0, r1: 0, r2: 0, r3: 0, r4: 0, r5: 0, r6: 0, r7: 0 },
            mirroring,
            prg_ram_enabled: false,
            irq_latch: 0,
            irq_counter: 0,
            irq_reload: false,
            irq_enabled: false,
            irq_pending: false,
            last_a12: false,
            prg_mode: false,
            chr_invert: false,
            prg_banks,
            chr_banks,
        }
    }

    /// The registers at power-on, for a cartridge with the given numbers
    /// of banks.
    pub fn new(mirroring: Mirroring, prg_banks: u16, chr_banks: u16) -> (board: Self)
        ensures
            board.wf(),
            board.mirroring == mirroring,
            board.prg_banks == prg_banks,
            board.chr_banks == chr_banks,
            board == Self::spec_new(mirroring, prg_banks, chr_banks),
            !board.irq_pending,
            !board.irq_enabled,
            board.irq_counter == 0,
    {
        Mmc3 {
            target: 0,
            banks: Banks { r0: 0, r1: 0, r2: 0, r3: 0, r4: 0, r5: 0, r6: 0, r7: 0 },
            mirroring,
            prg_ram_enabled: false,
            irq_latch: 0,
            irq_counter: 0,
            irq_reload: false,
            irq_enabled: false,
            irq_pending: false,
            last_a12: false,
            prg_mode: false,
            chr_invert: false,
            prg_banks,
            chr_banks,
        }
    }

    pub fn write(&mut self, addr: u16, val: u8)
        requires
            addr >= 0x8000,
        ensures
            *final(self) == old(self).spec_write(addr, val),
            old(self).wf() ==> final(self).wf(),
    {
        match register(addr) {
            Register::BankSelect => {
                self.target = val % 8;
                self.prg_mode = (val / 64) % 2 == 1;
                self.chr_invert = val >= 128;
            },
            Register::BankData => {
                let bank = masked(self.target, val, self.prg_banks, self.chr_banks);
                self.banks = self.banks.with(self.target, bank);
            },
            Register::Mirroring => {
                self.mirroring = if val % 2 == 1 {
                    Mirroring::Horizontal
                } else {
                    Mirroring::Vertical
                };
            },
            Register::PrgRamProtect => {
                self.prg_ram_enabled = val >= 0x80;
            },
            Register::IrqLatch => {
                self.irq_latch = val;
            },
            Register::IrqReload => {
                self.irq_reload = true;
                self.irq_counter = 0;
            },
            Register::IrqDisable => {
                self.irq_enabled = false;
                self.irq_pending = false;
            },
            Register::IrqEnable => {
                self.irq_enabled = true;
            },
        }
    }

    /// One clock of the picture unit with A12 at `a12`.
    pub fn clock(&mut self, a12: bool)
        ensures
            *final(self) == old(self).spec_clock(a12),
            old(self).wf() ==> final(self).wf(),
    {
        if a12 && !self.last_a12 {
            if self.irq_counter == 0 || self.irq_reload {
                self.irq_counter = self.irq_latch;
                self.irq_reload = false;
            } else {
                self.irq_counter -= 1;
            }
            if self.irq_counter == 0 && self.irq_enabled {
                self.irq_pending = true;
            }
        }
        self.last_a12 = a12;
    }

    pub fn irq_pending(&self) -> (pending: bool)
        ensures
            pending == self.irq_pending,
    {
        self.irq_pending
    }

    pub fn mirroring(&self) -> (m: Mirroring)
        ensures
            m == self.mirroring,
    {
        self.mirroring
    }
}

/// The counter goes down by exactly one per scanline: `n` scanlines after
/// it stood at `c`, with no reload asked for and `n <= c`, it stands at
/// `c - n`. Nothing else changes but the level of A12, and the interrupt is
/// raised on the way exactly if the counter has arrived at zero with the
/// interrupt enabled.
pub proof fn lemma_counter_counts_scanlines(board: Mmc3, n: nat)
    requires
        !board.irq_reload,
        n <= board.irq_counter,
    ensures
        board.spec_scanlines(n).irq_counter == board.irq_counter - n,
        !board.spec_scanlines(n).irq_reload,
        board.spec_scanlines(n).irq_latch == board.irq_latch,
        board.spec_scanlines(n).irq_enabled == board.irq_enabled,
        board.spec_scanlines(n).irq_pending == (board.irq_pending || (n > 0 && n
            == board.irq_counter && board.irq_enabled)),
    decreases n,
{
    if n > 0 {
        lemma_counter_counts_scanlines(board, (n - 1) as nat);
    }
}

/// A bank register holds, after a write to it, a bank that the cartridge
/// has; the other bank registers keep their values.
pub proof fn lemma_written_bank_exists(board: Mmc3, addr: u16, val: u8, other: u8)
    requires
        addr >= 0x8000,
        board.wf(),
        spec_register(addr) == Register::BankData,
        other < 8,
    ensures
        board.target >= 6 && board.prg_banks > 0 ==> board.spec_write(addr, val).banks.spec_get(
            board.target,
        ) < board.prg_banks,
        board.target < 6 && board.chr_banks > 0 ==> board.spec_write(addr, val).banks.spec_get(
            board.target,
        ) < board.chr_banks,
        other != board.target ==> board.spec_write(addr, val).banks.spec_get(other)
            == board.banks.spec_get(other),
{
    if board.target >= 6 && board.prg_banks > 0 {
        vstd::arithmetic::div_mod::lemma_mod_decreases(val as nat, board.prg_banks as nat);
    }
    if board.target < 6 && board.chr_banks > 0 {
        vstd::arithmetic::div_mod::lemma_mod_decreases(val as nat, board.chr_banks as nat);
    }
}

/// Disabling the interrupt acknowledges it, and it stays down however many
/// scanlines pass until it is enabled again.
pub proof fn lemma_disabled_interrupt_stays_down(board: Mmc3, addr: u16, val: u8, n: nat)
    requires
        addr >= 0x8000,
        spec_register(addr) == Register::IrqDisable,
    ensures
        !board.spec_write(addr, val).spec_scanlines(n).irq_pending,
        !board.spec_write(addr, val).spec_scanlines(n).irq_enabled,
    decreases n,
{
    if n > 0 {
        lemma_disabled_interrupt_stays_down(board, addr, val, (n - 1) as nat);
    }
}


/// Bytes in one of the chip's banks of program ROM.
pub const PRG_BANK_LEN: usize = 8192;

/// Bytes in one of the chip's banks of character memory.
pub const CHR_BANK_LEN: usize = 1024;

/// The bank that is `back` banks before the end of `count` banks, or the
/// first where there are not so many.
pub open spec fn spec_from_end(count: u16, back: u16) -> int {
    if count > back {
        count - back - 1
    } else {
        0
    }
}

/// The 8 KiB bank of program ROM that `addr`, from `0x8000`, reaches.
///
/// The window at `0xA000` shows register 7 and the one at `0xE000` the
/// last bank. Register 6 and the last bank but one share the windows at
/// `0x8000` and `0xC000`, which way round the program mode says.
pub open spec fn spec_prg_bank_at(regs: Mmc3, addr: u16) -> int {
    let window = (addr - 0x8000) / 0x2000;
    if window == 1 {
        regs.banks.r7 as int
    } else if window == 3 {
        spec_from_end(regs.prg_banks, 0)
    } else if (window == 0) == regs.prg_mode {
        spec_from_end(regs.prg_banks, 1)
    } else {
        regs.banks.r6 as int
    }
}

/// The index into character ROM that `addr`, below `0x2000`, reaches.
///
/// Registers 0 and 1 each show 2 KiB, with their lowest bit ignored, and
/// registers 2 to 5 each 1 KiB. The 2 KiB windows are in the lower half
/// of the pattern tables, or in the upper half where the halves are
/// swapped.
pub open spec fn spec_chr_index(regs: Mmc3, addr: u16) -> int {
    let a: int = if regs.chr_invert {
        (addr + 0x1000) % 0x2000
    } else {
        addr as int
    };
    if a < 0x0800 {
        (regs.banks.r0 / 2) * 2 * CHR_BANK_LEN + a
    } else if a < 0x1000 {
        (regs.banks.r1 / 2) * 2 * CHR_BANK_LEN + (a - 0x0800)
    } else {
        regs.banks.spec_get((2 + (a - 0x1000) / 0x0400) as u8) * CHR_BANK_LEN + a % 0x0400
    }
}

/// The TxROM board.
#[derive(Debug, Clone)]
pub struct Txrom {
    pub cart: Cartridge,
    pub regs: Mmc3,
}

impl Txrom {
    /// The byte that `addr` reaches.
    pub open spec fn spec_read(&self, addr: u16) -> u8 {
        if addr < CHR_END {
            if self.cart.spec_chr_rom().len() > 0 {
                spec_byte(self.cart.spec_chr_rom(), spec_chr_index(self.regs, addr))
            } else {
                spec_byte(self.cart.spec_chr_ram(), addr as int)
            }
        } else if addr >= PRG_START {
            spec_byte(
                self.cart.spec_prg_rom(),
                spec_prg_bank_at(self.regs, addr) * PRG_BANK_LEN + addr % 0x2000,
            )
        } else {
            0
        }
    }

    /// The board at power-on.
    pub open spec fn spec_load(cart: Cartridge) -> Txrom {
        Txrom {
            cart,
            regs: Mmc3::spec_new(
                cart.spec_header().mirroring,
                (cart.spec_header().prg_banks * 2) as u16,
                (cart.spec_header().chr_banks * 8) as u16,
            ),
        }
    }

    /// The board at power-on, with the nametable layout of the header and
    /// no interrupt pending.
    pub fn load(cart: Cartridge) -> (board: Self)
        ensures
            board == Self::spec_load(cart),
            board.regs.wf(),
            !board.regs.irq_pending,
    {
        let header = cart.header();
        let regs = Mmc3::new(
            header.mirroring,
            header.prg_banks as u16 * 2,
            header.chr_banks as u16 * 8,
        );
        Txrom { cart, regs }
    }
}

impl Mapper for Txrom {
    fn read(&mut self, addr: u16) -> (val: u8)
        ensures
            val == old(self).spec_read(addr),
            *final(self) == *old(self),
    {
        let regs = self.regs;
        if addr < CHR_END {
            if self.cart.chr_rom().len() > 0 {
                let a: u16 = if regs.chr_invert {
                    (addr + 0x1000) % 0x2000
                } else {
                    addr
                };
                let index: usize = if a < 0x0800 {
                    (regs.banks.r0 / 2) as usize * 2 * CHR_BANK_LEN + a as usize
                } else if a < 0x1000 {
                    (regs.banks.r1 / 2) as usize * 2 * CHR_BANK_LEN + (a - 0x0800) as usize
                } else {
                    let target: u8 = (2 + (a - 0x1000) / 0x0400) as u8;
                    regs.banks.get(target) as usize * CHR_BANK_LEN + (a % 0x0400) as usize
                };
                byte_at(self.cart.chr_rom(), index)
            } else {
                byte_at(self.cart.chr_ram(), addr as usize)
            }
        } else if addr >= PRG_START {
            let window = (addr - 0x8000) / 0x2000;
            let bank: usize = if window == 1 {
                regs.banks.r7 as usize
            } else if window == 3 {
                if regs.prg_banks > 0 {
                    (regs.prg_banks - 1) as usize
                } else {
                    0
                }
            } else if (window == 0) == regs.prg_mode {
                if regs.prg_banks > 1 {
                    (regs.prg_banks - 2) as usize
                } else {
                    0
                }
            } else {
                regs.banks.r6 as usize
            };
            byte_at(self.cart.prg_rom(), bank * PRG_BANK_LEN + (addr % 0x2000) as usize)
        } else {
            0
        }
    }

    /// A write from `0x8000` goes to the registers, one to the pattern
    /// tables to character RAM.
    fn write(&mut self, addr: u16, val: u8)
        ensures
            addr >= PRG_START ==> final(self).cart == old(self).cart && final(self).regs == old(
                self,
            ).regs.spec_write(addr, val),
            addr < PRG_START ==> final(self).regs == old(self).regs && spec_chr_written(
                old(self).cart,
                final(self).cart,
                addr,
                val,
            ),
            old(self).regs.wf() ==> final(self).regs.wf(),
    {
        if addr >= PRG_START {
            self.regs.write(addr, val);
        } else {
            chr_write(&mut self.cart, addr, val);
        }
    }

    fn irq_pending(&self) -> (pending: bool)
        ensures
            pending == self.regs.irq_pending,
    {
        self.regs.irq_pending
    }

    fn mirroring(&self) -> (m: Mirroring)
        ensures
            m == self.regs.mirroring,
    {
        self.regs.mirroring
    }

    /// The scanline counter sees the level of A12: high on a rising edge,
    /// low otherwise.
    fn step(&mut self, dot: u16, scanline: i16, a12_rising: bool)
        ensures
            final(self).cart == old(self).cart,
            final(self).regs == if a12_rising {
                old(self).regs.spec_clock(false).spec_clock(true)
            } else {
                old(self).regs
            },
    {
        if a12_rising {
            self.regs.clock(false);
            self.regs.clock(true);
        }
    }

    fn cart(&self) -> (cart: &Cartridge)
        ensures
            *cart == self.cart,
    {
        &self.cart
    }

    fn cart_mut(&mut self) -> (cart: &mut Cartridge)
        ensures
            *cart == old(self).cart,
            final(self).cart == *final(cart),
            final(self).regs == old(self).regs,
    {
        &mut self.cart
    }
}

} // verus!
