//! SxROM (MMC1): four registers loaded one bit at a time through a 5-bit
//! shift register, which select the banks of program ROM and character
//! memory and the nametable layout.

use crate::mapper::nrom::{chr_write, spec_chr_written, CHR_END, PRG_START};
use crate::mapper::{byte_at, spec_byte, Cartridge, Mapper, Mirroring, PRG_BANK_LEN};
use vstd::prelude::*;

verus! {

/// Writes that fill the shift register.
pub const SHIFT_WIDTH: u8 = 5;

/// The bits that a reset sets in the control register: the program ROM
/// mode that fixes the last bank.
pub const CONTROL_RESET: u8 = 0x0C;

/// The register that a full shift register is committed to.
#[derive(Debug, Copy, Clone, PartialEq, Eq, Structural)]
pub enum Target {
    Control,
    ChrBank0,
    ChrBank1,
    PrgBank,
}

/// The state of the board's registers.
#[derive(Debug, Copy, Clone, PartialEq, Eq, Structural)]
pub struct Mmc1 {
    /// The bits shifted in so far, the first in bit 0.
    pub shift: u8,
    /// How many bits have been shifted in, 0 to 4.
    pub count: u8,
    pub control: u8,
    pub chr_bank0: u8,
    pub chr_bank1: u8,
    pub prg_bank: u8,
    /// The processor cycle of the last write that was not ignored.
    pub last_write: Option<u64>,
    /// 16 KiB banks of program ROM on the cartridge.
    pub prg_banks: u8,
    /// 4 KiB banks of character memory on the cartridge.
    pub chr_banks: u8,
}

/// The register that bits 14 and 13 of `addr` select.
pub open spec fn spec_target(addr: u16) -> Target
    recommends
        addr >= 0x8000,
{
    if addr < 0xA000 {
        Target::Control
    } else if addr < 0xC000 {
        Target::ChrBank0
    } else if addr < 0xE000 {
        Target::ChrBank1
    } else {
        Target::PrgBank
    }
}

/// `index` wrapped to `count` banks; 0 where there is no bank.
pub open spec fn spec_wrap(index: u8, count: u8) -> u8 {
    if count > 0 {
        index % count
    } else {
        0
    }
}

/// Whether `index` names one of `count` banks; without banks only 0 does.
pub open spec fn spec_in_range(index: u8, count: u8) -> bool {
    if count > 0 {
        index < count
    } else {
        index == 0
    }
}

pub fn target(addr: u16) -> (t: Target)
    requires
        addr >= 0x8000,
    ensures
        t == spec_target(addr),
{
    if addr < 0xA000 {
        Target::Control
    } else if addr < 0xC000 {
        Target::ChrBank0
    } else if addr < 0xE000 {
        Target::ChrBank1
    } else {
        Target::PrgBank
    }
}

pub fn wrap(index: u8, count: u8) -> (bank: u8)
    ensures
        bank == spec_wrap(index, count),
        count > 0 ==> bank < count,
{
    if count > 0 {
        index % count
    } else {
        0
    }
}

impl Mmc1 {
    /// The shift register is not yet full, and every bank register names
    /// a bank that the cartridge has.
    pub open spec fn wf(self) -> bool {
        &&& self.count < SHIFT_WIDTH
        &&& spec_in_range(self.prg_bank, self.prg_banks)
        &&& spec_in_range(self.chr_bank0, self.chr_banks)
        &&& spec_in_range(self.chr_bank1, self.chr_banks)
    }

    /// The shift register with the lowest bit of `val` shifted in.
    pub open spec fn spec_shifted(self, val: u8) -> u8 {
        self.shift | ((val & 1u8) << self.count)
    }

    /// The board with `value` committed to `target` and the shift
    /// register empty. Bank numbers are wrapped to the banks that the
    /// cartridge has.
    pub open spec fn spec_commit(self, target: Target, value: u8) -> Mmc1 {
        match target {
            Target::Control => Mmc1 { control: value, shift: 0, count: 0, ..self },
            Target::ChrBank0 => Mmc1 {
                chr_bank0: spec_wrap(value, self.chr_banks),
                shift: 0,
                count: 0,
                ..self
            },
            Target::ChrBank1 => Mmc1 {
                chr_bank1: spec_wrap(value, self.chr_banks),
                shift: 0,
                count: 0,
                ..self
            },
            Target::PrgBank => Mmc1 {
                prg_bank: spec_wrap(value, self.prg_banks),
                shift: 0,
                count: 0,
                ..self
            },
        }
    }

    /// The board after `val` is written to `addr` at processor cycle
    /// `cycle`, for `addr` from `0x8000`.
    ///
    /// A write in the cycle of the write before it is ignored. A write
    /// with bit 7 set empties the shift register and sets the reset bits
    /// of the control register. Any other write shifts its lowest bit in,
    /// and the fifth of them commits the five bits to the register that
    /// its address selects.
    pub open spec fn spec_write(self, addr: u16, val: u8, cycle: u64) -> Mmc1
        recommends
            addr >= 0x8000,
            self.wf(),
    {
        if self.last_write == Some(cycle) {
            self
        } else if val >= 0x80 {
            Mmc1 {
                shift: 0,
                count: 0,
                control: self.control | CONTROL_RESET,
                last_write: Some(cycle),
                ..self
            }
        } else if self.count == SHIFT_WIDTH - 1 {
            Mmc1 { last_write: Some(cycle), ..self }.spec_commit(
                spec_target(addr),
                self.spec_shifted(val),
            )
        } else {
            Mmc1 {
                shift: self.spec_shifted(val),
                count: (self.count + 1) as u8,
                last_write: Some(cycle),
                ..self
            }
        }
    }

    /// The nametable layout that the control register selects.
    pub open spec fn spec_mirroring(self) -> Mirroring {
        if self.control % 4 == 0 {
            Mirroring::SingleScreen0
        } else if self.control % 4 == 1 {
            Mirroring::SingleScreen1
        } else if self.control % 4 == 2 {
            Mirroring::Vertical
        } else {
            Mirroring::Horizontal
        }
    }

    /// The board at power-on, for a cartridge with the given numbers of
    /// banks.
    pub fn new(prg_banks: u8, chr_banks: u8) -> (board: Self)
        ensures
            board.wf(),
            board == (Mmc1 {
                shift: 0,
                count: 0,
                control: CONTROL_RESET,
                chr_bank0: 0,
                chr_bank1: 0,
                prg_bank: 0,
                last_write: None,
                prg_banks,
                chr_banks,
            }),
    {
        Mmc1 {
            shift: 0,
            count: 0,
            control: CONTROL_RESET,
            chr_bank0: 0,
            chr_bank1: 0,
            prg_bank: 0,
            last_write: None,
            prg_banks,
            chr_banks,
        }
    }

    pub fn write(self, addr: u16, val: u8, cycle: u64) -> (next: Mmc1)
        requires
            addr >= 0x8000,
            self.wf(),
        ensures
            next == self.spec_write(addr, val, cycle),
            next.wf(),
    {
        if self.last_write == Some(cycle) {
            return self;
        }
        if val >= 0x80 {
            return Mmc1 {
                shift: 0,
                count: 0,
                control: self.control | CONTROL_RESET,
                last_write: Some(cycle),
                ..self
            };
        }
        let shifted: u8 = self.shift | ((val & 1u8) << self.count);
        if self.count == SHIFT_WIDTH - 1 {
            let base = Mmc1 { last_write: Some(cycle), ..self };
            match target(addr) {
                Target::Control => Mmc1 { control: shifted, shift: 0, count: 0, ..base },
                Target::ChrBank0 => Mmc1 {
                    chr_bank0: wrap(shifted, self.chr_banks),
                    shift: 0,
                    count: 0,
                    ..base
                },
                Target::ChrBank1 => Mmc1 {
                    chr_bank1: wrap(shifted, self.chr_banks),
                    shift: 0,
                    count: 0,
                    ..base
                },
                Target::PrgBank => Mmc1 {
                    prg_bank: wrap(shifted, self.prg_banks),
                    shift: 0,
                    count: 0,
                    ..base
                },
            }
        } else {
            Mmc1 { shift: shifted, count: self.count + 1, last_write: Some(cycle), ..self }
        }
    }

    pub fn mirroring(&self) -> (m: Mirroring)
        ensures
            m == self.spec_mirroring(),
    {
        match self.control % 4 {
            0 => Mirroring::SingleScreen0,
            1 => Mirroring::SingleScreen1,
            2 => Mirroring::Vertical,
            _ => Mirroring::Horizontal,
        }
    }
}

/// After any write the bank registers name banks that the cartridge has.
pub proof fn lemma_banks_stay_in_range(board: Mmc1, addr: u16, val: u8, cycle: u64)
    requires
        addr >= 0x8000,
        board.wf(),
    ensures
        board.spec_write(addr, val, cycle).wf(),
        board.prg_banks > 0 ==> board.spec_write(addr, val, cycle).prg_bank < board.prg_banks,
        board.chr_banks > 0 ==> board.spec_write(addr, val, cycle).chr_bank0 < board.chr_banks,
        board.chr_banks > 0 ==> board.spec_write(addr, val, cycle).chr_bank1 < board.chr_banks,
{
}

/// A write with bit 7 set, in a cycle of its own, empties the shift
/// register and leaves both reset bits of the control register set.
pub proof fn lemma_reset_write(board: Mmc1, addr: u16, val: u8, cycle: u64)
    requires
        addr >= 0x8000,
        val >= 0x80,
        board.last_write != Some(cycle),
    ensures
        board.spec_write(addr, val, cycle).count == 0,
        board.spec_write(addr, val, cycle).shift == 0,
        board.spec_write(addr, val, cycle).control & CONTROL_RESET == CONTROL_RESET,
{
    let c = board.control;
    assert((c | 0x0Cu8) & 0x0Cu8 == 0x0Cu8) by (bit_vector);
}

/// A second write in the same cycle changes nothing.
pub proof fn lemma_same_cycle_write_is_ignored(board: Mmc1, addr: u16, a: u8, b: u8, cycle: u64)
    requires
        addr >= 0x8000,
        board.last_write != Some(cycle),
    ensures
        board.spec_write(addr, a, cycle).spec_write(addr, b, cycle) == board.spec_write(
            addr,
            a,
            cycle,
        ),
{
}


/// Bytes in one of the chip's banks of character memory.
pub const CHR_BANK_LEN: usize = 4096;

/// The number of 4 KiB banks that `chr_banks` banks of 8 KiB make, as far
/// as a bank register can tell them apart.
pub open spec fn spec_chr_bank_count(chr_banks: u8) -> u8 {
    if chr_banks >= 16 {
        32
    } else {
        (chr_banks * 2) as u8
    }
}

/// The 16 KiB bank of program ROM that `addr`, from `0x8000`, reaches.
///
/// Bits 2 and 3 of the control register give the mode: 0 and 1 switch
/// 32 KiB at once, 2 fixes the first bank at `0x8000` and switches the
/// window at `0xC000`, 3 switches the window at `0x8000` and fixes the
/// last bank at `0xC000`.
pub open spec fn spec_prg_bank_at(regs: Mmc1, addr: u16) -> int {
    let mode = (regs.control / 4) % 4;
    let high = addr >= 0xC000;
    if mode < 2 {
        (regs.prg_bank / 2) * 2 + if high {
            1int
        } else {
            0int
        }
    } else if mode == 2 {
        if high {
            regs.prg_bank as int
        } else {
            0
        }
    } else {
        if !high {
            regs.prg_bank as int
        } else if regs.prg_banks > 0 {
            regs.prg_banks - 1
        } else {
            0
        }
    }
}

/// The 4 KiB bank of character ROM that `addr`, below `0x2000`, reaches.
/// Bit 4 of the control register tells whether the two halves are
/// switched apart or as one 8 KiB bank.
pub open spec fn spec_chr_bank_at(regs: Mmc1, addr: u16) -> int {
    let high = addr >= 0x1000;
    if (regs.control / 16) % 2 == 1 {
        if high {
            regs.chr_bank1 as int
        } else {
            regs.chr_bank0 as int
        }
    } else {
        (regs.chr_bank0 / 2) * 2 + if high {
            1int
        } else {
            0int
        }
    }
}

impl Mmc1 {
    /// Whether the registers are in range.
    pub fn is_wf(&self) -> (ok: bool)
        ensures
            ok == self.wf(),
    {
        self.count < SHIFT_WIDTH && Self::in_range(self.prg_bank, self.prg_banks) && Self::in_range(
            self.chr_bank0,
            self.chr_banks,
        ) && Self::in_range(self.chr_bank1, self.chr_banks)
    }

    fn in_range(index: u8, count: u8) -> (ok: bool)
        ensures
            ok == spec_in_range(index, count),
    {
        if count > 0 {
            index < count
        } else {
            index == 0
        }
    }
}

/// The SxROM board.
#[derive(Debug, Clone)]
pub struct Sxrom {
    pub cart: Cartridge,
    pub regs: Mmc1,
    /// The processor cycle of the access under way, which the bus sets
    /// before it writes.
    pub cycle: u64,
}

impl Sxrom {
    /// The byte that `addr` reaches.
    pub open spec fn spec_read(&self, addr: u16) -> u8 {
        if addr < CHR_END {
            if self.cart.spec_chr_rom().len() > 0 {
                spec_byte(
                    self.cart.spec_chr_rom(),
                    spec_chr_bank_at(self.regs, addr) * CHR_BANK_LEN + addr % 0x1000,
                )
            } else {
                spec_byte(self.cart.spec_chr_ram(), addr as int)
            }
        } else if addr >= PRG_START {
            spec_byte(
                self.cart.spec_prg_rom(),
                spec_prg_bank_at(self.regs, addr) * PRG_BANK_LEN + addr % 0x4000,
            )
        } else {
            0
        }
    }

    /// The board at power-on.
    pub open spec fn spec_load(cart: Cartridge) -> Sxrom {
        Sxrom {
            cart,
            regs: Mmc1 {
                shift: 0,
                count: 0,
                control: CONTROL_RESET,
                chr_bank0: 0,
                chr_bank1: 0,
                prg_bank: 0,
                last_write: None,
                prg_banks: cart.spec_header().prg_banks,
                chr_banks: spec_chr_bank_count(cart.spec_header().chr_banks),
            },
            cycle: 0,
        }
    }

    /// The board at power-on, with the last bank fixed at `0xC000`.
    pub fn load(cart: Cartridge) -> (board: Self)
        ensures
            board == Self::spec_load(cart),
            board.regs.wf(),
    {
        let header = cart.header();
        let chr_banks: u8 = if header.chr_banks >= 16 {
            32
        } else {
            header.chr_banks * 2
        };
        Sxrom { cart, regs: Mmc1::new(header.prg_banks, chr_banks), cycle: 0 }
    }
}

impl Mapper for Sxrom {
    fn read(&mut self, addr: u16) -> (val: u8)
        ensures
            val == old(self).spec_read(addr),
            *final(self) == *old(self),
    {
        let regs = self.regs;
        if addr < CHR_END {
            if self.cart.chr_rom().len() > 0 {
                let high = addr >= 0x1000;
                let bank: usize = if (regs.control / 16) % 2 == 1 {
                    if high {
                        regs.chr_bank1 as usize
                    } else {
                        regs.chr_bank0 as usize
                    }
                } else {
                    (regs.chr_bank0 / 2) as usize * 2 + if high {
                        1usize
                    } else {
                        0usize
                    }
                };
                byte_at(self.cart.chr_rom(), bank * CHR_BANK_LEN + (addr % 0x1000) as usize)
            } else {
                byte_at(self.cart.chr_ram(), addr as usize)
            }
        } else if addr >= PRG_START {
            let mode = (regs.control / 4) % 4;
            let high = addr >= 0xC000;
            let bank: usize = if mode < 2 {
                (regs.prg_bank / 2) as usize * 2 + if high {
                    1usize
                } else {
                    0usize
                }
            } else if mode == 2 {
                if high {
                    regs.prg_bank as usize
                } else {
                    0
                }
            } else {
                if !high {
                    regs.prg_bank as usize
                } else if regs.prg_banks > 0 {
                    (regs.prg_banks - 1) as usize
                } else {
                    0
                }
            };
            byte_at(self.cart.prg_rom(), bank * PRG_BANK_LEN + (addr % 0x4000) as usize)
        } else {
            0
        }
    }

    /// A write from `0x8000` goes to the registers, at the cycle that the
    /// board was told; registers out of range are left alone. A write to
    /// the pattern tables goes to character RAM.
    fn write(&mut self, addr: u16, val: u8)
        ensures
            final(self).cycle == old(self).cycle,
            addr >= PRG_START ==> final(self).cart == old(self).cart && final(self).regs == if old(
                self,
            ).regs.wf() {
                old(self).regs.spec_write(addr, val, old(self).cycle)
            } else {
                old(self).regs
            },
            addr < PRG_START ==> final(self).regs == old(self).regs && spec_chr_written(
                old(self).cart,
                final(self).cart,
                addr,
                val,
            ),
            old(self).regs.wf() ==> final(self).regs.wf(),
    {
        if addr >= PRG_START {
            if self.regs.is_wf() {
                self.regs = self.regs.write(addr, val, self.cycle);
            }
        } else {
            chr_write(&mut self.cart, addr, val);
        }
    }

    fn irq_pending(&self) -> (pending: bool)
        ensures
            !pending,
    {
        false
    }

    fn mirroring(&self) -> (m: Mirroring)
        ensures
            m == self.regs.spec_mirroring(),
    {
        self.regs.mirroring()
    }

    fn step(&mut self, dot: u16, scanline: i16, a12_rising: bool)
        ensures
            *final(self) == *old(self),
    {
    }

    fn cart(&self) -> (cart: &Cartridge)
        ensures
            *cart == self.cart,
    {
        &self.cart
    }

    fn cart_mut(&mut self) -> (cart: &mut Cartridge)
        ensures
            *cart == old(self).cart,
            final(self).cart == *final(cart),
            final(self).regs == old(self).regs,
            final(self).cycle == old(self).cycle,
    {
        &mut self.cart
    }
}

} // verus!
