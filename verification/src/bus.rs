//! The processor's view of memory: 2 KiB of work RAM mirrored through the
//! first 8 KiB of addresses, the registers of the picture and sound
//! units, the controller ports, and the cartridge.

use crate::nes::event::Kind;
use vstd::prelude::*;

verus! {

/// Bytes of work RAM.
pub const RAM_LEN: usize = 2048;

/// First address past the mirrors of work RAM.
pub const RAM_END: u16 = 0x2000;

/// Cycles that a sprite-memory transfer stalls the processor for when it
/// starts on an even cycle; on an odd cycle it takes one more.
pub const OAM_DMA_CYCLES: u16 = 513;

/// Whether the processor reads or writes.
#[derive(Debug, Copy, Clone, PartialEq, Eq, Structural)]
pub enum Access {
    Read,
    Write,
}

/// What an address of the processor reaches.
#[derive(Debug, Copy, Clone, PartialEq, Eq, Structural)]
pub enum Target {
    /// Work RAM, at this index.
    Ram { index: u16 },
    /// A register of the picture unit, by its number from 0 to 7.
    PpuRegister { register: u8 },
    /// A register of the sound unit.
    Apu { addr: u16 },
    /// The register that starts a transfer to sprite memory.
    OamDma,
    /// A controller port, 0 or 1: the strobe on writing, the state on
    /// reading.
    Controller { port: u8 },
    /// The cartridge's mapper.
    Mapper { addr: u16 },
    /// Nothing: a read gives the last value on the data bus.
    OpenBus,
}

/// What `addr` reaches on a read or a write.
///
/// `0x4017` is the second controller port when read and a register of the
/// sound unit when written; `0x4016` is a controller port either way.
pub open spec fn spec_decode(addr: u16, access: Access) -> Target {
    if addr < RAM_END {
        Target::Ram { index: addr % (RAM_LEN as u16) }
    } else if addr < 0x4000 {
        Target::PpuRegister { register: (addr % 8) as u8 }
    } else if addr == 0x4014 {
        Target::OamDma
    } else if addr == 0x4016 {
        Target::Controller { port: 0 }
    } else if addr == 0x4017 {
        if access == Access::Read {
            Target::Controller { port: 1 }
        } else {
            Target::Apu { addr }
        }
    } else if addr <= 0x4015 {
        Target::Apu { addr }
    } else if addr < 0x4020 {
        Target::OpenBus
    } else {
        Target::Mapper { addr }
    }
}

pub fn decode(addr: u16, access: Access) -> (target: Target)
    ensures
        target == spec_decode(addr, access),
{
    if addr < RAM_END {
        Target::Ram { index: addr % (RAM_LEN as u16) }
    } else if addr < 0x4000 {
        Target::PpuRegister { register: (addr % 8) as u8 }
    } else if addr == 0x4014 {
        Target::OamDma
    } else if addr == 0x4016 {
        Target::Controller { port: 0 }
    } else if addr == 0x4017 {
        match access {
            Access::Read => Target::Controller { port: 1 },
            Access::Write => Target::Apu { addr },
        }
    } else if addr <= 0x4015 {
        Target::Apu { addr }
    } else if addr < 0x4020 {
        Target::OpenBus
    } else {
        Target::Mapper { addr }
    }
}

/// Cycles that a transfer to sprite memory stalls the processor for when
/// it starts at cycle `cycle`.
pub open spec fn spec_oam_dma_stall(cycle: u64) -> int {
    if cycle % 2 == 1 {
        OAM_DMA_CYCLES + 1
    } else {
        OAM_DMA_CYCLES as int
    }
}

pub fn oam_dma_stall(cycle: u64) -> (stall: u16)
    ensures
        stall == spec_oam_dma_stall(cycle),
{
    if cycle % 2 == 1 {
        OAM_DMA_CYCLES + 1
    } else {
        OAM_DMA_CYCLES
    }
}

/// The first of the 256 addresses that a transfer to sprite memory
/// started by writing `page` copies from.
pub fn oam_dma_source(page: u8) -> (addr: u16)
    ensures
        addr == page * 256,
        addr + 255 <= u16::MAX,
{
    (page as u16) * 256
}

/// The byte of work RAM that `addr` reaches.
pub open spec fn spec_ram_read(ram: Seq<u8>, addr: u16) -> u8
    recommends
        ram.len() == RAM_LEN,
        addr < RAM_END,
{
    ram[(addr % (RAM_LEN as u16)) as int]
}

/// Work RAM after `val` is written at `addr`.
pub open spec fn spec_ram_write(ram: Seq<u8>, addr: u16, val: u8) -> Seq<u8>
    recommends
        ram.len() == RAM_LEN,
        addr < RAM_END,
{
    ram.update((addr % (RAM_LEN as u16)) as int, val)
}

/// Work RAM with every byte zero.
pub open spec fn spec_blank_ram() -> Seq<u8> {
    Seq::new(RAM_LEN as nat, |i: int| 0u8)
}

/// The memory that the processor owns or reaches directly: work RAM, the
/// cartridge's save RAM, and the last value on the data bus.
#[derive(Debug, Clone)]
pub struct Bus {
    ram: Vec<u8>,
    prg_ram: Vec<u8>,
    open_bus: u8,
}

impl Bus {
    pub closed spec fn spec_ram(&self) -> Seq<u8> {
        self.ram@
    }

    pub closed spec fn spec_prg_ram(&self) -> Seq<u8> {
        self.prg_ram@
    }

    pub closed spec fn spec_open_bus(&self) -> u8 {
        self.open_bus
    }

    /// Work RAM has its full size.
    pub open spec fn wf(&self) -> bool {
        self.spec_ram().len() == RAM_LEN
    }

    /// A powered-on bus: blank work RAM, the given save RAM, and zero on
    /// the data bus.
    pub fn new(prg_ram: Vec<u8>) -> (bus: Self)
        ensures
            bus.wf(),
            bus.spec_ram() == spec_blank_ram(),
            bus.spec_prg_ram() == prg_ram@,
            bus.spec_open_bus() == 0,
    {
        Bus { ram: blank_ram(), prg_ram, open_bus: 0 }
    }

    /// A bus with the given memory, as a saved state holds it.
    pub fn from_parts(ram: Vec<u8>, prg_ram: Vec<u8>, open_bus: u8) -> (bus: Self)
        requires
            ram@.len() == RAM_LEN,
        ensures
            bus.wf(),
            bus.spec_ram() == ram@,
            bus.spec_prg_ram() == prg_ram@,
            bus.spec_open_bus() == open_bus,
    {
        Bus { ram, prg_ram, open_bus }
    }

    /// Reads work RAM through any of its mirrors.
    pub fn read_ram(&mut self, addr: u16) -> (val: u8)
        requires
            old(self).wf(),
            addr < RAM_END,
        ensures
            final(self).wf(),
            val == spec_ram_read(old(self).spec_ram(), addr),
            final(self).spec_ram() == old(self).spec_ram(),
            final(self).spec_prg_ram() == old(self).spec_prg_ram(),
            final(self).spec_open_bus() == val,
    {
        let val = self.ram[(addr % (RAM_LEN as u16)) as usize];
        self.open_bus = val;
        val
    }

    /// Writes work RAM through any of its mirrors.
    pub fn write_ram(&mut self, addr: u16, val: u8)
        requires
            old(self).wf(),
            addr < RAM_END,
        ensures
            final(self).wf(),
            final(self).spec_ram() == spec_ram_write(old(self).spec_ram(), addr, val),
            final(self).spec_prg_ram() == old(self).spec_prg_ram(),
            final(self).spec_open_bus() == val,
    {
        self.ram.set((addr % (RAM_LEN as u16)) as usize, val);
        self.open_bus = val;
    }

    /// Reads an address that nothing answers to: the value last on the
    /// data bus.
    pub fn read_open_bus(&self) -> (val: u8)
        ensures
            val == self.spec_open_bus(),
    {
        self.open_bus
    }

    /// A soft reset leaves memory as it is. A hard reset blanks work RAM;
    /// save RAM outlives both.
    pub fn reset(&mut self, kind: Kind)
        requires
            old(self).wf(),
        ensures
            final(self).wf(),
            final(self).spec_prg_ram() == old(self).spec_prg_ram(),
            final(self).spec_open_bus() == old(self).spec_open_bus(),
            final(self).spec_ram() == if kind == Kind::Hard {
                spec_blank_ram()
            } else {
                old(self).spec_ram()
            },
    {
        match kind {
            Kind::Soft => {},
            Kind::Hard => {
                self.ram = blank_ram();
            },
        }
    }

    pub fn ram(&self) -> (ram: &Vec<u8>)
        ensures
            ram@ == self.spec_ram(),
    {
        &self.ram
    }

    pub fn prg_ram(&self) -> (ram: &Vec<u8>)
        ensures
            ram@ == self.spec_prg_ram(),
    {
        &self.prg_ram
    }
}

fn blank_ram() -> (ram: Vec<u8>)
    ensures
        ram@ == spec_blank_ram(),
{
    let mut ram: Vec<u8> = Vec::new();
    let mut i: usize = 0;
    while i < RAM_LEN
        invariant
            i <= RAM_LEN,
            ram@ == Seq::new(i as nat, |j: int| 0u8),
        decreases RAM_LEN - i,
    {
        ram.push(0);
        i += 1;
        assert(ram@ =~= Seq::new(i as nat, |j: int| 0u8));
    }
    ram
}

/// Work RAM is mirrored every 2 KiB: a byte written at one address is
/// read back at every address below `0x2000` that differs from it by a
/// multiple of 2 KiB, and at no other.
pub proof fn lemma_ram_is_mirrored(ram: Seq<u8>, written: u16, val: u8, read: u16)
    requires
        ram.len() == RAM_LEN,
        written < RAM_END,
        read < RAM_END,
    ensures
        read % 2048 == written % 2048 ==> spec_ram_read(spec_ram_write(ram, written, val), read)
            == val,
        read % 2048 != written % 2048 ==> spec_ram_read(spec_ram_write(ram, written, val), read)
            == spec_ram_read(ram, read),
        spec_ram_write(ram, written, val).len() == RAM_LEN,
{
}

/// Every address below `0x2000` reaches work RAM, and two of them reach
/// the same byte exactly when they differ by a multiple of 2 KiB.
pub proof fn lemma_ram_mirrors_decode_alike(a: u16, b: u16, access: Access)
    requires
        a < RAM_END,
        b < RAM_END,
    ensures
        spec_decode(a, access) is Ram,
        (spec_decode(a, access) == spec_decode(b, access)) <==> (a % 2048 == b % 2048),
{
}

/// The registers of the picture unit repeat every 8 bytes up to `0x3FFF`.
pub proof fn lemma_ppu_registers_are_mirrored(addr: u16, access: Access)
    requires
        0x2000 <= addr < 0x4000,
    ensures
        spec_decode(addr, access) == spec_decode((0x2000 + addr % 8) as u16, access),
{
}

} // verus!
