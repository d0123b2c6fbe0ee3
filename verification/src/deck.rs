//! The console's state in one place, and its saved states.

use crate::apu::{FrameCounter, FrameMode};
use crate::bus::Bus;
use crate::cpu::Cpu;
use crate::mapper::board::Board;
use crate::mapper::Mapper;
use crate::mapper::{
    lemma_chr_ram_fits, load_rom, spec_header, spec_load_error, spec_mapper_kind, RomError,
};
use crate::nes::event::Kind;
use crate::ppu::PpuClock;
use crate::savestate::{
    lemma_load_undoes_save_of_snapshot, lemma_loaded_snapshot_is_wf, spec_load_snapshot,
    spec_save_snapshot, Snapshot, SnapshotView, StateError,
};
use vstd::prelude::*;

verus! {

/// The console: the processor, the picture unit's position, memory, the
/// sound unit's frame counter, and the cartridge on its board.
#[derive(Debug, Clone)]
pub struct ControlDeck {
    pub cpu: Cpu,
    pub ppu: PpuClock,
    pub bus: Bus,
    pub frame_counter: FrameCounter,
    pub board: Board,
}

fn copy(src: &Vec<u8>) -> (out: Vec<u8>)
    ensures
        out@ == src@,
{
    let mut out: Vec<u8> = Vec::new();
    let mut i: usize = 0;
    while i < src.len()
        invariant
            i <= src@.len(),
            out@ == src@.take(i as int),
        decreases src@.len() - i,
    {
        out.push(src[i]);
        i += 1;
        assert(out@ =~= src@.take(i as int));
    }
    assert(src@.take(i as int) =~= src@);
    out
}

impl ControlDeck {
    /// Memory has its full size and the picture unit is inside the frame.
    pub open spec fn wf(&self) -> bool {
        &&& self.bus.wf()
        &&& self.ppu.wf()
    }

    /// All of the console's state that changes while it runs: everything
    /// but the cartridge's header and ROMs.
    pub open spec fn spec_snapshot(&self) -> SnapshotView {
        SnapshotView {
            cpu: self.cpu,
            ppu: self.ppu,
            open_bus: self.bus.spec_open_bus(),
            frame_counter: self.frame_counter,
            mapper: self.board.spec_state(),
            ram: self.bus.spec_ram(),
            chr_ram: self.board.spec_cart().spec_chr_ram(),
            prg_ram: self.bus.spec_prg_ram(),
        }
    }

    /// The snapshot that `bytes` hold for this console: one that a saved
    /// state of this version holds, taken with a board of this console's
    /// kind and with as much character RAM as this cartridge has.
    pub open spec fn spec_loadable(&self, bytes: Seq<u8>) -> Option<SnapshotView> {
        match spec_load_snapshot(bytes) {
            Ok(v) => if v.mapper.spec_kind() == self.board.spec_kind() && v.chr_ram.len()
                == self.board.spec_cart().spec_chr_ram().len() {
                Some(v)
            } else {
                None
            },
            Err(_) => None,
        }
    }

    /// A console at power-on with `board` in it: blank work RAM, the given
    /// save RAM, the picture unit at the start of frame 0, and the
    /// processor about to run from `target`.
    pub fn power_on(board: Board, prg_ram: Vec<u8>, target: u16) -> (deck: Self)
        ensures
            deck.wf(),
            deck.board == board,
            deck.bus.spec_ram() == crate::bus::spec_blank_ram(),
            deck.bus.spec_prg_ram() == prg_ram@,
            deck.bus.spec_open_bus() == 0,
            deck.ppu == (PpuClock { scanline: crate::ppu::PRE_RENDER, dot: 0, frame: 0 }),
            deck.frame_counter == (FrameCounter {
                mode: FrameMode::FourStep,
                step: 0,
                irq_inhibit: false,
            }),
            deck.cpu == (Cpu {
                a: 0,
                x: 0,
                y: 0,
                s: 0xFD,
                p: crate::cpu::FLAG_I,
                pc: target,
                cycle: 0,
            }),
    {
        ControlDeck {
            cpu: Cpu { a: 0, x: 0, y: 0, s: 0xFD, p: crate::cpu::FLAG_I, pc: target, cycle: 0 },
            ppu: PpuClock::new(),
            bus: Bus::new(prg_ram),
            frame_counter: FrameCounter::new(FrameMode::FourStep, false),
            board,
        }
    }

    /// Replaces the cartridge and its board by those of the image `bytes`.
    /// An image that is refused leaves the console as it is.
    pub fn load_rom(&mut self, bytes: &[u8]) -> (r: Result<(), RomError>)
        ensures
            final(self).cpu == old(self).cpu,
            final(self).ppu == old(self).ppu,
            final(self).bus == old(self).bus,
            final(self).frame_counter == old(self).frame_counter,
            match spec_load_error(bytes@) {
                Some(e) => r is Err && r->Err_0 == e && final(self).board == old(self).board,
                None => {
                    &&& r is Ok
                    &&& Some(final(self).board.spec_kind()) == spec_mapper_kind(
                        spec_header(bytes@).mapper_num,
                    )
                    &&& final(self).board == Board::spec_power_on(
                        final(self).board.spec_kind(),
                        final(self).board.spec_cart(),
                    )
                    &&& final(self).board.spec_cart().is_image_of(bytes@)
                    &&& !final(self).board.spec_irq_pending()
                },
            },
    {
        match load_rom(bytes) {
            Ok(board) => {
                self.board = board;
                Ok(())
            },
            Err(e) => Err(e),
        }
    }

    /// The console after a reset that finds `target` in the reset vector.
    ///
    /// A soft reset touches the processor only, and leaves work RAM and
    /// save RAM as they are. A hard reset also blanks work RAM, restarts
    /// the picture unit, the frame counter and the cycle counter, and puts
    /// the board's registers back to power-on; save RAM outlives it.
    pub open spec fn spec_reset(&self, kind: Kind, target: u16, after: ControlDeck) -> bool {
        &&& after.cpu == self.cpu.spec_reset(kind, target)
        &&& after.bus.spec_prg_ram() == self.bus.spec_prg_ram()
        &&& after.bus.spec_open_bus() == self.bus.spec_open_bus()
        &&& after.bus.wf()
        &&& if kind == Kind::Hard {
            &&& after.bus.spec_ram() == crate::bus::spec_blank_ram()
            &&& after.ppu == (PpuClock { scanline: crate::ppu::PRE_RENDER, dot: 0, frame: 0 })
            &&& after.frame_counter == (FrameCounter {
                mode: FrameMode::FourStep,
                step: 0,
                irq_inhibit: false,
            })
            &&& after.board == Board::spec_power_on(self.board.spec_kind(), self.board.spec_cart())
        } else {
            &&& after.bus.spec_ram() == self.bus.spec_ram()
            &&& after.ppu == self.ppu
            &&& after.frame_counter == self.frame_counter
            &&& after.board == self.board
        }
    }

    /// Resets the console.
    pub fn reset(&mut self, kind: Kind, target: u16)
        requires
            old(self).bus.wf(),
        ensures
            old(self).spec_reset(kind, target, *final(self)),
    {
        self.cpu.reset(kind, target);
        self.bus.reset(kind);
        match kind {
            Kind::Soft => {},
            Kind::Hard => {
                self.ppu = PpuClock::new();
                self.frame_counter = FrameCounter::new(FrameMode::FourStep, false);
                self.board.power_cycle();
            },
        }
    }

    /// The console's state as a saved state.
    pub fn save_state(&self) -> (bytes: Vec<u8>)
        requires
            self.wf(),
        ensures
            bytes@ == spec_save_snapshot(self.spec_snapshot()),
    {
        let snapshot = Snapshot {
            cpu: self.cpu,
            ppu: self.ppu,
            open_bus: self.bus.read_open_bus(),
            frame_counter: self.frame_counter,
            mapper: self.board.state(),
            ram: copy(self.bus.ram()),
            chr_ram: copy(self.board.cart().chr_ram()),
            prg_ram: copy(self.bus.prg_ram()),
        };
        assert(snapshot.chr_ram@.len() == snapshot.chr_ram.len());
        snapshot.save()
    }

    /// Puts the console into the state that `bytes` hold, character RAM
    /// included. The cartridge's header and ROMs stay. Bytes that hold no
    /// state for this console are refused, and the console stays as it is.
    pub fn load_state(&mut self, bytes: &Vec<u8>) -> (r: Result<(), StateError>)
        ensures
            match old(self).spec_loadable(bytes@) {
                Some(v) => {
                    &&& r is Ok
                    &&& final(self).spec_snapshot() == v
                    &&& old(self).board.spec_cart().spec_with_chr_ram(
                        v.chr_ram,
                        final(self).board.spec_cart(),
                    )
                    &&& final(self).board.spec_kind() == old(self).board.spec_kind()
                    &&& final(self).wf()
                },
                None => {
                    &&& r is Err
                    &&& r->Err_0 == StateError::IncompatibleSaveState
                    &&& *final(self) == *old(self)
                },
            },
    {
        let snapshot = match Snapshot::load(bytes) {
            Ok(snapshot) => snapshot,
            Err(e) => {
                return Err(e);
            },
        };
        proof {
            lemma_loaded_snapshot_is_wf(bytes@);
        }
        if snapshot.mapper.kind() != self.board.kind() || snapshot.chr_ram.len()
            != self.board.cart().chr_ram().len() {
            return Err(StateError::IncompatibleSaveState);
        }
        self.board.set_state(snapshot.mapper);
        self.board.set_chr_ram(snapshot.chr_ram);
        self.cpu = snapshot.cpu;
        self.ppu = snapshot.ppu;
        self.frame_counter = snapshot.frame_counter;
        self.bus = Bus::from_parts(snapshot.ram, snapshot.prg_ram, snapshot.open_bus);
        Ok(())
    }
}

/// A saved state of a console puts any console with a board of the same
/// kind and as much character RAM into the state that was saved:
/// registers, position in the frame, work RAM, save RAM, character RAM,
/// frame counter and the board's registers. What was written to any of
/// them after the save is gone.
pub proof fn lemma_saved_state_restores(saved: ControlDeck, target: ControlDeck)
    requires
        saved.wf(),
        target.board.spec_kind() == saved.board.spec_kind(),
        target.board.spec_cart().spec_chr_ram().len() == saved.board.spec_cart().spec_chr_ram().len(),
    ensures
        target.spec_loadable(spec_save_snapshot(saved.spec_snapshot())) == Some(
            saved.spec_snapshot(),
        ),
{
    lemma_chr_ram_fits(saved.board.spec_cart());
    lemma_load_undoes_save_of_snapshot(saved.spec_snapshot());
}

} // verus!
