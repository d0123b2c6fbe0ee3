//! The envelope of a saved state: four magic bytes, a four-byte version,
//! then the state itself as the host serialised it.

use crate::apu::{FrameCounter, FrameMode};
use crate::bus::RAM_LEN;
use crate::cpu::Cpu;
use crate::mapper::board::MapperState;
use crate::mapper::sxrom::Mmc1;
use crate::mapper::txrom::{Banks, Mmc3};
use crate::mapper::Mirroring;
use crate::ppu::{PpuClock, DOTS_PER_SCANLINE, SCANLINES_PER_FRAME};
use vstd::bytes::{
    lemma_auto_spec_u16_to_from_le_bytes, lemma_auto_spec_u64_to_from_le_bytes,
    spec_u16_from_le_bytes, spec_u16_to_le_bytes, spec_u64_from_le_bytes, spec_u64_to_le_bytes,
    u16_from_le_bytes, u16_to_le_bytes, u64_from_le_bytes, u64_to_le_bytes,
};
use vstd::prelude::*;

verus! {

/// Bytes before the state: the magic and the version.
pub const ENVELOPE_LEN: usize = 8;

/// The version of the format that this library writes and reads.
pub const VERSION: u32 = 1;

/// Why a saved state was refused.
#[derive(Debug, Copy, Clone, PartialEq, Eq, Structural)]
pub enum StateError {
    /// The bytes are no saved state, or one of another version.
    IncompatibleSaveState,
}

/// The magic bytes: `N`, `E`, `S`, `S`.
pub open spec fn spec_magic() -> Seq<u8> {
    seq![0x4Eu8, 0x45u8, 0x53u8, 0x53u8]
}

/// The version, low byte first.
pub open spec fn spec_version_bytes() -> Seq<u8> {
    seq![1u8, 0u8, 0u8, 0u8]
}

/// The saved state that holds `payload`.
pub open spec fn spec_save(payload: Seq<u8>) -> Seq<u8> {
    spec_magic() + spec_version_bytes() + payload
}

/// Whether `bytes` starts with the magic and this version.
pub open spec fn spec_compatible(bytes: Seq<u8>) -> bool {
    &&& bytes.len() >= ENVELOPE_LEN
    &&& bytes.subrange(0, 4) == spec_magic()
    &&& bytes.subrange(4, 8) == spec_version_bytes()
}

/// The state inside `bytes`, or the reason for which there is none.
pub open spec fn spec_load(bytes: Seq<u8>) -> Result<Seq<u8>, StateError> {
    if spec_compatible(bytes) {
        Ok(bytes.subrange(ENVELOPE_LEN as int, bytes.len() as int))
    } else {
        Err(StateError::IncompatibleSaveState)
    }
}

/// Puts `payload` into an envelope.
pub fn save_state(payload: &Vec<u8>) -> (bytes: Vec<u8>)
    ensures
        bytes@ == spec_save(payload@),
{
    let mut bytes: Vec<u8> = Vec::new();
    bytes.push(0x4E);
    bytes.push(0x45);
    bytes.push(0x53);
    bytes.push(0x53);
    bytes.push(1);
    bytes.push(0);
    bytes.push(0);
    bytes.push(0);
    assert(bytes@ =~= spec_magic() + spec_version_bytes());
    let mut i: usize = 0;
    while i < payload.len()
        invariant
            i <= payload@.len(),
            bytes@ == spec_magic() + spec_version_bytes() + payload@.take(i as int),
        decreases payload@.len() - i,
    {
        bytes.push(payload[i]);
        i += 1;
        assert(bytes@ =~= spec_magic() + spec_version_bytes() + payload@.take(i as int));
    }
    assert(payload@.take(i as int) =~= payload@);
    bytes
}

/// Takes the state out of its envelope.
pub fn load_state(bytes: &Vec<u8>) -> (r: Result<Vec<u8>, StateError>)
    ensures
        match spec_load(bytes@) {
            Ok(payload) => r is Ok && r->Ok_0@ == payload,
            Err(e) => r == Err::<Vec<u8>, StateError>(e),
        },
{
    if bytes.len() < ENVELOPE_LEN {
        return Err(StateError::IncompatibleSaveState);
    }
    let compatible = bytes[0] == 0x4E && bytes[1] == 0x45 && bytes[2] == 0x53 && bytes[3] == 0x53
        && bytes[4] == 1 && bytes[5] == 0 && bytes[6] == 0 && bytes[7] == 0;
    proof {
        if compatible {
            assert(bytes@.subrange(0, 4) =~= spec_magic());
            assert(bytes@.subrange(4, 8) =~= spec_version_bytes());
        } else {
            if spec_compatible(bytes@) {
                assert(bytes@.subrange(0, 4)[0] == bytes@[0]);
                assert(bytes@.subrange(0, 4)[1] == bytes@[1]);
                assert(bytes@.subrange(0, 4)[2] == bytes@[2]);
                assert(bytes@.subrange(0, 4)[3] == bytes@[3]);
                assert(bytes@.subrange(4, 8)[0] == bytes@[4]);
                assert(bytes@.subrange(4, 8)[1] == bytes@[5]);
                assert(bytes@.subrange(4, 8)[2] == bytes@[6]);
                assert(bytes@.subrange(4, 8)[3] == bytes@[7]);
            }
        }
    }
    if !compatible {
        return Err(StateError::IncompatibleSaveState);
    }
    let mut payload: Vec<u8> = Vec::new();
    let mut i: usize = ENVELOPE_LEN;
    while i < bytes.len()
        invariant
            ENVELOPE_LEN <= i <= bytes@.len(),
            payload@ == bytes@.subrange(ENVELOPE_LEN as int, i as int),
        decreases bytes@.len() - i,
    {
        payload.push(bytes[i]);
        i += 1;
        assert(payload@ =~= bytes@.subrange(ENVELOPE_LEN as int, i as int));
    }
    Ok(payload)
}

/// Saving and then loading gives back the state, byte for byte.
pub proof fn lemma_load_undoes_save(payload: Seq<u8>)
    ensures
        spec_load(spec_save(payload)) == Ok::<Seq<u8>, StateError>(payload),
{
    let bytes = spec_save(payload);
    assert(bytes.subrange(0, 4) =~= spec_magic());
    assert(bytes.subrange(4, 8) =~= spec_version_bytes());
    assert(bytes.subrange(ENVELOPE_LEN as int, bytes.len() as int) =~= payload);
}

/// A state of another version is refused, whatever it holds.
pub proof fn lemma_other_version_is_refused(bytes: Seq<u8>)
    requires
        bytes.len() >= ENVELOPE_LEN,
        bytes[4] != 1 || bytes[5] != 0 || bytes[6] != 0 || bytes[7] != 0,
    ensures
        spec_load(bytes) == Err::<Seq<u8>, StateError>(StateError::IncompatibleSaveState),
{
    if spec_compatible(bytes) {
        assert(bytes.subrange(4, 8)[0] == bytes[4]);
        assert(bytes.subrange(4, 8)[1] == bytes[5]);
        assert(bytes.subrange(4, 8)[2] == bytes[6]);
        assert(bytes.subrange(4, 8)[3] == bytes[7]);
    }
}


/// Bytes that the registers, the picture unit's position, the data bus,
/// the frame counter, the mapper's registers, work RAM and the length of
/// character RAM take in a snapshot; character RAM and save RAM follow
/// them.
pub const FIXED_LEN: usize = 2113;

/// Where work RAM ends in a snapshot, and the length of character RAM
/// starts.
pub const RAM_END: usize = 2105;

/// Bytes that the mapper's registers take, whatever the board.
pub const MAPPER_LEN: usize = 26;

/// Where work RAM starts in a snapshot.
pub const RAM_START: usize = 57;

/// The part of the console's state that a saved state holds.
#[derive(Debug, Clone)]
pub struct Snapshot {
    pub cpu: Cpu,
    pub ppu: PpuClock,
    /// The last value on the data bus.
    pub open_bus: u8,
    /// The sound unit's frame counter.
    pub frame_counter: FrameCounter,
    /// The registers of the cartridge's board.
    pub mapper: MapperState,
    pub ram: Vec<u8>,
    /// The cartridge's character RAM; empty where it has character ROM.
    pub chr_ram: Vec<u8>,
    pub prg_ram: Vec<u8>,
}

/// A snapshot as a value.
pub struct SnapshotView {
    pub cpu: Cpu,
    pub ppu: PpuClock,
    pub open_bus: u8,
    pub frame_counter: FrameCounter,
    pub mapper: MapperState,
    pub ram: Seq<u8>,
    pub chr_ram: Seq<u8>,
    pub prg_ram: Seq<u8>,
}

impl View for Snapshot {
    type V = SnapshotView;

    open spec fn view(&self) -> SnapshotView {
        SnapshotView {
            cpu: self.cpu,
            ppu: self.ppu,
            open_bus: self.open_bus,
            frame_counter: self.frame_counter,
            mapper: self.mapper,
            ram: self.ram@,
            chr_ram: self.chr_ram@,
            prg_ram: self.prg_ram@,
        }
    }
}

impl SnapshotView {
    /// Work RAM has its full size, the picture unit is inside the frame,
    /// and the length of character RAM can be written down.
    pub open spec fn wf(self) -> bool {
        &&& self.ram.len() == RAM_LEN
        &&& self.ppu.wf()
        &&& self.chr_ram.len() <= u64::MAX
    }
}

/// A flag as a byte: 1 for set, 0 for clear.
pub open spec fn spec_flag(b: bool) -> u8 {
    if b {
        1
    } else {
        0
    }
}

/// `n` zero bytes.
pub open spec fn spec_zeros(n: nat) -> Seq<u8> {
    Seq::new(n, |i: int| 0u8)
}

/// A nametable layout as a byte.
pub open spec fn spec_mirroring_tag(m: Mirroring) -> u8 {
    match m {
        Mirroring::Horizontal => 0,
        Mirroring::Vertical => 1,
        Mirroring::SingleScreen0 => 2,
        Mirroring::SingleScreen1 => 3,
        Mirroring::FourScreen => 4,
    }
}

/// The nametable layout that a byte up to 4 stands for.
pub open spec fn spec_mirroring_of(tag: u8) -> Mirroring {
    if tag == 0 {
        Mirroring::Horizontal
    } else if tag == 1 {
        Mirroring::Vertical
    } else if tag == 2 {
        Mirroring::SingleScreen0
    } else if tag == 3 {
        Mirroring::SingleScreen1
    } else {
        Mirroring::FourScreen
    }
}

/// The registers as bytes: A, X, Y, S, P, then the program counter and
/// the cycle counter, low byte first.
pub open spec fn spec_cpu_bytes(cpu: Cpu) -> Seq<u8> {
    seq![cpu.a, cpu.x, cpu.y, cpu.s, cpu.p] + spec_u16_to_le_bytes(cpu.pc) + spec_u64_to_le_bytes(
        cpu.cycle,
    )
}

/// The picture unit's position as bytes: the scanline counted from the
/// pre-render scanline, the dot, and the frame, low byte first.
pub open spec fn spec_ppu_bytes(ppu: PpuClock) -> Seq<u8> {
    spec_u16_to_le_bytes((ppu.scanline + 1) as u16) + spec_u16_to_le_bytes(ppu.dot)
        + spec_u64_to_le_bytes(ppu.frame)
}

/// The frame counter as bytes: the mode (0 for four steps, 1 for five),
/// the step, and the interrupt-inhibit flag.
pub open spec fn spec_frame_counter_bytes(fc: FrameCounter) -> Seq<u8> {
    seq![spec_flag(fc.mode == FrameMode::FiveStep), fc.step, spec_flag(fc.irq_inhibit)]
}

/// The frame counter that three bytes hold, if the first names a mode.
pub open spec fn spec_frame_counter_of(b: Seq<u8>) -> Option<FrameCounter>
    recommends
        b.len() == 3,
{
    if b[0] > 1 {
        None
    } else {
        Some(
            FrameCounter {
                mode: if b[0] == 1 {
                    FrameMode::FiveStep
                } else {
                    FrameMode::FourStep
                },
                step: b[1],
                irq_inhibit: b[2] != 0,
            },
        )
    }
}

/// The MMC1 registers as 25 bytes: the registers, whether a write has
/// been seen, the bank counts, then the cycle of the last write and the
/// cycle of the access under way, low byte first.
pub open spec fn spec_mmc1_bytes(r: Mmc1, cycle: u64) -> Seq<u8> {
    seq![
        r.shift,
        r.count,
        r.control,
        r.chr_bank0,
        r.chr_bank1,
        r.prg_bank,
        spec_flag(r.last_write is Some),
        r.prg_banks,
        r.chr_banks,
    ] + spec_u64_to_le_bytes(
        if r.last_write is Some {
            r.last_write->Some_0
        } else {
            0
        },
    ) + spec_u64_to_le_bytes(cycle)
}

/// The MMC3 registers as 23 bytes: the bank-select target, the eight
/// bank registers, the nametable layout, seven flags, the interrupt
/// latch and counter, then the two bank counts, low byte first.
pub open spec fn spec_mmc3_bytes(r: Mmc3) -> Seq<u8> {
    seq![
        r.target,
        r.banks.r0,
        r.banks.r1,
        r.banks.r2,
        r.banks.r3,
        r.banks.r4,
        r.banks.r5,
        r.banks.r6,
        r.banks.r7,
        spec_mirroring_tag(r.mirroring),
        spec_flag(r.prg_ram_enabled),
        spec_flag(r.irq_reload),
        spec_flag(r.irq_enabled),
        spec_flag(r.irq_pending),
        spec_flag(r.last_a12),
        spec_flag(r.prg_mode),
        spec_flag(r.chr_invert),
        r.irq_latch,
        r.irq_counter,
    ] + spec_u16_to_le_bytes(r.prg_banks) + spec_u16_to_le_bytes(r.chr_banks)
}

/// A board's registers as 26 bytes: the kind of the board, its
/// registers, and zeros to fill.
pub open spec fn spec_mapper_bytes(m: MapperState) -> Seq<u8> {
    match m {
        MapperState::Nrom => seq![0u8] + spec_zeros(25),
        MapperState::Sxrom { mmc1, cycle } => seq![1u8] + spec_mmc1_bytes(mmc1, cycle),
        MapperState::Uxrom { prg_bank } => seq![2u8, prg_bank] + spec_zeros(24),
        MapperState::Cnrom { chr_bank } => seq![3u8, chr_bank] + spec_zeros(24),
        MapperState::Txrom { mmc3 } => seq![4u8] + spec_mmc3_bytes(mmc3) + spec_zeros(2),
    }
}

/// The MMC1 registers that 26 bytes of a board hold.
pub open spec fn spec_mmc1_of(b: Seq<u8>) -> Mmc1 {
    Mmc1 {
        shift: b[1],
        count: b[2],
        control: b[3],
        chr_bank0: b[4],
        chr_bank1: b[5],
        prg_bank: b[6],
        last_write: if b[7] != 0 {
            Some(spec_u64_from_le_bytes(b.subrange(10, 18)))
        } else {
            None
        },
        prg_banks: b[8],
        chr_banks: b[9],
    }
}

/// The MMC3 registers that 26 bytes of a board hold.
pub open spec fn spec_mmc3_of(b: Seq<u8>) -> Mmc3 {
    Mmc3 {
        target: b[1],
        banks: Banks {
            r0: b[2],
            r1: b[3],
            r2: b[4],
            r3: b[5],
            r4: b[6],
            r5: b[7],
            r6: b[8],
            r7: b[9],
        },
        mirroring: spec_mirroring_of(b[10]),
        prg_ram_enabled: b[11] != 0,
        irq_reload: b[12] != 0,
        irq_enabled: b[13] != 0,
        irq_pending: b[14] != 0,
        last_a12: b[15] != 0,
        prg_mode: b[16] != 0,
        chr_invert: b[17] != 0,
        irq_latch: b[18],
        irq_counter: b[19],
        prg_banks: spec_u16_from_le_bytes(b.subrange(20, 22)),
        chr_banks: spec_u16_from_le_bytes(b.subrange(22, 24)),
    }
}

/// The registers that 26 bytes hold, if the first names a board and, on
/// a TxROM board, the layout byte names a layout.
pub open spec fn spec_mapper_of(b: Seq<u8>) -> Option<MapperState>
    recommends
        b.len() == MAPPER_LEN,
{
    if b[0] == 0 {
        Some(MapperState::Nrom)
    } else if b[0] == 1 {
        Some(
            MapperState::Sxrom {
                mmc1: spec_mmc1_of(b),
                cycle: spec_u64_from_le_bytes(b.subrange(18, 26)),
            },
        )
    } else if b[0] == 2 {
        Some(MapperState::Uxrom { prg_bank: b[1] })
    } else if b[0] == 3 {
        Some(MapperState::Cnrom { chr_bank: b[1] })
    } else if b[0] == 4 && b[10] <= 4 {
        Some(MapperState::Txrom { mmc3: spec_mmc3_of(b) })
    } else {
        None
    }
}

/// A snapshot as bytes: the registers, the picture unit's position, the
/// data bus, the frame counter, the board's registers, work RAM, the
/// length of character RAM in eight bytes, character RAM, and save RAM.
#[verifier::opaque]
pub open spec fn spec_encode(v: SnapshotView) -> Seq<u8> {
    spec_cpu_bytes(v.cpu) + spec_ppu_bytes(v.ppu) + seq![v.open_bus] + spec_frame_counter_bytes(
        v.frame_counter,
    ) + spec_mapper_bytes(v.mapper) + v.ram + spec_u64_to_le_bytes(v.chr_ram.len() as u64)
        + v.chr_ram + v.prg_ram
}

/// The snapshot that `bytes` holds, if they hold one.
#[verifier::opaque]
pub open spec fn spec_decode(bytes: Seq<u8>) -> Option<SnapshotView> {
    if bytes.len() < FIXED_LEN {
        None
    } else {
        let line = spec_u16_from_le_bytes(bytes.subrange(15, 17));
        let dot = spec_u16_from_le_bytes(bytes.subrange(17, 19));
        let fc = spec_frame_counter_of(bytes.subrange(28, 31));
        let mapper = spec_mapper_of(bytes.subrange(31, RAM_START as int));
        let chr_len = spec_u64_from_le_bytes(bytes.subrange(RAM_END as int, FIXED_LEN as int));
        if line >= SCANLINES_PER_FRAME || dot >= DOTS_PER_SCANLINE || fc is None || mapper is None
            || chr_len > bytes.len() - FIXED_LEN {
            None
        } else {
            Some(
                SnapshotView {
                    cpu: Cpu {
                        a: bytes[0],
                        x: bytes[1],
                        y: bytes[2],
                        s: bytes[3],
                        p: bytes[4],
                        pc: spec_u16_from_le_bytes(bytes.subrange(5, 7)),
                        cycle: spec_u64_from_le_bytes(bytes.subrange(7, 15)),
                    },
                    ppu: PpuClock {
                        scanline: (line - 1) as i16,
                        dot,
                        frame: spec_u64_from_le_bytes(bytes.subrange(19, 27)),
                    },
                    open_bus: bytes[27],
                    frame_counter: fc->Some_0,
                    mapper: mapper->Some_0,
                    ram: bytes.subrange(RAM_START as int, RAM_END as int),
                    chr_ram: bytes.subrange(FIXED_LEN as int, FIXED_LEN + chr_len),
                    prg_ram: bytes.subrange(FIXED_LEN + chr_len, bytes.len() as int),
                },
            )
        }
    }
}

/// The saved state that holds the snapshot `v`.
pub open spec fn spec_save_snapshot(v: SnapshotView) -> Seq<u8> {
    spec_save(spec_encode(v))
}

/// The snapshot inside the saved state `bytes`, or the reason for which
/// there is none.
pub open spec fn spec_load_snapshot(bytes: Seq<u8>) -> Result<SnapshotView, StateError> {
    match spec_load(bytes) {
        Ok(payload) => match spec_decode(payload) {
            Some(v) => Ok(v),
            None => Err(StateError::IncompatibleSaveState),
        },
        Err(e) => Err(e),
    }
}

fn flag(b: bool) -> (byte: u8)
    ensures
        byte == spec_flag(b),
{
    if b {
        1
    } else {
        0
    }
}

fn append(out: &mut Vec<u8>, src: &Vec<u8>)
    ensures
        final(out)@ == old(out)@ + src@,
{
    let mut i: usize = 0;
    while i < src.len()
        invariant
            i <= src@.len(),
            out@ == old(out)@ + src@.take(i as int),
        decreases src@.len() - i,
    {
        out.push(src[i]);
        i += 1;
        assert(out@ =~= old(out)@ + src@.take(i as int));
    }
    assert(src@.take(i as int) =~= src@);
}

fn pad(out: &mut Vec<u8>, n: usize)
    ensures
        final(out)@ == old(out)@ + spec_zeros(n as nat),
{
    let mut i: usize = 0;
    while i < n
        invariant
            i <= n,
            out@ == old(out)@ + spec_zeros(i as nat),
        decreases n - i,
    {
        out.push(0);
        i += 1;
        assert(out@ =~= old(out)@ + spec_zeros(i as nat));
    }
}

fn cut(bytes: &Vec<u8>, from: usize, to: usize) -> (out: Vec<u8>)
    requires
        from <= to <= bytes@.len(),
    ensures
        out@ == bytes@.subrange(from as int, to as int),
{
    let mut out: Vec<u8> = Vec::new();
    let mut i: usize = from;
    while i < to
        invariant
            from <= i <= to <= bytes@.len(),
            out@ == bytes@.subrange(from as int, i as int),
        decreases to - i,
    {
        out.push(bytes[i]);
        i += 1;
        assert(out@ =~= bytes@.subrange(from as int, i as int));
    }
    out
}

fn mmc1_bytes(r: Mmc1, cycle: u64) -> (out: Vec<u8>)
    ensures
        out@ == spec_mmc1_bytes(r, cycle),
{
    let mut out: Vec<u8> = Vec::new();
    out.push(r.shift);
    out.push(r.count);
    out.push(r.control);
    out.push(r.chr_bank0);
    out.push(r.chr_bank1);
    out.push(r.prg_bank);
    out.push(flag(r.last_write.is_some()));
    out.push(r.prg_banks);
    out.push(r.chr_banks);
    assert(out@ =~= seq![
        r.shift,
        r.count,
        r.control,
        r.chr_bank0,
        r.chr_bank1,
        r.prg_bank,
        spec_flag(r.last_write is Some),
        r.prg_banks,
        r.chr_banks,
    ]);
    let last: u64 = match r.last_write {
        Some(c) => c,
        None => 0,
    };
    append(&mut out, &u64_to_le_bytes(last));
    append(&mut out, &u64_to_le_bytes(cycle));
    out
}

#[verifier::rlimit(40)]
fn mmc3_bytes(r: Mmc3) -> (out: Vec<u8>)
    ensures
        out@ == spec_mmc3_bytes(r),
{
    let mut out: Vec<u8> = Vec::new();
    out.push(r.target);
    out.push(r.banks.r0);
    out.push(r.banks.r1);
    out.push(r.banks.r2);
    out.push(r.banks.r3);
    out.push(r.banks.r4);
    out.push(r.banks.r5);
    out.push(r.banks.r6);
    out.push(r.banks.r7);
    out.push(mirroring_tag(r.mirroring));
    out.push(flag(r.prg_ram_enabled));
    out.push(flag(r.irq_reload));
    out.push(flag(r.irq_enabled));
    out.push(flag(r.irq_pending));
    out.push(flag(r.last_a12));
    out.push(flag(r.prg_mode));
    out.push(flag(r.chr_invert));
    out.push(r.irq_latch);
    out.push(r.irq_counter);
    assert(out@ =~= seq![
        r.target,
        r.banks.r0,
        r.banks.r1,
        r.banks.r2,
        r.banks.r3,
        r.banks.r4,
        r.banks.r5,
        r.banks.r6,
        r.banks.r7,
        spec_mirroring_tag(r.mirroring),
        spec_flag(r.prg_ram_enabled),
        spec_flag(r.irq_reload),
        spec_flag(r.irq_enabled),
        spec_flag(r.irq_pending),
        spec_flag(r.last_a12),
        spec_flag(r.prg_mode),
        spec_flag(r.chr_invert),
        r.irq_latch,
        r.irq_counter,
    ]);
    append(&mut out, &u16_to_le_bytes(r.prg_banks));
    append(&mut out, &u16_to_le_bytes(r.chr_banks));
    out
}

/// A board's registers as bytes.
pub fn mapper_bytes(m: MapperState) -> (out: Vec<u8>)
    ensures
        out@ == spec_mapper_bytes(m),
{
    let mut out: Vec<u8> = Vec::new();
    match m {
        MapperState::Nrom => {
            out.push(0);
            assert(out@ =~= seq![0u8]);
            pad(&mut out, 25);
        },
        MapperState::Sxrom { mmc1, cycle } => {
            out.push(1);
            assert(out@ =~= seq![1u8]);
            append(&mut out, &mmc1_bytes(mmc1, cycle));
        },
        MapperState::Uxrom { prg_bank } => {
            out.push(2);
            out.push(prg_bank);
            assert(out@ =~= seq![2u8, prg_bank]);
            pad(&mut out, 24);
        },
        MapperState::Cnrom { chr_bank } => {
            out.push(3);
            out.push(chr_bank);
            assert(out@ =~= seq![3u8, chr_bank]);
            pad(&mut out, 24);
        },
        MapperState::Txrom { mmc3 } => {
            out.push(4);
            assert(out@ =~= seq![4u8]);
            append(&mut out, &mmc3_bytes(mmc3));
            pad(&mut out, 2);
        },
    }
    out
}

fn mirroring_tag(m: Mirroring) -> (tag: u8)
    ensures
        tag == spec_mirroring_tag(m),
{
    match m {
        Mirroring::Horizontal => 0,
        Mirroring::Vertical => 1,
        Mirroring::SingleScreen0 => 2,
        Mirroring::SingleScreen1 => 3,
        Mirroring::FourScreen => 4,
    }
}

fn mirroring_of(tag: u8) -> (m: Mirroring)
    ensures
        m == spec_mirroring_of(tag),
{
    if tag == 0 {
        Mirroring::Horizontal
    } else if tag == 1 {
        Mirroring::Vertical
    } else if tag == 2 {
        Mirroring::SingleScreen0
    } else if tag == 3 {
        Mirroring::SingleScreen1
    } else {
        Mirroring::FourScreen
    }
}

/// The registers that 26 bytes hold, if they hold a board's.
pub fn mapper_of(b: &Vec<u8>) -> (m: Option<MapperState>)
    requires
        b@.len() == MAPPER_LEN,
    ensures
        m == spec_mapper_of(b@),
{
    let tag = b[0];
    if tag == 0 {
        Some(MapperState::Nrom)
    } else if tag == 1 {
        let last_write = if b[7] != 0 {
            Some(u64_from_le_bytes(cut(b, 10, 18).as_slice()))
        } else {
            None
        };
        Some(
            MapperState::Sxrom {
                mmc1: Mmc1 {
                    shift: b[1],
                    count: b[2],
                    control: b[3],
                    chr_bank0: b[4],
                    chr_bank1: b[5],
                    prg_bank: b[6],
                    last_write,
                    prg_banks: b[8],
                    chr_banks: b[9],
                },
                cycle: u64_from_le_bytes(cut(b, 18, 26).as_slice()),
            },
        )
    } else if tag == 2 {
        Some(MapperState::Uxrom { prg_bank: b[1] })
    } else if tag == 3 {
        Some(MapperState::Cnrom { chr_bank: b[1] })
    } else if tag == 4 && b[10] <= 4 {
        Some(
            MapperState::Txrom {
                mmc3: Mmc3 {
                    target: b[1],
                    banks: Banks {
                        r0: b[2],
                        r1: b[3],
                        r2: b[4],
                        r3: b[5],
                        r4: b[6],
                        r5: b[7],
                        r6: b[8],
                        r7: b[9],
                    },
                    mirroring: mirroring_of(b[10]),
                    prg_ram_enabled: b[11] != 0,
                    irq_reload: b[12] != 0,
                    irq_enabled: b[13] != 0,
                    irq_pending: b[14] != 0,
                    last_a12: b[15] != 0,
                    prg_mode: b[16] != 0,
                    chr_invert: b[17] != 0,
                    irq_latch: b[18],
                    irq_counter: b[19],
                    prg_banks: u16_from_le_bytes(cut(b, 20, 22).as_slice()),
                    chr_banks: u16_from_le_bytes(cut(b, 22, 24).as_slice()),
                },
            },
        )
    } else {
        None
    }
}

impl Snapshot {
    /// The snapshot as bytes.
    pub fn encode(&self) -> (bytes: Vec<u8>)
        requires
            self@.wf(),
        ensures
            bytes@ == spec_encode(self@),
    {
        reveal(spec_encode);
        let mut out: Vec<u8> = Vec::new();
        out.push(self.cpu.a);
        out.push(self.cpu.x);
        out.push(self.cpu.y);
        out.push(self.cpu.s);
        out.push(self.cpu.p);
        assert(out@ =~= seq![self.cpu.a, self.cpu.x, self.cpu.y, self.cpu.s, self.cpu.p]);
        append(&mut out, &u16_to_le_bytes(self.cpu.pc));
        append(&mut out, &u64_to_le_bytes(self.cpu.cycle));
        let line: u16 = (self.ppu.scanline + 1) as u16;
        append(&mut out, &u16_to_le_bytes(line));
        append(&mut out, &u16_to_le_bytes(self.ppu.dot));
        append(&mut out, &u64_to_le_bytes(self.ppu.frame));
        out.push(self.open_bus);
        let five = match self.frame_counter.mode {
            FrameMode::FiveStep => true,
            FrameMode::FourStep => false,
        };
        out.push(flag(five));
        out.push(self.frame_counter.step);
        out.push(flag(self.frame_counter.irq_inhibit));
        append(&mut out, &mapper_bytes(self.mapper));
        append(&mut out, &self.ram);
        append(&mut out, &u64_to_le_bytes(self.chr_ram.len() as u64));
        append(&mut out, &self.chr_ram);
        append(&mut out, &self.prg_ram);
        assert(out@ =~= spec_encode(self@));
        out
    }

    /// The snapshot that `bytes` holds, if they hold one.
    pub fn decode(bytes: &Vec<u8>) -> (r: Option<Snapshot>)
        ensures
            match spec_decode(bytes@) {
                Some(v) => r is Some && r->Some_0@ == v,
                None => r is None,
            },
    {
        reveal(spec_decode);
        if bytes.len() < FIXED_LEN {
            return None;
        }
        let line = u16_from_le_bytes(cut(bytes, 15, 17).as_slice());
        let dot = u16_from_le_bytes(cut(bytes, 17, 19).as_slice());
        let fc = cut(bytes, 28, 31);
        let mapper = mapper_of(&cut(bytes, 31, RAM_START));
        let chr_len = u64_from_le_bytes(cut(bytes, RAM_END, FIXED_LEN).as_slice());
        if line >= SCANLINES_PER_FRAME || dot >= DOTS_PER_SCANLINE || fc[0] > 1 || chr_len > (
        bytes.len() - FIXED_LEN) as u64 {
            return None;
        }
        let chr_end: usize = FIXED_LEN + chr_len as usize;
        let mapper = match mapper {
            Some(m) => m,
            None => {
                return None;
            },
        };
        Some(
            Snapshot {
                cpu: Cpu {
                    a: bytes[0],
                    x: bytes[1],
                    y: bytes[2],
                    s: bytes[3],
                    p: bytes[4],
                    pc: u16_from_le_bytes(cut(bytes, 5, 7).as_slice()),
                    cycle: u64_from_le_bytes(cut(bytes, 7, 15).as_slice()),
                },
                ppu: PpuClock {
                    scanline: line as i16 - 1,
                    dot,
                    frame: u64_from_le_bytes(cut(bytes, 19, 27).as_slice()),
                },
                open_bus: bytes[27],
                frame_counter: FrameCounter {
                    mode: if fc[0] == 1 {
                        FrameMode::FiveStep
                    } else {
                        FrameMode::FourStep
                    },
                    step: fc[1],
                    irq_inhibit: fc[2] != 0,
                },
                mapper,
                ram: cut(bytes, RAM_START, RAM_END),
                chr_ram: cut(bytes, FIXED_LEN, chr_end),
                prg_ram: cut(bytes, chr_end, bytes.len()),
            },
        )
    }

    /// The saved state that holds this snapshot.
    pub fn save(&self) -> (bytes: Vec<u8>)
        requires
            self@.wf(),
        ensures
            bytes@ == spec_save_snapshot(self@),
    {
        let payload = self.encode();
        save_state(&payload)
    }

    /// The snapshot inside a saved state. A state of another version, or
    /// one that is too short for what it announces, names a position
    /// outside the frame, or names no frame-counter mode, board or
    /// nametable layout, is refused.
    pub fn load(bytes: &Vec<u8>) -> (r: Result<Snapshot, StateError>)
        ensures
            match spec_load_snapshot(bytes@) {
                Ok(v) => r is Ok && r->Ok_0@ == v,
                Err(e) => r is Err && r->Err_0 == e,
            },
    {
        match load_state(bytes) {
            Ok(payload) => match Snapshot::decode(&payload) {
                Some(snapshot) => Ok(snapshot),
                None => Err(StateError::IncompatibleSaveState),
            },
            Err(e) => Err(e),
        }
    }
}

/// The frame counter comes back from its bytes.
pub proof fn lemma_frame_counter_round_trips(fc: FrameCounter)
    ensures
        spec_frame_counter_bytes(fc).len() == 3,
        spec_frame_counter_of(spec_frame_counter_bytes(fc)) == Some(fc),
{
}

/// A board's registers take 26 bytes and come back from them.
pub proof fn lemma_mapper_round_trips(m: MapperState)
    ensures
        spec_mapper_bytes(m).len() == MAPPER_LEN,
        spec_mapper_of(spec_mapper_bytes(m)) == Some(m),
{
    lemma_auto_spec_u16_to_from_le_bytes();
    lemma_auto_spec_u64_to_from_le_bytes();
    let b = spec_mapper_bytes(m);
    match m {
        MapperState::Sxrom { mmc1, cycle } => {
            let last: u64 = if mmc1.last_write is Some {
                mmc1.last_write->Some_0
            } else {
                0
            };
            assert(b.subrange(10, 18) =~= spec_u64_to_le_bytes(last));
            assert(b.subrange(18, 26) =~= spec_u64_to_le_bytes(cycle));
            assert(spec_mmc1_of(b) == mmc1);
        },
        MapperState::Txrom { mmc3 } => {
            assert(b.subrange(20, 22) =~= spec_u16_to_le_bytes(mmc3.prg_banks));
            assert(b.subrange(22, 24) =~= spec_u16_to_le_bytes(mmc3.chr_banks));
            assert(spec_mirroring_of(spec_mirroring_tag(mmc3.mirroring)) == mmc3.mirroring);
            assert(spec_mmc3_of(b) == mmc3);
        },
        _ => {},
    }
}

/// A snapshot that comes out of a saved state has work RAM of full size
/// and a position inside the frame.
pub proof fn lemma_loaded_snapshot_is_wf(bytes: Seq<u8>)
    requires
        spec_load_snapshot(bytes) is Ok,
    ensures
        spec_load_snapshot(bytes)->Ok_0.wf(),
{
    reveal(spec_decode);
}

/// Decoding the bytes of a snapshot gives back the snapshot.
pub proof fn lemma_decode_undoes_encode(v: SnapshotView)
    requires
        v.wf(),
    ensures
        spec_encode(v).len() == FIXED_LEN + v.chr_ram.len() + v.prg_ram.len(),
        spec_decode(spec_encode(v)) == Some(v),
{
    reveal(spec_encode);
    reveal(spec_decode);
    lemma_auto_spec_u16_to_from_le_bytes();
    lemma_auto_spec_u64_to_from_le_bytes();
    lemma_frame_counter_round_trips(v.frame_counter);
    lemma_mapper_round_trips(v.mapper);
    let b = spec_encode(v);
    let line = (v.ppu.scanline + 1) as u16;
    assert(b.len() == FIXED_LEN + v.chr_ram.len() + v.prg_ram.len());
    assert(b.subrange(5, 7) =~= spec_u16_to_le_bytes(v.cpu.pc));
    assert(b.subrange(7, 15) =~= spec_u64_to_le_bytes(v.cpu.cycle));
    assert(b.subrange(15, 17) =~= spec_u16_to_le_bytes(line));
    assert(b.subrange(17, 19) =~= spec_u16_to_le_bytes(v.ppu.dot));
    assert(b.subrange(19, 27) =~= spec_u64_to_le_bytes(v.ppu.frame));
    assert(b.subrange(28, 31) =~= spec_frame_counter_bytes(v.frame_counter));
    assert(b.subrange(31, RAM_START as int) =~= spec_mapper_bytes(v.mapper));
    let chr_len = v.chr_ram.len() as u64;
    assert(b.subrange(RAM_START as int, RAM_END as int) =~= v.ram);
    assert(b.subrange(RAM_END as int, FIXED_LEN as int) =~= spec_u64_to_le_bytes(chr_len));
    assert(b.subrange(FIXED_LEN as int, FIXED_LEN + chr_len) =~= v.chr_ram);
    assert(b.subrange(FIXED_LEN + chr_len, b.len() as int) =~= v.prg_ram);
    assert(b[0] == v.cpu.a && b[1] == v.cpu.x && b[2] == v.cpu.y && b[3] == v.cpu.s && b[4]
        == v.cpu.p);
    assert(b[27] == v.open_bus);
}

/// Saving a snapshot and loading it again gives back the snapshot: the
/// registers, the position in the frame, the data bus, the frame counter,
/// the board's registers, work RAM, character RAM and save RAM.
pub proof fn lemma_load_undoes_save_of_snapshot(v: SnapshotView)
    requires
        v.wf(),
    ensures
        spec_load_snapshot(spec_save_snapshot(v)) == Ok::<SnapshotView, StateError>(v),
{
    lemma_load_undoes_save(spec_encode(v));
    lemma_decode_undoes_encode(v);
}

} // verus!
