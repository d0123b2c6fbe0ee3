use nes_host::apu::{FrameCounter, FrameMode};
use nes_host::cpu::{vector, Cpu, Interrupt, Push};
use nes_host::mapper::board::MapperState;
use nes_host::mapper::sxrom::Mmc1;
use nes_host::mapper::txrom::Mmc3;
use nes_host::mapper::Mirroring;
use nes_host::nes::event::Kind;
use nes_host::ppu::PpuClock;
use nes_host::savestate::{load_state, save_state, Snapshot, StateError};

fn cpu() -> Cpu {
    Cpu { a: 0x11, x: 0x22, y: 0x33, s: 0xFD, p: 0xA1, pc: 0x8123, cycle: 1000 }
}

#[test]
fn vectors() {
    assert_eq!(vector(Interrupt::Nmi), 0xFFFA);
    assert_eq!(vector(Interrupt::Irq), 0xFFFE);
    assert_eq!(vector(Interrupt::Brk), 0xFFFE);
}

#[test]
fn soft_reset_touches_pc_i_and_s_only() {
    let mut c = cpu();
    c.reset(Kind::Soft, 0xC000);
    assert_eq!(c, Cpu { a: 0x11, x: 0x22, y: 0x33, s: 0xFA, p: 0xA5, pc: 0xC000, cycle: 1000 });
}

#[test]
fn hard_reset_restarts_the_cycle_counter() {
    let mut c = cpu();
    c.reset(Kind::Hard, 0xC000);
    assert_eq!(c, Cpu { a: 0x11, x: 0x22, y: 0x33, s: 0xFA, p: 0xA5, pc: 0xC000, cycle: 0 });
}

#[test]
fn reset_wraps_the_stack_pointer() {
    let mut c = cpu();
    c.s = 1;
    c.reset(Kind::Soft, 0);
    assert_eq!(c.s, 0xFE);
}

#[test]
fn hardware_interrupt_pushes_with_break_clear() {
    let mut c = cpu();
    c.p = 0xB1;
    let (pushes, cycles) = c.interrupt(Interrupt::Nmi, 0x9000);
    assert_eq!(cycles, 7);
    assert_eq!(
        pushes,
        vec![
            Push { addr: 0x01FD, val: 0x81 },
            Push { addr: 0x01FC, val: 0x23 },
            Push { addr: 0x01FB, val: 0xA1 },
        ]
    );
    assert_eq!(c, Cpu { a: 0x11, x: 0x22, y: 0x33, s: 0xFA, p: 0xB5, pc: 0x9000, cycle: 1007 });
    let mut c = cpu();
    let (pushes, _) = c.interrupt(Interrupt::Irq, 0x9000);
    assert_eq!(pushes[2], Push { addr: 0x01FB, val: 0xA1 });
}

#[test]
fn break_pushes_pc_plus_two_with_break_set() {
    let mut c = cpu();
    let (pushes, cycles) = c.interrupt(Interrupt::Brk, 0x9000);
    assert_eq!(cycles, 7);
    assert_eq!(
        pushes,
        vec![
            Push { addr: 0x01FD, val: 0x81 },
            Push { addr: 0x01FC, val: 0x25 },
            Push { addr: 0x01FB, val: 0xB1 },
        ]
    );
    assert_eq!(c.p, 0xA5);
    let mut c = cpu();
    c.pc = 0xFFFF;
    c.s = 0x01;
    let (pushes, _) = c.interrupt(Interrupt::Brk, 0x9000);
    assert_eq!(
        pushes,
        vec![
            Push { addr: 0x0101, val: 0x00 },
            Push { addr: 0x0100, val: 0x01 },
            Push { addr: 0x01FF, val: 0xB1 },
        ]
    );
    assert_eq!(c.s, 0xFE);
}

#[test]
fn saved_state_round_trips() {
    for payload in [vec![], vec![0u8], vec![1, 2, 3, 0xFF, 0x4E, 0x45]] {
        let bytes = save_state(&payload);
        assert_eq!(bytes.len(), payload.len() + 8);
        assert_eq!(bytes[..8], [0x4E, 0x45, 0x53, 0x53, 1, 0, 0, 0]);
        assert_eq!(load_state(&bytes), Ok(payload));
    }
}

#[test]
fn foreign_states_are_refused() {
    let good = save_state(&vec![9, 9]);
    for i in 0..8 {
        let mut bad = good.clone();
        bad[i] ^= 0x20;
        assert_eq!(load_state(&bad), Err(StateError::IncompatibleSaveState));
    }
    assert_eq!(load_state(&vec![]), Err(StateError::IncompatibleSaveState));
    assert_eq!(load_state(&good[..7].to_vec()), Err(StateError::IncompatibleSaveState));
    let mut newer = good.clone();
    newer[4] = 2;
    assert_eq!(load_state(&newer), Err(StateError::IncompatibleSaveState));
    assert_eq!(load_state(&good[..8].to_vec()), Ok(vec![]));
}

#[test]
fn snapshot_round_trips() {
    let mut ram = vec![0u8; 2048];
    ram[0] = 0xAB;
    ram[2047] = 0xCD;
    let snap = Snapshot {
        cpu: cpu(),
        ppu: PpuClock { scanline: -1, dot: 340, frame: 0x0102_0304_0506_0708 },
        open_bus: 0x5A,
        frame_counter: FrameCounter { mode: FrameMode::FiveStep, step: 3, irq_inhibit: true },
        mapper: MapperState::Uxrom { prg_bank: 6 },
        ram,
        chr_ram: vec![0x61, 0x62],
        prg_ram: vec![7, 8, 9],
    };
    let bytes = snap.save();
    assert_eq!(bytes.len(), 8 + 2113 + 2 + 3);
    assert_eq!(bytes[8..13], [0x11, 0x22, 0x33, 0xFD, 0xA1]);
    assert_eq!(bytes[13..15], [0x23, 0x81]);
    assert_eq!(bytes[15..23], [0xE8, 0x03, 0, 0, 0, 0, 0, 0]);
    assert_eq!(bytes[23..25], [0, 0]);
    assert_eq!(bytes[25..27], [0x54, 0x01]);
    assert_eq!(bytes[27..35], [8, 7, 6, 5, 4, 3, 2, 1]);
    assert_eq!(bytes[35], 0x5A);
    assert_eq!(bytes[36..39], [1, 3, 1]);
    assert_eq!(bytes[39..42], [2, 6, 0]);
    assert_eq!(bytes[65], 0xAB);
    assert_eq!(bytes[65 + 2047], 0xCD);
    assert_eq!(bytes[65 + 2048..65 + 2048 + 8], [2, 0, 0, 0, 0, 0, 0, 0]);
    assert_eq!(bytes[65 + 2048 + 8..], [0x61, 0x62, 7, 8, 9]);
    let back = Snapshot::load(&bytes).unwrap();
    assert_eq!(back.cpu, snap.cpu);
    assert_eq!(back.ppu, snap.ppu);
    assert_eq!(back.open_bus, snap.open_bus);
    assert_eq!(back.frame_counter, snap.frame_counter);
    assert_eq!(back.mapper, snap.mapper);
    assert_eq!(back.ram, snap.ram);
    assert_eq!(back.chr_ram, snap.chr_ram);
    assert_eq!(back.prg_ram, snap.prg_ram);
    let mid = Snapshot {
        ppu: PpuClock { scanline: 260, dot: 0, frame: 1 },
        ..snap.clone()
    };
    assert_eq!(Snapshot::load(&mid.save()).unwrap().ppu, mid.ppu);
}

#[test]
fn damaged_snapshots_are_refused() {
    let snap = Snapshot {
        cpu: cpu(),
        ppu: PpuClock { scanline: 10, dot: 20, frame: 3 },
        open_bus: 0,
        frame_counter: FrameCounter { mode: FrameMode::FourStep, step: 0, irq_inhibit: false },
        mapper: MapperState::Nrom,
        ram: vec![0u8; 2048],
        chr_ram: Vec::new(),
        prg_ram: Vec::new(),
    };
    let good = snap.save();
    assert!(Snapshot::load(&good).is_ok());
    let mut short = good.clone();
    short.pop();
    assert_eq!(Snapshot::load(&short).unwrap_err(), StateError::IncompatibleSaveState);
    let mut line = good.clone();
    line[23] = 0x06;
    line[24] = 0x01;
    assert_eq!(Snapshot::load(&line).unwrap_err(), StateError::IncompatibleSaveState);
    let mut dot = good.clone();
    dot[25] = 0x55;
    dot[26] = 0x01;
    assert_eq!(Snapshot::load(&dot).unwrap_err(), StateError::IncompatibleSaveState);
    let mut mode = good.clone();
    mode[36] = 2;
    assert_eq!(Snapshot::load(&mode).unwrap_err(), StateError::IncompatibleSaveState);
    let mut board = good.clone();
    board[39] = 5;
    assert_eq!(Snapshot::load(&board).unwrap_err(), StateError::IncompatibleSaveState);
    let mut layout = good.clone();
    layout[39] = 4;
    layout[49] = 5;
    assert_eq!(Snapshot::load(&layout).unwrap_err(), StateError::IncompatibleSaveState);
    let mut long = good.clone();
    long[8 + 2105] = 1;
    assert_eq!(Snapshot::load(&long).unwrap_err(), StateError::IncompatibleSaveState);
    long.push(0x77);
    assert_eq!(Snapshot::load(&long).unwrap().chr_ram, vec![0x77]);
    let mut huge = good.clone();
    huge[8 + 2112] = 0xFF;
    assert_eq!(Snapshot::load(&huge).unwrap_err(), StateError::IncompatibleSaveState);
    let mut version = good.clone();
    version[4] = 9;
    assert_eq!(Snapshot::load(&version).unwrap_err(), StateError::IncompatibleSaveState);
    assert_eq!(Snapshot::decode(&good).map(|s| s.cpu), None);
}

#[test]
fn snapshot_keeps_every_board() {
    let mut mmc1 = Mmc1::new(8, 16);
    for (i, bit) in [1u8, 0, 1].iter().enumerate() {
        mmc1 = mmc1.write(0xE000, *bit, 100 + 2 * i as u64);
    }
    let mut mmc3 = Mmc3::new(Mirroring::Horizontal, 300, 2040);
    mmc3.write(0x8000, 0xC6);
    mmc3.write(0x8001, 0x2A);
    mmc3.write(0xC000, 9);
    mmc3.write(0xC001, 0);
    mmc3.write(0xE001, 0);
    mmc3.clock(true);
    mmc3.write(0xA001, 0x80);
    let boards = [
        MapperState::Nrom,
        MapperState::Sxrom { mmc1, cycle: 0x1122_3344_5566_7788 },
        MapperState::Sxrom { mmc1: Mmc1::new(2, 0), cycle: 0 },
        MapperState::Uxrom { prg_bank: 0xFF },
        MapperState::Cnrom { chr_bank: 3 },
        MapperState::Txrom { mmc3 },
        MapperState::Txrom { mmc3: Mmc3::new(Mirroring::FourScreen, 0, 0) },
    ];
    let counters = [
        FrameCounter { mode: FrameMode::FourStep, step: 2, irq_inhibit: false },
        FrameCounter { mode: FrameMode::FiveStep, step: 4, irq_inhibit: true },
    ];
    for mapper in boards {
        for frame_counter in counters {
            let snap = Snapshot {
                cpu: cpu(),
                ppu: PpuClock { scanline: 120, dot: 7, frame: 99 },
                open_bus: 1,
                frame_counter,
                mapper,
                ram: vec![3u8; 2048],
                chr_ram: vec![9u8; 8192],
                prg_ram: vec![1, 2],
            };
            let back = Snapshot::load(&snap.save()).unwrap();
            assert_eq!(back.mapper, mapper);
            assert_eq!(back.frame_counter, frame_counter);
            assert_eq!(back.cpu, snap.cpu);
            assert_eq!(back.ppu, snap.ppu);
            assert_eq!(back.ram, snap.ram);
            assert_eq!(back.chr_ram, snap.chr_ram);
    assert_eq!(back.chr_ram, snap.chr_ram);
            assert_eq!(back.prg_ram, snap.prg_ram);
        }
    }
}
