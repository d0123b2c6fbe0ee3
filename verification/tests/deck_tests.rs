use nes_host::apu::{FrameCounter, FrameMode};
use nes_host::deck::ControlDeck;
use nes_host::mapper::board::MapperState;
use nes_host::mapper::{load_rom, Mapper, MapperKind, RomError};
use nes_host::nes::event::Kind;
use nes_host::ppu::PpuClock;
use nes_host::savestate::StateError;

fn image(mapper: u8, prg_banks: u8, chr_banks: u8) -> Vec<u8> {
    let mut bytes = vec![0x4E, 0x45, 0x53, 0x1A, prg_banks, chr_banks, mapper << 4, 0];
    bytes.resize(16, 0);
    bytes.resize(16 + prg_banks as usize * 16384 + chr_banks as usize * 8192, 0x33);
    bytes
}

fn deck(mapper: u8) -> ControlDeck {
    let chr_banks = if mapper == 0 || mapper == 2 { 0 } else { 2 };
    let board = load_rom(&image(mapper, 4, chr_banks)).unwrap();
    ControlDeck::power_on(board, vec![1, 2, 3], 0xC000)
}

fn busy(mapper: u8) -> ControlDeck {
    let mut d = deck(mapper);
    d.cpu.a = 0x42;
    d.cpu.cycle = 123_456;
    d.ppu = PpuClock { scanline: 100, dot: 200, frame: 7 };
    d.bus.write_ram(0x0000, 0xAB);
    d.bus.write_ram(0x07FF, 0xCD);
    d.frame_counter = FrameCounter { mode: FrameMode::FiveStep, step: 2, irq_inhibit: true };
    d.board.write(0x8000, 0x03);
    d.board.write(0x8001, 0x05);
    d.board.write(0xC000, 0x07);
    d.board.write(0xE001, 0x00);
    d
}

#[test]
fn power_on_state() {
    let d = deck(0);
    assert_eq!(d.cpu.pc, 0xC000);
    assert_eq!(d.cpu.cycle, 0);
    assert_eq!(d.ppu, PpuClock { scanline: -1, dot: 0, frame: 0 });
    assert!(d.bus.ram().iter().all(|b| *b == 0));
    assert_eq!(d.bus.prg_ram(), &vec![1, 2, 3]);
    assert_eq!(d.board.kind(), MapperKind::Nrom);
}

#[test]
fn save_then_load_restores_every_part() {
    for mapper in 0..5u8 {
        let saved = busy(mapper);
        let bytes = saved.save_state();
        let mut other = deck(mapper);
        other.bus.write_ram(0x0100, 0x99);
        assert_eq!(other.load_state(&bytes), Ok(()));
        assert_eq!(other.cpu, saved.cpu);
        assert_eq!(other.ppu, saved.ppu);
        assert_eq!(other.frame_counter, saved.frame_counter);
        assert_eq!(other.bus.ram(), saved.bus.ram());
        assert_eq!(other.bus.prg_ram(), saved.bus.prg_ram());
        assert_eq!(other.bus.read_open_bus(), saved.bus.read_open_bus());
        assert_eq!(other.board.state(), saved.board.state());
        assert_eq!(other.board.cart().chr_ram(), saved.board.cart().chr_ram());
        assert_eq!(other.save_state(), bytes);
    }
}

#[test]
fn state_of_another_board_is_refused() {
    let bytes = busy(4).save_state();
    let mut other = busy(2);
    let before = other.save_state();
    assert_eq!(other.load_state(&bytes), Err(StateError::IncompatibleSaveState));
    assert_eq!(other.save_state(), before);
    assert_eq!(other.load_state(&vec![1, 2, 3]), Err(StateError::IncompatibleSaveState));
    assert_eq!(other.save_state(), before);
}

#[test]
fn soft_reset_keeps_memory_and_registers_of_the_board() {
    let mut d = busy(4);
    let before = busy(4);
    d.reset(Kind::Soft, 0x8000);
    assert_eq!(d.cpu.pc, 0x8000);
    assert_eq!(d.cpu.a, 0x42);
    assert_eq!(d.cpu.cycle, 123_456);
    assert_eq!(d.bus.ram(), before.bus.ram());
    assert_eq!(d.bus.prg_ram(), &vec![1, 2, 3]);
    assert_eq!(d.ppu, before.ppu);
    assert_eq!(d.frame_counter, before.frame_counter);
    assert_eq!(d.board.state(), before.board.state());
}

#[test]
fn hard_reset_goes_back_to_power_on_but_for_save_ram() {
    for mapper in 0..5u8 {
        let mut d = busy(mapper);
        d.reset(Kind::Hard, 0x8000);
        assert!(d.bus.ram().iter().all(|b| *b == 0));
        assert_eq!(d.bus.prg_ram(), &vec![1, 2, 3]);
        assert_eq!(d.cpu.cycle, 0);
        assert_eq!(d.cpu.pc, 0x8000);
        assert_eq!(d.cpu.a, 0x42);
        assert_eq!(d.ppu, PpuClock { scanline: -1, dot: 0, frame: 0 });
        assert_eq!(
            d.frame_counter,
            FrameCounter { mode: FrameMode::FourStep, step: 0, irq_inhibit: false }
        );
        assert_eq!(d.board.state(), deck(mapper).board.state());
        assert!(!d.board.irq_pending());
    }
}

#[test]
fn load_rom_replaces_the_board() {
    let mut d = busy(2);
    assert_eq!(d.load_rom(&image(3, 1, 1)), Ok(()));
    assert_eq!(d.board.kind(), MapperKind::Cnrom);
    assert_eq!(d.board.state(), MapperState::Cnrom { chr_bank: 0 });
    assert_eq!(d.cpu.a, 0x42);
    assert_eq!(d.load_rom(&image(9, 1, 1)), Err(RomError::UnsupportedMapper(9)));
    assert_eq!(d.board.kind(), MapperKind::Cnrom);
    assert_eq!(d.load_rom(&[1, 2, 3]), Err(RomError::InvalidHeader));
}

#[test]
fn load_puts_character_ram_back() {
    let mut d = busy(0);
    assert_eq!(d.board.cart().chr_ram().len(), 8192);
    d.board.write(0x0010, 0x5A);
    d.board.write(0x1FFF, 0xA5);
    let bytes = d.save_state();
    d.board.write(0x0010, 0x11);
    d.board.write(0x0011, 0x22);
    assert_eq!(d.board.read(0x0010), 0x11);
    assert_eq!(d.load_state(&bytes), Ok(()));
    assert_eq!(d.board.read(0x0010), 0x5A);
    assert_eq!(d.board.read(0x0011), 0x00);
    assert_eq!(d.board.read(0x1FFF), 0xA5);
    assert_eq!(d.board.read(0x8000), 0x33);
    assert_eq!(d.save_state(), bytes);
}

#[test]
fn state_with_other_character_ram_is_refused() {
    let with_ram = busy(0).save_state();
    let board = load_rom(&image(0, 4, 1)).unwrap();
    let mut with_rom = ControlDeck::power_on(board, vec![1, 2, 3], 0xC000);
    let before = with_rom.save_state();
    assert_eq!(with_rom.load_state(&with_ram), Err(StateError::IncompatibleSaveState));
    assert_eq!(with_rom.save_state(), before);
    let mut with_ram_deck = busy(0);
    assert_eq!(with_ram_deck.load_state(&before), Err(StateError::IncompatibleSaveState));
}
