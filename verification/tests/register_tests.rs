use nes_host::mapper::sxrom::{Mmc1, Target};
use nes_host::mapper::txrom::{register, Register, Mmc3};
use nes_host::mapper::Mirroring;

fn load(mut board: Mmc1, addr: u16, value: u8, first_cycle: u64) -> Mmc1 {
    for i in 0..5 {
        board = board.write(addr, (value >> i) & 1, first_cycle + 2 * i as u64);
    }
    board
}

#[test]
fn mmc1_powers_on_with_last_bank_fixed() {
    let board = Mmc1::new(8, 16);
    assert_eq!(board.control, 0x0C);
    assert_eq!(board.count, 0);
    assert_eq!(board.mirroring(), Mirroring::SingleScreen0);
}

#[test]
fn mmc1_commits_on_the_fifth_write() {
    let mut board = Mmc1::new(8, 16);
    for (i, bit) in [1u8, 0, 1, 1].iter().enumerate() {
        board = board.write(0xE000, *bit, 10 + 2 * i as u64);
        assert_eq!(board.count, i as u8 + 1);
        assert_eq!(board.prg_bank, 0);
    }
    assert_eq!(board.shift, 0b01101);
    board = board.write(0xE000, 0, 30);
    assert_eq!(board.prg_bank, 0b01101 % 8);
    assert_eq!(board.count, 0);
    assert_eq!(board.shift, 0);
    assert_eq!(board.last_write, Some(30));
}

#[test]
fn mmc1_address_of_the_fifth_write_picks_the_register() {
    let board = load(Mmc1::new(16, 32), 0x8000, 0b10011, 0);
    assert_eq!(board.control, 0b10011);
    assert_eq!(board.mirroring(), Mirroring::Horizontal);
    let board = load(board, 0xA000, 0b00111, 100);
    assert_eq!(board.chr_bank0, 7);
    let board = load(board, 0xDFFF, 0b11111, 200);
    assert_eq!(board.chr_bank1, 31);
    let board = load(board, 0xFFFF, 0b01001, 300);
    assert_eq!(board.prg_bank, 9);
    assert_eq!(board.control, 0b10011);
    assert_eq!(board.chr_bank0, 7);
    let mut mixed = Mmc1::new(16, 32);
    for i in 0..4 {
        mixed = mixed.write(0x8000, 1, 2 * i);
    }
    mixed = mixed.write(0xC000, 1, 50);
    assert_eq!(mixed.chr_bank1, 31);
    assert_eq!(mixed.control, 0x0C);
}

#[test]
fn mmc1_banks_wrap_to_the_cartridge() {
    let board = load(Mmc1::new(4, 2), 0xE000, 0b01111, 0);
    assert_eq!(board.prg_bank, 15 % 4);
    let board = load(board, 0xA000, 0b00101, 100);
    assert_eq!(board.chr_bank0, 1);
    let board = load(Mmc1::new(0, 0), 0xE000, 0b00011, 0);
    assert_eq!(board.prg_bank, 0);
}

#[test]
fn mmc1_reset_write() {
    let mut board = load(Mmc1::new(8, 8), 0x8000, 0b00001, 0);
    assert_eq!(board.control, 1);
    board = board.write(0x8000, 1, 20);
    board = board.write(0x8000, 1, 22);
    board = board.write(0xFFFF, 0x80, 24);
    assert_eq!(board.count, 0);
    assert_eq!(board.shift, 0);
    assert_eq!(board.control, 0x0D);
    assert_eq!(board.mirroring(), Mirroring::SingleScreen1);
    assert_eq!(board.last_write, Some(24));
}

#[test]
fn mmc1_ignores_a_second_write_in_the_same_cycle() {
    let mut board = Mmc1::new(8, 8);
    board = board.write(0x8000, 1, 7);
    let after_first = board;
    board = board.write(0x8000, 1, 7);
    assert_eq!(board, after_first);
    board = board.write(0x8000, 0x80, 7);
    assert_eq!(board, after_first);
    board = board.write(0x8000, 1, 8);
    assert_eq!(board.count, 2);
    assert_eq!(board.shift, 0b11);
}

#[test]
fn mmc1_mirroring_modes() {
    let modes = [
        Mirroring::SingleScreen0,
        Mirroring::SingleScreen1,
        Mirroring::Vertical,
        Mirroring::Horizontal,
    ];
    for (value, mode) in modes.iter().enumerate() {
        let board = load(Mmc1::new(8, 8), 0x9FFF, value as u8 | 0x10, 0);
        assert_eq!(board.mirroring(), *mode);
    }
    assert_eq!(nes_host::mapper::sxrom::target(0x8000), Target::Control);
    assert_eq!(nes_host::mapper::sxrom::target(0xA000), Target::ChrBank0);
    assert_eq!(nes_host::mapper::sxrom::target(0xC000), Target::ChrBank1);
    assert_eq!(nes_host::mapper::sxrom::target(0xE000), Target::PrgBank);
}

#[test]
fn mmc3_registers_are_decoded() {
    assert_eq!(register(0x8000), Register::BankSelect);
    assert_eq!(register(0x8001), Register::BankData);
    assert_eq!(register(0x9FFE), Register::BankSelect);
    assert_eq!(register(0x9FFF), Register::BankData);
    assert_eq!(register(0xA000), Register::Mirroring);
    assert_eq!(register(0xA001), Register::PrgRamProtect);
    assert_eq!(register(0xC000), Register::IrqLatch);
    assert_eq!(register(0xC001), Register::IrqReload);
    assert_eq!(register(0xE000), Register::IrqDisable);
    assert_eq!(register(0xE001), Register::IrqEnable);
    assert_eq!(register(0xFFFF), Register::IrqEnable);
}

#[test]
fn mmc3_bank_data_goes_to_the_selected_register() {
    let mut board = Mmc3::new(Mirroring::Vertical, 32, 256);
    board.write(0x8000, 0xC6);
    assert_eq!(board.target, 6);
    board.write(0x8001, 0x2A);
    assert_eq!(board.banks.get(6), 0x2A % 32);
    board.write(0x8000, 0);
    board.write(0x8001, 0x11);
    assert_eq!(board.banks.r0, 0x11);
    assert_eq!(board.banks.r6, 10);
    for t in [1u8, 2, 3, 4, 5, 7] {
        assert_eq!(board.banks.get(t), 0);
    }
    board.write(0x8000, 7);
    board.write(0x8001, 0x45);
    assert_eq!(board.banks.r7, 0x45 % 32);
    let mut small = Mmc3::new(Mirroring::Vertical, 4, 8);
    small.write(0x8000, 2);
    small.write(0x8001, 0x1B);
    assert_eq!(small.banks.r2, 0x1B % 8);
    small.write(0x8000, 6);
    small.write(0x8001, 0x1B);
    assert_eq!(small.banks.r6, 0x1B % 4);
    board.write(0xA000, 1);
    assert_eq!(board.mirroring(), Mirroring::Horizontal);
    board.write(0xA000, 0xFE);
    assert_eq!(board.mirroring(), Mirroring::Vertical);
    board.write(0xA001, 0x80);
    assert!(board.prg_ram_enabled);
    board.write(0xA001, 0x7F);
    assert!(!board.prg_ram_enabled);
}

fn scanline(board: &mut Mmc3) {
    board.clock(false);
    board.clock(true);
}

#[test]
fn mmc3_counter_goes_down_once_per_scanline() {
    let mut board = Mmc3::new(Mirroring::Vertical, 32, 256);
    board.write(0xC000, 3);
    board.write(0xC001, 0);
    board.write(0xE001, 0);
    scanline(&mut board);
    assert_eq!(board.irq_counter, 3);
    assert!(!board.irq_pending());
    scanline(&mut board);
    assert_eq!(board.irq_counter, 2);
    scanline(&mut board);
    assert_eq!(board.irq_counter, 1);
    assert!(!board.irq_pending());
    scanline(&mut board);
    assert_eq!(board.irq_counter, 0);
    assert!(board.irq_pending());
    scanline(&mut board);
    assert_eq!(board.irq_counter, 3);
    assert!(board.irq_pending());
    board.write(0xE000, 0);
    assert!(!board.irq_pending());
    assert!(!board.irq_enabled);
}

#[test]
fn mmc3_counts_rising_edges_only() {
    let mut board = Mmc3::new(Mirroring::Vertical, 32, 256);
    board.write(0xC000, 5);
    board.write(0xC001, 0);
    board.clock(true);
    assert_eq!(board.irq_counter, 5);
    board.clock(true);
    board.clock(true);
    assert_eq!(board.irq_counter, 5);
    board.clock(false);
    board.clock(false);
    assert_eq!(board.irq_counter, 5);
    board.clock(true);
    assert_eq!(board.irq_counter, 4);
}

#[test]
fn mmc3_disabled_interrupt_is_not_raised() {
    let mut board = Mmc3::new(Mirroring::Vertical, 32, 256);
    board.write(0xC000, 1);
    board.write(0xC001, 0);
    for _ in 0..10 {
        scanline(&mut board);
    }
    assert!(!board.irq_pending());
    board.write(0xE001, 0);
    scanline(&mut board);
    scanline(&mut board);
    assert!(board.irq_pending());
}
