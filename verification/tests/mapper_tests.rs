use nes_host::mapper::board::{Board, MapperState};
use nes_host::mapper::{load_rom, Cartridge, Header, Mapper, MapperKind, Mirroring, RomError};

fn image(prg_banks: u8, chr_banks: u8, flags6: u8, flags7: u8, trainer: bool) -> Vec<u8> {
    let mut bytes = vec![0x4E, 0x45, 0x53, 0x1A, prg_banks, chr_banks, flags6, flags7];
    bytes.resize(16, 0);
    if trainer {
        bytes.extend(std::iter::repeat(0xEE).take(512));
    }
    for i in 0..(prg_banks as usize * 16384) {
        bytes.push((i % 251) as u8);
    }
    for i in 0..(chr_banks as usize * 8192) {
        bytes.push((i % 241) as u8 ^ 0x80);
    }
    bytes
}

#[test]
fn parses_plain_image() {
    let bytes = image(2, 1, 0x00, 0x00, false);
    let board = load_rom(&bytes).unwrap();
    assert_eq!(board.kind(), MapperKind::Nrom);
    assert!(!board.irq_pending());
    let cart = board.cart();
    assert_eq!(
        cart.header(),
        Header {
            prg_banks: 2,
            chr_banks: 1,
            mapper_num: 0,
            mirroring: Mirroring::Horizontal,
            battery: false,
            trainer: false,
        }
    );
    assert_eq!(cart.prg_rom().len(), 32768);
    assert_eq!(cart.chr_rom().len(), 8192);
    assert_eq!(cart.prg_rom()[..], bytes[16..16 + 32768]);
    assert_eq!(cart.chr_rom()[..], bytes[16 + 32768..]);
    assert!(cart.chr_ram().is_empty());
}

#[test]
fn rom_sizes_are_whole_banks() {
    let bytes = image(3, 2, 0x10, 0x00, false);
    let cart = Cartridge::from_bytes(&bytes).unwrap();
    assert_eq!(cart.prg_rom().len() % 16384, 0);
    assert_eq!(cart.chr_rom().len() % 8192, 0);
    assert_eq!(cart.prg_rom().len(), 3 * 16384);
    assert_eq!(cart.chr_rom().len(), 2 * 8192);
}

#[test]
fn trainer_is_skipped() {
    let bytes = image(1, 1, 0x04, 0x00, true);
    let cart = Cartridge::from_bytes(&bytes).unwrap();
    assert!(cart.header().trainer);
    assert_eq!(cart.prg_rom()[..], bytes[16 + 512..16 + 512 + 16384]);
    assert_eq!(cart.prg_rom()[0], 0);
    assert_eq!(cart.prg_rom()[1], 1);
    assert_eq!(cart.chr_rom()[..], bytes[16 + 512 + 16384..]);
}

#[test]
fn missing_chr_rom_gives_blank_chr_ram() {
    let bytes = image(1, 0, 0x00, 0x00, false);
    let cart = Cartridge::from_bytes(&bytes).unwrap();
    assert!(cart.chr_rom().is_empty());
    assert_eq!(cart.chr_ram().len(), 8192);
    assert!(cart.chr_ram().iter().all(|b| *b == 0));
}

#[test]
fn flag_bits_are_read() {
    let cart = Cartridge::from_bytes(&image(1, 1, 0x01, 0x00, false)).unwrap();
    assert_eq!(cart.header().mirroring, Mirroring::Vertical);
    assert!(!cart.header().battery);
    let cart = Cartridge::from_bytes(&image(1, 1, 0x02, 0x00, false)).unwrap();
    assert_eq!(cart.header().mirroring, Mirroring::Horizontal);
    assert!(cart.header().battery);
    let cart = Cartridge::from_bytes(&image(1, 1, 0x09, 0x00, false)).unwrap();
    assert_eq!(cart.header().mirroring, Mirroring::FourScreen);
    let cart = Cartridge::from_bytes(&image(1, 1, 0x08, 0x00, false)).unwrap();
    assert_eq!(cart.header().mirroring, Mirroring::FourScreen);
}

#[test]
fn mapper_number_joins_both_nibbles() {
    let cart = Cartridge::from_bytes(&image(1, 1, 0x40, 0x00, false)).unwrap();
    assert_eq!(cart.header().mapper_num, 4);
    let cart = Cartridge::from_bytes(&image(1, 1, 0x50, 0xA3, false)).unwrap();
    assert_eq!(cart.header().mapper_num, 0xA5);
    let cart = Cartridge::from_bytes(&image(1, 1, 0x1F, 0x0F, true)).unwrap();
    assert_eq!(cart.header().mapper_num, 1);
}

#[test]
fn each_supported_mapper_is_picked() {
    let kinds = [
        MapperKind::Nrom,
        MapperKind::Sxrom,
        MapperKind::Uxrom,
        MapperKind::Cnrom,
        MapperKind::Txrom,
    ];
    for (n, kind) in kinds.iter().enumerate() {
        let bytes = image(1, 1, (n as u8) << 4, 0x00, false);
        let board = load_rom(&bytes).unwrap();
        assert_eq!(board.kind(), *kind);
        assert!(!board.irq_pending());
        assert_eq!(board.cart().prg_rom()[..], bytes[16..16 + 16384]);
    }
}

#[test]
fn unsupported_mapper_is_refused() {
    let bytes = image(1, 1, 0x50, 0x00, false);
    assert_eq!(load_rom(&bytes).unwrap_err(), RomError::UnsupportedMapper(5));
    let bytes = image(1, 1, 0x00, 0x10, false);
    assert_eq!(load_rom(&bytes).unwrap_err(), RomError::UnsupportedMapper(16));
    assert!(Cartridge::from_bytes(&bytes).is_ok());
}

#[test]
fn wrong_magic_is_refused() {
    let mut bytes = image(1, 1, 0x00, 0x00, false);
    bytes[3] = 0x1B;
    assert_eq!(load_rom(&bytes).unwrap_err(), RomError::InvalidHeader);
    assert_eq!(Cartridge::from_bytes(&bytes).unwrap_err(), RomError::InvalidHeader);
    assert_eq!(load_rom(&[]).unwrap_err(), RomError::InvalidHeader);
    assert_eq!(load_rom(&[0x4E, 0x45, 0x53]).unwrap_err(), RomError::InvalidHeader);
    assert_eq!(load_rom(b"NEZ\x1A and more follows").unwrap_err(), RomError::InvalidHeader);
}

#[test]
fn short_image_is_truncated() {
    assert_eq!(load_rom(&[0x4E, 0x45, 0x53, 0x1A]).unwrap_err(), RomError::Truncated);
    let mut bytes = image(1, 1, 0x00, 0x00, false);
    bytes.pop();
    assert_eq!(load_rom(&bytes).unwrap_err(), RomError::Truncated);
    let mut bytes = image(1, 0, 0x04, 0x00, true);
    bytes.truncate(16 + 16384);
    assert_eq!(load_rom(&bytes).unwrap_err(), RomError::Truncated);
    let bytes = image(0, 0, 0x00, 0x00, false);
    assert!(load_rom(&bytes).is_ok());
}

#[test]
fn truncation_is_reported_before_the_mapper() {
    let mut bytes = image(1, 1, 0x50, 0x00, false);
    bytes.pop();
    assert_eq!(load_rom(&bytes).unwrap_err(), RomError::Truncated);
}

#[test]
fn bytes_after_the_banks_are_ignored() {
    let mut bytes = image(1, 1, 0x00, 0x00, false);
    let n = bytes.len();
    bytes.extend([1, 2, 3]);
    let cart = Cartridge::from_bytes(&bytes).unwrap();
    assert_eq!(cart.chr_rom()[..], bytes[16 + 16384..n]);
}

#[test]
fn loaded_boards_start_at_power_on() {
    let board = load_rom(&image(2, 1, 0x11, 0x00, false)).unwrap();
    match board.state() {
        MapperState::Sxrom { mmc1, cycle } => {
            assert_eq!(mmc1.control, 0x0C);
            assert_eq!(mmc1.prg_banks, 2);
            assert_eq!(mmc1.chr_banks, 2);
            assert_eq!((mmc1.shift, mmc1.count, mmc1.prg_bank), (0, 0, 0));
            assert_eq!(mmc1.last_write, None);
            assert_eq!(cycle, 0);
        }
        other => panic!("unexpected registers: {:?}", other),
    }
    let board = load_rom(&image(2, 1, 0x41, 0x00, false)).unwrap();
    assert_eq!(board.mirroring(), Mirroring::Vertical);
    match board.state() {
        MapperState::Txrom { mmc3 } => {
            assert_eq!(mmc3.prg_banks, 4);
            assert_eq!(mmc3.chr_banks, 8);
            assert!(!mmc3.irq_enabled && !mmc3.irq_pending);
        }
        other => panic!("unexpected registers: {:?}", other),
    }
    assert_eq!(load_rom(&image(1, 1, 0x20, 0, false)).unwrap().state(), MapperState::Uxrom { prg_bank: 0 });
    assert_eq!(load_rom(&image(1, 1, 0x30, 0, false)).unwrap().state(), MapperState::Cnrom { chr_bank: 0 });
    assert_eq!(load_rom(&image(1, 1, 0x00, 0, false)).unwrap().state(), MapperState::Nrom);
}

#[test]
fn board_is_restored_from_its_registers() {
    let mut board = load_rom(&image(4, 1, 0x20, 0x00, false)).unwrap();
    board.write(0x8000, 3);
    assert_eq!(board.state(), MapperState::Uxrom { prg_bank: 3 });
    let first = board.read(0x8000);
    let again = Board::restore(board.cart().clone(), board.state());
    assert_eq!(again.state(), board.state());
    assert_eq!(again.kind(), MapperKind::Uxrom);
    let mut again = again;
    assert_eq!(again.read(0x8000), first);
}
