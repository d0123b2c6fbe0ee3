use nes_host::bus::{decode, oam_dma_source, oam_dma_stall, Access, Bus, Target};
use nes_host::nes::event::Kind;

#[test]
fn work_ram_is_mirrored() {
    let mut bus = Bus::new(Vec::new());
    bus.write_ram(0x0000, 0xAB);
    assert_eq!(bus.read_ram(0x0000), 0xAB);
    assert_eq!(bus.read_ram(0x0800), 0xAB);
    assert_eq!(bus.read_ram(0x1000), 0xAB);
    assert_eq!(bus.read_ram(0x1800), 0xAB);
    assert_eq!(bus.read_ram(0x0001), 0x00);
    bus.write_ram(0x1FFF, 0x5A);
    assert_eq!(bus.read_ram(0x07FF), 0x5A);
    assert_eq!(bus.read_ram(0x0FFF), 0x5A);
    assert_eq!(bus.ram()[0x07FF], 0x5A);
    assert_eq!(bus.ram().len(), 2048);
}

#[test]
fn hard_reset_zeroes_work_ram() {
    let mut bus = Bus::new(vec![1, 2, 3]);
    bus.write_ram(0x0123, 0x77);
    bus.reset(Kind::Hard);
    assert!(bus.ram().iter().all(|b| *b == 0));
    assert_eq!(bus.ram().len(), 2048);
    assert_eq!(bus.prg_ram(), &vec![1, 2, 3]);
}

#[test]
fn soft_reset_leaves_memory_alone() {
    let mut bus = Bus::new(vec![9, 8, 7, 6]);
    bus.write_ram(0x0123, 0x77);
    bus.reset(Kind::Soft);
    assert_eq!(bus.read_ram(0x0123), 0x77);
    assert_eq!(bus.prg_ram(), &vec![9, 8, 7, 6]);
}

#[test]
fn open_bus_holds_the_last_value() {
    let mut bus = Bus::new(Vec::new());
    assert_eq!(bus.read_open_bus(), 0);
    bus.write_ram(0x0010, 0x42);
    assert_eq!(bus.read_open_bus(), 0x42);
    bus.read_ram(0x0011);
    assert_eq!(bus.read_open_bus(), 0x00);
    bus.reset(Kind::Hard);
    assert_eq!(bus.read_open_bus(), 0x00);
}

#[test]
fn addresses_are_decoded() {
    for access in [Access::Read, Access::Write] {
        assert_eq!(decode(0x0000, access), Target::Ram { index: 0 });
        assert_eq!(decode(0x1FFF, access), Target::Ram { index: 0x07FF });
        assert_eq!(decode(0x0800, access), Target::Ram { index: 0 });
        assert_eq!(decode(0x2000, access), Target::PpuRegister { register: 0 });
        assert_eq!(decode(0x2007, access), Target::PpuRegister { register: 7 });
        assert_eq!(decode(0x2008, access), Target::PpuRegister { register: 0 });
        assert_eq!(decode(0x3FFF, access), Target::PpuRegister { register: 7 });
        assert_eq!(decode(0x4000, access), Target::Apu { addr: 0x4000 });
        assert_eq!(decode(0x4013, access), Target::Apu { addr: 0x4013 });
        assert_eq!(decode(0x4014, access), Target::OamDma);
        assert_eq!(decode(0x4015, access), Target::Apu { addr: 0x4015 });
        assert_eq!(decode(0x4016, access), Target::Controller { port: 0 });
        assert_eq!(decode(0x4018, access), Target::OpenBus);
        assert_eq!(decode(0x401F, access), Target::OpenBus);
        assert_eq!(decode(0x4020, access), Target::Mapper { addr: 0x4020 });
        assert_eq!(decode(0xFFFF, access), Target::Mapper { addr: 0xFFFF });
    }
    assert_eq!(decode(0x4017, Access::Read), Target::Controller { port: 1 });
    assert_eq!(decode(0x4017, Access::Write), Target::Apu { addr: 0x4017 });
}

#[test]
fn sprite_transfer_stalls_longer_on_odd_cycles() {
    assert_eq!(oam_dma_stall(0), 513);
    assert_eq!(oam_dma_stall(1), 514);
    assert_eq!(oam_dma_stall(1_000_000), 513);
    assert_eq!(oam_dma_stall(u64::MAX), 514);
    assert_eq!(oam_dma_source(0x02), 0x0200);
    assert_eq!(oam_dma_source(0xFF), 0xFF00);
    assert_eq!(oam_dma_source(0), 0);
}

#[test]
fn bus_is_rebuilt_from_its_parts() {
    let mut ram = vec![0u8; 2048];
    ram[5] = 0x12;
    let mut bus = Bus::from_parts(ram, vec![4, 5], 0x99);
    assert_eq!(bus.read_open_bus(), 0x99);
    assert_eq!(bus.prg_ram(), &vec![4, 5]);
    assert_eq!(bus.read_ram(0x0805), 0x12);
}
