use asteroids_core::fault::Fault;
use asteroids_core::memory::{Memory, Switch};

#[test]
fn mirrored_write_and_read_observe_same_byte() {
    let mut m = Memory::new();
    m.set_byte(0x0123, 77);
    assert_eq!(m.get_byte(0x0123), 77);
    assert_eq!(m.get_byte(0x0123 | 0x8000), 77);
    m.set_byte(0x4321 | 0x8000, 99);
    assert_eq!(m.get_byte(0x4321), 99);
}

#[test]
fn ram_regions_read_back_writes() {
    let mut m = Memory::new();
    m.set_byte(0x0000, 1);
    m.set_byte(0x03FF, 2);
    m.set_byte(0x4000, 3);
    m.set_byte(0x4FFF, 4);
    assert_eq!(m.get_byte(0x0000), 1);
    assert_eq!(m.get_byte(0x03FF), 2);
    assert_eq!(m.get_byte(0x4000), 3);
    assert_eq!(m.get_byte(0x4FFF), 4);
}

#[test]
fn rom_writes_are_silently_ignored() {
    let mut m = Memory::new();
    m.set_byte(0x5000, 0xAB);
    m.set_byte(0x6800, 0xCD);
    m.set_byte(0x7FFF, 0xEF);
    assert_eq!(m.get_byte(0x5000), 0);
    assert_eq!(m.get_byte(0x6800), 0);
    assert_eq!(m.get_byte(0x7FFF), 0);
}

#[test]
fn unmapped_reads_yield_zero_and_unmapped_writes_are_noops() {
    let mut m = Memory::new();
    m.set_byte(0x2500, 0x55);
    assert_eq!(m.get_byte(0x2500), 0);
    assert_eq!(m.get_byte(0x1000), 0);
    assert_eq!(m.get_byte(0x3FFF), 0);
}

#[test]
fn io_latches_sit_at_their_fixed_addresses() {
    let mut m = Memory::new();
    m.set_byte(0x2001, 42);
    assert_eq!(m.get_byte(0x2001), 42);
    assert_eq!(m.mapped_io.clck3khz, 42);
    m.set_byte(0x3000, 0xFF);
    assert_eq!(m.mapped_io.godvg, 0xFF);
    m.set_byte(0x3600, 1);
    m.set_byte(0x3A00, 2);
    m.set_byte(0x3C00, 3);
    m.set_byte(0x3C01, 4);
    m.set_byte(0x3C02, 5);
    m.set_byte(0x3C03, 6);
    m.set_byte(0x3C04, 7);
    m.set_byte(0x3C05, 8);
    assert_eq!(m.mapped_io.sndexp, 1);
    assert_eq!(m.mapped_io.sndthump, 2);
    assert_eq!(m.mapped_io.sndsaucr, 3);
    assert_eq!(m.mapped_io.sndsfire, 4);
    assert_eq!(m.mapped_io.sndselsau, 5);
    assert_eq!(m.mapped_io.sndthrust, 6);
    assert_eq!(m.mapped_io.sndfire, 7);
    assert_eq!(m.mapped_io.sndbonus, 8);
}

#[test]
fn switches_read_back_through_the_bus() {
    let mut m = Memory::new();
    m.set_switch(Switch::Start, true);
    m.set_switch(Switch::Fire, true);
    m.set_switch(Switch::Hyper, true);
    m.set_switch(Switch::Thrust, true);
    m.set_switch(Switch::RotLeft, true);
    m.set_switch(Switch::RotRight, true);
    assert_eq!(m.get_byte(0x2403), 0xFF);
    assert_eq!(m.get_byte(0x2004), 0xFF);
    assert_eq!(m.get_byte(0x2003), 0xFF);
    assert_eq!(m.get_byte(0x2405), 0xFF);
    assert_eq!(m.get_byte(0x2407), 0xFF);
    assert_eq!(m.get_byte(0x2406), 0xFF);
    m.set_switch(Switch::Fire, false);
    assert_eq!(m.get_byte(0x2004), 0x00);
}

#[test]
fn rom_image_of_wrong_size_is_rejected_whole() {
    let mut m = Memory::new();
    let short = vec![0u8; 100];
    assert_eq!(m.load_rom_image(&short), Err(Fault::AssetLoad { size: 100 }));
    let long = vec![0u8; 0x2001];
    assert_eq!(m.load_rom_image(&long), Err(Fault::AssetLoad { size: 0x2001 }));
}

#[test]
fn rom_image_lands_in_both_rom_regions() {
    let mut m = Memory::new();
    let mut image = vec![0u8; 0x2000];
    image[0] = 0x11;
    image[0x7FF] = 0x22;
    image[0x800] = 0x33;
    image[0x1FFF] = 0x44;
    assert_eq!(m.load_rom_image(&image), Ok(()));
    assert_eq!(m.get_byte(0x5000), 0x11);
    assert_eq!(m.get_byte(0x57FF), 0x22);
    assert_eq!(m.get_byte(0x6800), 0x33);
    assert_eq!(m.get_byte(0x7FFF), 0x44);
    assert_eq!(m.get_byte(0xFFFF), 0x44);
}
