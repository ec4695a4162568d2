use nes_core::system::System;
use nes_core::pad::PadButton;

#[test]
fn work_ram_mirrors_across_low_window() {
    let mut system = System::default();
    system.write_u8(0x0123, 0x42, false);
    assert_eq!(system.read_u8(0x0123, false), 0x42);
    assert_eq!(system.read_u8(0x0923, false), 0x42);
    assert_eq!(system.read_u8(0x1923, false), 0x42);
}

#[test]
fn picture_registers_mirror_across_their_window() {
    let mut system = System::default();
    system.write_u8(0x2000, 0x80, false);
    assert_eq!(system.read_u8(0x2008, true), 0x80);
    assert_eq!(system.read_u8(0x3ff8, true), 0x80);
}

#[test]
fn status_read_clears_vblank_but_peek_does_not() {
    let mut system = System::default();
    system.write_ppu_is_vblank(true);
    assert_eq!(system.read_u8(0x2002, true) & 0x80, 0x80);
    assert!(system.read_ppu_is_vblank());
    // A destructive read returns the flag and clears it.
    assert_eq!(system.read_u8(0x2002, false) & 0x80, 0x80);
    assert!(!system.read_ppu_is_vblank());
}

#[test]
fn scroll_register_takes_two_sequential_writes() {
    let mut system = System::default();
    system.write_u8(0x2005, 0x12, false);
    system.write_u8(0x2005, 0x34, false);
    let (pending, x, y) = system.read_ppu_scroll();
    assert!(pending);
    assert_eq!((x, y), (0x12, 0x34));
    // Consuming the latch clears the pending flag but keeps the values.
    let (pending, x, y) = system.read_ppu_scroll();
    assert!(!pending);
    assert_eq!((x, y), (0x12, 0x34));
}

#[test]
fn address_register_takes_high_byte_then_low_byte() {
    let mut system = System::default();
    system.write_u8(0x2006, 0x23, false);
    system.write_u8(0x2006, 0x45, false);
    let (pending, addr) = system.read_ppu_addr();
    assert!(pending);
    assert_eq!(addr, 0x2345);
}

#[test]
fn status_read_resets_two_write_latch() {
    let mut system = System::default();
    system.write_u8(0x2006, 0x23, false); // first write
    system.read_u8(0x2002, false); // resets the latch
    system.write_u8(0x2006, 0x45, false); // first write again
    system.write_u8(0x2006, 0x67, false); // second write
    let (_, addr) = system.read_ppu_addr();
    assert_eq!(addr, 0x4567);
}

#[test]
fn data_write_stages_one_shot_flag() {
    let mut system = System::default();
    system.write_u8(0x2007, 0x99, false);
    let (read_req, write_req, data) = system.read_ppu_data();
    assert!(!read_req);
    assert!(write_req);
    assert_eq!(data, 0x99);
    // Consumed exactly once.
    let (read_req, write_req, _) = system.read_ppu_data();
    assert!(!read_req);
    assert!(!write_req);
}

#[test]
fn oam_dma_trigger_stages_source_page() {
    let mut system = System::default();
    system.write_u8(0x4014, 0x03, false);
    let (pending, addr) = system.read_oam_dma();
    assert!(pending);
    assert_eq!(addr, 0x0300);
    let (pending, _) = system.read_oam_dma();
    assert!(!pending);
}

#[test]
fn increment_ppu_addr_steps_by_control_register() {
    let mut system = System::default();
    system.write_u8(0x2006, 0x20, false);
    system.write_u8(0x2006, 0x00, false);
    system.increment_ppu_addr();
    let (_, addr) = system.read_ppu_addr();
    assert_eq!(addr, 0x2001);
    // Bit 2 of the control register selects a 32-byte stride.
    system.write_u8(0x2000, 0x04, false);
    system.increment_ppu_addr();
    let (_, addr) = system.read_ppu_addr();
    assert_eq!(addr, 0x2021);
}

#[test]
fn controller_port_shifts_pad_bits() {
    let mut system = System::default();
    system.pad1.push_button(PadButton::A);
    system.pad1.push_button(PadButton::Select);
    // Strobe high then low through the bus, as a program would.
    system.write_u8(0x4016, 0x01, false);
    system.write_u8(0x4016, 0x00, false);
    let bits: Vec<u8> = (0..8).map(|_| system.read_u8(0x4016, false)).collect();
    assert_eq!(bits, vec![1, 0, 1, 0, 0, 0, 0, 0]);
}

#[test]
fn cartridge_region_routes_to_rom() {
    let mut system = System::default();
    system.write_u8(0x6010, 0x77, false);
    assert_eq!(system.read_u8(0x6010, false), 0x77);
    assert_eq!(system.rom.srambytes[0x10], 0x77);
}

#[test]
fn reset_keeps_cartridge_but_clears_memories() {
    let mut system = System::default();
    system.write_u8(0x0123, 0x42, false);
    system.write_u8(0x8000, 0x4c, false);
    system.reset();
    assert_eq!(system.read_u8(0x0123, false), 0x00);
    assert_eq!(system.read_u8(0x8000, false), 0x4c);
}
