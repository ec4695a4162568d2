use nes_core::rom::{Rom, Mapper, MirrorTable};

/// Builds a cartridge image: header, optional trainer, program and
/// graphics data.
fn build_image(prg_banks: u8, chr_banks: u8, flags6: u8, trainer: bool) -> Vec<u8> {
    let mut data = vec![0x4e, 0x45, 0x53, 0x1a, prg_banks, chr_banks, flags6, 0, 0, 0, 0, 0, 0, 0, 0, 0];
    if trainer {
        data.extend(std::iter::repeat(0xee).take(512));
    }
    data.extend(std::iter::repeat(0x00).take(prg_banks as usize * 0x4000));
    data.extend(std::iter::repeat(0x00).take(chr_banks as usize * 0x2000));
    data
}

#[test]
fn load_accepts_minimal_image() {
    let mut rom = Rom::default();
    let image = build_image(1, 0, 0x00, false);
    assert!(rom.load_bin(&image));
    assert_eq!(rom.mapper, Mapper::Nrom);
    assert_eq!(rom.mirror_table, MirrorTable::Horizontal);
    assert!(!rom.sram);
    assert_eq!(rom.p_rom_bytes, 0x4000);
    assert_eq!(rom.c_rom_bytes, 0);
}

#[test]
fn load_reads_flags() {
    let mut rom = Rom::default();
    let image = build_image(2, 1, 0x03, false);
    assert!(rom.load_bin(&image));
    assert_eq!(rom.mirror_table, MirrorTable::Vertical);
    assert!(rom.sram);
    assert_eq!(rom.p_rom_bytes, 0x8000);
    assert_eq!(rom.c_rom_bytes, 0x2000);
}

#[test]
fn load_rejects_bad_magic_and_leaves_state_unchanged() {
    let mut rom = Rom::default();
    let mut image = build_image(1, 0, 0x00, false);
    image[0] = 0x4f;
    assert!(!rom.load_bin(&image));
    assert_eq!(rom.mapper, Mapper::Unknown);
    assert_eq!(rom.mirror_table, MirrorTable::Unknown);
    assert_eq!(rom.p_rom_bytes, 0);
    assert_eq!(rom.c_rom_bytes, 0);
}

#[test]
fn load_rejects_each_broken_magic_byte() {
    for i in 0..4 {
        let mut rom = Rom::default();
        let mut image = build_image(1, 0, 0x00, false);
        image[i] = image[i].wrapping_add(1);
        assert!(!rom.load_bin(&image));
    }
}

#[test]
fn load_rejects_short_buffer() {
    let mut rom = Rom::default();
    assert!(!rom.load_bin(&[0x4e, 0x45, 0x53]));
    let mut image = build_image(1, 0, 0x00, false);
    image.truncate(100);
    assert!(!rom.load_bin(&image));
}

#[test]
fn load_rejects_oversized_banks() {
    let mut rom = Rom::default();
    // Three 16KB program banks exceed the fixed 32KB window.
    let image = build_image(3, 0, 0x00, false);
    assert!(!rom.load_bin(&image));
    // No program bank at all is rejected too.
    let image = build_image(0, 0, 0x00, false);
    assert!(!rom.load_bin(&image));
}

#[test]
fn load_copies_program_and_graphics_data() {
    let mut rom = Rom::default();
    let mut image = build_image(1, 1, 0x00, false);
    image[16] = 0xab; // first program byte
    image[16 + 0x4000] = 0xcd; // first graphics byte
    assert!(rom.load_bin(&image));
    assert_eq!(rom.p_rom[0], 0xab);
    assert_eq!(rom.c_rom[0], 0xcd);
}

#[test]
fn load_skips_trainer_block() {
    let mut rom = Rom::default();
    let mut image = build_image(1, 0, 0x04, true);
    image[16 + 512] = 0x77; // first program byte, after the trainer
    assert!(rom.load_bin(&image));
    assert_eq!(rom.p_rom[0], 0x77);
}

#[test]
fn program_reads_mirror_into_filled_half() {
    let mut rom = Rom::default();
    let mut image = build_image(1, 0, 0x00, false);
    image[16 + 0x0123] = 0x42;
    assert!(rom.load_bin(&image));
    // With one 16KB bank, the upper half of the window aliases the lower.
    assert_eq!(rom.read_u8(0x8123, false), 0x42);
    assert_eq!(rom.read_u8(0xc123, false), 0x42);
}

#[test]
fn battery_ram_reads_back_writes() {
    let mut rom = Rom::default();
    rom.write_u8(0x6123, 0x99, false);
    assert_eq!(rom.read_u8(0x6123, false), 0x99);
}

#[test]
fn graphics_memory_reads_back_writes() {
    let mut rom = Rom::default();
    rom.write_video_u8(0x0123, 0x55);
    assert_eq!(rom.read_video_u8(0x0123), 0x55);
}

#[test]
fn reset_returns_to_power_on_state() {
    let mut rom = Rom::default();
    let image = build_image(1, 0, 0x01, false);
    assert!(rom.load_bin(&image));
    rom.reset();
    assert_eq!(rom.mapper, Mapper::Unknown);
    assert_eq!(rom.mirror_table, MirrorTable::Unknown);
    assert_eq!(rom.p_rom_bytes, 0);
}
