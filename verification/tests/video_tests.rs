use nes_core::rom::{Rom, MirrorTable};
use nes_core::video::VideoSystem;

fn setup(mode: MirrorTable) -> (VideoSystem, Rom) {
    let mut rom = Rom::default();
    rom.mirror_table = mode;
    (VideoSystem::default(), rom)
}

#[test]
fn palette_mirror_pairs_share_one_cell() {
    let (mut video, mut rom) = setup(MirrorTable::Horizontal);
    for (mirror, base) in [(0x3f10u16, 0x3f00u16), (0x3f14, 0x3f04), (0x3f18, 0x3f08), (0x3f1c, 0x3f0c)] {
        video.write_u8(&mut rom, mirror, 0xa5);
        assert_eq!(video.read_u8(&rom, base), 0xa5);
        assert_eq!(video.read_u8(&rom, mirror), 0xa5);
        video.write_u8(&mut rom, base, 0x5a);
        assert_eq!(video.read_u8(&rom, mirror), 0x5a);
    }
}

#[test]
fn plain_palette_cells_do_not_alias() {
    let (mut video, mut rom) = setup(MirrorTable::Horizontal);
    video.write_u8(&mut rom, 0x3f01, 0x11);
    video.write_u8(&mut rom, 0x3f11, 0x22);
    assert_eq!(video.read_u8(&rom, 0x3f01), 0x11);
    assert_eq!(video.read_u8(&rom, 0x3f11), 0x22);
}

#[test]
fn horizontal_mirroring_pairs_nametables_vertically() {
    // [A, A] over [B, B]: 0x2000 and 0x2400 share a table; 0x2800 does not.
    let (mut video, mut rom) = setup(MirrorTable::Horizontal);
    video.write_u8(&mut rom, 0x2005, 0x31);
    assert_eq!(video.read_u8(&rom, 0x2405), 0x31);
    assert_eq!(video.read_u8(&rom, 0x2805), 0x00);
    video.write_u8(&mut rom, 0x2805, 0x32);
    assert_eq!(video.read_u8(&rom, 0x2c05), 0x32);
}

#[test]
fn vertical_mirroring_pairs_nametables_horizontally() {
    // [A, B] over [A, B]: 0x2000 and 0x2800 share a table; 0x2400 does not.
    let (mut video, mut rom) = setup(MirrorTable::Vertical);
    video.write_u8(&mut rom, 0x2005, 0x41);
    assert_eq!(video.read_u8(&rom, 0x2805), 0x41);
    assert_eq!(video.read_u8(&rom, 0x2405), 0x00);
    video.write_u8(&mut rom, 0x2405, 0x42);
    assert_eq!(video.read_u8(&rom, 0x2c05), 0x42);
}

#[test]
fn single_screen_mirroring_uses_one_table() {
    let (mut video, mut rom) = setup(MirrorTable::SingleScreen);
    video.write_u8(&mut rom, 0x2005, 0x51);
    assert_eq!(video.read_u8(&rom, 0x2405), 0x51);
    assert_eq!(video.read_u8(&rom, 0x2805), 0x51);
    assert_eq!(video.read_u8(&rom, 0x2c05), 0x51);
}

#[test]
fn nametable_mirror_window_aliases_nametables() {
    let (mut video, mut rom) = setup(MirrorTable::Horizontal);
    video.write_u8(&mut rom, 0x2123, 0x61);
    assert_eq!(video.read_u8(&rom, 0x3123), 0x61);
}

#[test]
fn low_addresses_reach_graphics_memory() {
    let (mut video, mut rom) = setup(MirrorTable::Horizontal);
    video.write_u8(&mut rom, 0x0123, 0x71);
    assert_eq!(video.read_u8(&rom, 0x0123), 0x71);
    assert_eq!(rom.read_video_u8(0x0123), 0x71);
}

#[test]
fn convert_name_table_addr_reports_table_and_offset() {
    let (video, _) = setup(MirrorTable::Horizontal);
    assert_eq!(video.convert_name_table_addr(MirrorTable::Horizontal, 0x2005), (0, 5));
    assert_eq!(video.convert_name_table_addr(MirrorTable::Horizontal, 0x2805), (1, 5));
    assert_eq!(video.convert_name_table_addr(MirrorTable::Vertical, 0x2405), (1, 5));
    assert_eq!(video.convert_name_table_addr(MirrorTable::Vertical, 0x2805), (0, 5));
}

#[test]
fn reset_clears_video_memory() {
    let (mut video, mut rom) = setup(MirrorTable::Horizontal);
    video.write_u8(&mut rom, 0x2005, 0x31);
    video.write_u8(&mut rom, 0x3f01, 0x32);
    video.reset();
    assert_eq!(video.read_u8(&rom, 0x2005), 0);
    assert_eq!(video.read_u8(&rom, 0x3f01), 0);
}
