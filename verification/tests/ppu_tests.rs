use nes_core::cpu::{Cpu, Interrupt};
use nes_core::ppu::{
    Ppu, FrameBuffer, Color, TileId, SpriteAttr, Sprite, LineStatus, CPU_CYCLE_PER_LINE,
    RENDER_SCREEN_HEIGHT,
};
use nes_core::rom::MirrorTable;
use nes_core::system::System;

fn setup() -> (Ppu, System, FrameBuffer) {
    let mut system = System::default();
    system.rom.mirror_table = MirrorTable::Horizontal;
    (Ppu::default(), system, FrameBuffer::new())
}

/// Forces the accumulated cycle counter to the line threshold so the
/// next step advances exactly one scanline.
fn advance_one_line(ppu: &mut Ppu, system: &mut System, fb: &mut FrameBuffer) -> Option<Interrupt> {
    ppu.cumulative_cpu_cyc = CPU_CYCLE_PER_LINE - 1;
    ppu.step(1, system, fb)
}

#[test]
fn scanline_counter_wraps_after_262_lines() {
    let (mut ppu, mut system, mut fb) = setup();
    let start = ppu.current_line;
    for _ in 0..RENDER_SCREEN_HEIGHT {
        advance_one_line(&mut ppu, &mut system, &mut fb);
        assert!(ppu.current_line < RENDER_SCREEN_HEIGHT);
    }
    assert_eq!(ppu.current_line, start);
}

#[test]
fn step_below_threshold_only_accumulates() {
    let (mut ppu, mut system, mut fb) = setup();
    let line = ppu.current_line;
    assert!(ppu.step(10, &mut system, &mut fb).is_none());
    assert_eq!(ppu.cumulative_cpu_cyc, 10);
    assert_eq!(ppu.current_line, line);
}

#[test]
fn vblank_entry_raises_flag_and_interrupt_when_enabled() {
    let (mut ppu, mut system, mut fb) = setup();
    system.write_u8(0x2000, 0x80, false); // enable the non-maskable interrupt
    ppu.current_line = 241; // the first blanking line
    let interrupt = advance_one_line(&mut ppu, &mut system, &mut fb);
    assert_eq!(interrupt, Some(Interrupt::NMI));
    assert!(system.read_ppu_is_vblank());
}

#[test]
fn vblank_entry_without_enable_raises_no_interrupt() {
    let (mut ppu, mut system, mut fb) = setup();
    ppu.current_line = 241;
    let interrupt = advance_one_line(&mut ppu, &mut system, &mut fb);
    assert_eq!(interrupt, None);
    assert!(system.read_ppu_is_vblank());
}

#[test]
fn pre_render_line_clears_vblank() {
    let (mut ppu, mut system, mut fb) = setup();
    system.write_ppu_is_vblank(true);
    ppu.current_line = 261;
    advance_one_line(&mut ppu, &mut system, &mut fb);
    assert!(!system.read_ppu_is_vblank());
    assert_eq!(ppu.current_line, 0);
}

#[test]
fn ninth_in_range_sprite_sets_overflow_and_is_not_stored() {
    let (mut ppu, mut system, mut fb) = setup();
    system.write_u8(0x2001, 0x10, false); // enable sprite rendering
    // Nine sprites at y=1 all cover line 5 (height 8).
    for i in 0..9 {
        ppu.oam[i * 4] = 1;
    }
    // Park every other sprite far below the screen.
    for i in 9..64 {
        ppu.oam[i * 4] = 0xf0;
    }
    ppu.current_line = 5;
    advance_one_line(&mut ppu, &mut system, &mut fb);
    assert!(system.read_ppu_is_sprite_overflow());
    assert_eq!(ppu.sprite_temps.iter().filter(|s| s.is_some()).count(), 8);
}

#[test]
fn eight_in_range_sprites_do_not_overflow() {
    let (mut ppu, mut system, mut fb) = setup();
    system.write_u8(0x2001, 0x10, false);
    for i in 0..8 {
        ppu.oam[i * 4] = 1;
    }
    for i in 8..64 {
        ppu.oam[i * 4] = 0xf0;
    }
    ppu.current_line = 5;
    advance_one_line(&mut ppu, &mut system, &mut fb);
    assert!(!system.read_ppu_is_sprite_overflow());
    assert_eq!(ppu.sprite_temps.iter().filter(|s| s.is_some()).count(), 8);
}

#[test]
fn sprite_zero_near_window_bottom_sets_hit_flag() {
    let (mut ppu, mut system, mut fb) = setup();
    system.write_u8(0x2001, 0x10, false);
    ppu.oam[0] = 1; // sprite 0 at y=1, window lines 2..=9
    for i in 1..64 {
        ppu.oam[i * 4] = 0xf0;
    }
    ppu.current_line = 8; // 8 + 3 > 1 + 8: near the bottom
    advance_one_line(&mut ppu, &mut system, &mut fb);
    assert!(system.read_ppu_is_hit_sprite0());

    // Near the top of the window the flag stays clear.
    let (mut ppu2, mut system2, mut fb2) = setup();
    system2.write_u8(0x2001, 0x10, false);
    ppu2.oam[0] = 1;
    for i in 1..64 {
        ppu2.oam[i * 4] = 0xf0;
    }
    ppu2.current_line = 3;
    advance_one_line(&mut ppu2, &mut system2, &mut fb2);
    assert!(!system2.read_ppu_is_hit_sprite0());
}

#[test]
fn staged_video_write_lands_in_video_memory() {
    let (mut ppu, mut system, mut fb) = setup();
    // Program the video address, then store a byte through the data port.
    system.write_u8(0x2006, 0x3f, false);
    system.write_u8(0x2006, 0x01, false);
    system.write_u8(0x2007, 0x2a, false);
    ppu.step(1, &mut system, &mut fb);
    assert_eq!(system.video.read_u8(&system.rom, 0x3f01), 0x2a);
    // The address auto-incremented.
    let (_, addr) = system.read_ppu_addr();
    assert_eq!(addr, 0x3f02);
}

#[test]
fn staged_oam_write_lands_in_object_memory() {
    let (mut ppu, mut system, mut fb) = setup();
    system.write_u8(0x2003, 0x10, false); // object address
    system.write_u8(0x2004, 0x66, false); // object data
    ppu.step(1, &mut system, &mut fb);
    assert_eq!(ppu.oam[0x10], 0x66);
}

#[test]
fn oam_dma_copies_a_page_across_two_steps() {
    let (mut ppu, mut system, mut fb) = setup();
    for i in 0..256u16 {
        system.write_u8(0x0300 + i, (i & 0xff) as u8, false);
    }
    system.write_u8(0x4014, 0x03, false); // trigger the transfer from page 3
    advance_one_line(&mut ppu, &mut system, &mut fb); // first half
    assert!(ppu.is_dma_running);
    advance_one_line(&mut ppu, &mut system, &mut fb); // second half
    assert!(!ppu.is_dma_running);
    for i in 0..256usize {
        assert_eq!(ppu.oam[i], (i & 0xff) as u8);
    }
}

#[test]
fn visible_line_renders_master_background_color() {
    let (mut ppu, mut system, mut fb) = setup();
    // Palette entry 0x01 is a blue; make it the universal background.
    system.video.write_u8(&mut system.rom, 0x3f00, 0x01);
    ppu.current_line = 10;
    advance_one_line(&mut ppu, &mut system, &mut fb);
    let expected = Color::from(0x01);
    assert_eq!(fb.get(10, 0, 0), expected.0);
    assert_eq!(fb.get(10, 0, 1), expected.1);
    assert_eq!(fb.get(10, 0, 2), expected.2);
    // Other rows stay untouched.
    assert_eq!(fb.get(11, 0, 0), 0);
}

#[test]
fn scroll_latch_applies_on_next_line() {
    let (mut ppu, mut system, mut fb) = setup();
    system.write_u8(0x2005, 0x12, false);
    system.write_u8(0x2005, 0x34, false);
    advance_one_line(&mut ppu, &mut system, &mut fb);
    assert_eq!(ppu.fetch_scroll_x, 0x12);
    assert_eq!(ppu.fetch_scroll_y, 0x34);
    assert_eq!(ppu.current_scroll_x, 0x12);
    assert_eq!(ppu.current_scroll_y, 0x34);
}

#[test]
fn color_lookup_masks_to_six_bits() {
    assert_eq!(Color::from(0x0d), Color(0, 0, 0));
    assert!(Color::from(0x0d).is_black());
    assert_eq!(Color::from(0x20), Color(236, 238, 236));
    // Only the low six bits select an entry.
    assert_eq!(Color::from(0x60), Color::from(0x20));
}

#[test]
fn tile_unpacking_follows_the_tile_byte() {
    assert_eq!(TileId::normal(7), TileId::Normal { id: 7 });
    assert_eq!(
        TileId::large(0x23),
        TileId::Large { pattern_table_addr: 0x1000, upper_tile_id: 0x22, lower_tile_id: 0x23 }
    );
    assert_eq!(
        TileId::large(0x22),
        TileId::Large { pattern_table_addr: 0x0000, upper_tile_id: 0x22, lower_tile_id: 0x23 }
    );
}

#[test]
fn sprite_attr_unpacks_flag_bits() {
    let attr = SpriteAttr::from(0xc2);
    assert_eq!(
        attr,
        SpriteAttr { is_vert_flip: true, is_hor_flip: true, is_draw_front: true, palette_id: 2 }
    );
    let attr = SpriteAttr::from(0x20);
    assert!(!attr.is_draw_front);
}

#[test]
fn sprite_unpacks_four_bytes() {
    let sprite = Sprite::from(false, 10, 7, 0x01, 20);
    assert_eq!(sprite.y, 10);
    assert_eq!(sprite.x, 20);
    assert_eq!(sprite.tile_id, TileId::Normal { id: 7 });
    assert_eq!(sprite.attr.palette_id, 1);
}

#[test]
fn line_status_classifies_all_phases() {
    assert_eq!(LineStatus::from(0), LineStatus::Visible);
    assert_eq!(LineStatus::from(239), LineStatus::Visible);
    assert_eq!(LineStatus::from(240), LineStatus::PostRender);
    assert_eq!(LineStatus::from(241), LineStatus::VerticalBlanking(true));
    assert_eq!(LineStatus::from(250), LineStatus::VerticalBlanking(false));
    assert_eq!(LineStatus::from(261), LineStatus::PreRender);
}

#[test]
fn end_to_end_load_and_reset_leaves_power_on_state() {
    // A header-only cartridge: one 16KB program bank, no graphics.
    let mut image = vec![0x4e, 0x45, 0x53, 0x1a, 1, 0, 0, 0, 0, 0, 0, 0, 0, 0, 0, 0];
    image.extend(std::iter::repeat(0u8).take(0x4000));
    // The reset vector (0xfffc) mirrors into offset 0x3ffc of the bank.
    image[16 + 0x3ffc] = 0x00;
    image[16 + 0x3ffd] = 0x80;

    let mut cpu = Cpu::new();
    let mut system = System::default();
    let mut ppu = Ppu::default();
    assert!(system.rom.load_bin(&image));
    cpu.reset();
    system.reset();
    ppu.reset();
    cpu.interrupt(&mut system, Interrupt::RESET);

    assert_eq!(cpu.pc, 0x8000);
    assert_eq!(cpu.s, 0x01fd);
    assert_eq!(cpu.p, 0x34);
}
