//! The picture processing unit: per-scanline rendering state machine,
//! sprite evaluation, object-memory transfers, and the fixed
//! 64-entry hardware color palette.

use vstd::prelude::*;

use crate::cpu::Interrupt;
use crate::system::{System, sys_wf};
use crate::video::{
    PALETTE_TABLE_BASE_ADDR, PALETTE_BG_OFFSET, PALETTE_SPRITE_OFFSET, PALETTE_ENTRY_SIZE,
    ATTRIBUTE_TABLE_OFFSET, mirror_supported,
};

verus! {

pub const CPU_CYCLE_PER_LINE: usize = 341 / 3;

pub const NUM_OF_COLOR: usize = 3;

pub const VISIBLE_SCREEN_WIDTH: usize = 256;

pub const VISIBLE_SCREEN_HEIGHT: usize = 240;

pub const RENDER_SCREEN_WIDTH: u16 = 256;

pub const RENDER_SCREEN_HEIGHT: u16 = 262;

pub const PIXEL_PER_TILE: u16 = 8;

pub const SCREEN_TILE_WIDTH: u16 = 32;

pub const SCREEN_TILE_HEIGHT: u16 = 30;

pub const BG_NUM_OF_TILE_PER_ATTRIBUTE_TABLE_ENTRY: u16 = 4;

pub const ATTRIBUTE_TABLE_WIDTH: u16 = 8;

pub const OAM_SIZE: usize = 0x100;

/// How much of the 256-byte object-memory transfer the first of the two
/// half-transfers carries.
pub const OAM_DMA_COPY_SIZE_PER_PPU_STEP: u8 = 0xaa;

pub const PATTERN_TABLE_ENTRY_BYTE: u16 = 16;

pub const SPRITE_TEMP_SIZE: usize = 8;

pub const NUM_OF_SPRITE: usize = 64;

pub const SPRITE_SIZE: usize = 4;

pub const SPRITE_WIDTH: usize = 8;

pub const SPRITE_NORMAL_HEIGHT: usize = 8;

pub const SPRITE_LARGE_HEIGHT: usize = 16;

pub const CYCLE_PER_DRAW_FRAME: usize = CPU_CYCLE_PER_LINE * 263;

#[derive(Copy, Clone, PartialEq, Eq, Structural, Debug)]
pub struct Position(pub u8, pub u8);

/// One RGB color from the fixed hardware palette.
#[derive(Copy, Clone, Eq, PartialEq, Structural, Debug)]
pub struct Color(pub u8, pub u8, pub u8);

/// The fixed 64-entry hardware palette.
pub open spec fn palette_color_spec(index: u8) -> Color {
    match index {
        0x00 => Color(84, 84, 84),
        0x01 => Color(0, 30, 116),
        0x02 => Color(8, 16, 144),
        0x03 => Color(48, 0, 136),
        0x04 => Color(68, 0, 100),
        0x05 => Color(92, 0, 48),
        0x06 => Color(84, 4, 0),
        0x07 => Color(60, 24, 0),
        0x08 => Color(32, 42, 0),
        0x09 => Color(8, 58, 0),
        0x0a => Color(0, 64, 0),
        0x0b => Color(0, 60, 0),
        0x0c => Color(0, 50, 60),
        0x0d => Color(0, 0, 0),
        0x0e => Color(0, 0, 0),
        0x0f => Color(0, 0, 0),
        0x10 => Color(152, 150, 152),
        0x11 => Color(8, 76, 196),
        0x12 => Color(48, 50, 236),
        0x13 => Color(92, 30, 228),
        0x14 => Color(136, 20, 176),
        0x15 => Color(160, 20, 100),
        0x16 => Color(152, 34, 32),
        0x17 => Color(120, 60, 0),
        0x18 => Color(84, 90, 0),
        0x19 => Color(40, 114, 0),
        0x1a => Color(8, 124, 0),
        0x1b => Color(0, 118, 40),
        0x1c => Color(0, 102, 120),
        0x1d => Color(0, 0, 0),
        0x1e => Color(0, 0, 0),
        0x1f => Color(0, 0, 0),
        0x20 => Color(236, 238, 236),
        0x21 => Color(76, 154, 236),
        0x22 => Color(120, 124, 236),
        0x23 => Color(176, 98, 236),
        0x24 => Color(228, 84, 236),
        0x25 => Color(236, 88, 180),
        0x26 => Color(236, 106, 100),
        0x27 => Color(212, 136, 32),
        0x28 => Color(160, 170, 0),
        0x29 => Color(116, 196, 0),
        0x2a => Color(76, 208, 32),
        0x2b => Color(56, 204, 108),
        0x2c => Color(56, 180, 204),
        0x2d => Color(60, 60, 60),
        0x2e => Color(0, 0, 0),
        0x2f => Color(0, 0, 0),
        0x30 => Color(236, 238, 236),
        0x31 => Color(168, 204, 236),
        0x32 => Color(188, 188, 236),
        0x33 => Color(212, 178, 236),
        0x34 => Color(236, 174, 236),
        0x35 => Color(236, 174, 212),
        0x36 => Color(236, 180, 176),
        0x37 => Color(228, 196, 144),
        0x38 => Color(204, 210, 120),
        0x39 => Color(180, 222, 120),
        0x3a => Color(168, 226, 144),
        0x3b => Color(152, 226, 180),
        0x3c => Color(160, 214, 228),
        0x3d => Color(160, 162, 160),
        0x3e => Color(0, 0, 0),
        _ => Color(0, 0, 0),
    }
}

impl Color {
    /// Looks a palette byte up in the fixed hardware palette; only the
    /// low six bits select an entry.
    pub fn from(src: u8) -> (result: Color)
        ensures
            result == palette_color_spec(src & 0x3f),
    {
        let index = src & 0x3f;
        match index {
            0x00 => Color(84, 84, 84),
            0x01 => Color(0, 30, 116),
            0x02 => Color(8, 16, 144),
            0x03 => Color(48, 0, 136),
            0x04 => Color(68, 0, 100),
            0x05 => Color(92, 0, 48),
            0x06 => Color(84, 4, 0),
            0x07 => Color(60, 24, 0),
            0x08 => Color(32, 42, 0),
            0x09 => Color(8, 58, 0),
            0x0a => Color(0, 64, 0),
            0x0b => Color(0, 60, 0),
            0x0c => Color(0, 50, 60),
            0x0d => Color(0, 0, 0),
            0x0e => Color(0, 0, 0),
            0x0f => Color(0, 0, 0),
            0x10 => Color(152, 150, 152),
            0x11 => Color(8, 76, 196),
            0x12 => Color(48, 50, 236),
            0x13 => Color(92, 30, 228),
            0x14 => Color(136, 20, 176),
            0x15 => Color(160, 20, 100),
            0x16 => Color(152, 34, 32),
            0x17 => Color(120, 60, 0),
            0x18 => Color(84, 90, 0),
            0x19 => Color(40, 114, 0),
            0x1a => Color(8, 124, 0),
            0x1b => Color(0, 118, 40),
            0x1c => Color(0, 102, 120),
            0x1d => Color(0, 0, 0),
            0x1e => Color(0, 0, 0),
            0x1f => Color(0, 0, 0),
            0x20 => Color(236, 238, 236),
            0x21 => Color(76, 154, 236),
            0x22 => Color(120, 124, 236),
            0x23 => Color(176, 98, 236),
            0x24 => Color(228, 84, 236),
            0x25 => Color(236, 88, 180),
            0x26 => Color(236, 106, 100),
            0x27 => Color(212, 136, 32),
            0x28 => Color(160, 170, 0),
            0x29 => Color(116, 196, 0),
            0x2a => Color(76, 208, 32),
            0x2b => Color(56, 204, 108),
            0x2c => Color(56, 180, 204),
            0x2d => Color(60, 60, 60),
            0x2e => Color(0, 0, 0),
            0x2f => Color(0, 0, 0),
            0x30 => Color(236, 238, 236),
            0x31 => Color(168, 204, 236),
            0x32 => Color(188, 188, 236),
            0x33 => Color(212, 178, 236),
            0x34 => Color(236, 174, 236),
            0x35 => Color(236, 174, 212),
            0x36 => Color(236, 180, 176),
            0x37 => Color(228, 196, 144),
            0x38 => Color(204, 210, 120),
            0x39 => Color(180, 222, 120),
            0x3a => Color(168, 226, 144),
            0x3b => Color(152, 226, 180),
            0x3c => Color(160, 214, 228),
            0x3d => Color(160, 162, 160),
            0x3e => Color(0, 0, 0),
            _ => Color(0, 0, 0),
        }
    }

    pub fn is_black(&self) -> (result: bool)
        ensures
            result == (self.0 == 0 && self.1 == 0 && self.2 == 0),
    {
        self.0 == 0x0 && self.1 == 0x0 && self.2 == 0x0
    }
}

/// Which pattern-table tile a sprite uses: a plain 8x8 tile, or the
/// double-height pair addressed through the tile byte's low bit.
#[derive(Copy, Clone, PartialEq, Eq, Structural, Debug)]
pub enum TileId {
    Normal { id: u8 },
    Large { pattern_table_addr: u16, upper_tile_id: u8, lower_tile_id: u8 },
}

impl TileId {
    pub fn normal(src: u8) -> (result: TileId)
        ensures
            result == (TileId::Normal { id: src }),
    {
        TileId::Normal { id: src }
    }

    /// A double-height tile: bit 0 selects the pattern table, the rest
    /// selects an even/odd tile pair.
    pub fn large(src: u8) -> (result: TileId)
        ensures
            result == (TileId::Large {
                pattern_table_addr: if src & 0x01 == 0x01 {
                    0x1000u16
                } else {
                    0x0000u16
                },
                upper_tile_id: (src & 0xfe) as u8,
                lower_tile_id: ((src & 0xfe) + 1) as u8,
            }),
    {
        let masked = src & 0xfe;
        proof {
            assert(src & 0xfe < 0xff) by (bit_vector);
        }
        TileId::Large {
            pattern_table_addr: (if (src & 0x01) == 0x01 {
                0x1000
            } else {
                0x0000u16
            }),
            upper_tile_id: masked,
            lower_tile_id: masked + 1,
        }
    }
}

/// A sprite's attribute byte, unpacked.
#[derive(Copy, Clone, PartialEq, Eq, Structural, Debug)]
pub struct SpriteAttr {
    pub is_vert_flip: bool,
    pub is_hor_flip: bool,
    pub is_draw_front: bool,
    pub palette_id: u8,
}

impl SpriteAttr {
    pub fn from(src: u8) -> (result: SpriteAttr)
        ensures
            result == (SpriteAttr {
                is_vert_flip: src & 0x80 == 0x80,
                is_hor_flip: src & 0x40 == 0x40,
                is_draw_front: src & 0x20 != 0x20,
                palette_id: (src & 0x03) as u8,
            }),
    {
        SpriteAttr {
            is_vert_flip: (src & 0x80) == 0x80,
            is_hor_flip: (src & 0x40) == 0x40,
            is_draw_front: (src & 0x20) != 0x20,
            palette_id: (src & 0x03),
        }
    }
}

/// One object-memory entry, unpacked: position, tile and attributes.
#[derive(Copy, Clone, PartialEq, Eq, Structural, Debug)]
pub struct Sprite {
    pub y: u8,
    pub tile_id: TileId,
    pub attr: SpriteAttr,
    pub x: u8,
}

impl Sprite {
    /// Unpacks the four object-memory bytes of one sprite.
    pub fn from(is_large: bool, byte0: u8, byte1: u8, byte2: u8, byte3: u8) -> (result: Sprite)
        ensures
            result.y == byte0,
            result.x == byte3,
            result.attr == (SpriteAttr {
                is_vert_flip: byte2 & 0x80 == 0x80,
                is_hor_flip: byte2 & 0x40 == 0x40,
                is_draw_front: byte2 & 0x20 != 0x20,
                palette_id: (byte2 & 0x03) as u8,
            }),
            is_large ==> result.tile_id == (TileId::Large {
                pattern_table_addr: if byte1 & 0x01 == 0x01 {
                    0x1000u16
                } else {
                    0x0000u16
                },
                upper_tile_id: (byte1 & 0xfe) as u8,
                lower_tile_id: ((byte1 & 0xfe) + 1) as u8,
            }),
            !is_large ==> result.tile_id == (TileId::Normal { id: byte1 }),
    {
        Sprite {
            y: byte0,
            tile_id: (if is_large {
                TileId::large(byte1)
            } else {
                TileId::normal(byte1)
            }),
            attr: SpriteAttr::from(byte2),
            x: byte3,
        }
    }
}

/// The four phases a scanline can be in.
#[derive(Copy, Clone, PartialEq, Eq, Structural, Debug)]
pub enum LineStatus {
    Visible,
    PostRender,
    VerticalBlanking(bool),
    PreRender,
}

impl LineStatus {
    /// Classifies a line index. The index space is closed by the
    /// modulo-262 wraparound, so every reachable line has a phase.
    pub fn from(line: u16) -> (result: LineStatus)
        requires
            line < RENDER_SCREEN_HEIGHT,
        ensures
            line < 240 ==> result == LineStatus::Visible,
            line == 240 ==> result == LineStatus::PostRender,
            241 <= line < 261 ==> result == LineStatus::VerticalBlanking(line == 241),
            line == 261 ==> result == LineStatus::PreRender,
    {
        if line < 240 {
            LineStatus::Visible
        } else if line == 240 {
            LineStatus::PostRender
        } else if line < 261 {
            LineStatus::VerticalBlanking(line == 241)
        } else {
            LineStatus::PreRender
        }
    }
}

/// The rendered pixel grid: one byte per color channel, one row per
/// visible scanline.
pub struct FrameBuffer {
    pub data: Vec<u8>,
}

pub open spec fn fb_wf(fb: FrameBuffer) -> bool {
    fb.data@.len() == VISIBLE_SCREEN_HEIGHT * VISIBLE_SCREEN_WIDTH * NUM_OF_COLOR
}

/// The flat index of one color channel of one pixel.
pub open spec fn fb_index_spec(y: int, x: int, channel: int) -> int {
    (y * VISIBLE_SCREEN_WIDTH + x) * NUM_OF_COLOR + channel
}

/// Each pixel's channels live in the row that owns them.
pub proof fn lemma_fb_index(y: int, x: int, channel: int)
    by (nonlinear_arith)
    requires
        0 <= y < VISIBLE_SCREEN_HEIGHT,
        0 <= x < VISIBLE_SCREEN_WIDTH,
        0 <= channel < NUM_OF_COLOR,
    ensures
        0 <= fb_index_spec(y, x, channel) < VISIBLE_SCREEN_HEIGHT * VISIBLE_SCREEN_WIDTH
            * NUM_OF_COLOR,
        fb_index_spec(y, x, channel) / (VISIBLE_SCREEN_WIDTH * NUM_OF_COLOR) as int == y,
{
}

impl FrameBuffer {
    pub fn new() -> (result: Self)
        ensures
            fb_wf(result),
            forall|i: int|
                0 <= i < VISIBLE_SCREEN_HEIGHT * VISIBLE_SCREEN_WIDTH * NUM_OF_COLOR
                    ==> result.data@[i] == 0u8,
    {
        FrameBuffer {
            data: crate::zero_filled(VISIBLE_SCREEN_HEIGHT * VISIBLE_SCREEN_WIDTH * NUM_OF_COLOR),
        }
    }

    /// Writes one color channel of one pixel.
    pub fn put(&mut self, y: usize, x: usize, channel: usize, value: u8)
        requires
            fb_wf(*old(self)),
            y < VISIBLE_SCREEN_HEIGHT,
            x < VISIBLE_SCREEN_WIDTH,
            channel < NUM_OF_COLOR,
        ensures
            fb_wf(*final(self)),
            final(self).data@ == old(self).data@.update(
                fb_index_spec(y as int, x as int, channel as int),
                value,
            ),
            0 <= fb_index_spec(y as int, x as int, channel as int) < VISIBLE_SCREEN_HEIGHT
                * VISIBLE_SCREEN_WIDTH * NUM_OF_COLOR,
            fb_index_spec(y as int, x as int, channel as int) / (VISIBLE_SCREEN_WIDTH
                * NUM_OF_COLOR) as int == y,
    {
        proof {
            lemma_fb_index(y as int, x as int, channel as int);
        }
        self.data[(y * VISIBLE_SCREEN_WIDTH + x) * NUM_OF_COLOR + channel] = value;
    }

    /// Reads one color channel of one pixel.
    pub fn get(&self, y: usize, x: usize, channel: usize) -> (result: u8)
        requires
            fb_wf(*self),
            y < VISIBLE_SCREEN_HEIGHT,
            x < VISIBLE_SCREEN_WIDTH,
            channel < NUM_OF_COLOR,
        ensures
            result == self.data@[fb_index_spec(y as int, x as int, channel as int)],
    {
        proof {
            lemma_fb_index(y as int, x as int, channel as int);
        }
        self.data[(y * VISIBLE_SCREEN_WIDTH + x) * NUM_OF_COLOR + channel]
    }
}

/// The picture unit's registers and evaluation state.
pub struct Ppu {
    /// Object attribute memory: 64 sprites, four bytes each.
    pub oam: Vec<u8>,
    /// The up-to-8 sprites evaluated for the current scanline.
    pub sprite_temps: Vec<Option<Sprite>>,
    /// CPU cycles accumulated toward the next scanline.
    pub cumulative_cpu_cyc: usize,
    /// The scanline the state machine stands on, always below 262.
    pub current_line: u16,
    /// Scroll offsets as latched from the bus, and as applied to the
    /// line being rendered (double-buffered: mid-frame scroll writes
    /// must not bend the line in progress).
    pub fetch_scroll_x: u8,
    pub fetch_scroll_y: u8,
    pub current_scroll_x: u8,
    pub current_scroll_y: u8,
    /// The in-flight object-memory transfer, split across two steps.
    pub is_dma_running: bool,
    pub dma_cpu_src_addr: u16,
    pub dma_oam_dst_addr: u8,
}

/// An evaluated sprite slot is either empty or holds a sprite whose
/// palette selector and pattern-table base are the ones unpacking can
/// produce.
pub open spec fn sprite_slot_ok(slot: Option<Sprite>) -> bool {
    match slot {
        Some(sprite) => {
            &&& sprite.attr.palette_id < 4
            &&& match sprite.tile_id {
                TileId::Large { pattern_table_addr, .. } => pattern_table_addr == 0
                    || pattern_table_addr == 0x1000,
                TileId::Normal { .. } => true,
            }
        },
        None => true,
    }
}

/// The picture unit's invariant: fixed-size memories, the line inside
/// its modulo-262 range, the cycle accumulator below one line's worth,
/// a page-aligned transfer source, and well-formed evaluated sprites.
pub open spec fn ppu_wf(ppu: Ppu) -> bool {
    &&& ppu.oam@.len() == OAM_SIZE
    &&& ppu.sprite_temps@.len() == SPRITE_TEMP_SIZE
    &&& ppu.current_line < RENDER_SCREEN_HEIGHT
    &&& ppu.cumulative_cpu_cyc < CPU_CYCLE_PER_LINE
    &&& ppu.dma_cpu_src_addr & 0x00ff == 0
    &&& forall|j: int|
        0 <= j < ppu.sprite_temps@.len() ==> sprite_slot_ok(#[trigger] ppu.sprite_temps@[j])
}

impl Ppu {
    pub fn default() -> (result: Self)
        ensures
            ppu_wf(result),
            result.current_line == 241,
            result.cumulative_cpu_cyc == 0,
            !result.is_dma_running,
            result.fetch_scroll_x == 0 && result.fetch_scroll_y == 0,
            result.current_scroll_x == 0 && result.current_scroll_y == 0,
            result.dma_cpu_src_addr == 0 && result.dma_oam_dst_addr == 0,
            forall|i: int| 0 <= i < OAM_SIZE ==> result.oam@[i] == 0u8,
            forall|i: int| 0 <= i < SPRITE_TEMP_SIZE ==> result.sprite_temps@[i] is None,
    {
        let mut sprite_temps: Vec<Option<Sprite>> = Vec::new();
        let mut k: usize = 0;
        while k < SPRITE_TEMP_SIZE
            invariant
                k <= SPRITE_TEMP_SIZE,
                sprite_temps@.len() == k,
                forall|i: int| 0 <= i < k ==> sprite_temps@[i] is None,
            decreases SPRITE_TEMP_SIZE - k,
        {
            sprite_temps.push(None);
            k = k + 1;
        }
        proof {
            assert(0u16 & 0x00ff == 0) by (bit_vector);
        }
        Ppu {
            oam: crate::zero_filled(OAM_SIZE),
            sprite_temps,
            cumulative_cpu_cyc: 0,
            current_line: 241,
            fetch_scroll_x: 0,
            fetch_scroll_y: 0,
            current_scroll_x: 0,
            current_scroll_y: 0,
            is_dma_running: false,
            dma_cpu_src_addr: 0,
            dma_oam_dst_addr: 0,
        }
    }

    /// Returns the unit to its power-on state: cleared memories, the
    /// line at the top of the blanking range.
    pub fn reset(&mut self)
        ensures
            ppu_wf(*final(self)),
            final(self).current_line == 241,
            final(self).cumulative_cpu_cyc == 0,
            !final(self).is_dma_running,
            final(self).fetch_scroll_x == 0 && final(self).fetch_scroll_y == 0,
            final(self).current_scroll_x == 0 && final(self).current_scroll_y == 0,
            final(self).dma_cpu_src_addr == 0 && final(self).dma_oam_dst_addr == 0,
            forall|i: int| 0 <= i < OAM_SIZE ==> final(self).oam@[i] == 0u8,
            forall|i: int| 0 <= i < SPRITE_TEMP_SIZE ==> final(self).sprite_temps@[i] is None,
    {
        let fresh = Ppu::default();
        self.oam = fresh.oam;
        self.sprite_temps = fresh.sprite_temps;
        self.current_line = 241;
        self.cumulative_cpu_cyc = 0;
        self.fetch_scroll_x = 0;
        self.fetch_scroll_y = 0;
        self.current_scroll_x = 0;
        self.current_scroll_y = 0;
        self.is_dma_running = false;
        self.dma_cpu_src_addr = 0;
        self.dma_oam_dst_addr = 0;
    }
}

/// Whether sprite rendering is enabled by the mask register.
pub open spec fn sprite_write_enabled(s: System) -> bool {
    s.ppu_reg@[crate::system::PPU_MASK_OFFSET as int] & 0x10u8 == 0x10u8
}

/// Whether background rendering is enabled by the mask register.
pub open spec fn bg_write_enabled(s: System) -> bool {
    s.ppu_reg@[crate::system::PPU_MASK_OFFSET as int] & 0x08u8 == 0x08u8
}

/// Whether the mask register selects monochrome output.
pub open spec fn monochrome_enabled(s: System) -> bool {
    s.ppu_reg@[crate::system::PPU_MASK_OFFSET as int] & 0x01u8 == 0x01u8
}

/// One channel of an RGB color.
pub open spec fn color_channel(color: Color, channel: int) -> u8 {
    if channel == 0 {
        color.0
    } else if channel == 1 {
        color.1
    } else {
        color.2
    }
}

/// The sprite height the control register selects.
pub open spec fn sprite_height_spec(s: System) -> u16 {
    if s.ppu_reg@[crate::system::PPU_CTRL_OFFSET as int] & 0x20u8 == 0x20u8 {
        16u16
    } else {
        8u16
    }
}

/// Whether object-memory entry `index` covers scanline `line`.
pub open spec fn sprite_in_range(oam: Seq<u8>, index: int, line: u16, height: u16) -> bool {
    &&& oam[index * 4] < line
    &&& line <= oam[index * 4] + height
}

/// How many of the first `n` object-memory entries cover `line`.
pub open spec fn count_in_range(oam: Seq<u8>, line: u16, height: u16, n: int) -> int
    decreases n,
{
    if n <= 0 {
        0
    } else {
        count_in_range(oam, line, height, n - 1) + if sprite_in_range(oam, n - 1, line, height) {
            1int
        } else {
            0int
        }
    }
}

/// Whether sprite 0 covers `line` near the bottom of its window, which
/// raises the sprite-0-hit flag.
pub open spec fn sprite0_hit_spec(oam: Seq<u8>, line: u16, height: u16) -> bool {
    &&& sprite_in_range(oam, 0, line, height)
    &&& line + 3 > oam[0] + height
}

/// One object-memory entry unpacked into a sprite, as the evaluator
/// stores it.
pub open spec fn sprite_unpack(oam: Seq<u8>, index: int, is_large: bool) -> Sprite {
    let byte0 = oam[index * 4];
    let byte1 = oam[index * 4 + 1];
    let byte2 = oam[index * 4 + 2];
    let byte3 = oam[index * 4 + 3];
    Sprite {
        y: byte0,
        tile_id: if is_large {
            TileId::Large {
                pattern_table_addr: if byte1 & 0x01 == 0x01 {
                    0x1000u16
                } else {
                    0x0000u16
                },
                upper_tile_id: (byte1 & 0xfe) as u8,
                lower_tile_id: ((byte1 & 0xfe) + 1) as u8,
            }
        } else {
            TileId::Normal { id: byte1 }
        },
        attr: SpriteAttr {
            is_vert_flip: byte2 & 0x80 == 0x80,
            is_hor_flip: byte2 & 0x40 == 0x40,
            is_draw_front: byte2 & 0x20 != 0x20,
            palette_id: (byte2 & 0x03) as u8,
        },
        x: byte3,
    }
}

/// Scanning further never loses an in-range sprite.
pub proof fn lemma_count_monotonic(oam: Seq<u8>, line: u16, height: u16, a: int, b: int)
    requires
        a <= b,
    ensures
        count_in_range(oam, line, height, a) <= count_in_range(oam, line, height, b),
    decreases b - a,
{
    if a < b {
        lemma_count_monotonic(oam, line, height, a, b - 1);
    }
}

/// The status register after sprite evaluation: the sprite-0-hit and
/// overflow bits may be raised, nothing else moves.
pub open spec fn status_after_eval(status: u8, hit0: bool, overflow: bool) -> u8 {
    let with_hit = if hit0 {
        status | 0x40u8
    } else {
        status
    };
    if overflow {
        with_hit | 0x20u8
    } else {
        with_hit
    }
}

impl Ppu {
    /// Evaluates the sprites for the current scanline: scans all 64
    /// object-memory entries in order, stores the first up to 8 that
    /// cover the line, raises the sprite-0-hit flag when entry 0 covers
    /// the line near its window's bottom, and raises the overflow flag
    /// instead of storing a 9th.
    #[verifier::rlimit(100)]
    #[verifier::spinoff_prover]
    fn fetch_sprite(&mut self, system: &mut System)
        requires
            ppu_wf(*old(self)),
            sys_wf(*old(system)),
        ensures
            ppu_wf(*final(self)),
            sys_wf(*final(system)),
            final(self).oam@ == old(self).oam@,
            final(self).current_line == old(self).current_line,
            final(self).cumulative_cpu_cyc == old(self).cumulative_cpu_cyc,
            final(self).fetch_scroll_x == old(self).fetch_scroll_x,
            final(self).fetch_scroll_y == old(self).fetch_scroll_y,
            final(self).current_scroll_x == old(self).current_scroll_x,
            final(self).current_scroll_y == old(self).current_scroll_y,
            final(self).is_dma_running == old(self).is_dma_running,
            final(self).dma_cpu_src_addr == old(self).dma_cpu_src_addr,
            final(self).dma_oam_dst_addr == old(self).dma_oam_dst_addr,
            crate::system::sys_mem_unchanged(*old(system), *final(system)),
            crate::system::sys_latches_unchanged(*old(system), *final(system)),
            !sprite_write_enabled(*old(system)) ==> {
                &&& final(self).sprite_temps@ == old(self).sprite_temps@
                &&& final(system).ppu_reg@ == old(system).ppu_reg@
            },
            sprite_write_enabled(*old(system)) ==> {
                let total = count_in_range(
                    old(self).oam@,
                    old(self).current_line,
                    sprite_height_spec(*old(system)),
                    NUM_OF_SPRITE as int,
                );
                let stored = if total >= SPRITE_TEMP_SIZE {
                    SPRITE_TEMP_SIZE as int
                } else {
                    total
                };
                &&& forall|j: int| 0 <= j < stored ==> final(self).sprite_temps@[j] is Some
                &&& forall|j: int|
                    stored <= j < SPRITE_TEMP_SIZE ==> final(self).sprite_temps@[j] is None
                &&& forall|idx: int|
                    0 <= idx < NUM_OF_SPRITE && sprite_in_range(
                        old(self).oam@,
                        idx,
                        old(self).current_line,
                        sprite_height_spec(*old(system)),
                    ) && #[trigger] count_in_range(
                        old(self).oam@,
                        old(self).current_line,
                        sprite_height_spec(*old(system)),
                        idx,
                    ) < SPRITE_TEMP_SIZE ==> final(self).sprite_temps@[count_in_range(
                        old(self).oam@,
                        old(self).current_line,
                        sprite_height_spec(*old(system)),
                        idx,
                    )] == Some(
                        sprite_unpack(
                            old(self).oam@,
                            idx,
                            sprite_height_spec(*old(system)) == 16,
                        ),
                    )
                &&& final(system).ppu_reg@.len() == crate::system::PPU_REG_SIZE
                &&& forall|i: int|
                    0 <= i < crate::system::PPU_REG_SIZE && i
                        != crate::system::PPU_STATUS_OFFSET ==> final(system).ppu_reg@[i] == old(
                        system,
                    ).ppu_reg@[i]
                &&& final(system).ppu_reg@[crate::system::PPU_STATUS_OFFSET as int]
                    == status_after_eval(
                    old(system).ppu_reg@[crate::system::PPU_STATUS_OFFSET as int],
                    sprite0_hit_spec(
                        old(self).oam@,
                        old(self).current_line,
                        sprite_height_spec(*old(system)),
                    ),
                    total > SPRITE_TEMP_SIZE,
                )
            },
    {
        if !system.read_ppu_is_write_sprite() {
            return ;
        }
        let sprite_begin_y = self.current_line;
        let sprite_height = u16::from(system.read_ppu_sprite_height());
        let is_large = sprite_height == 16;

        let mut fresh: Vec<Option<Sprite>> = Vec::new();
        let mut k: usize = 0;
        while k < SPRITE_TEMP_SIZE
            invariant
                k <= SPRITE_TEMP_SIZE,
                fresh@.len() == k,
                forall|i: int| 0 <= i < k ==> fresh@[i] is None,
            decreases SPRITE_TEMP_SIZE - k,
        {
            fresh.push(None);
            k = k + 1;
        }
        self.sprite_temps = fresh;

        let ghost oam0 = self.oam@;
        let ghost status0 = system.ppu_reg@[crate::system::PPU_STATUS_OFFSET as int];
        let mut tmp_index: usize = 0;
        let mut done: bool = false;
        let mut sprite_index: usize = 0;
        while sprite_index < NUM_OF_SPRITE
            invariant
                sprite_index <= NUM_OF_SPRITE,
                ppu_wf(*self),
                sys_wf(*system),
                self.oam@ == old(self).oam@,
                oam0 == old(self).oam@,
                status0 == old(system).ppu_reg@[crate::system::PPU_STATUS_OFFSET as int],
                sprite_begin_y == old(self).current_line,
                sprite_height == sprite_height_spec(*old(system)),
                is_large == (sprite_height == 16),
                self.current_line == old(self).current_line,
                self.cumulative_cpu_cyc == old(self).cumulative_cpu_cyc,
                self.fetch_scroll_x == old(self).fetch_scroll_x,
                self.fetch_scroll_y == old(self).fetch_scroll_y,
                self.current_scroll_x == old(self).current_scroll_x,
                self.current_scroll_y == old(self).current_scroll_y,
                self.is_dma_running == old(self).is_dma_running,
                self.dma_cpu_src_addr == old(self).dma_cpu_src_addr,
                self.dma_oam_dst_addr == old(self).dma_oam_dst_addr,
                crate::system::sys_mem_unchanged(*old(system), *system),
                crate::system::sys_latches_unchanged(*old(system), *system),
                self.sprite_temps@.len() == SPRITE_TEMP_SIZE,
                tmp_index <= SPRITE_TEMP_SIZE,
                tmp_index as int == ({
                    let c = count_in_range(oam0, sprite_begin_y, sprite_height, sprite_index as int);
                    if c >= SPRITE_TEMP_SIZE {
                        SPRITE_TEMP_SIZE as int
                    } else {
                        c
                    }
                }),
                done == (count_in_range(oam0, sprite_begin_y, sprite_height, sprite_index as int)
                    > SPRITE_TEMP_SIZE),
                forall|j: int| 0 <= j < tmp_index ==> self.sprite_temps@[j] is Some,
                forall|j: int|
                    tmp_index <= j < SPRITE_TEMP_SIZE ==> self.sprite_temps@[j] is None,
                forall|idx: int|
                    0 <= idx < sprite_index && sprite_in_range(
                        oam0,
                        idx,
                        sprite_begin_y,
                        sprite_height,
                    ) && #[trigger] count_in_range(oam0, sprite_begin_y, sprite_height, idx)
                        < SPRITE_TEMP_SIZE ==> self.sprite_temps@[count_in_range(
                        oam0,
                        sprite_begin_y,
                        sprite_height,
                        idx,
                    )] == Some(sprite_unpack(oam0, idx, is_large)),
                system.ppu_reg@.len() == crate::system::PPU_REG_SIZE,
                forall|i: int|
                    0 <= i < crate::system::PPU_REG_SIZE && i
                        != crate::system::PPU_STATUS_OFFSET ==> system.ppu_reg@[i] == old(
                        system,
                    ).ppu_reg@[i],
                system.ppu_reg@[crate::system::PPU_STATUS_OFFSET as int] == status_after_eval(
                    status0,
                    sprite_index >= 1 && sprite0_hit_spec(oam0, sprite_begin_y, sprite_height),
                    done,
                ),
            decreases NUM_OF_SPRITE - sprite_index,
        {
            if !done {
                let target_oam_addr = sprite_index * 4;
                let sprite_y = u16::from(self.oam[target_oam_addr]);
                let sprite_end_y = sprite_y + sprite_height;
                if (sprite_y < sprite_begin_y) && (sprite_begin_y <= sprite_end_y) {
                    if sprite_index == 0 && sprite_begin_y + 3 > sprite_end_y {
                        system.write_ppu_is_hit_sprite0(true);
                    }
                    if tmp_index >= SPRITE_TEMP_SIZE {
                        system.write_ppu_is_sprite_overflow(true);
                        done = true;
                    } else {
                        let byte0 = self.oam[target_oam_addr];
                        let byte1 = self.oam[target_oam_addr + 1];
                        let byte2 = self.oam[target_oam_addr + 2];
                        let byte3 = self.oam[target_oam_addr + 3];
                        let sprite = Sprite::from(is_large, byte0, byte1, byte2, byte3);
                        proof {
                            assert(byte2 & 0x03 < 4) by (bit_vector);
                            assert(sprite == sprite_unpack(oam0, sprite_index as int, is_large));
                            assert forall|idx2: int|
                                0 <= idx2 < sprite_index && sprite_in_range(
                                    oam0,
                                    idx2,
                                    sprite_begin_y,
                                    sprite_height,
                                ) implies #[trigger] count_in_range(
                                oam0,
                                sprite_begin_y,
                                sprite_height,
                                idx2,
                            ) < tmp_index by {
                                lemma_count_monotonic(
                                    oam0,
                                    sprite_begin_y,
                                    sprite_height,
                                    idx2 + 1,
                                    sprite_index as int,
                                );
                            }
                        }
                        self.sprite_temps[tmp_index] = Some(sprite);
                        proof {
                            assert forall|idx2: int|
                                0 <= idx2 < sprite_index + 1 && sprite_in_range(
                                    oam0,
                                    idx2,
                                    sprite_begin_y,
                                    sprite_height,
                                ) && #[trigger] count_in_range(
                                oam0,
                                sprite_begin_y,
                                sprite_height,
                                idx2,
                            ) < SPRITE_TEMP_SIZE implies self.sprite_temps@[count_in_range(
                                oam0,
                                sprite_begin_y,
                                sprite_height,
                                idx2,
                            )] == Some(sprite_unpack(oam0, idx2, is_large)) by {
                                let c = count_in_range(oam0, sprite_begin_y, sprite_height, idx2);
                                lemma_count_monotonic(oam0, sprite_begin_y, sprite_height, 0, idx2);
                                if idx2 < sprite_index {
                                    lemma_count_monotonic(
                                        oam0,
                                        sprite_begin_y,
                                        sprite_height,
                                        idx2 + 1,
                                        sprite_index as int,
                                    );
                                    assert(c < tmp_index);
                                }
                            }
                        }
                        tmp_index = tmp_index + 1;
                    }
                }
            }
            sprite_index = sprite_index + 1;
        }
    }
}

/// A page base has a zero low byte, and keeps it while the transfer
/// offset stays within a page.
pub proof fn lemma_dma_page(page: u8)
    by (bit_vector)
    ensures
        (((page as u16) << 8) & 0x00ff) == 0,
{
}

/// A transfer offset fits in one byte.
pub proof fn lemma_dma_offset_bound(offset: u16)
    by (bit_vector)
    requires
        offset < 0x100,
    ensures
        offset & 0xff == offset,
{
}

/// The sprite-status bits do not disturb the vblank bit, and the
/// vblank writes force it.
pub proof fn lemma_status_vblank_bit(p: u8)
    by (bit_vector)
    ensures
        ((p | 0x40u8) & 0x80u8 == 0x80u8) == (p & 0x80u8 == 0x80u8),
        ((p & !0x40u8) & 0x80u8 == 0x80u8) == (p & 0x80u8 == 0x80u8),
        ((p | 0x20u8) & 0x80u8 == 0x80u8) == (p & 0x80u8 == 0x80u8),
        ((p & !0x20u8) & 0x80u8 == 0x80u8) == (p & 0x80u8 == 0x80u8),
        (p | 0x80u8) & 0x80u8 == 0x80u8,
        (p & 0x7fu8) & 0x80u8 != 0x80u8,
{
}

/// A page-aligned source address leaves room for a whole page.
pub proof fn lemma_page_aligned_bound(src: u16)
    by (bit_vector)
    requires
        src & 0x00ff == 0,
    ensures
        src <= 0xff00,
{
}

/// Offsets below 256 land on distinct object-memory cells.
pub proof fn lemma_mod256_distinct(base: int, i: int, j: int)
    by (nonlinear_arith)
    requires
        0 <= base,
        0 <= i < j,
        j - i < 256,
    ensures
        (base + i) % 256 != (base + j) % 256,
{
}

/// The sprite pattern table the control register selects.
pub open spec fn sprite_pattern_base_spec(s: System) -> u16 {
    if s.ppu_reg@[crate::system::PPU_CTRL_OFFSET as int] & 0x08u8 == 0x08u8 {
        0x1000u16
    } else {
        0x0000u16
    }
}

/// Whether the left 8 sprite columns are clipped (mask bit clear).
pub open spec fn sprite_clip_left_spec(s: System) -> bool {
    s.ppu_reg@[crate::system::PPU_MASK_OFFSET as int] & 0x04u8 != 0x04u8
}

/// The pixel one evaluated sprite slot produces at a screen position:
/// nothing if the slot is empty, clipped, outside the sprite's window or
/// transparent; otherwise the palette byte it produces, tagged with its
/// front/back priority.
pub open spec fn sprite_slot_pixel(slot: Option<Sprite>, s: System, pixel_x: int, pixel_y: int) -> Option<
    (bool, u8),
> {
    match slot {
        None => None,
        Some(sprite) => {
            if (sprite_clip_left_spec(s) && pixel_x < 8) || !(sprite.x <= pixel_x < sprite.x
                + SPRITE_WIDTH) || !(sprite.y < pixel_y) {
                None
            } else {
                let sprite_offset_x = pixel_x - sprite.x;
                let sprite_offset_y = pixel_y - sprite.y - 1;
                let pattern_addr = match sprite.tile_id {
                    TileId::Normal { id } => sprite_pattern_base_spec(s),
                    TileId::Large { pattern_table_addr, .. } => pattern_table_addr,
                };
                let tile_id = match sprite.tile_id {
                    TileId::Normal { id } => id,
                    TileId::Large { pattern_table_addr, upper_tile_id, lower_tile_id } => {
                        if (sprite_offset_y < SPRITE_NORMAL_HEIGHT) == sprite.attr.is_vert_flip {
                            lower_tile_id
                        } else {
                            upper_tile_id
                        }
                    },
                };
                let tile_offset_x = if !sprite.attr.is_hor_flip {
                    sprite_offset_x
                } else {
                    SPRITE_WIDTH - 1 - sprite_offset_x
                };
                let tile_offset_y = if !sprite.attr.is_vert_flip {
                    sprite_offset_y % SPRITE_NORMAL_HEIGHT as int
                } else {
                    SPRITE_NORMAL_HEIGHT - 1 - (sprite_offset_y % SPRITE_NORMAL_HEIGHT as int)
                };
                let addr_lower = pattern_addr + tile_id * PATTERN_TABLE_ENTRY_BYTE + tile_offset_y;
                let data_lower = crate::video::video_read_spec(s.video, s.rom, addr_lower as u16);
                let data_upper = crate::video::video_read_spec(
                    s.video,
                    s.rom,
                    (addr_lower + 8) as u16,
                );
                let shift = (7 - tile_offset_x) as u8;
                let palette_offset = (((data_upper >> shift) & 0x01) << 1) | ((data_lower >> shift)
                    & 0x01);
                let palette_addr = ((PALETTE_TABLE_BASE_ADDR + PALETTE_SPRITE_OFFSET) + (
                sprite.attr.palette_id as int) * (PALETTE_ENTRY_SIZE as int)
                    + palette_offset) as u16;
                if palette_addr & 0x03 == 0x00 {
                    None
                } else {
                    Some(
                        (
                            sprite.attr.is_draw_front,
                            crate::video::video_read_spec(s.video, s.rom, palette_addr),
                        ),
                    )
                }
            }
        },
    }
}

/// The back- and front-priority sprite pixels after scanning the first
/// `n` evaluated slots in order: among opaque hits of each priority, a
/// later slot overrides an earlier one.
pub open spec fn sprite_scan(
    temps: Seq<Option<Sprite>>,
    n: int,
    s: System,
    pixel_x: int,
    pixel_y: int,
) -> (Option<u8>, Option<u8>)
    decreases n,
{
    if n <= 0 {
        (None, None)
    } else {
        let prev = sprite_scan(temps, n - 1, s, pixel_x, pixel_y);
        match sprite_slot_pixel(temps[n - 1], s, pixel_x, pixel_y) {
            Some(hit) => if hit.0 {
                (prev.0, Some(hit.1))
            } else {
                (Some(hit.1), prev.1)
            },
            None => prev,
        }
    }
}

impl Ppu {
    /// One half of the staged object-memory transfer: the first half
    /// runs when the transfer is triggered, the second on the next step,
    /// approximating the real transfer's timing. Copies bus bytes from
    /// the staged source page into object memory.
    #[verifier::rlimit(100)]
    #[verifier::spinoff_prover]
    fn run_dma(&mut self, system: &mut System, is_pre_transfer: bool)
        requires
            ppu_wf(*old(self)),
            sys_wf(*old(system)),
            is_pre_transfer == !old(self).is_dma_running,
        ensures
            ppu_wf(*final(self)),
            sys_wf(*final(system)),
            final(self).is_dma_running == is_pre_transfer,
            final(self).current_line == old(self).current_line,
            final(self).cumulative_cpu_cyc == old(self).cumulative_cpu_cyc,
            final(self).sprite_temps@ == old(self).sprite_temps@,
            final(self).fetch_scroll_x == old(self).fetch_scroll_x,
            final(self).fetch_scroll_y == old(self).fetch_scroll_y,
            final(self).current_scroll_x == old(self).current_scroll_x,
            final(self).current_scroll_y == old(self).current_scroll_y,
            final(self).dma_cpu_src_addr == old(self).dma_cpu_src_addr,
            final(self).dma_oam_dst_addr == old(self).dma_oam_dst_addr,
            final(system).wram@ == old(system).wram@,
            final(system).io_reg@ == old(system).io_reg@,
            final(system).rom == old(system).rom,
            final(system).video == old(system).video,
            final(system).ppu_reg@.len() == crate::system::PPU_REG_SIZE,
            forall|i: int|
                0 <= i < crate::system::PPU_REG_SIZE && i != crate::system::PPU_STATUS_OFFSET
                    ==> final(system).ppu_reg@[i] == old(system).ppu_reg@[i],
            final(system).write_oam_data == old(system).write_oam_data,
            final(system).write_ppu_scroll == old(system).write_ppu_scroll,
            final(system).write_ppu_addr == old(system).write_ppu_addr,
            final(system).write_ppu_data == old(system).write_ppu_data,
            final(system).write_oam_dma == old(system).write_oam_dma,
            final(system).ppu_scroll_y == old(system).ppu_scroll_y,
            final(system).ppu_addr_lower == old(system).ppu_addr_lower,
            final(self).oam@.len() == OAM_SIZE,
            // A transfer whose source page lies in work RAM copies the
            // page bytes into object memory, wrapping at the staged
            // destination.
            old(self).dma_cpu_src_addr + OAM_SIZE <= crate::system::PPU_REG_BASE_ADDR ==> {
                let src = old(self).dma_cpu_src_addr as int;
                let dst = old(self).dma_oam_dst_addr as int;
                let start = if is_pre_transfer {
                    0int
                } else {
                    OAM_DMA_COPY_SIZE_PER_PPU_STEP as int
                };
                let size = if is_pre_transfer {
                    OAM_DMA_COPY_SIZE_PER_PPU_STEP as int
                } else {
                    OAM_SIZE - OAM_DMA_COPY_SIZE_PER_PPU_STEP
                };
                forall|i: int|
                    0 <= i < size ==> final(self).oam@[#[trigger] ((dst + start + i) % 256)] == old(
                        system,
                    ).wram@[(src + start + i) % crate::system::WRAM_SIZE as int]
            },
            // A transfer whose source page lies in the cartridge's
            // program region copies the mapped cartridge bytes.
            old(self).dma_cpu_src_addr >= crate::rom::PRG_ROM_SYSTEM_BASE_ADDR ==> {
                let src = old(self).dma_cpu_src_addr as int;
                let dst = old(self).dma_oam_dst_addr as int;
                let start = if is_pre_transfer {
                    0int
                } else {
                    OAM_DMA_COPY_SIZE_PER_PPU_STEP as int
                };
                let size = if is_pre_transfer {
                    OAM_DMA_COPY_SIZE_PER_PPU_STEP as int
                } else {
                    OAM_SIZE - OAM_DMA_COPY_SIZE_PER_PPU_STEP
                };
                forall|i: int|
                    0 <= i < size ==> final(self).oam@[#[trigger] ((dst + start + i) % 256)]
                        == crate::rom::rom_read_spec(old(system).rom, (src + start + i) as u16)
            },
    {
        let start_offset: u8 = if is_pre_transfer {
            0
        } else {
            OAM_DMA_COPY_SIZE_PER_PPU_STEP
        };
        let cpu_start_addr: u16 = self.dma_cpu_src_addr.wrapping_add(u16::from(start_offset));
        let oam_start_addr: u8 = self.dma_oam_dst_addr.wrapping_add(start_offset);
        let transfer_size: u16 = if is_pre_transfer {
            OAM_DMA_COPY_SIZE_PER_PPU_STEP as u16
        } else {
            (OAM_SIZE as u16) - (OAM_DMA_COPY_SIZE_PER_PPU_STEP as u16)
        };

        let mut offset: u16 = 0;
        while offset < transfer_size
            invariant
                transfer_size <= 0x100,
                ppu_wf(*self),
                sys_wf(*system),
                self.is_dma_running == old(self).is_dma_running,
                self.current_line == old(self).current_line,
                self.cumulative_cpu_cyc == old(self).cumulative_cpu_cyc,
                self.sprite_temps@ == old(self).sprite_temps@,
                self.fetch_scroll_x == old(self).fetch_scroll_x,
                self.fetch_scroll_y == old(self).fetch_scroll_y,
                self.current_scroll_x == old(self).current_scroll_x,
                self.current_scroll_y == old(self).current_scroll_y,
                self.dma_cpu_src_addr == old(self).dma_cpu_src_addr,
                self.dma_oam_dst_addr == old(self).dma_oam_dst_addr,
                system.wram@ == old(system).wram@,
                system.io_reg@ == old(system).io_reg@,
                system.rom == old(system).rom,
                system.video == old(system).video,
                system.ppu_reg@.len() == crate::system::PPU_REG_SIZE,
                forall|i: int|
                    0 <= i < crate::system::PPU_REG_SIZE && i != crate::system::PPU_STATUS_OFFSET
                        ==> system.ppu_reg@[i] == old(system).ppu_reg@[i],
                system.write_oam_data == old(system).write_oam_data,
                system.write_ppu_scroll == old(system).write_ppu_scroll,
                system.write_ppu_addr == old(system).write_ppu_addr,
                system.write_ppu_data == old(system).write_ppu_data,
                system.write_oam_dma == old(system).write_oam_dma,
                system.ppu_scroll_y == old(system).ppu_scroll_y,
                system.ppu_addr_lower == old(system).ppu_addr_lower,
                offset <= transfer_size,
                start_offset as int == (if is_pre_transfer {
                    0int
                } else {
                    OAM_DMA_COPY_SIZE_PER_PPU_STEP as int
                }),
                transfer_size as int == (if is_pre_transfer {
                    OAM_DMA_COPY_SIZE_PER_PPU_STEP as int
                } else {
                    OAM_SIZE - OAM_DMA_COPY_SIZE_PER_PPU_STEP
                }),
                cpu_start_addr == vstd::wrapping::u16_specs::wrapping_add(
                    old(self).dma_cpu_src_addr,
                    start_offset as u16,
                ),
                oam_start_addr == vstd::wrapping::u8_specs::wrapping_add(
                    old(self).dma_oam_dst_addr,
                    start_offset,
                ),
                old(self).dma_cpu_src_addr + OAM_SIZE <= crate::system::PPU_REG_BASE_ADDR ==> {
                    let src = old(self).dma_cpu_src_addr as int;
                    let dst = old(self).dma_oam_dst_addr as int;
                    let start = start_offset as int;
                    forall|j: int|
                        0 <= j < offset ==> self.oam@[#[trigger] ((dst + start + j) % 256)] == old(
                            system,
                        ).wram@[(src + start + j) % crate::system::WRAM_SIZE as int]
                },
                old(self).dma_cpu_src_addr >= crate::rom::PRG_ROM_SYSTEM_BASE_ADDR ==> {
                    let src = old(self).dma_cpu_src_addr as int;
                    let dst = old(self).dma_oam_dst_addr as int;
                    let start = start_offset as int;
                    forall|j: int|
                        0 <= j < offset ==> self.oam@[#[trigger] ((dst + start + j) % 256)]
                            == crate::rom::rom_read_spec(old(system).rom, (src + start + j) as u16)
                },
            decreases transfer_size - offset,
        {
            let cpu_addr = cpu_start_addr.wrapping_add(offset);
            proof {
                lemma_dma_offset_bound(offset);
            }
            let oam_addr = usize::from(oam_start_addr.wrapping_add((offset & 0xff) as u8));

            let cpu_data = system.read_u8(cpu_addr, false);
            self.oam[oam_addr] = cpu_data;
            proof {
                lemma_page_aligned_bound(old(self).dma_cpu_src_addr);
                if old(self).dma_cpu_src_addr + OAM_SIZE <= crate::system::PPU_REG_BASE_ADDR
                    || old(self).dma_cpu_src_addr >= crate::rom::PRG_ROM_SYSTEM_BASE_ADDR {
                    let base = old(self).dma_oam_dst_addr as int + start_offset as int;
                    assert forall|j: int| 0 <= j < offset implies #[trigger] ((base + j) % 256)
                        != (base + offset as int) % 256 by {
                        lemma_mod256_distinct(base, j, offset as int);
                    }
                }
            }
            offset = offset + 1;
        }

        self.is_dma_running = is_pre_transfer;
    }

    /// The sprite pixels at one screen position: the
    /// back-priority and front-priority palette bytes, if any of the
    /// line's evaluated sprites cover the position with an opaque pixel.
    fn get_sprite_draw_data(&self, system: &System, pixel_x: usize, pixel_y: usize) -> (result: (
        Option<u8>,
        Option<u8>,
    ))
        requires
            ppu_wf(*self),
            sys_wf(*system),
            pixel_x < VISIBLE_SCREEN_WIDTH,
            pixel_y < VISIBLE_SCREEN_HEIGHT,
        ensures
            !sprite_write_enabled(*system) ==> result == (None::<u8>, None::<u8>),
            sprite_write_enabled(*system) ==> result == sprite_scan(
                self.sprite_temps@,
                SPRITE_TEMP_SIZE as int,
                *system,
                pixel_x as int,
                pixel_y as int,
            ),
    {
        if !system.read_ppu_is_write_sprite() {
            return (None, None);
        }
        let mut sprite_palette_data_back: Option<u8> = None;
        let mut sprite_palette_data_front: Option<u8> = None;

        let mut slot: usize = 0;
        while slot < SPRITE_TEMP_SIZE
            invariant
                ppu_wf(*self),
                sys_wf(*system),
                pixel_x < VISIBLE_SCREEN_WIDTH,
                pixel_y < VISIBLE_SCREEN_HEIGHT,
                slot <= SPRITE_TEMP_SIZE,
                sprite_write_enabled(*system),
                (sprite_palette_data_back, sprite_palette_data_front) == sprite_scan(
                    self.sprite_temps@,
                    slot as int,
                    *system,
                    pixel_x as int,
                    pixel_y as int,
                ),
            decreases SPRITE_TEMP_SIZE - slot,
        {
            let entry = self.sprite_temps[slot];
            if let Some(sprite) = entry {
                let sprite_x = usize::from(sprite.x);
                let sprite_y = usize::from(sprite.y);
                let is_sprite_clipping = system.read_ppu_is_clip_sprite_leftend() && (pixel_x < 8);
                if !is_sprite_clipping && (sprite_x <= pixel_x) && (pixel_x < sprite_x
                    + SPRITE_WIDTH) && (sprite_y < pixel_y) {
                    let sprite_offset_x: usize = pixel_x - sprite_x;
                    let sprite_offset_y: usize = pixel_y - sprite_y - 1;

                    let (sprite_pattern_table_addr, sprite_tile_id): (u16, u8) = match sprite
                        .tile_id {
                        TileId::Normal { id } => (system.read_ppu_sprite_pattern_table_addr(), id),
                        TileId::Large { pattern_table_addr, upper_tile_id, lower_tile_id } => {
                            let is_upper = sprite_offset_y < SPRITE_NORMAL_HEIGHT;
                            let is_vflip = sprite.attr.is_vert_flip;
                            let id = if is_upper == is_vflip {
                                lower_tile_id
                            } else {
                                upper_tile_id
                            };
                            (pattern_table_addr, id)
                        },
                    };
                    let tile_offset_x: usize = if !sprite.attr.is_hor_flip {
                        sprite_offset_x
                    } else {
                        SPRITE_WIDTH - 1 - sprite_offset_x
                    };
                    let tile_offset_y: usize = if !sprite.attr.is_vert_flip {
                        sprite_offset_y % SPRITE_NORMAL_HEIGHT
                    } else {
                        SPRITE_NORMAL_HEIGHT - 1 - (sprite_offset_y % SPRITE_NORMAL_HEIGHT)
                    };
                    let sprite_pattern_table_base_addr = sprite_pattern_table_addr + (u16::from(
                        sprite_tile_id,
                    ) * PATTERN_TABLE_ENTRY_BYTE);
                    let sprite_pattern_table_addr_lower = sprite_pattern_table_base_addr + (
                    tile_offset_y as u16);
                    let sprite_pattern_table_addr_upper = sprite_pattern_table_addr_lower + 8;
                    let sprite_data_lower = system.video.read_u8(
                        &system.rom,
                        sprite_pattern_table_addr_lower,
                    );
                    let sprite_data_upper = system.video.read_u8(
                        &system.rom,
                        sprite_pattern_table_addr_upper,
                    );

                    let shift = (7 - tile_offset_x) as u8;
                    let sprite_palette_offset = (((sprite_data_upper >> shift) & 0x01) << 1) | ((
                    sprite_data_lower >> shift) & 0x01);
                    proof {
                        let hi = sprite_data_upper;
                        let lo = sprite_data_lower;
                        let sh = shift;
                        assert((((hi >> sh) & 0x01) << 1) | ((lo >> sh) & 0x01) < 4) by (
                        bit_vector);
                    }
                    let sprite_palette_addr = (PALETTE_TABLE_BASE_ADDR + PALETTE_SPRITE_OFFSET) + (
                    u16::from(sprite.attr.palette_id) * PALETTE_ENTRY_SIZE) + u16::from(
                        sprite_palette_offset,
                    );
                    let is_tranparent = (sprite_palette_addr & 0x03) == 0x00;
                    if !is_tranparent {
                        let sprite_palette_data = system.video.read_u8(
                            &system.rom,
                            sprite_palette_addr,
                        );
                        if sprite.attr.is_draw_front {
                            sprite_palette_data_front = Some(sprite_palette_data);
                        } else {
                            sprite_palette_data_back = Some(sprite_palette_data);
                        }
                    }
                }
            }
            proof {
                assert((sprite_palette_data_back, sprite_palette_data_front) == sprite_scan(
                    self.sprite_temps@,
                    slot as int + 1,
                    *system,
                    pixel_x as int,
                    pixel_y as int,
                ));
            }
            slot = slot + 1;
        }
        (sprite_palette_data_back, sprite_palette_data_front)
    }
}

/// The background pattern table the control register selects.
pub open spec fn bg_pattern_base_spec(s: System) -> u16 {
    if s.ppu_reg@[crate::system::PPU_CTRL_OFFSET as int] & 0x10u8 == 0x10u8 {
        0x1000u16
    } else {
        0x0000u16
    }
}

/// Whether the left 8 background columns are clipped (mask bit clear).
pub open spec fn bg_clip_left_spec(s: System) -> bool {
    s.ppu_reg@[crate::system::PPU_MASK_OFFSET as int] & 0x02u8 != 0x02u8
}

/// The background palette byte at one position of the current line:
/// the scroll-adjusted tile coordinates resolve a nametable cell, its
/// attribute two-bit palette selector and its two pattern bit-planes;
/// nothing when clipped, disabled or transparent.
pub open spec fn bg_pixel_spec(ppu: Ppu, s: System, pixel_x: int) -> Option<u8> {
    let raw_y = ppu.current_line + ppu.current_scroll_y;
    let offset_y = raw_y % 8;
    let tile_base_y = raw_y / 8;
    let tile_global_y = tile_base_y % (SCREEN_TILE_HEIGHT * 2);
    let tile_local_y = tile_global_y % (SCREEN_TILE_HEIGHT as int);
    let top = tile_global_y < SCREEN_TILE_HEIGHT;
    let px = pixel_x + ppu.current_scroll_x;
    let offset_x = px % 8;
    let tile_base_x = px / 8;
    let tile_global_x = tile_base_x % (SCREEN_TILE_WIDTH * 2);
    let tile_local_x = tile_global_x % (SCREEN_TILE_WIDTH as int);
    let left = tile_global_x < SCREEN_TILE_WIDTH;
    let target_base = crate::system::nt_base_addr_spec(
        s.ppu_reg@[crate::system::PPU_CTRL_OFFSET as int],
    ) + (if left {
        0int
    } else {
        0x0400int
    }) + (if top {
        0int
    } else {
        0x0800int
    });
    let attribute_addr = target_base + ATTRIBUTE_TABLE_OFFSET + (tile_global_y / 4) * 8 + (
    tile_global_x / 4) % 8;
    let raw_attribute = crate::video::video_read_spec(s.video, s.rom, attribute_addr as u16);
    let attr_shift: u8 = if tile_local_x % 4 < 2 {
        if tile_local_y % 4 < 2 {
            0u8
        } else {
            4u8
        }
    } else {
        if tile_local_y % 4 < 2 {
            2u8
        } else {
            6u8
        }
    };
    let bg_palette_id = (raw_attribute >> attr_shift) & 0x03;
    let nametable_addr = target_base + tile_local_y * 32 + tile_local_x;
    let bg_tile_id = crate::video::video_read_spec(s.video, s.rom, nametable_addr as u16);
    let pattern_lower = bg_pattern_base_spec(s) + bg_tile_id * 16 + offset_y;
    let data_lower = crate::video::video_read_spec(s.video, s.rom, pattern_lower as u16);
    let data_upper = crate::video::video_read_spec(s.video, s.rom, (pattern_lower + 8) as u16);
    let x_shift = (7 - offset_x) as u8;
    let palette_offset = (((data_upper >> x_shift) & 0x01) << 1) | ((data_lower >> x_shift)
        & 0x01);
    let palette_addr = ((PALETTE_TABLE_BASE_ADDR + PALETTE_BG_OFFSET) + bg_palette_id * 4
        + palette_offset) as u16;
    let clipping = bg_clip_left_spec(s) && pixel_x < 8;
    let transparent = palette_addr & 0x03 == 0x00;
    if clipping || !bg_write_enabled(s) || transparent {
        None
    } else {
        Some(crate::video::video_read_spec(s.video, s.rom, palette_addr))
    }
}

/// The universal background color.
pub open spec fn master_color_spec(s: System) -> Color {
    palette_color_spec(
        crate::video::video_read_spec(s.video, s.rom, PALETTE_TABLE_BASE_ADDR) & 0x3f,
    )
}

/// The composited color of one pixel of the current line: the
/// front-priority sprite pixel if opaque, else the background pixel if
/// opaque, else the back-priority sprite pixel if opaque, else the
/// universal background color.
pub open spec fn line_pixel_color(ppu: Ppu, s: System, pixel_x: int) -> Color {
    let scanned = if sprite_write_enabled(s) {
        sprite_scan(
            ppu.sprite_temps@,
            SPRITE_TEMP_SIZE as int,
            s,
            pixel_x,
            ppu.current_line as int,
        )
    } else {
        (None, None)
    };
    let bg = bg_pixel_spec(ppu, s, pixel_x);
    let chosen = if scanned.1 is Some {
        scanned.1
    } else if bg is Some {
        bg
    } else {
        scanned.0
    };
    match chosen {
        Some(color_index) => palette_color_spec(color_index & 0x3f),
        None => master_color_spec(s),
    }
}

/// One channel of the rendered pixel: the composited color, collapsed
/// to the three-channel average in monochrome mode.
pub open spec fn line_pixel_channel(ppu: Ppu, s: System, pixel_x: int, channel: int) -> u8 {
    let color = line_pixel_color(ppu, s, pixel_x);
    if monochrome_enabled(s) {
        ((color.0 + color.1 + color.2) / 3) as u8
    } else {
        color_channel(color, channel)
    }
}

/// Two bits extracted from an attribute byte select one of four
/// palettes.
pub proof fn lemma_attr_bits(value: u8, shift: u8)
    by (bit_vector)
    requires
        shift < 8,
    ensures
        ((value >> shift) & 0x03) < 4,
{
}

/// Combining one bit from each bit-plane yields a two-bit palette
/// offset.
pub proof fn lemma_bitplane(upper: u8, lower: u8, shift: u8)
    by (bit_vector)
    requires
        shift < 8,
    ensures
        ((((upper >> shift) & 0x01) << 1) | ((lower >> shift) & 0x01)) < 4,
{
}

impl Ppu {
    /// Renders all 256 pixels of the current visible scanline into the
    /// frame buffer: for each position, the scroll-adjusted background
    /// tile pixel and the evaluated sprites' pixels are composited
    /// front-sprite over background over back-sprite over the universal
    /// background color. Only the current line's row of the frame
    /// buffer changes.
    #[verifier::rlimit(100)]
    #[verifier::spinoff_prover]
    fn draw_line(&self, system: &System, fb: &mut FrameBuffer)
        requires
            ppu_wf(*self),
            sys_wf(*system),
            fb_wf(*old(fb)),
            self.current_line < VISIBLE_SCREEN_HEIGHT,
            mirror_supported(system.rom.mirror_table),
        ensures
            fb_wf(*final(fb)),
            forall|i: int|
                0 <= i < VISIBLE_SCREEN_HEIGHT * VISIBLE_SCREEN_WIDTH * NUM_OF_COLOR && i / (
                VISIBLE_SCREEN_WIDTH * NUM_OF_COLOR) as int != self.current_line as int
                    ==> final(fb).data@[i] == old(fb).data@[i],
            // Every pixel of the current line is the composited color the
            // specification gives it.
            forall|x: int, channel: int|
                0 <= x < VISIBLE_SCREEN_WIDTH && 0 <= channel < NUM_OF_COLOR
                    ==> final(fb).data@[#[trigger] fb_index_spec(
                    self.current_line as int,
                    x,
                    channel,
                )] == line_pixel_channel(*self, *system, x, channel),
    {
        let nametable_base_addr = system.read_ppu_name_table_base_addr();
        let pattern_table_addr = system.read_ppu_bg_pattern_table_addr();
        let is_clip_bg_leftend = system.read_ppu_is_clip_bg_leftend();
        let is_write_bg = system.read_ppu_is_write_bg();
        let is_monochrome = system.read_is_monochrome();
        let master_bg_color = Color::from(
            system.video.read_u8(&system.rom, PALETTE_TABLE_BASE_ADDR + PALETTE_BG_OFFSET),
        );
        let raw_y: u16 = self.current_line + u16::from(self.current_scroll_y);
        let offset_y: u16 = raw_y % 8;
        let tile_base_y: u16 = raw_y / 8;
        let tile_global_y: u16 = tile_base_y % (SCREEN_TILE_HEIGHT * 2);
        let tile_local_y: u16 = tile_global_y % SCREEN_TILE_HEIGHT;
        let is_nametable_position_top = tile_global_y < SCREEN_TILE_HEIGHT;

        let pixel_y = usize::from(self.current_line);
        let mut pixel_x: usize = 0;
        while pixel_x < VISIBLE_SCREEN_WIDTH
            invariant
                ppu_wf(*self),
                sys_wf(*system),
                fb_wf(*fb),
                pixel_x <= VISIBLE_SCREEN_WIDTH,
                pixel_y == self.current_line,
                self.current_line < VISIBLE_SCREEN_HEIGHT,
                mirror_supported(system.rom.mirror_table),
                nametable_base_addr <= 0x2c00,
                pattern_table_addr == 0 || pattern_table_addr == 0x1000,
                offset_y < 8,
                tile_global_y < 60,
                tile_local_y < 30,
                forall|i: int|
                    0 <= i < VISIBLE_SCREEN_HEIGHT * VISIBLE_SCREEN_WIDTH * NUM_OF_COLOR && i / (
                    VISIBLE_SCREEN_WIDTH * NUM_OF_COLOR) as int != self.current_line as int
                        ==> fb.data@[i] == old(fb).data@[i],
                master_bg_color == master_color_spec(*system),
                is_monochrome == monochrome_enabled(*system),
                is_write_bg == bg_write_enabled(*system),
                is_clip_bg_leftend == bg_clip_left_spec(*system),
                nametable_base_addr == crate::system::nt_base_addr_spec(
                    system.ppu_reg@[crate::system::PPU_CTRL_OFFSET as int],
                ),
                pattern_table_addr == bg_pattern_base_spec(*system),
                raw_y == self.current_line + self.current_scroll_y,
                offset_y == raw_y % 8,
                tile_base_y == raw_y / 8,
                tile_global_y as int == tile_base_y as int % (SCREEN_TILE_HEIGHT * 2),
                tile_local_y as int == tile_global_y as int % (SCREEN_TILE_HEIGHT as int),
                is_nametable_position_top == (tile_global_y < SCREEN_TILE_HEIGHT),
                forall|x: int, channel: int|
                    0 <= x < pixel_x && 0 <= channel < NUM_OF_COLOR ==> fb.data@[#[trigger] fb_index_spec(
                        self.current_line as int,
                        x,
                        channel,
                    )] == line_pixel_channel(*self, *system, x, channel),
            decreases VISIBLE_SCREEN_WIDTH - pixel_x,
        {
            let (sprite_palette_data_back, sprite_palette_data_front) = self.get_sprite_draw_data(
                system,
                pixel_x,
                pixel_y,
            );

            let px: u16 = (pixel_x as u16) + u16::from(self.current_scroll_x);
            let offset_x: u16 = px % 8;
            let tile_base_x: u16 = px / 8;
            let tile_global_x: u16 = tile_base_x % (SCREEN_TILE_WIDTH * 2);
            let tile_local_x: u16 = tile_global_x % SCREEN_TILE_WIDTH;
            let is_nametable_position_left = tile_global_x < SCREEN_TILE_WIDTH;

            let target_nametable_base_addr = nametable_base_addr + (
            if is_nametable_position_left {
                0x0000u16
            } else {
                0x0400u16
            }) + (if is_nametable_position_top {
                0x0000u16
            } else {
                0x0800u16
            });

            let attribute_base_addr = target_nametable_base_addr + ATTRIBUTE_TABLE_OFFSET;
            let attribute_x_offset = (tile_global_x / 4) % 8;
            let attribute_y_offset = tile_global_y / 4;
            let attribute_addr = attribute_base_addr + (attribute_y_offset * 8)
                + attribute_x_offset;

            let raw_attribute = system.video.read_u8(&system.rom, attribute_addr);
            let attr_shift: u8 = if tile_local_x % 4 < 2 {
                if tile_local_y % 4 < 2 {
                    0
                } else {
                    4
                }
            } else {
                if tile_local_y % 4 < 2 {
                    2
                } else {
                    6
                }
            };
            let bg_palette_id = (raw_attribute >> attr_shift) & 0x03;
            proof {
                lemma_attr_bits(raw_attribute, attr_shift);
            }

            let nametable_addr = target_nametable_base_addr + (tile_local_y * 32) + tile_local_x;
            let bg_tile_id = u16::from(system.video.read_u8(&system.rom, nametable_addr));
            let bg_pattern_table_base_addr = pattern_table_addr + (bg_tile_id * 16);
            let bg_pattern_table_addr_lower = bg_pattern_table_base_addr + offset_y;
            let bg_pattern_table_addr_upper = bg_pattern_table_addr_lower + 8;
            let bg_data_lower = system.video.read_u8(&system.rom, bg_pattern_table_addr_lower);
            let bg_data_upper = system.video.read_u8(&system.rom, bg_pattern_table_addr_upper);

            let x_shift: u8 = (7 - offset_x) as u8;
            let bg_palette_offset = (((bg_data_upper >> x_shift) & 0x01) << 1) | ((bg_data_lower
                >> x_shift) & 0x01);
            proof {
                lemma_bitplane(bg_data_upper, bg_data_lower, x_shift);
            }
            let bg_palette_addr = (PALETTE_TABLE_BASE_ADDR + PALETTE_BG_OFFSET) + (u16::from(
                bg_palette_id,
            ) * 4) + u16::from(bg_palette_offset);

            let is_bg_clipping = is_clip_bg_leftend && (pixel_x < 8);
            let is_bg_tranparent = (bg_palette_addr & 0x03) == 0x00;
            let bg_palette_data: Option<u8> = if is_bg_clipping || !is_write_bg
                || is_bg_tranparent {
                None
            } else {
                Some(system.video.read_u8(&system.rom, bg_palette_addr))
            };

            let chosen: Option<u8> = if sprite_palette_data_front.is_some() {
                sprite_palette_data_front
            } else if bg_palette_data.is_some() {
                bg_palette_data
            } else {
                sprite_palette_data_back
            };
            let draw_color = match chosen {
                Some(color_index) => Color::from(color_index),
                None => master_bg_color,
            };

            proof {
                assert(draw_color == line_pixel_color(*self, *system, pixel_x as int));
            }
            if is_monochrome {
                let data = ((u16::from(draw_color.0) + u16::from(draw_color.1) + u16::from(
                    draw_color.2,
                )) / 3) as u8;
                fb.put(pixel_y, pixel_x, 0, data);
                fb.put(pixel_y, pixel_x, 1, data);
                fb.put(pixel_y, pixel_x, 2, data);
            } else {
                fb.put(pixel_y, pixel_x, 0, draw_color.0);
                fb.put(pixel_y, pixel_x, 1, draw_color.1);
                fb.put(pixel_y, pixel_x, 2, draw_color.2);
            }
            pixel_x = pixel_x + 1;
        }
    }

    /// Advances the scanline state machine one line: applies the latched
    /// scroll, runs any staged object-memory transfer, re-evaluates the
    /// status flags, renders a visible line, raises the vblank flag on
    /// entering the blanking range (requesting a non-maskable interrupt
    /// if enabled), and clears it on the pre-render line. The line index
    /// always advances by one, modulo 262.
    fn update_line(&mut self, system: &mut System, fb: &mut FrameBuffer) -> (result: Option<
        Interrupt,
    >)
        requires
            ppu_wf(*old(self)),
            sys_wf(*old(system)),
            fb_wf(*old(fb)),
            old(self).current_line < VISIBLE_SCREEN_HEIGHT ==> mirror_supported(
                old(system).rom.mirror_table,
            ),
        ensures
            ppu_wf(*final(self)),
            sys_wf(*final(system)),
            fb_wf(*final(fb)),
            final(self).current_line == (old(self).current_line + 1) % (
            RENDER_SCREEN_HEIGHT as int),
            final(self).cumulative_cpu_cyc == old(self).cumulative_cpu_cyc,
            final(self).fetch_scroll_x == old(self).fetch_scroll_x,
            final(self).fetch_scroll_y == old(self).fetch_scroll_y,
            result.is_some() ==> 241 <= old(self).current_line <= 260,
            result matches Some(irq) ==> irq == Interrupt::NMI,
            // Only a visible line renders, and only into its own row:
            // each of its pixels takes the composited color the
            // specification gives it under the applied scroll and the
            // freshly evaluated sprites.
            forall|i: int|
                0 <= i < VISIBLE_SCREEN_HEIGHT * VISIBLE_SCREEN_WIDTH * NUM_OF_COLOR && i / (
                VISIBLE_SCREEN_WIDTH * NUM_OF_COLOR) as int != old(self).current_line as int
                    ==> final(fb).data@[i] == old(fb).data@[i],
            old(self).current_line >= VISIBLE_SCREEN_HEIGHT ==> final(fb).data@ == old(fb).data@,
            old(self).current_line < VISIBLE_SCREEN_HEIGHT ==> forall|x: int, channel: int|
                0 <= x < VISIBLE_SCREEN_WIDTH && 0 <= channel < NUM_OF_COLOR
                    ==> final(fb).data@[#[trigger] fb_index_spec(
                    old(self).current_line as int,
                    x,
                    channel,
                )] == line_pixel_channel(
                    (Ppu { current_line: old(self).current_line, ..*final(self) }),
                    *final(system),
                    x,
                    channel,
                ),
            final(system).write_oam_data == old(system).write_oam_data,
            final(system).write_ppu_scroll == old(system).write_ppu_scroll,
            final(system).write_ppu_addr == old(system).write_ppu_addr,
            final(system).write_ppu_data == old(system).write_ppu_data,
            !final(system).write_oam_dma,
            final(system).rom == old(system).rom,
            final(system).video.nametables@ == old(system).video.nametables@,
            final(system).video.palette@ == old(system).video.palette@,
            final(system).ppu_scroll_y == old(system).ppu_scroll_y,
            final(system).ppu_addr_lower == old(system).ppu_addr_lower,
            final(system).ppu_reg@.len() == crate::system::PPU_REG_SIZE,
            forall|i: int|
                0 <= i < crate::system::PPU_REG_SIZE && i != crate::system::PPU_STATUS_OFFSET
                    ==> final(system).ppu_reg@[i] == old(system).ppu_reg@[i],
            // With no transfer in flight, entering the blanking range
            // raises the vblank flag, the pre-render line clears it, and
            // an interrupt comes exactly when blanking begins or
            // continues with the flag and its enable both set.
            (!old(self).is_dma_running && !old(system).write_oam_dma) ==> {
                let nmi_enabled = old(system).ppu_reg@[crate::system::PPU_CTRL_OFFSET as int]
                    & 0x80u8 == 0x80u8;
                let vblank_after = if old(self).current_line == 241 {
                    true
                } else if old(self).current_line == 261 {
                    false
                } else {
                    old(system).ppu_reg@[crate::system::PPU_STATUS_OFFSET as int] & 0x80u8
                        == 0x80u8
                };
                &&& (final(system).ppu_reg@[crate::system::PPU_STATUS_OFFSET as int] & 0x80u8
                    == 0x80u8) == vblank_after
                &&& (result is Some <==> (241 <= old(self).current_line <= 260 && nmi_enabled
                    && vblank_after))
            },
    {
        self.current_scroll_x = self.fetch_scroll_x;
        self.current_scroll_y = self.fetch_scroll_y;
        if self.is_dma_running {
            self.run_dma(system, false);
        }
        let (is_dma_req, dma_cpu_src_addr) = system.read_oam_dma();
        if is_dma_req {
            proof {
                lemma_dma_page(
                    old(system).io_reg@[crate::system::APU_IO_OAM_DMA_OFFSET as int],
                );
            }
            self.dma_cpu_src_addr = dma_cpu_src_addr;
            self.dma_oam_dst_addr = system.read_ppu_oam_addr();
            self.run_dma(system, true);
        }

        system.write_ppu_is_hit_sprite0(false);
        system.write_ppu_is_sprite_overflow(false);

        proof {
            let s0 = old(system).ppu_reg@[crate::system::PPU_STATUS_OFFSET as int];
            lemma_status_vblank_bit(s0);
            let s1 = (s0 & !0x40u8) as u8;
            lemma_status_vblank_bit(s1);
            let s2 = (s1 & !0x20u8) as u8;
            lemma_status_vblank_bit(s2);
            let s3 = (s2 | 0x40u8) as u8;
            lemma_status_vblank_bit(s3);
            let s4 = (s2 | 0x20u8) as u8;
            lemma_status_vblank_bit(s4);
            let s5 = (s3 | 0x20u8) as u8;
            lemma_status_vblank_bit(s5);
        }
        match LineStatus::from(self.current_line) {
            LineStatus::Visible => {
                self.fetch_sprite(system);
                self.draw_line(system, fb);
                self.current_line = (self.current_line + 1) % RENDER_SCREEN_HEIGHT;
                None
            },
            LineStatus::PostRender => {
                self.current_line = (self.current_line + 1) % RENDER_SCREEN_HEIGHT;
                None
            },
            LineStatus::VerticalBlanking(is_first) => {
                self.current_line = (self.current_line + 1) % RENDER_SCREEN_HEIGHT;
                if is_first {
                    system.write_ppu_is_vblank(true);
                }
                if system.read_ppu_nmi_enable() && system.read_ppu_is_vblank() {
                    Some(Interrupt::NMI)
                } else {
                    None
                }
            },
            LineStatus::PreRender => {
                self.current_line = (self.current_line + 1) % RENDER_SCREEN_HEIGHT;
                system.write_ppu_is_vblank(false);
                None
            },
        }
    }

    /// One picture-unit step, fed the cycle count of one CPU
    /// instruction. First consumes every register access the CPU staged
    /// on the bus (scroll and address latches, object and video data,
    /// the transfer trigger), then accumulates the cycles and advances
    /// one scanline when a full line's worth has passed.
    pub fn step(&mut self, cpu_cyc: usize, system: &mut System, fb: &mut FrameBuffer) -> (result:
        Option<Interrupt>)
        requires
            ppu_wf(*old(self)),
            sys_wf(*old(system)),
            fb_wf(*old(fb)),
            cpu_cyc < CPU_CYCLE_PER_LINE,
            mirror_supported(old(system).rom.mirror_table),
        ensures
            ppu_wf(*final(self)),
            sys_wf(*final(system)),
            fb_wf(*final(fb)),
            final(self).fetch_scroll_x == old(system).ppu_reg@[
                crate::system::PPU_SCROLL_OFFSET as int
            ],
            final(self).fetch_scroll_y == old(system).ppu_scroll_y,
            old(self).cumulative_cpu_cyc + cpu_cyc < CPU_CYCLE_PER_LINE ==> {
                &&& final(self).cumulative_cpu_cyc == old(self).cumulative_cpu_cyc + cpu_cyc
                &&& final(self).current_line == old(self).current_line
                &&& result is None
            },
            old(self).cumulative_cpu_cyc + cpu_cyc >= CPU_CYCLE_PER_LINE ==> {
                &&& final(self).cumulative_cpu_cyc == old(self).cumulative_cpu_cyc + cpu_cyc
                    - CPU_CYCLE_PER_LINE
                &&& final(self).current_line == (old(self).current_line + 1) % (
                RENDER_SCREEN_HEIGHT as int)
            },
            result.is_some() ==> 241 <= old(self).current_line <= 260,
            result matches Some(irq) ==> irq == Interrupt::NMI,
            // The frame buffer moves only when a visible line advances,
            // and then only its own row, to the composited colors.
            old(self).cumulative_cpu_cyc + cpu_cyc < CPU_CYCLE_PER_LINE ==> final(fb).data@
                == old(fb).data@,
            forall|i: int|
                0 <= i < VISIBLE_SCREEN_HEIGHT * VISIBLE_SCREEN_WIDTH * NUM_OF_COLOR && i / (
                VISIBLE_SCREEN_WIDTH * NUM_OF_COLOR) as int != old(self).current_line as int
                    ==> final(fb).data@[i] == old(fb).data@[i],
            (old(self).cumulative_cpu_cyc + cpu_cyc >= CPU_CYCLE_PER_LINE && old(
                self,
            ).current_line < VISIBLE_SCREEN_HEIGHT) ==> forall|x: int, channel: int|
                0 <= x < VISIBLE_SCREEN_WIDTH && 0 <= channel < NUM_OF_COLOR
                    ==> final(fb).data@[#[trigger] fb_index_spec(
                    old(self).current_line as int,
                    x,
                    channel,
                )] == line_pixel_channel(
                    (Ppu { current_line: old(self).current_line, ..*final(self) }),
                    *final(system),
                    x,
                    channel,
                ),
            old(self).current_line >= VISIBLE_SCREEN_HEIGHT ==> final(fb).data@ == old(fb).data@,
            // Every one-shot the CPU staged on the bus is consumed in
            // this call.
            !final(system).write_ppu_scroll,
            !final(system).write_ppu_addr,
            !final(system).write_ppu_data,
            !final(system).write_oam_data,
            old(self).cumulative_cpu_cyc + cpu_cyc >= CPU_CYCLE_PER_LINE
                ==> !final(system).write_oam_dma,
            // A staged video-data write lands in video memory at the
            // latched address, masked to the 16KB video space.
            old(system).write_ppu_data ==> {
                let addr = (crate::system::ppu_addr_spec(*old(system)) & 0x3fff) as u16;
                let data = old(system).ppu_reg@[crate::system::PPU_DATA_OFFSET as int];
                &&& (addr < crate::video::NAME_TABLE_BASE_ADDR ==> {
                    &&& final(system).rom.c_rom@ == old(system).rom.c_rom@.update(
                        addr as int,
                        data,
                    )
                    &&& final(system).video.nametables@ == old(system).video.nametables@
                    &&& final(system).video.palette@ == old(system).video.palette@
                })
                &&& (crate::video::NAME_TABLE_BASE_ADDR <= addr
                    < crate::video::NAME_TABLE_MIRROR_BASE_ADDR ==> {
                    &&& final(system).video.nametables@ == old(system).video.nametables@.update(
                        crate::video::nt_cell_spec(old(system).rom.mirror_table, addr),
                        data,
                    )
                    &&& final(system).rom.c_rom@ == old(system).rom.c_rom@
                    &&& final(system).video.palette@ == old(system).video.palette@
                })
                &&& (crate::video::NAME_TABLE_MIRROR_BASE_ADDR <= addr
                    < crate::video::PALETTE_TABLE_BASE_ADDR ==> {
                    &&& final(system).video.nametables@ == old(system).video.nametables@.update(
                        crate::video::nt_cell_spec(
                            old(system).rom.mirror_table,
                            (addr - 0x1000) as u16,
                        ),
                        data,
                    )
                    &&& final(system).rom.c_rom@ == old(system).rom.c_rom@
                    &&& final(system).video.palette@ == old(system).video.palette@
                })
                &&& (addr >= crate::video::PALETTE_TABLE_BASE_ADDR ==> {
                    &&& final(system).video.palette@ == old(system).video.palette@.update(
                        crate::video::palette_index_spec(addr),
                        data,
                    )
                    &&& final(system).rom.c_rom@ == old(system).rom.c_rom@
                    &&& final(system).video.nametables@ == old(system).video.nametables@
                })
            },
            // A staged video-data read completes into the data register.
            (!old(system).write_ppu_data && old(system).read_ppu_data)
                ==> final(system).ppu_reg@[crate::system::PPU_DATA_OFFSET as int]
                == crate::video::video_read_spec(
                old(system).video,
                old(system).rom,
                (crate::system::ppu_addr_spec(*old(system)) & 0x3fff) as u16,
            ),
            // Either staged video-data access advances the latched
            // address by the control register's increment.
            (old(system).write_ppu_data || old(system).read_ppu_data)
                ==> crate::system::ppu_addr_spec(*final(system))
                == vstd::wrapping::u16_specs::wrapping_add(
                crate::system::ppu_addr_spec(*old(system)),
                if old(system).ppu_reg@[crate::system::PPU_CTRL_OFFSET as int] & 0x04u8
                    == 0x04u8 {
                    32u16
                } else {
                    1u16
                },
            ),
            // Staged object-data accesses complete against object
            // memory; stated for a call that does not advance a line,
            // since a line advance may run a transfer over it.
            old(self).cumulative_cpu_cyc + cpu_cyc < CPU_CYCLE_PER_LINE ==> {
                let oam_addr = old(system).ppu_reg@[crate::system::PPU_OAMADDR_OFFSET as int];
                &&& (old(system).write_oam_data ==> final(self).oam@ == old(self).oam@.update(
                    oam_addr as int,
                    old(system).ppu_reg@[crate::system::PPU_OAMDATA_OFFSET as int],
                ))
                &&& ((!old(system).write_oam_data && old(system).read_oam_data) ==> {
                    &&& final(system).ppu_reg@[crate::system::PPU_OAMDATA_OFFSET as int]
                        == old(self).oam@[oam_addr as int]
                    &&& final(self).oam@ == old(self).oam@
                })
                &&& ((!old(system).write_oam_data && !old(system).read_oam_data)
                    ==> final(self).oam@ == old(self).oam@)
            },
            // The interrupt, exactly: with no transfer in flight, a
            // line advance out of 241..=260 interrupts precisely when
            // the enable bit and the (just set or still standing)
            // vblank flag agree.
            (old(self).cumulative_cpu_cyc + cpu_cyc >= CPU_CYCLE_PER_LINE
                && !old(self).is_dma_running && !old(system).write_oam_dma) ==> {
                let nmi_enabled = old(system).ppu_reg@[crate::system::PPU_CTRL_OFFSET as int]
                    & 0x80u8 == 0x80u8;
                let vblank_after = if old(self).current_line == 241 {
                    true
                } else if old(self).current_line == 261 {
                    false
                } else {
                    old(system).ppu_reg@[crate::system::PPU_STATUS_OFFSET as int] & 0x80u8
                        == 0x80u8
                };
                result is Some <==> (241 <= old(self).current_line <= 260 && nmi_enabled
                    && vblank_after)
            },
    {
        let (_, scroll_x, scroll_y) = system.read_ppu_scroll();
        self.fetch_scroll_x = scroll_x;
        self.fetch_scroll_y = scroll_y;

        let (_, ppu_addr) = system.read_ppu_addr();
        let video_addr = ppu_addr & 0x3fff;
        proof {
            assert(ppu_addr & 0x3fff < 0x4000) by (bit_vector);
        }
        let (is_read_ppu_req, is_write_ppu_req, ppu_data) = system.read_ppu_data();
        if is_write_ppu_req {
            let rom = &mut system.rom;
            system.video.write_u8(rom, video_addr, ppu_data);
            system.increment_ppu_addr();
        }
        if is_read_ppu_req {
            let data = system.video.read_u8(&system.rom, video_addr);
            system.write_ppu_data(data);
            system.increment_ppu_addr();
        }

        let oam_addr = system.read_ppu_oam_addr();
        let (is_read_oam_req, is_write_oam_req, oam_data) = system.read_oam_data();
        if is_write_oam_req {
            self.oam[usize::from(oam_addr)] = oam_data;
        }
        if is_read_oam_req {
            let data = self.oam[usize::from(oam_addr)];
            system.write_oam_data(data);
        }

        let total_cyc = self.cumulative_cpu_cyc + cpu_cyc;
        if total_cyc >= CPU_CYCLE_PER_LINE {
            self.cumulative_cpu_cyc = total_cyc - CPU_CYCLE_PER_LINE;
            self.update_line(system, fb)
        } else {
            self.cumulative_cpu_cyc = total_cyc;
            None
        }
    }
}

/// The scanline counter's successor: always one line forward, modulo
/// the 262-line frame.
pub open spec fn next_line(line: u16) -> u16 {
    ((line + 1) % (RENDER_SCREEN_HEIGHT as int)) as u16
}

/// The line reached after advancing `n` lines.
pub open spec fn advance_lines(line: u16, n: nat) -> u16
    decreases n,
{
    if n == 0 {
        line
    } else {
        next_line(advance_lines(line, (n - 1) as nat))
    }
}

/// Advancing is addition modulo 262.
pub proof fn lemma_advance_linear(line: u16, n: nat)
    requires
        line < RENDER_SCREEN_HEIGHT,
    ensures
        advance_lines(line, n) == (line + n) % (RENDER_SCREEN_HEIGHT as int),
    decreases n,
{
    if n > 0 {
        lemma_advance_linear(line, (n - 1) as nat);
    }
}

/// Scanline wraparound law: the line index always stays below 262, and
/// advancing exactly 262 lines returns the counter to where it started.
pub proof fn lemma_line_wraps(line: u16)
    requires
        line < RENDER_SCREEN_HEIGHT,
    ensures
        advance_lines(line, RENDER_SCREEN_HEIGHT as nat) == line,
        forall|n: nat| #[trigger] advance_lines(line, n) < RENDER_SCREEN_HEIGHT,
{
    lemma_advance_linear(line, RENDER_SCREEN_HEIGHT as nat);
    assert forall|n: nat| #[trigger] advance_lines(line, n) < RENDER_SCREEN_HEIGHT by {
        lemma_advance_linear(line, n);
    }
}

} // verus!
