//! Video memory: the two physical nametables and the palette table.
//! Nametable addresses resolve through the cartridge's mirroring mode
//! before indexing; palette cells 0x10/0x14/0x18/0x1c always alias to
//! 0x00/0x04/0x08/0x0c (the shared background/sprite palette-0 cells).

use vstd::prelude::*;

use crate::rom::{Rom, MirrorTable, rom_wf};

verus! {

pub const PATTERN_TABLE_BASE_ADDR: u16 = 0x0000;
pub const NAME_TABLE_BASE_ADDR: u16 = 0x2000;
pub const NAME_TABLE_MIRROR_BASE_ADDR: u16 = 0x3000;
pub const PALETTE_TABLE_BASE_ADDR: u16 = 0x3f00;
pub const VIDEO_ADDRESS_SIZE: u16 = 0x4000;

pub const NAME_TABLE_SIZE: usize = 0x0400;
pub const NUM_OF_NAME_TABLE: usize = 2;
pub const ATTRIBUTE_TABLE_SIZE: u16 = 0x0040;
pub const ATTRIBUTE_TABLE_OFFSET: u16 = 0x03c0;

pub const PALETTE_SIZE: usize = 0x20;
pub const PALETTE_ENTRY_SIZE: u16 = 0x04;
pub const PALETTE_BG_OFFSET: u16 = 0x00;
pub const PALETTE_SPRITE_OFFSET: u16 = 0x10;

/// The mirroring modes the nametable resolver is defined for: the ones a
/// successful cartridge load can declare, plus the single-screen
/// arrangement.
pub open spec fn mirror_supported(mode: MirrorTable) -> bool {
    ||| mode == MirrorTable::Horizontal
    ||| mode == MirrorTable::Vertical
    ||| mode == MirrorTable::SingleScreen
}

pub struct VideoSystem {
    /// The two 1KB physical nametables, stored back to back.
    pub nametables: Vec<u8>,
    /// The 32-byte palette table.
    pub palette: Vec<u8>,
}

pub open spec fn video_wf(video: VideoSystem) -> bool {
    &&& video.nametables@.len() == NUM_OF_NAME_TABLE * NAME_TABLE_SIZE
    &&& video.palette@.len() == PALETTE_SIZE
}

/// Which physical nametable a logical nametable address selects under the
/// given mirroring mode.
pub open spec fn nt_index_spec(mode: MirrorTable, addr: u16) -> int {
    match mode {
        MirrorTable::Horizontal => if addr < 0x2800 {
            0int
        } else {
            1int
        },
        MirrorTable::Vertical => {
            let folded = if addr >= 0x2800 {
                addr - 0x800
            } else {
                addr as int
            };
            if folded < 0x2400 {
                0int
            } else {
                1int
            }
        },
        MirrorTable::SingleScreen => 0int,
        _ => 0int,
    }
}

/// The offset within a physical nametable that a logical address selects.
pub open spec fn nt_offset_spec(addr: u16) -> int {
    (addr - NAME_TABLE_BASE_ADDR) % NAME_TABLE_SIZE as int
}

/// The flattened cell the two-level nametable resolution lands on.
pub open spec fn nt_cell_spec(mode: MirrorTable, addr: u16) -> int {
    nt_index_spec(mode, addr) * NAME_TABLE_SIZE + nt_offset_spec(addr)
}

/// The palette cell an address in the palette region selects, after the
/// 32-byte wrap and the fixed four-way aliasing.
pub open spec fn palette_index_spec(addr: u16) -> int {
    let index = (addr - PALETTE_TABLE_BASE_ADDR) % PALETTE_SIZE as int;
    if index == 0x10 {
        0x00int
    } else if index == 0x14 {
        0x04int
    } else if index == 0x18 {
        0x08int
    } else if index == 0x1c {
        0x0cint
    } else {
        index
    }
}

/// What a video-space read returns: graphics memory below the nametable
/// region, a resolved nametable cell in the nametable region and its
/// mirror, and a resolved palette cell at the top.
pub open spec fn video_read_spec(video: VideoSystem, rom: Rom, addr: u16) -> u8 {
    if addr < NAME_TABLE_BASE_ADDR {
        rom.c_rom@[addr as int]
    } else if addr < NAME_TABLE_MIRROR_BASE_ADDR {
        video.nametables@[nt_cell_spec(rom.mirror_table, addr)]
    } else if addr < PALETTE_TABLE_BASE_ADDR {
        video.nametables@[nt_cell_spec(rom.mirror_table, (addr - 0x1000) as u16)]
    } else {
        video.palette@[palette_index_spec(addr)]
    }
}

/// The precondition shared by video-space reads and writes: the address is
/// inside the 16KB video space, and an address that resolves through the
/// nametables comes with a supported mirroring mode.
pub open spec fn video_access_ok(rom: Rom, addr: u16) -> bool {
    &&& addr < VIDEO_ADDRESS_SIZE
    &&& NAME_TABLE_BASE_ADDR <= addr < PALETTE_TABLE_BASE_ADDR ==> mirror_supported(
        rom.mirror_table,
    )
}

impl VideoSystem {
    pub fn default() -> (result: Self)
        ensures
            video_wf(result),
            forall|i: int|
                0 <= i < NUM_OF_NAME_TABLE * NAME_TABLE_SIZE ==> result.nametables@[i] == 0u8,
            forall|i: int| 0 <= i < PALETTE_SIZE ==> result.palette@[i] == 0u8,
    {
        Self {
            nametables: crate::zero_filled(NUM_OF_NAME_TABLE * NAME_TABLE_SIZE),
            palette: crate::zero_filled(PALETTE_SIZE),
        }
    }

    /// Returns video memory to its power-on state: every cell zero.
    pub fn reset(&mut self)
        ensures
            video_wf(*final(self)),
            forall|i: int|
                0 <= i < NUM_OF_NAME_TABLE * NAME_TABLE_SIZE ==> final(self).nametables@[i] == 0u8,
            forall|i: int| 0 <= i < PALETTE_SIZE ==> final(self).palette@[i] == 0u8,
    {
        self.nametables = crate::zero_filled(NUM_OF_NAME_TABLE * NAME_TABLE_SIZE);
        self.palette = crate::zero_filled(PALETTE_SIZE);
    }

    /// Resolves a logical nametable address to (physical table, offset)
    /// under the given mirroring mode.
    pub fn convert_name_table_addr(&self, mirror_mode: MirrorTable, addr: u16) -> (result: (
        usize,
        usize,
    ))
        requires
            NAME_TABLE_BASE_ADDR <= addr < NAME_TABLE_MIRROR_BASE_ADDR,
            mirror_supported(mirror_mode),
        ensures
            result.0 == nt_index_spec(mirror_mode, addr),
            result.1 == nt_offset_spec(addr),
            result.0 < NUM_OF_NAME_TABLE,
            result.1 < NAME_TABLE_SIZE,
    {
        let offset = usize::from(addr - NAME_TABLE_BASE_ADDR) % NAME_TABLE_SIZE;
        let table_index: usize = match mirror_mode {
            MirrorTable::Horizontal => {
                if addr < 0x2800 {
                    0
                } else {
                    1
                }
            },
            MirrorTable::Vertical => {
                let tmp_addr = if addr >= 0x2800 {
                    addr - 0x800
                } else {
                    addr
                };
                if tmp_addr < 0x2400 {
                    0
                } else {
                    1
                }
            },
            _ => 0,
        };
        (table_index, offset)
    }

    /// A video-space read.
    pub fn read_u8(&self, rom: &Rom, addr: u16) -> (result: u8)
        requires
            video_wf(*self),
            rom_wf(*rom),
            video_access_ok(*rom, addr),
        ensures
            result == video_read_spec(*self, *rom, addr),
    {
        if addr < NAME_TABLE_BASE_ADDR {
            rom.read_video_u8(addr)
        } else if addr < NAME_TABLE_MIRROR_BASE_ADDR {
            let (index, offset) = self.convert_name_table_addr(rom.mirror_table, addr);
            self.nametables[index * NAME_TABLE_SIZE + offset]
        } else if addr < PALETTE_TABLE_BASE_ADDR {
            let (index, offset) = self.convert_name_table_addr(rom.mirror_table, addr - 0x1000);
            self.nametables[index * NAME_TABLE_SIZE + offset]
        } else {
            let index = usize::from(addr - PALETTE_TABLE_BASE_ADDR) % PALETTE_SIZE;
            match index {
                0x10 => self.palette[0x00],
                0x14 => self.palette[0x04],
                0x18 => self.palette[0x08],
                0x1c => self.palette[0x0c],
                _ => self.palette[index],
            }
        }
    }

    /// A video-space write, to the same cell the matching read uses.
    pub fn write_u8(&mut self, rom: &mut Rom, addr: u16, data: u8)
        requires
            video_wf(*old(self)),
            rom_wf(*old(rom)),
            video_access_ok(*old(rom), addr),
        ensures
            video_wf(*final(self)),
            rom_wf(*final(rom)),
            final(rom).mirror_table == old(rom).mirror_table,
            final(rom).mapper == old(rom).mapper,
            final(rom).sram == old(rom).sram,
            final(rom).p_rom_bytes == old(rom).p_rom_bytes,
            final(rom).c_rom_bytes == old(rom).c_rom_bytes,
            final(rom).p_rom@ == old(rom).p_rom@,
            final(rom).srambytes@ == old(rom).srambytes@,
            addr < NAME_TABLE_BASE_ADDR ==> {
                &&& final(rom).c_rom@ == old(rom).c_rom@.update(addr as int, data)
                &&& final(self).nametables@ == old(self).nametables@
                &&& final(self).palette@ == old(self).palette@
            },
            NAME_TABLE_BASE_ADDR <= addr < NAME_TABLE_MIRROR_BASE_ADDR ==> {
                &&& final(rom).c_rom@ == old(rom).c_rom@
                &&& final(self).nametables@ == old(self).nametables@.update(
                    nt_cell_spec(old(rom).mirror_table, addr),
                    data,
                )
                &&& final(self).palette@ == old(self).palette@
            },
            NAME_TABLE_MIRROR_BASE_ADDR <= addr < PALETTE_TABLE_BASE_ADDR ==> {
                &&& final(rom).c_rom@ == old(rom).c_rom@
                &&& final(self).nametables@ == old(self).nametables@.update(
                    nt_cell_spec(old(rom).mirror_table, (addr - 0x1000) as u16),
                    data,
                )
                &&& final(self).palette@ == old(self).palette@
            },
            addr >= PALETTE_TABLE_BASE_ADDR ==> {
                &&& final(rom).c_rom@ == old(rom).c_rom@
                &&& final(self).nametables@ == old(self).nametables@
                &&& final(self).palette@ == old(self).palette@.update(
                    palette_index_spec(addr),
                    data,
                )
            },
    {
        if addr < NAME_TABLE_BASE_ADDR {
            rom.write_video_u8(addr, data);
        } else if addr < NAME_TABLE_MIRROR_BASE_ADDR {
            let (index, offset) = self.convert_name_table_addr(rom.mirror_table, addr);
            self.nametables[index * NAME_TABLE_SIZE + offset] = data;
        } else if addr < PALETTE_TABLE_BASE_ADDR {
            let (index, offset) = self.convert_name_table_addr(rom.mirror_table, addr - 0x1000);
            self.nametables[index * NAME_TABLE_SIZE + offset] = data;
        } else {
            let index = usize::from(addr - PALETTE_TABLE_BASE_ADDR) % PALETTE_SIZE;
            match index {
                0x10 => self.palette[0x00] = data,
                0x14 => self.palette[0x04] = data,
                0x18 => self.palette[0x08] = data,
                0x1c => self.palette[0x0c] = data,
                _ => self.palette[index] = data,
            };
        }
    }
}

/// Palette mirroring law: a write to palette offset 0x10, 0x14, 0x18 or
/// 0x1c lands on the cell 0x10 below it, so reading either address
/// afterwards yields the written byte.
pub proof fn lemma_palette_mirroring(
    before: VideoSystem,
    after: VideoSystem,
    rom: Rom,
    offset: u16,
    data: u8,
)
    requires
        video_wf(before),
        video_wf(after),
        offset == 0x10 || offset == 0x14 || offset == 0x18 || offset == 0x1c,
        after.nametables@ == before.nametables@,
        after.palette@ == before.palette@.update(
            palette_index_spec((PALETTE_TABLE_BASE_ADDR + offset) as u16),
            data,
        ),
    ensures
        palette_index_spec((PALETTE_TABLE_BASE_ADDR + offset) as u16) == palette_index_spec(
            (PALETTE_TABLE_BASE_ADDR + offset - 0x10) as u16,
        ),
        video_read_spec(after, rom, (PALETTE_TABLE_BASE_ADDR + offset) as u16) == data,
        video_read_spec(after, rom, (PALETTE_TABLE_BASE_ADDR + offset - 0x10) as u16) == data,
{
}

} // verus!
