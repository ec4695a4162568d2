//! The system bus: the single shared address space. Routes every read and
//! write among mirrored work RAM, the mirrored 8-register picture-unit
//! window, the I/O registers (controller ports and the DMA trigger), and
//! the cartridge. Register writes that the picture unit must observe
//! exactly once are staged as one-shot flags consumed by its step.

use vstd::prelude::*;

use crate::pad::{Pad, pad_wf};
use crate::rom::{Rom, rom_wf, rom_read_spec};
use crate::video::{VideoSystem, video_wf};

verus! {

pub const WRAM_SIZE: usize = 0x0800;
pub const PPU_REG_SIZE: usize = 0x0008;
pub const APU_IO_REG_SIZE: usize = 0x0018;
pub const EROM_SIZE: usize = 0x1FE0;
pub const ERAM_SIZE: usize = 0x2000;
pub const PROM_SIZE: usize = 0x8000;

pub const WRAM_BASE_ADDR: u16 = 0x0000;
pub const PPU_REG_BASE_ADDR: u16 = 0x2000;
pub const APU_IO_REG_BASE_ADDR: u16 = 0x4000;
pub const ROM_BASE_ADDR: u16 = 0x4020;

pub const PPU_CTRL_OFFSET: usize = 0x00;
pub const PPU_MASK_OFFSET: usize = 0x01;
pub const PPU_STATUS_OFFSET: usize = 0x02;
pub const PPU_OAMADDR_OFFSET: usize = 0x03;
pub const PPU_OAMDATA_OFFSET: usize = 0x04;
pub const PPU_SCROLL_OFFSET: usize = 0x05;
pub const PPU_ADDR_OFFSET: usize = 0x06;
pub const PPU_DATA_OFFSET: usize = 0x07;
pub const APU_IO_OAM_DMA_OFFSET: usize = 0x14;

pub struct System {
    /// 2KB work RAM, mirrored across the lowest 8KB window.
    pub wram: Vec<u8>,
    /// The 8 picture-unit registers, mirrored across their 8KB window.
    pub ppu_reg: Vec<u8>,
    /// The I/O register file, mirrored across its window.
    pub io_reg: Vec<u8>,
    pub rom: Rom,
    pub video: VideoSystem,
    pub pad1: Pad,
    pub pad2: Pad,
    /// One-shot flags: set by a bus access, consumed exactly once by the
    /// picture unit's own step.
    pub write_oam_data: bool,
    pub write_ppu_scroll: bool,
    pub write_ppu_addr: bool,
    pub write_ppu_data: bool,
    pub write_oam_dma: bool,
    pub read_oam_data: bool,
    pub read_ppu_data: bool,
    /// The scroll/address registers take two sequential writes; this
    /// latch remembers whether the next write is the second one.
    pub ppu_is_second: bool,
    pub ppu_scroll_y: u8,
    pub ppu_addr_lower: u8,
}

pub open spec fn sys_wf(s: System) -> bool {
    &&& s.wram@.len() == WRAM_SIZE
    &&& s.ppu_reg@.len() == PPU_REG_SIZE
    &&& s.io_reg@.len() == APU_IO_REG_SIZE
    &&& rom_wf(s.rom)
    &&& video_wf(s.video)
    &&& pad_wf(s.pad1)
    &&& pad_wf(s.pad2)
}

/// The work-RAM cell an address in the low window selects.
pub open spec fn wram_index_spec(addr: u16) -> int {
    addr as int % WRAM_SIZE as int
}

/// The register the mirrored picture-unit window selects.
pub open spec fn ppu_reg_index_spec(addr: u16) -> int {
    (addr - PPU_REG_BASE_ADDR) % PPU_REG_SIZE as int
}

/// The register the mirrored I/O window selects.
pub open spec fn io_reg_index_spec(addr: u16) -> int {
    (addr - APU_IO_REG_BASE_ADDR) % APU_IO_REG_SIZE as int
}

/// The byte a bus read returns, as a function of the pre-state. A
/// destructive read of a controller port returns the pad's current shift
/// bit; a non-destructive one returns the backing register instead.
pub open spec fn sys_read_val(s: System, addr: u16, is_nondestructive: bool) -> u8 {
    if addr < PPU_REG_BASE_ADDR {
        s.wram@[wram_index_spec(addr)]
    } else if addr < APU_IO_REG_BASE_ADDR {
        s.ppu_reg@[ppu_reg_index_spec(addr)]
    } else if addr < ROM_BASE_ADDR {
        let index = io_reg_index_spec(addr);
        if !is_nondestructive && index == 0x16 {
            (s.pad1.button_reg >> s.pad1.read_shift_index) & 0x01
        } else if !is_nondestructive && index == 0x17 {
            (s.pad2.button_reg >> s.pad2.read_shift_index) & 0x01
        } else {
            s.io_reg@[index]
        }
    } else {
        rom_read_spec(s.rom, addr)
    }
}

/// A pad after one shift-register read: the cursor advances modulo 8
/// unless the strobe holds it at bit 0.
pub open spec fn pad_after_read(p: Pad) -> Pad {
    Pad {
        read_shift_index: if p.strobe_enable {
            p.read_shift_index
        } else {
            ((p.read_shift_index + 1) % 8) as u8
        },
        ..p
    }
}

impl System {
    pub fn default() -> (result: Self)
        ensures
            sys_wf(result),
            forall|i: int| 0 <= i < WRAM_SIZE ==> result.wram@[i] == 0u8,
            forall|i: int| 0 <= i < PPU_REG_SIZE ==> result.ppu_reg@[i] == 0u8,
            forall|i: int| 0 <= i < APU_IO_REG_SIZE ==> result.io_reg@[i] == 0u8,
            result.rom.mapper == crate::rom::Mapper::Unknown,
            result.rom.mirror_table == crate::rom::MirrorTable::Unknown,
            result.rom.p_rom_bytes == 0,
            result.rom.c_rom_bytes == 0,
            result.pad1.button_reg == 0 && result.pad1.read_shift_index == 0
                && !result.pad1.strobe_enable,
            result.pad2.button_reg == 0 && result.pad2.read_shift_index == 0
                && !result.pad2.strobe_enable,
            !result.write_oam_data && !result.write_ppu_scroll && !result.write_ppu_addr
                && !result.write_ppu_data && !result.write_oam_dma && !result.read_oam_data
                && !result.read_ppu_data,
            !result.ppu_is_second,
            result.ppu_scroll_y == 0,
            result.ppu_addr_lower == 0,
    {
        Self {
            wram: crate::zero_filled(WRAM_SIZE),
            ppu_reg: crate::zero_filled(PPU_REG_SIZE),
            io_reg: crate::zero_filled(APU_IO_REG_SIZE),
            rom: Rom::default(),
            video: VideoSystem::default(),
            pad1: Pad::default(),
            pad2: Pad::default(),
            write_oam_data: false,
            write_ppu_scroll: false,
            write_ppu_addr: false,
            write_ppu_data: false,
            write_oam_dma: false,
            read_oam_data: false,
            read_ppu_data: false,
            ppu_is_second: false,
            ppu_scroll_y: 0,
            ppu_addr_lower: 0,
        }
    }

    /// Returns the bus to its power-on state. The cartridge store is left
    /// alone: a loaded cartridge survives a reset.
    pub fn reset(&mut self)
        requires
            sys_wf(*old(self)),
        ensures
            sys_wf(*final(self)),
            final(self).rom == old(self).rom,
            forall|i: int| 0 <= i < WRAM_SIZE ==> final(self).wram@[i] == 0u8,
            forall|i: int| 0 <= i < PPU_REG_SIZE ==> final(self).ppu_reg@[i] == 0u8,
            forall|i: int| 0 <= i < APU_IO_REG_SIZE ==> final(self).io_reg@[i] == 0u8,
            final(self).pad1.button_reg == 0 && final(self).pad1.read_shift_index == 0 && !final(self).pad1.strobe_enable,
            final(self).pad2.button_reg == 0 && final(self).pad2.read_shift_index == 0 && !final(self).pad2.strobe_enable,
            !final(self).write_oam_data && !final(self).write_ppu_scroll && !final(self).write_ppu_addr && !final(self).write_ppu_data && !final(self).write_oam_dma && !final(self).read_oam_data && !final(self).read_ppu_data,
            !final(self).ppu_is_second,
            final(self).ppu_scroll_y == 0,
            final(self).ppu_addr_lower == 0,
            forall|i: int|
                0 <= i < crate::video::NUM_OF_NAME_TABLE * crate::video::NAME_TABLE_SIZE ==> final(self).video.nametables@[i] == 0u8,
            forall|i: int|
                0 <= i < crate::video::PALETTE_SIZE ==> final(self).video.palette@[i] == 0u8,
    {
        self.video.reset();
        self.pad1.reset();
        self.pad2.reset();
        self.wram = crate::zero_filled(WRAM_SIZE);
        self.ppu_reg = crate::zero_filled(PPU_REG_SIZE);
        self.io_reg = crate::zero_filled(APU_IO_REG_SIZE);

        self.write_oam_data = false;
        self.write_ppu_scroll = false;
        self.write_ppu_data = false;
        self.write_ppu_addr = false;
        self.write_oam_dma = false;
        self.read_oam_data = false;
        self.read_ppu_data = false;

        self.ppu_is_second = false;
        self.ppu_scroll_y = 0;
        self.ppu_addr_lower = 0;
    }

    /// A bus read. A destructive read (the CPU observing memory) triggers
    /// the address's side effects: a status read clears the vblank bit and
    /// the two-write latch, object/video data reads stage one-shot flags
    /// for the picture unit, and a controller read shifts the pad. A
    /// non-destructive read (debug peek) changes nothing.
    pub fn read_u8(&mut self, addr: u16, is_nondestructive: bool) -> (result: u8)
        requires
            sys_wf(*old(self)),
        ensures
            sys_wf(*final(self)),
            result == sys_read_val(*old(self), addr, is_nondestructive),
            final(self).wram@ == old(self).wram@,
            final(self).io_reg@ == old(self).io_reg@,
            final(self).rom == old(self).rom,
            final(self).video == old(self).video,
            final(self).write_oam_data == old(self).write_oam_data,
            final(self).write_ppu_scroll == old(self).write_ppu_scroll,
            final(self).write_ppu_addr == old(self).write_ppu_addr,
            final(self).write_ppu_data == old(self).write_ppu_data,
            final(self).write_oam_dma == old(self).write_oam_dma,
            final(self).ppu_scroll_y == old(self).ppu_scroll_y,
            final(self).ppu_addr_lower == old(self).ppu_addr_lower,
            final(self).ppu_reg@ == if !is_nondestructive && PPU_REG_BASE_ADDR <= addr
                < APU_IO_REG_BASE_ADDR && ppu_reg_index_spec(addr) == PPU_STATUS_OFFSET {
                old(self).ppu_reg@.update(
                    PPU_STATUS_OFFSET as int,
                    (old(self).ppu_reg@[PPU_STATUS_OFFSET as int] & 0x7f) as u8,
                )
            } else {
                old(self).ppu_reg@
            },
            final(self).ppu_is_second == if !is_nondestructive && PPU_REG_BASE_ADDR <= addr
                < APU_IO_REG_BASE_ADDR && ppu_reg_index_spec(addr) == PPU_STATUS_OFFSET {
                false
            } else {
                old(self).ppu_is_second
            },
            final(self).read_oam_data == (old(self).read_oam_data || (!is_nondestructive
                && PPU_REG_BASE_ADDR <= addr < APU_IO_REG_BASE_ADDR && ppu_reg_index_spec(addr)
                == PPU_OAMDATA_OFFSET)),
            final(self).read_ppu_data == (old(self).read_ppu_data || (!is_nondestructive
                && PPU_REG_BASE_ADDR <= addr < APU_IO_REG_BASE_ADDR && ppu_reg_index_spec(addr)
                == PPU_DATA_OFFSET)),
            final(self).pad1 == if !is_nondestructive && APU_IO_REG_BASE_ADDR <= addr
                < ROM_BASE_ADDR && io_reg_index_spec(addr) == 0x16 {
                pad_after_read(old(self).pad1)
            } else {
                old(self).pad1
            },
            final(self).pad2 == if !is_nondestructive && APU_IO_REG_BASE_ADDR <= addr
                < ROM_BASE_ADDR && io_reg_index_spec(addr) == 0x17 {
                pad_after_read(old(self).pad2)
            } else {
                old(self).pad2
            },
    {
        if addr < PPU_REG_BASE_ADDR {
            let index = usize::from(addr) % WRAM_SIZE;
            self.wram[index]
        } else if addr < APU_IO_REG_BASE_ADDR {
            let index = usize::from(addr - PPU_REG_BASE_ADDR) % PPU_REG_SIZE;
            if index == PPU_STATUS_OFFSET {
                let data = self.ppu_reg[index];
                if !is_nondestructive {
                    self.ppu_is_second = false;
                    let cleared = self.ppu_reg[PPU_STATUS_OFFSET] & 0x7f;
                    self.ppu_reg[PPU_STATUS_OFFSET] = cleared;
                }
                data
            } else if index == PPU_OAMDATA_OFFSET {
                if !is_nondestructive {
                    self.read_oam_data = true;
                }
                self.ppu_reg[index]
            } else if index == PPU_DATA_OFFSET {
                if !is_nondestructive {
                    self.read_ppu_data = true;
                }
                self.ppu_reg[index]
            } else {
                self.ppu_reg[index]
            }
        } else if addr < ROM_BASE_ADDR {
            let index = usize::from(addr - APU_IO_REG_BASE_ADDR) % APU_IO_REG_SIZE;
            if !is_nondestructive && index == 0x16 {
                self.pad1.read_out()
            } else if !is_nondestructive && index == 0x17 {
                self.pad2.read_out()
            } else {
                self.io_reg[index]
            }
        } else {
            self.rom.read_u8(addr, is_nondestructive)
        }
    }

    /// A bus write. A destructive write stages the one-shot flags the
    /// picture unit consumes (object data, scroll and address second
    /// writes, video data, the DMA trigger) and drives the controller
    /// strobes; a non-destructive write only stores the byte.
    #[verifier::rlimit(100)]
    #[verifier::spinoff_prover]
    pub fn write_u8(&mut self, addr: u16, data: u8, is_nondestructive: bool)
        requires
            sys_wf(*old(self)),
        ensures
            sys_wf(*final(self)),
            final(self).video == old(self).video,
            final(self).read_oam_data == old(self).read_oam_data,
            final(self).read_ppu_data == old(self).read_ppu_data,
            // Work RAM window.
            addr < PPU_REG_BASE_ADDR ==> {
                &&& final(self).wram@ == old(self).wram@.update(wram_index_spec(addr), data)
                &&& final(self).ppu_reg@ == old(self).ppu_reg@
                &&& final(self).io_reg@ == old(self).io_reg@
                &&& final(self).rom == old(self).rom
                &&& final(self).pad1 == old(self).pad1
                &&& final(self).pad2 == old(self).pad2
                &&& final(self).write_oam_data == old(self).write_oam_data
                &&& final(self).write_ppu_scroll == old(self).write_ppu_scroll
                &&& final(self).write_ppu_addr == old(self).write_ppu_addr
                &&& final(self).write_ppu_data == old(self).write_ppu_data
                &&& final(self).write_oam_dma == old(self).write_oam_dma
                &&& final(self).ppu_is_second == old(self).ppu_is_second
                &&& final(self).ppu_scroll_y == old(self).ppu_scroll_y
                &&& final(self).ppu_addr_lower == old(self).ppu_addr_lower
            },
            // Picture-unit register window.
            PPU_REG_BASE_ADDR <= addr < APU_IO_REG_BASE_ADDR ==> {
                let index = ppu_reg_index_spec(addr);
                &&& final(self).wram@ == old(self).wram@
                &&& final(self).io_reg@ == old(self).io_reg@
                &&& final(self).rom == old(self).rom
                &&& final(self).pad1 == old(self).pad1
                &&& final(self).pad2 == old(self).pad2
                &&& final(self).write_oam_dma == old(self).write_oam_dma
                &&& final(self).write_oam_data == (old(self).write_oam_data || (!is_nondestructive
                    && index == PPU_OAMDATA_OFFSET))
                &&& final(self).write_ppu_data == (old(self).write_ppu_data || (!is_nondestructive
                    && index == PPU_DATA_OFFSET))
                &&& final(self).write_ppu_scroll == (old(self).write_ppu_scroll || (
                !is_nondestructive && index == PPU_SCROLL_OFFSET && old(self).ppu_is_second))
                &&& final(self).write_ppu_addr == (old(self).write_ppu_addr || (!is_nondestructive
                    && index == PPU_ADDR_OFFSET && old(self).ppu_is_second))
                &&& final(self).ppu_is_second == if is_nondestructive || !(index
                    == PPU_SCROLL_OFFSET || index == PPU_ADDR_OFFSET) {
                    old(self).ppu_is_second
                } else {
                    !old(self).ppu_is_second
                }
                &&& final(self).ppu_scroll_y == if index == PPU_SCROLL_OFFSET && old(self).ppu_is_second {
                    data
                } else {
                    old(self).ppu_scroll_y
                }
                &&& final(self).ppu_addr_lower == if index == PPU_ADDR_OFFSET && old(self).ppu_is_second {
                    data
                } else {
                    old(self).ppu_addr_lower
                }
                &&& final(self).ppu_reg@ == if (index == PPU_SCROLL_OFFSET || index
                    == PPU_ADDR_OFFSET) && old(self).ppu_is_second {
                    old(self).ppu_reg@
                } else {
                    old(self).ppu_reg@.update(index, data)
                }
            },
            // I/O register window.
            APU_IO_REG_BASE_ADDR <= addr < ROM_BASE_ADDR ==> {
                let index = io_reg_index_spec(addr);
                &&& final(self).wram@ == old(self).wram@
                &&& final(self).ppu_reg@ == old(self).ppu_reg@
                &&& final(self).rom == old(self).rom
                &&& final(self).io_reg@ == old(self).io_reg@.update(index, data)
                &&& final(self).write_oam_dma == (old(self).write_oam_dma || (!is_nondestructive
                    && index == APU_IO_OAM_DMA_OFFSET))
                &&& final(self).pad1 == if !is_nondestructive && index == 0x16 {
                    Pad {
                        strobe_enable: data & 0x01 == 0x01,
                        read_shift_index: if data & 0x01 == 0x01 {
                            0u8
                        } else {
                            old(self).pad1.read_shift_index
                        },
                        ..old(self).pad1
                    }
                } else {
                    old(self).pad1
                }
                &&& final(self).pad2 == if !is_nondestructive && index == 0x17 {
                    Pad {
                        strobe_enable: data & 0x01 == 0x01,
                        read_shift_index: if data & 0x01 == 0x01 {
                            0u8
                        } else {
                            old(self).pad2.read_shift_index
                        },
                        ..old(self).pad2
                    }
                } else {
                    old(self).pad2
                }
                &&& final(self).write_oam_data == old(self).write_oam_data
                &&& final(self).write_ppu_scroll == old(self).write_ppu_scroll
                &&& final(self).write_ppu_addr == old(self).write_ppu_addr
                &&& final(self).write_ppu_data == old(self).write_ppu_data
                &&& final(self).ppu_is_second == old(self).ppu_is_second
                &&& final(self).ppu_scroll_y == old(self).ppu_scroll_y
                &&& final(self).ppu_addr_lower == old(self).ppu_addr_lower
            },
            // Cartridge region.
            addr >= ROM_BASE_ADDR ==> {
                &&& final(self).wram@ == old(self).wram@
                &&& final(self).ppu_reg@ == old(self).ppu_reg@
                &&& final(self).io_reg@ == old(self).io_reg@
                &&& final(self).pad1 == old(self).pad1
                &&& final(self).pad2 == old(self).pad2
                &&& final(self).write_oam_data == old(self).write_oam_data
                &&& final(self).write_ppu_scroll == old(self).write_ppu_scroll
                &&& final(self).write_ppu_addr == old(self).write_ppu_addr
                &&& final(self).write_ppu_data == old(self).write_ppu_data
                &&& final(self).write_oam_dma == old(self).write_oam_dma
                &&& final(self).ppu_is_second == old(self).ppu_is_second
                &&& final(self).ppu_scroll_y == old(self).ppu_scroll_y
                &&& final(self).ppu_addr_lower == old(self).ppu_addr_lower
                &&& final(self).rom.mapper == old(self).rom.mapper
                &&& final(self).rom.mirror_table == old(self).rom.mirror_table
                &&& final(self).rom.sram == old(self).rom.sram
                &&& final(self).rom.p_rom_bytes == old(self).rom.p_rom_bytes
                &&& final(self).rom.c_rom_bytes == old(self).rom.c_rom_bytes
                &&& final(self).rom.c_rom@ == old(self).rom.c_rom@
                &&& addr < crate::rom::PRG_ROM_SYSTEM_BASE_ADDR ==> {
                    &&& final(self).rom.srambytes@ == old(self).rom.srambytes@.update(
                        addr as int % crate::rom::BATTERY_PACKED_RAM_MAX_SIZE as int,
                        data,
                    )
                    &&& final(self).rom.p_rom@ == old(self).rom.p_rom@
                }
                &&& addr >= crate::rom::PRG_ROM_SYSTEM_BASE_ADDR ==> {
                    &&& final(self).rom.srambytes@ == old(self).rom.srambytes@
                    &&& final(self).rom.p_rom@ == old(self).rom.p_rom@.update(
                        if addr - crate::rom::PRG_ROM_SYSTEM_BASE_ADDR < old(self).rom.p_rom_bytes {
                            addr - crate::rom::PRG_ROM_SYSTEM_BASE_ADDR
                        } else {
                            addr - crate::rom::PRG_ROM_SYSTEM_BASE_ADDR - old(self).rom.p_rom_bytes
                        },
                        data,
                    )
                }
            },
    {
        if addr < PPU_REG_BASE_ADDR {
            let index = usize::from(addr) % WRAM_SIZE;
            self.wram[index] = data;
        } else if addr < APU_IO_REG_BASE_ADDR {
            let index = usize::from(addr - PPU_REG_BASE_ADDR) % PPU_REG_SIZE;
            if index == PPU_OAMDATA_OFFSET {
                if !is_nondestructive {
                    self.write_oam_data = true;
                }
                self.ppu_reg[index] = data;
            } else if index == PPU_SCROLL_OFFSET {
                if self.ppu_is_second {
                    self.ppu_scroll_y = data;
                    if !is_nondestructive {
                        self.ppu_is_second = false;
                        self.write_ppu_scroll = true;
                    }
                } else {
                    self.ppu_reg[index] = data;
                    if !is_nondestructive {
                        self.ppu_is_second = true;
                    }
                }
            } else if index == PPU_ADDR_OFFSET {
                if self.ppu_is_second {
                    self.ppu_addr_lower = data;
                    if !is_nondestructive {
                        self.ppu_is_second = false;
                        self.write_ppu_addr = true;
                    }
                } else {
                    self.ppu_reg[index] = data;
                    if !is_nondestructive {
                        self.ppu_is_second = true;
                    }
                }
            } else if index == PPU_DATA_OFFSET {
                self.ppu_reg[index] = data;
                if !is_nondestructive {
                    self.write_ppu_data = true;
                }
            } else {
                self.ppu_reg[index] = data;
            }
        } else if addr < ROM_BASE_ADDR {
            let index = usize::from(addr - APU_IO_REG_BASE_ADDR) % APU_IO_REG_SIZE;
            if !is_nondestructive {
                if index == APU_IO_OAM_DMA_OFFSET {
                    self.write_oam_dma = true;
                } else if index == 0x16 {
                    self.pad1.write_strobe((data & 0x01) == 0x01);
                } else if index == 0x17 {
                    self.pad2.write_strobe((data & 0x01) == 0x01);
                }
            }
            self.io_reg[index] = data;
        } else {
            self.rom.write_u8(addr, data, is_nondestructive);
        }
    }
}

/// Every part of the bus that the picture-unit register helpers never
/// touch: the memories, the cartridge, video memory and the pads.
pub open spec fn sys_mem_unchanged(a: System, b: System) -> bool {
    &&& b.wram@ == a.wram@
    &&& b.io_reg@ == a.io_reg@
    &&& b.rom == a.rom
    &&& b.video == a.video
    &&& b.pad1 == a.pad1
    &&& b.pad2 == a.pad2
}

/// The one-shot flags and two-write latches, unchanged between two states.
pub open spec fn sys_latches_unchanged(a: System, b: System) -> bool {
    &&& b.write_oam_data == a.write_oam_data
    &&& b.write_ppu_scroll == a.write_ppu_scroll
    &&& b.write_ppu_addr == a.write_ppu_addr
    &&& b.write_ppu_data == a.write_ppu_data
    &&& b.write_oam_dma == a.write_oam_dma
    &&& b.read_oam_data == a.read_oam_data
    &&& b.read_ppu_data == a.read_ppu_data
    &&& b.ppu_is_second == a.ppu_is_second
    &&& b.ppu_scroll_y == a.ppu_scroll_y
    &&& b.ppu_addr_lower == a.ppu_addr_lower
}

// Control, mask and status register views, each pinned to its bit.
impl System {
    pub fn read_ppu_nmi_enable(&self) -> (result: bool)
        requires
            sys_wf(*self),
        ensures
            result == (self.ppu_reg@[PPU_CTRL_OFFSET as int] & 0x80u8 == 0x80u8),
    {
        (self.ppu_reg[PPU_CTRL_OFFSET] & 0x80u8) == 0x80u8
    }

    pub fn read_ppu_is_master(&self) -> (result: bool)
        requires
            sys_wf(*self),
        ensures
            result == (self.ppu_reg@[PPU_CTRL_OFFSET as int] & 0x40u8 == 0x40u8),
    {
        (self.ppu_reg[PPU_CTRL_OFFSET] & 0x40u8) == 0x40u8
    }

    pub fn read_ppu_sprite_height(&self) -> (result: u8)
        requires
            sys_wf(*self),
        ensures
            result == if self.ppu_reg@[PPU_CTRL_OFFSET as int] & 0x20u8 == 0x20u8 {
                16u8
            } else {
                8u8
            },
    {
        if (self.ppu_reg[PPU_CTRL_OFFSET] & 0x20u8) == 0x20u8 {
            16
        } else {
            8
        }
    }

    pub fn read_ppu_bg_pattern_table_addr(&self) -> (result: u16)
        requires
            sys_wf(*self),
        ensures
            result == if self.ppu_reg@[PPU_CTRL_OFFSET as int] & 0x10u8 == 0x10u8 {
                0x1000u16
            } else {
                0x0000u16
            },
    {
        if (self.ppu_reg[PPU_CTRL_OFFSET] & 0x10u8) == 0x10u8 {
            0x1000u16
        } else {
            0x0000u16
        }
    }

    pub fn read_ppu_sprite_pattern_table_addr(&self) -> (result: u16)
        requires
            sys_wf(*self),
        ensures
            result == if self.ppu_reg@[PPU_CTRL_OFFSET as int] & 0x08u8 == 0x08u8 {
                0x1000u16
            } else {
                0x0000u16
            },
    {
        if (self.ppu_reg[PPU_CTRL_OFFSET] & 0x08u8) == 0x08u8 {
            0x1000u16
        } else {
            0x0000u16
        }
    }

    pub fn read_ppu_addr_increment(&self) -> (result: u8)
        requires
            sys_wf(*self),
        ensures
            result == if self.ppu_reg@[PPU_CTRL_OFFSET as int] & 0x04u8 == 0x04u8 {
                32u8
            } else {
                1u8
            },
    {
        if (self.ppu_reg[PPU_CTRL_OFFSET] & 0x04u8) == 0x04u8 {
            32u8
        } else {
            1u8
        }
    }

    pub fn read_ppu_name_table_base_addr(&self) -> (result: u16)
        requires
            sys_wf(*self),
        ensures
            result == nt_base_addr_spec(self.ppu_reg@[PPU_CTRL_OFFSET as int]),
    {
        let select = self.ppu_reg[PPU_CTRL_OFFSET] & 0x03u8;
        if select == 0 {
            0x2000
        } else if select == 1 {
            0x2400
        } else if select == 2 {
            0x2800
        } else {
            0x2c00
        }
    }

    pub fn read_ppu_is_write_sprite(&self) -> (result: bool)
        requires
            sys_wf(*self),
        ensures
            result == (self.ppu_reg@[PPU_MASK_OFFSET as int] & 0x10u8 == 0x10u8),
    {
        (self.ppu_reg[PPU_MASK_OFFSET] & 0x10u8) == 0x10u8
    }

    pub fn read_ppu_is_write_bg(&self) -> (result: bool)
        requires
            sys_wf(*self),
        ensures
            result == (self.ppu_reg@[PPU_MASK_OFFSET as int] & 0x08u8 == 0x08u8),
    {
        (self.ppu_reg[PPU_MASK_OFFSET] & 0x08u8) == 0x08u8
    }

    /// The left 8 sprite columns are clipped while the mask bit is clear.
    pub fn read_ppu_is_clip_sprite_leftend(&self) -> (result: bool)
        requires
            sys_wf(*self),
        ensures
            result == (self.ppu_reg@[PPU_MASK_OFFSET as int] & 0x04u8 != 0x04u8),
    {
        (self.ppu_reg[PPU_MASK_OFFSET] & 0x04u8) != 0x04u8
    }

    /// The left 8 background columns are clipped while the mask bit is clear.
    pub fn read_ppu_is_clip_bg_leftend(&self) -> (result: bool)
        requires
            sys_wf(*self),
        ensures
            result == (self.ppu_reg@[PPU_MASK_OFFSET as int] & 0x02u8 != 0x02u8),
    {
        (self.ppu_reg[PPU_MASK_OFFSET] & 0x02u8) != 0x02u8
    }

    pub fn read_is_monochrome(&self) -> (result: bool)
        requires
            sys_wf(*self),
        ensures
            result == (self.ppu_reg@[PPU_MASK_OFFSET as int] & 0x01u8 == 0x01u8),
    {
        (self.ppu_reg[PPU_MASK_OFFSET] & 0x01u8) == 0x01u8
    }

    pub fn read_ppu_is_vblank(&self) -> (result: bool)
        requires
            sys_wf(*self),
        ensures
            result == (self.ppu_reg@[PPU_STATUS_OFFSET as int] & 0x80u8 == 0x80u8),
    {
        (self.ppu_reg[PPU_STATUS_OFFSET] & 0x80u8) == 0x80u8
    }

    pub fn write_ppu_is_vblank(&mut self, is_set: bool)
        requires
            sys_wf(*old(self)),
        ensures
            sys_wf(*final(self)),
            sys_mem_unchanged(*old(self), *final(self)),
            sys_latches_unchanged(*old(self), *final(self)),
            final(self).ppu_reg@ == old(self).ppu_reg@.update(
                PPU_STATUS_OFFSET as int,
                if is_set {
                    (old(self).ppu_reg@[PPU_STATUS_OFFSET as int] | 0x80u8) as u8
                } else {
                    (old(self).ppu_reg@[PPU_STATUS_OFFSET as int] & 0x7fu8) as u8
                },
            ),
    {
        if is_set {
            let v = self.ppu_reg[PPU_STATUS_OFFSET] | 0x80u8;
            self.ppu_reg[PPU_STATUS_OFFSET] = v;
        } else {
            let v = self.ppu_reg[PPU_STATUS_OFFSET] & 0x7fu8;
            self.ppu_reg[PPU_STATUS_OFFSET] = v;
        }
    }

    /// Same operation under the name the bus-facing callers use.
    pub fn write_ppu_vblank(&mut self, is_set: bool)
        requires
            sys_wf(*old(self)),
        ensures
            sys_wf(*final(self)),
            sys_mem_unchanged(*old(self), *final(self)),
            sys_latches_unchanged(*old(self), *final(self)),
            final(self).ppu_reg@ == old(self).ppu_reg@.update(
                PPU_STATUS_OFFSET as int,
                if is_set {
                    (old(self).ppu_reg@[PPU_STATUS_OFFSET as int] | 0x80u8) as u8
                } else {
                    (old(self).ppu_reg@[PPU_STATUS_OFFSET as int] & 0x7fu8) as u8
                },
            ),
    {
        self.write_ppu_is_vblank(is_set)
    }

    pub fn read_ppu_is_hit_sprite0(&self) -> (result: bool)
        requires
            sys_wf(*self),
        ensures
            result == (self.ppu_reg@[PPU_STATUS_OFFSET as int] & 0x40u8 == 0x40u8),
    {
        (self.ppu_reg[PPU_STATUS_OFFSET] & 0x40u8) == 0x40u8
    }

    pub fn write_ppu_is_hit_sprite0(&mut self, is_set: bool)
        requires
            sys_wf(*old(self)),
        ensures
            sys_wf(*final(self)),
            sys_mem_unchanged(*old(self), *final(self)),
            sys_latches_unchanged(*old(self), *final(self)),
            final(self).ppu_reg@ == old(self).ppu_reg@.update(
                PPU_STATUS_OFFSET as int,
                if is_set {
                    (old(self).ppu_reg@[PPU_STATUS_OFFSET as int] | 0x40u8) as u8
                } else {
                    (old(self).ppu_reg@[PPU_STATUS_OFFSET as int] & !0x40u8) as u8
                },
            ),
    {
        if is_set {
            let v = self.ppu_reg[PPU_STATUS_OFFSET] | 0x40u8;
            self.ppu_reg[PPU_STATUS_OFFSET] = v;
        } else {
            let v = self.ppu_reg[PPU_STATUS_OFFSET] & (!0x40u8);
            self.ppu_reg[PPU_STATUS_OFFSET] = v;
        }
    }

    pub fn read_ppu_is_sprite_overflow(&self) -> (result: bool)
        requires
            sys_wf(*self),
        ensures
            result == (self.ppu_reg@[PPU_STATUS_OFFSET as int] & 0x20u8 == 0x20u8),
    {
        (self.ppu_reg[PPU_STATUS_OFFSET] & 0x20u8) == 0x20u8
    }

    pub fn write_ppu_is_sprite_overflow(&mut self, is_set: bool)
        requires
            sys_wf(*old(self)),
        ensures
            sys_wf(*final(self)),
            sys_mem_unchanged(*old(self), *final(self)),
            sys_latches_unchanged(*old(self), *final(self)),
            final(self).ppu_reg@ == old(self).ppu_reg@.update(
                PPU_STATUS_OFFSET as int,
                if is_set {
                    (old(self).ppu_reg@[PPU_STATUS_OFFSET as int] | 0x20u8) as u8
                } else {
                    (old(self).ppu_reg@[PPU_STATUS_OFFSET as int] & !0x20u8) as u8
                },
            ),
    {
        if is_set {
            let v = self.ppu_reg[PPU_STATUS_OFFSET] | 0x20u8;
            self.ppu_reg[PPU_STATUS_OFFSET] = v;
        } else {
            let v = self.ppu_reg[PPU_STATUS_OFFSET] & (!0x20u8);
            self.ppu_reg[PPU_STATUS_OFFSET] = v;
        }
    }

    pub fn clear_ppu_status(&mut self)
        requires
            sys_wf(*old(self)),
        ensures
            sys_wf(*final(self)),
            sys_mem_unchanged(*old(self), *final(self)),
            sys_latches_unchanged(*old(self), *final(self)),
            final(self).ppu_reg@ == old(self).ppu_reg@.update(PPU_STATUS_OFFSET as int, 0u8),
    {
        self.ppu_reg[PPU_STATUS_OFFSET] = 0x00u8;
    }

    pub fn read_ppu_oam_addr(&self) -> (result: u8)
        requires
            sys_wf(*self),
        ensures
            result == self.ppu_reg@[PPU_OAMADDR_OFFSET as int],
    {
        self.ppu_reg[PPU_OAMADDR_OFFSET]
    }

    /// Hands the staged object-data access to the picture unit and clears
    /// it: (read requested, write requested, byte). At most one of the two
    /// request bits is set, and a write request takes precedence.
    pub fn read_oam_data(&mut self) -> (result: (bool, bool, u8))
        requires
            sys_wf(*old(self)),
        ensures
            sys_wf(*final(self)),
            sys_mem_unchanged(*old(self), *final(self)),
            final(self).ppu_reg@ == old(self).ppu_reg@,
            result.2 == old(self).ppu_reg@[PPU_OAMDATA_OFFSET as int],
            result.1 == old(self).write_oam_data,
            result.0 == (!old(self).write_oam_data && old(self).read_oam_data),
            !final(self).write_oam_data,
            final(self).read_oam_data == (old(self).write_oam_data && old(self).read_oam_data),
            final(self).write_ppu_scroll == old(self).write_ppu_scroll,
            final(self).write_ppu_addr == old(self).write_ppu_addr,
            final(self).write_ppu_data == old(self).write_ppu_data,
            final(self).write_oam_dma == old(self).write_oam_dma,
            final(self).read_ppu_data == old(self).read_ppu_data,
            final(self).ppu_is_second == old(self).ppu_is_second,
            final(self).ppu_scroll_y == old(self).ppu_scroll_y,
            final(self).ppu_addr_lower == old(self).ppu_addr_lower,
    {
        if self.write_oam_data {
            self.write_oam_data = false;
            (false, true, self.ppu_reg[PPU_OAMDATA_OFFSET])
        } else if self.read_oam_data {
            self.read_oam_data = false;
            (true, false, self.ppu_reg[PPU_OAMDATA_OFFSET])
        } else {
            (false, false, self.ppu_reg[PPU_OAMDATA_OFFSET])
        }
    }

    /// The picture unit completing a staged object-data read: stores the
    /// byte it fetched into the data register.
    pub fn write_oam_data(&mut self, data: u8)
        requires
            sys_wf(*old(self)),
        ensures
            sys_wf(*final(self)),
            sys_mem_unchanged(*old(self), *final(self)),
            sys_latches_unchanged(*old(self), *final(self)),
            final(self).ppu_reg@ == old(self).ppu_reg@.update(PPU_OAMDATA_OFFSET as int, data),
    {
        self.ppu_reg[PPU_OAMDATA_OFFSET] = data;
    }

    /// Hands the latched scroll pair to the picture unit: (a completed
    /// two-write sequence is pending, scroll X, scroll Y), clearing the
    /// pending flag.
    pub fn read_ppu_scroll(&mut self) -> (result: (bool, u8, u8))
        requires
            sys_wf(*old(self)),
        ensures
            sys_wf(*final(self)),
            sys_mem_unchanged(*old(self), *final(self)),
            final(self).ppu_reg@ == old(self).ppu_reg@,
            result.0 == old(self).write_ppu_scroll,
            result.1 == old(self).ppu_reg@[PPU_SCROLL_OFFSET as int],
            result.2 == old(self).ppu_scroll_y,
            !final(self).write_ppu_scroll,
            final(self).write_oam_data == old(self).write_oam_data,
            final(self).write_ppu_addr == old(self).write_ppu_addr,
            final(self).write_ppu_data == old(self).write_ppu_data,
            final(self).write_oam_dma == old(self).write_oam_dma,
            final(self).read_oam_data == old(self).read_oam_data,
            final(self).read_ppu_data == old(self).read_ppu_data,
            final(self).ppu_is_second == old(self).ppu_is_second,
            final(self).ppu_scroll_y == old(self).ppu_scroll_y,
            final(self).ppu_addr_lower == old(self).ppu_addr_lower,
    {
        if self.write_ppu_scroll {
            self.write_ppu_scroll = false;
            (true, self.ppu_reg[PPU_SCROLL_OFFSET], self.ppu_scroll_y)
        } else {
            (false, self.ppu_reg[PPU_SCROLL_OFFSET], self.ppu_scroll_y)
        }
    }

    /// Hands the latched video address to the picture unit: (a completed
    /// two-write sequence is pending, the 16-bit address), clearing the
    /// pending flag.
    pub fn read_ppu_addr(&mut self) -> (result: (bool, u16))
        requires
            sys_wf(*old(self)),
        ensures
            sys_wf(*final(self)),
            sys_mem_unchanged(*old(self), *final(self)),
            final(self).ppu_reg@ == old(self).ppu_reg@,
            result.0 == old(self).write_ppu_addr,
            result.1 == ppu_addr_spec(*old(self)),
            !final(self).write_ppu_addr,
            final(self).write_oam_data == old(self).write_oam_data,
            final(self).write_ppu_scroll == old(self).write_ppu_scroll,
            final(self).write_ppu_data == old(self).write_ppu_data,
            final(self).write_oam_dma == old(self).write_oam_dma,
            final(self).read_oam_data == old(self).read_oam_data,
            final(self).read_ppu_data == old(self).read_ppu_data,
            final(self).ppu_is_second == old(self).ppu_is_second,
            final(self).ppu_scroll_y == old(self).ppu_scroll_y,
            final(self).ppu_addr_lower == old(self).ppu_addr_lower,
    {
        let addr = (u16::from(self.ppu_reg[PPU_ADDR_OFFSET]) << 8) | u16::from(
            self.ppu_addr_lower,
        );
        if self.write_ppu_addr {
            self.write_ppu_addr = false;
            (true, addr)
        } else {
            (false, addr)
        }
    }

    /// Hands the staged video-data access to the picture unit and clears
    /// it, in the same shape as the object-data variant.
    pub fn read_ppu_data(&mut self) -> (result: (bool, bool, u8))
        requires
            sys_wf(*old(self)),
        ensures
            sys_wf(*final(self)),
            sys_mem_unchanged(*old(self), *final(self)),
            final(self).ppu_reg@ == old(self).ppu_reg@,
            result.2 == old(self).ppu_reg@[PPU_DATA_OFFSET as int],
            result.1 == old(self).write_ppu_data,
            result.0 == (!old(self).write_ppu_data && old(self).read_ppu_data),
            !final(self).write_ppu_data,
            final(self).read_ppu_data == (old(self).write_ppu_data && old(self).read_ppu_data),
            final(self).write_oam_data == old(self).write_oam_data,
            final(self).write_ppu_scroll == old(self).write_ppu_scroll,
            final(self).write_ppu_addr == old(self).write_ppu_addr,
            final(self).write_oam_dma == old(self).write_oam_dma,
            final(self).read_oam_data == old(self).read_oam_data,
            final(self).ppu_is_second == old(self).ppu_is_second,
            final(self).ppu_scroll_y == old(self).ppu_scroll_y,
            final(self).ppu_addr_lower == old(self).ppu_addr_lower,
    {
        if self.write_ppu_data {
            self.write_ppu_data = false;
            (false, true, self.ppu_reg[PPU_DATA_OFFSET])
        } else if self.read_ppu_data {
            self.read_ppu_data = false;
            (true, false, self.ppu_reg[PPU_DATA_OFFSET])
        } else {
            (false, false, self.ppu_reg[PPU_DATA_OFFSET])
        }
    }

    /// The picture unit completing a staged video-data read: stores the
    /// byte it fetched into the data register.
    pub fn write_ppu_data(&mut self, data: u8)
        requires
            sys_wf(*old(self)),
        ensures
            sys_wf(*final(self)),
            sys_mem_unchanged(*old(self), *final(self)),
            sys_latches_unchanged(*old(self), *final(self)),
            final(self).ppu_reg@ == old(self).ppu_reg@.update(PPU_DATA_OFFSET as int, data),
    {
        self.ppu_reg[PPU_DATA_OFFSET] = data;
    }

    /// Advances the latched video address by the control register's
    /// increment (1 or 32), wrapping at the top of the address space.
    pub fn increment_ppu_addr(&mut self)
        requires
            sys_wf(*old(self)),
        ensures
            sys_wf(*final(self)),
            sys_mem_unchanged(*old(self), *final(self)),
            final(self).write_oam_data == old(self).write_oam_data,
            final(self).write_ppu_scroll == old(self).write_ppu_scroll,
            final(self).write_ppu_addr == old(self).write_ppu_addr,
            final(self).write_ppu_data == old(self).write_ppu_data,
            final(self).write_oam_dma == old(self).write_oam_dma,
            final(self).read_oam_data == old(self).read_oam_data,
            final(self).read_ppu_data == old(self).read_ppu_data,
            final(self).ppu_is_second == old(self).ppu_is_second,
            final(self).ppu_scroll_y == old(self).ppu_scroll_y,
            ppu_addr_spec(*final(self)) == vstd::wrapping::u16_specs::wrapping_add(
                ppu_addr_spec(*old(self)),
                if old(self).ppu_reg@[PPU_CTRL_OFFSET as int] & 0x04u8 == 0x04u8 {
                    32u16
                } else {
                    1u16
                },
            ),
            final(self).ppu_reg@ == old(self).ppu_reg@.update(
                PPU_ADDR_OFFSET as int,
                (vstd::wrapping::u16_specs::wrapping_add(
                    ppu_addr_spec(*old(self)),
                    if old(self).ppu_reg@[PPU_CTRL_OFFSET as int] & 0x04u8 == 0x04u8 {
                        32u16
                    } else {
                        1u16
                    },
                ) >> 8) as u8,
            ),
    {
        let current_addr = (u16::from(self.ppu_reg[PPU_ADDR_OFFSET]) << 8) | u16::from(
            self.ppu_addr_lower,
        );
        let add_val = u16::from(self.read_ppu_addr_increment());
        let dst_addr = current_addr.wrapping_add(add_val);
        self.ppu_addr_lower = (dst_addr & 0xff) as u8;
        self.ppu_reg[PPU_ADDR_OFFSET] = (dst_addr >> 8) as u8;
        proof {
            lemma_u16_split(dst_addr);
        }
    }

    /// Hands the staged object-memory transfer request to the picture
    /// unit: (a transfer is pending, source page base), clearing the flag.
    pub fn read_oam_dma(&mut self) -> (result: (bool, u16))
        requires
            sys_wf(*old(self)),
        ensures
            sys_wf(*final(self)),
            sys_mem_unchanged(*old(self), *final(self)),
            final(self).ppu_reg@ == old(self).ppu_reg@,
            result.0 == old(self).write_oam_dma,
            result.1 == (old(self).io_reg@[APU_IO_OAM_DMA_OFFSET as int] as u16) << 8,
            !final(self).write_oam_dma,
            final(self).write_oam_data == old(self).write_oam_data,
            final(self).write_ppu_scroll == old(self).write_ppu_scroll,
            final(self).write_ppu_addr == old(self).write_ppu_addr,
            final(self).write_ppu_data == old(self).write_ppu_data,
            final(self).read_oam_data == old(self).read_oam_data,
            final(self).read_ppu_data == old(self).read_ppu_data,
            final(self).ppu_is_second == old(self).ppu_is_second,
            final(self).ppu_scroll_y == old(self).ppu_scroll_y,
            final(self).ppu_addr_lower == old(self).ppu_addr_lower,
    {
        let start_addr = u16::from(self.io_reg[APU_IO_OAM_DMA_OFFSET]) << 8;
        if self.write_oam_dma {
            self.write_oam_dma = false;
            (true, start_addr)
        } else {
            (false, start_addr)
        }
    }
}

/// The nametable base address the control register's low two bits select.
pub open spec fn nt_base_addr_spec(ctrl: u8) -> u16 {
    if ctrl & 0x03u8 == 0 {
        0x2000u16
    } else if ctrl & 0x03u8 == 1 {
        0x2400u16
    } else if ctrl & 0x03u8 == 2 {
        0x2800u16
    } else {
        0x2c00u16
    }
}

/// The latched 16-bit video address: high byte in the address register,
/// low byte in the second-write latch.
pub open spec fn ppu_addr_spec(s: System) -> u16 {
    ((s.ppu_reg@[PPU_ADDR_OFFSET as int] as u16) << 8) | (s.ppu_addr_lower as u16)
}

/// A 16-bit value is the join of its high and low bytes.
pub proof fn lemma_u16_split(x: u16)
    by (bit_vector)
    ensures
        (((x >> 8) as u8 as u16) << 8) | ((x & 0xff) as u8 as u16) == x,
        ((x as u8) as u16) == x & 0xff,
{
}


/// Addresses whose destructive read has no side effect: anywhere but the
/// status/object-data/video-data registers and the controller ports.
pub open spec fn read_is_pure(addr: u16) -> bool {
    if addr < PPU_REG_BASE_ADDR {
        true
    } else if addr < APU_IO_REG_BASE_ADDR {
        &&& ppu_reg_index_spec(addr) != PPU_STATUS_OFFSET
        &&& ppu_reg_index_spec(addr) != PPU_OAMDATA_OFFSET
        &&& ppu_reg_index_spec(addr) != PPU_DATA_OFFSET
    } else if addr < ROM_BASE_ADDR {
        &&& io_reg_index_spec(addr) != 0x16
        &&& io_reg_index_spec(addr) != 0x17
    } else {
        true
    }
}

/// Two bus states that agree on every component.
pub open spec fn sys_eq(a: System, b: System) -> bool {
    &&& sys_mem_unchanged(a, b)
    &&& sys_latches_unchanged(a, b)
    &&& b.ppu_reg@ == a.ppu_reg@
}

} // verus!
