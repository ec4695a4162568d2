//! Cartridge store: parses the fixed 16-byte cartridge header, holds the
//! program and graphics memory regions and the battery-backed RAM, and maps
//! bus addresses into them. Program reads mirror into the lower half when
//! the cartridge's actual program size is smaller than the 32KB window.

use vstd::prelude::*;

use crate::zero_filled;

verus! {

pub const PRG_ROM_MAX_SIZE: usize = 0x8000;
pub const CHR_ROM_MAX_SIZE: usize = 0x2000;
pub const BATTERY_PACKED_RAM_MAX_SIZE: usize = 0x2000;

pub const PRG_ROM_SYSTEM_BASE_ADDR: u16 = 0x8000;
pub const BATTERY_PACKED_RAM_BASE_ADDR: u16 = 0x6000;

pub const INES_TRAINER_DATA_SIZE: usize = 0x0200;

#[derive(Copy, Clone, PartialEq, Eq, Structural, Debug)]
pub enum Mapper {
    Unknown,
    Nrom,
}

/// The nametable mirroring arrangement the cartridge declares.
#[derive(Copy, Clone, PartialEq, Eq, Structural, Debug)]
pub enum MirrorTable {
    Unknown,
    Horizontal,
    Vertical,
    SingleScreen,
    FourScreen,
}

pub struct Rom {
    pub mapper: Mapper,
    pub mirror_table: MirrorTable,
    /// Whether the cartridge declares battery-backed RAM.
    pub sram: bool,
    /// How many bytes of the 32KB program window the cartridge fills.
    pub p_rom_bytes: usize,
    /// How many bytes of the 8KB graphics window the cartridge fills.
    pub c_rom_bytes: usize,
    pub p_rom: Vec<u8>,
    pub c_rom: Vec<u8>,
    pub srambytes: Vec<u8>,
}

/// The cartridge store's invariant: the three regions keep their
/// architecturally fixed sizes and the fill counts stay within them.
pub open spec fn rom_wf(rom: Rom) -> bool {
    &&& rom.p_rom@.len() == PRG_ROM_MAX_SIZE
    &&& rom.c_rom@.len() == CHR_ROM_MAX_SIZE
    &&& rom.srambytes@.len() == BATTERY_PACKED_RAM_MAX_SIZE
    &&& rom.p_rom_bytes <= PRG_ROM_MAX_SIZE
    &&& rom.c_rom_bytes <= CHR_ROM_MAX_SIZE
}

/// The first four bytes of a valid cartridge image.
pub open spec fn ines_magic_ok(d: Seq<u8>) -> bool {
    &&& d.len() >= 16
    &&& d[0] == 0x4eu8
    &&& d[1] == 0x45u8
    &&& d[2] == 0x53u8
    &&& d[3] == 0x1au8
}

/// Program size in bytes declared by the header (16KB units).
pub open spec fn ines_prg_bytes(d: Seq<u8>) -> int {
    d[4] * 0x4000
}

/// Graphics size in bytes declared by the header (8KB units).
pub open spec fn ines_chr_bytes(d: Seq<u8>) -> int {
    d[5] * 0x2000
}

/// Whether the header declares an (ignored) 512-byte trainer block
/// between the header and the program data.
pub open spec fn ines_has_trainer(d: Seq<u8>) -> bool {
    d[6] & 0x04 == 0x04
}

/// Offset of the program data within the image.
pub open spec fn ines_prg_base(d: Seq<u8>) -> int {
    16 + if ines_has_trainer(d) { 0x0200int } else { 0 }
}

/// Offset of the graphics data within the image.
pub open spec fn ines_chr_base(d: Seq<u8>) -> int {
    ines_prg_base(d) + ines_prg_bytes(d)
}

/// Exactly the images the loader accepts: magic intact, at least one
/// program bank, both declared sizes within the fixed windows, and the
/// image long enough to hold everything it declares.
pub open spec fn load_accepts(d: Seq<u8>) -> bool {
    &&& ines_magic_ok(d)
    &&& ines_prg_bytes(d) >= 0x4000
    &&& ines_prg_bytes(d) <= PRG_ROM_MAX_SIZE
    &&& ines_chr_bytes(d) <= CHR_ROM_MAX_SIZE
    &&& d.len() >= ines_chr_base(d) + ines_chr_bytes(d)
}

/// Where a cartridge-region read of `addr` lands and what it returns:
/// below the program window the battery RAM (aliased across the space
/// below it), in the program window the program memory, mirrored into
/// its filled prefix.
pub open spec fn rom_read_spec(rom: Rom, addr: u16) -> u8 {
    if addr < PRG_ROM_SYSTEM_BASE_ADDR {
        rom.srambytes@[addr as int % BATTERY_PACKED_RAM_MAX_SIZE as int]
    } else {
        let index = addr - PRG_ROM_SYSTEM_BASE_ADDR;
        if index < rom.p_rom_bytes {
            rom.p_rom@[index as int]
        } else {
            rom.p_rom@[index - rom.p_rom_bytes]
        }
    }
}

impl Rom {
    pub fn default() -> (result: Self)
        ensures
            result.mapper == Mapper::Unknown,
            result.mirror_table == MirrorTable::Unknown,
            !result.sram,
            result.p_rom_bytes == 0,
            result.c_rom_bytes == 0,
            forall|i: int| 0 <= i < PRG_ROM_MAX_SIZE ==> result.p_rom@[i] == 0u8,
            forall|i: int| 0 <= i < CHR_ROM_MAX_SIZE ==> result.c_rom@[i] == 0u8,
            forall|i: int| 0 <= i < BATTERY_PACKED_RAM_MAX_SIZE ==> result.srambytes@[i] == 0u8,
            rom_wf(result),
    {
        Self {
            mapper: Mapper::Unknown,
            mirror_table: MirrorTable::Unknown,
            sram: false,
            p_rom_bytes: 0,
            c_rom_bytes: 0,
            p_rom: zero_filled(PRG_ROM_MAX_SIZE),
            c_rom: zero_filled(CHR_ROM_MAX_SIZE),
            srambytes: zero_filled(BATTERY_PACKED_RAM_MAX_SIZE),
        }
    }

    /// Parses a cartridge image. On success the header fields are taken
    /// over and the program and graphics data are copied into their
    /// windows; an image that fails validation leaves the store exactly
    /// as it was.
    pub fn load_bin(&mut self, data: &[u8]) -> (result: bool)
        requires
            rom_wf(*old(self)),
        ensures
            result == load_accepts(data@),
            rom_wf(*final(self)),
            !result ==> *final(self) == *old(self),
            result ==> {
                &&& final(self).mapper == Mapper::Nrom
                &&& final(self).mirror_table == (if data@[6] & 0x01 == 0x01 {
                    MirrorTable::Vertical
                } else {
                    MirrorTable::Horizontal
                })
                &&& final(self).sram == (data@[6] & 0x02 == 0x02)
                &&& final(self).p_rom_bytes == ines_prg_bytes(data@)
                &&& final(self).c_rom_bytes == ines_chr_bytes(data@)
                &&& forall|i: int|
                    0 <= i < ines_prg_bytes(data@) ==> final(self).p_rom@[i] == data@[ines_prg_base(
                        data@,
                    ) + i]
                &&& forall|i: int|
                    ines_prg_bytes(data@) <= i < PRG_ROM_MAX_SIZE ==> final(self).p_rom@[i] == old(self).p_rom@[i]
                &&& forall|i: int|
                    0 <= i < ines_chr_bytes(data@) ==> final(self).c_rom@[i] == data@[ines_chr_base(
                        data@,
                    ) + i]
                &&& forall|i: int|
                    ines_chr_bytes(data@) <= i < CHR_ROM_MAX_SIZE ==> final(self).c_rom@[i] == old(self).c_rom@[i]
                &&& final(self).srambytes@ == old(self).srambytes@
            },
    {
        if data.len() < 16 {
            return false;
        }
        if data[0] != 0x4e {
            return false;
        }
        if data[1] != 0x45 {
            return false;
        }
        if data[2] != 0x53 {
            return false;
        }
        if data[3] != 0x1a {
            return false;
        }
        let p_rom_sz = usize::from(data[4]);
        let c_rom_sz = usize::from(data[5]);
        let flags6 = data[6];
        let prg_rom_bytes = p_rom_sz * 0x4000;
        let chr_rom_bytes = c_rom_sz * 0x2000;
        if prg_rom_bytes < 0x4000 || prg_rom_bytes > PRG_ROM_MAX_SIZE {
            return false;
        }
        if chr_rom_bytes > CHR_ROM_MAX_SIZE {
            return false;
        }
        let trainer_exists = (flags6 & 0x04) == 0x04;
        let trainer_bytes: usize = if trainer_exists {
            INES_TRAINER_DATA_SIZE
        } else {
            0
        };
        let prg_rom_baseaddr = 16 + trainer_bytes;
        let chr_rom_baseaddr = prg_rom_baseaddr + prg_rom_bytes;
        if data.len() < chr_rom_baseaddr + chr_rom_bytes {
            return false;
        }

        let is_vert_m = (flags6 & 0x01) == 0x01;
        if is_vert_m {
            self.mirror_table = MirrorTable::Vertical;
        } else {
            self.mirror_table = MirrorTable::Horizontal;
        }
        self.sram = (flags6 & 0x02) == 0x02;
        self.mapper = Mapper::Nrom;

        let mut i: usize = 0;
        while i < prg_rom_bytes
            invariant
                i <= prg_rom_bytes,
                prg_rom_bytes == ines_prg_bytes(data@),
                prg_rom_baseaddr == ines_prg_base(data@),
                data@.len() >= prg_rom_baseaddr + prg_rom_bytes,
                prg_rom_bytes <= PRG_ROM_MAX_SIZE,
                self.p_rom@.len() == PRG_ROM_MAX_SIZE,
                forall|j: int| 0 <= j < i ==> self.p_rom@[j] == data@[prg_rom_baseaddr + j],
                forall|j: int|
                    i <= j < PRG_ROM_MAX_SIZE ==> self.p_rom@[j] == old(self).p_rom@[j],
                self.mapper == Mapper::Nrom,
                self.mirror_table == (if data@[6] & 0x01 == 0x01 {
                    MirrorTable::Vertical
                } else {
                    MirrorTable::Horizontal
                }),
                self.sram == (data@[6] & 0x02 == 0x02),
                self.c_rom@ == old(self).c_rom@,
                self.srambytes@ == old(self).srambytes@,
                self.p_rom_bytes == old(self).p_rom_bytes,
                self.c_rom_bytes == old(self).c_rom_bytes,
            decreases prg_rom_bytes - i,
        {
            self.p_rom[i] = data[prg_rom_baseaddr + i];
            i = i + 1;
        }

        let mut i: usize = 0;
        while i < chr_rom_bytes
            invariant
                i <= chr_rom_bytes,
                prg_rom_bytes == ines_prg_bytes(data@),
                chr_rom_bytes == ines_chr_bytes(data@),
                chr_rom_baseaddr == ines_chr_base(data@),
                data@.len() >= chr_rom_baseaddr + chr_rom_bytes,
                chr_rom_bytes <= CHR_ROM_MAX_SIZE,
                self.c_rom@.len() == CHR_ROM_MAX_SIZE,
                forall|j: int| 0 <= j < i ==> self.c_rom@[j] == data@[chr_rom_baseaddr + j],
                forall|j: int|
                    i <= j < CHR_ROM_MAX_SIZE ==> self.c_rom@[j] == old(self).c_rom@[j],
                self.mapper == Mapper::Nrom,
                self.mirror_table == (if data@[6] & 0x01 == 0x01 {
                    MirrorTable::Vertical
                } else {
                    MirrorTable::Horizontal
                }),
                self.sram == (data@[6] & 0x02 == 0x02),
                self.p_rom@.len() == PRG_ROM_MAX_SIZE,
                forall|j: int|
                    0 <= j < prg_rom_bytes ==> self.p_rom@[j] == data@[ines_prg_base(data@) + j],
                forall|j: int|
                    prg_rom_bytes <= j < PRG_ROM_MAX_SIZE ==> self.p_rom@[j] == old(self).p_rom@[j],
                self.srambytes@ == old(self).srambytes@,
                self.p_rom_bytes == old(self).p_rom_bytes,
                self.c_rom_bytes == old(self).c_rom_bytes,
            decreases chr_rom_bytes - i,
        {
            self.c_rom[i] = data[chr_rom_baseaddr + i];
            i = i + 1;
        }

        self.p_rom_bytes = prg_rom_bytes;
        self.c_rom_bytes = chr_rom_bytes;

        true
    }

    /// A cartridge-region read: battery RAM below the program window,
    /// program memory (mirrored into its filled prefix) at and above it.
    pub fn read_u8(&self, addr: u16, _is_nondestructive: bool) -> (result: u8)
        requires
            rom_wf(*self),
        ensures
            result == rom_read_spec(*self, addr),
    {
        if addr < PRG_ROM_SYSTEM_BASE_ADDR {
            let index = usize::from(addr) % BATTERY_PACKED_RAM_MAX_SIZE;
            self.srambytes[index]
        } else {
            let index = usize::from(addr - PRG_ROM_SYSTEM_BASE_ADDR);
            if index < self.p_rom_bytes {
                self.p_rom[index]
            } else {
                self.p_rom[index - self.p_rom_bytes]
            }
        }
    }

    /// A cartridge-region write, to the same cell the matching read uses.
    pub fn write_u8(&mut self, addr: u16, data: u8, _is_nondestructive: bool)
        requires
            rom_wf(*old(self)),
        ensures
            rom_wf(*final(self)),
            addr < PRG_ROM_SYSTEM_BASE_ADDR ==> {
                &&& final(self).srambytes@ == old(self).srambytes@.update(
                    addr as int % BATTERY_PACKED_RAM_MAX_SIZE as int,
                    data,
                )
                &&& final(self).p_rom@ == old(self).p_rom@
            },
            addr >= PRG_ROM_SYSTEM_BASE_ADDR ==> {
                &&& final(self).srambytes@ == old(self).srambytes@
                &&& final(self).p_rom@ == old(self).p_rom@.update(
                    if addr - PRG_ROM_SYSTEM_BASE_ADDR < old(self).p_rom_bytes {
                        addr - PRG_ROM_SYSTEM_BASE_ADDR
                    } else {
                        addr - PRG_ROM_SYSTEM_BASE_ADDR - old(self).p_rom_bytes
                    },
                    data,
                )
            },
            final(self).c_rom@ == old(self).c_rom@,
            final(self).mapper == old(self).mapper,
            final(self).mirror_table == old(self).mirror_table,
            final(self).sram == old(self).sram,
            final(self).p_rom_bytes == old(self).p_rom_bytes,
            final(self).c_rom_bytes == old(self).c_rom_bytes,
    {
        if addr < PRG_ROM_SYSTEM_BASE_ADDR {
            let index = usize::from(addr) % BATTERY_PACKED_RAM_MAX_SIZE;
            self.srambytes[index] = data;
        } else {
            let index = usize::from(addr - PRG_ROM_SYSTEM_BASE_ADDR);
            if index < self.p_rom_bytes {
                self.p_rom[index] = data;
            } else {
                let mirrored = index - self.p_rom_bytes;
                self.p_rom[mirrored] = data;
            }
        }
    }

    /// A graphics-memory read, used by the video address space below the
    /// nametable region.
    pub fn read_video_u8(&self, addr: u16) -> (result: u8)
        requires
            rom_wf(*self),
            addr < CHR_ROM_MAX_SIZE,
        ensures
            result == self.c_rom@[addr as int],
    {
        self.c_rom[usize::from(addr)]
    }

    /// A graphics-memory write.
    pub fn write_video_u8(&mut self, addr: u16, data: u8)
        requires
            rom_wf(*old(self)),
            addr < CHR_ROM_MAX_SIZE,
        ensures
            rom_wf(*final(self)),
            final(self).c_rom@ == old(self).c_rom@.update(addr as int, data),
            final(self).p_rom@ == old(self).p_rom@,
            final(self).srambytes@ == old(self).srambytes@,
            final(self).mapper == old(self).mapper,
            final(self).mirror_table == old(self).mirror_table,
            final(self).sram == old(self).sram,
            final(self).p_rom_bytes == old(self).p_rom_bytes,
            final(self).c_rom_bytes == old(self).c_rom_bytes,
    {
        self.c_rom[usize::from(addr)] = data;
    }

    /// Returns the store to its power-on state.
    pub fn reset(&mut self)
        ensures
            final(self).mapper == Mapper::Unknown,
            final(self).mirror_table == MirrorTable::Unknown,
            !final(self).sram,
            final(self).p_rom_bytes == 0,
            final(self).c_rom_bytes == 0,
            forall|i: int| 0 <= i < PRG_ROM_MAX_SIZE ==> final(self).p_rom@[i] == 0u8,
            forall|i: int| 0 <= i < CHR_ROM_MAX_SIZE ==> final(self).c_rom@[i] == 0u8,
            forall|i: int|
                0 <= i < BATTERY_PACKED_RAM_MAX_SIZE ==> final(self).srambytes@[i] == 0u8,
            rom_wf(*final(self)),
    {
        self.mapper = Mapper::Unknown;
        self.mirror_table = MirrorTable::Unknown;
        self.sram = false;
        self.p_rom_bytes = 0;
        self.c_rom_bytes = 0;
        self.p_rom = zero_filled(PRG_ROM_MAX_SIZE);
        self.c_rom = zero_filled(CHR_ROM_MAX_SIZE);
        self.srambytes = zero_filled(BATTERY_PACKED_RAM_MAX_SIZE);
    }
}

} // verus!
