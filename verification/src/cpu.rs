//! The CPU: a 6502-style register file, bit-exact status-flag arithmetic,
//! the fixed-page stack, the four interrupt sequences, and the
//! fetch-decode-execute step over the full documented and undocumented
//! instruction set.

use vstd::prelude::*;

use crate::system::{
    System, sys_wf, sys_read_val, wram_index_spec, sys_latches_unchanged,
};
use crate::instruction::{AddressingMode, Opcode, Operand, Instruction, decode_spec};

verus! {

pub const CPU_FREQ: u32 = 1790000;
pub const NMI_READ_LOWER: u16 = 0xfffa;
pub const NMI_READ_UPPER: u16 = 0xfffb;
pub const RESET_READ_LOWER: u16 = 0xfffc;
pub const RESET_READ_UPPER: u16 = 0xfffd;
pub const IRQ_READ_LOWER: u16 = 0xfffe;
pub const IRQ_READ_UPPER: u16 = 0xffff;
pub const BRK_READ_LOWER: u16 = 0xfffe;
pub const BRK_READ_UPPER: u16 = 0xffff;

pub const FLAG_NEGATIVE: u8 = 0x80;
pub const FLAG_OVERFLOW: u8 = 0x40;
pub const FLAG_RESERVED: u8 = 0x20;
pub const FLAG_BREAK: u8 = 0x10;
pub const FLAG_DECIMAL: u8 = 0x08;
pub const FLAG_INTERRUPT: u8 = 0x04;
pub const FLAG_ZERO: u8 = 0x02;
pub const FLAG_CARRY: u8 = 0x01;

#[derive(Debug, Clone, PartialEq, Eq, Structural)]
pub struct Cpu {
    /// Program counter.
    pub pc: u16,
    /// Index registers.
    pub x: u8,
    pub y: u8,
    /// Accumulator.
    pub a: u8,
    /// Stack pointer: an offset into the fixed stack page.
    pub s: u16,
    /// Status register.
    pub p: u8,
}

#[derive(PartialEq, Eq, Copy, Clone, Structural, Debug)]
pub enum Interrupt {
    NMI,
    RESET,
    IRQ,
    BRK,
}

/// A status register with one flag bit forced on or off and every other
/// bit untouched.
pub open spec fn flag_set(p: u8, mask: u8, on: bool) -> u8 {
    if on {
        p | mask
    } else {
        p & !mask
    }
}

/// Whether a flag bit is set.
pub open spec fn flag_on(p: u8, mask: u8) -> bool {
    p & mask == mask
}

/// The CPU's invariant: the stack pointer stays inside its fixed page.
pub open spec fn cpu_wf(cpu: Cpu) -> bool {
    cpu.s & 0xff00 == 0x0100
}

/// The stack pointer after a push: decremented, wrapping within its page.
pub open spec fn stack_dec(s: u16) -> u16 {
    (s & 0xff00) | (if s & 0xff == 0 {
        0xffu16
    } else {
        ((s & 0xff) - 1) as u16
    })
}

/// The stack pointer after a pop: incremented, wrapping within its page.
pub open spec fn stack_inc(s: u16) -> u16 {
    (s & 0xff00) | (if s & 0xff == 0xff {
        0u16
    } else {
        ((s & 0xff) + 1) as u16
    })
}

/// A stack-page offset is always a work-RAM address below the mirror
/// window, and stepping the pointer stays in the page.
pub proof fn lemma_stack_page(s: u16)
    by (bit_vector)
    requires
        s & 0xff00 == 0x0100,
    ensures
        0x0100 <= s < 0x0200,
        stack_dec(s) & 0xff00 == 0x0100,
        stack_inc(s) & 0xff00 == 0x0100,
        0x0100 <= stack_dec(s) < 0x0200,
        0x0100 <= stack_inc(s) < 0x0200,
{
}

impl Cpu {
    pub fn new() -> (result: Cpu)
        ensures
            result.pc == 0 && result.x == 0 && result.y == 0 && result.a == 0 && result.s == 0
                && result.p == 0,
    {
        Cpu { pc: 0, x: 0, y: 0, a: 0, s: 0, p: 0 }
    }

    /// Advances the program counter, wrapping around the address space.
    pub fn increment(&mut self, incr: u16)
        ensures
            final(self).pc == wrap16(old(self).pc, incr),
            final(self).x == old(self).x && final(self).y == old(self).y && final(self).a == old(
                self,
            ).a && final(self).s == old(self).s && final(self).p == old(self).p,
    {
        self.pc = self.pc.wrapping_add(incr);
    }

    /// The fixed power-on state: registers clear, stack pointer at
    /// 0x01fd, status 0x34.
    pub fn reset(&mut self)
        ensures
            final(self).a == 0 && final(self).x == 0 && final(self).y == 0,
            final(self).pc == 0,
            final(self).s == 0x01fd,
            final(self).p == 0x34,
            cpu_wf(*final(self)),
    {
        self.a = 0;
        self.x = 0;
        self.y = 0;
        self.pc = 0;
        self.s = 0x01fd;
        self.p = 0x34;
        proof {
            assert(0x01fdu16 & 0xff00 == 0x0100) by (bit_vector);
        }
    }

    /// Debug view of an 8-bit register by index; an unknown index
    /// returns the fixed marker value.
    pub fn regstat(&self, reg: u8) -> (result: u8)
        ensures
            result == if reg == 0 {
                self.x
            } else if reg == 1 {
                self.y
            } else if reg == 2 {
                self.a
            } else {
                254u8
            },
    {
        if reg == 0 {
            self.x
        } else if reg == 1 {
            self.y
        } else if reg == 2 {
            self.a
        } else {
            254
        }
    }

    /// Debug view of a 16-bit register by index; an unknown index
    /// returns the fixed marker value.
    pub fn regstat16(&self, reg: u8) -> (result: u16)
        ensures
            result == if reg == 0 {
                self.pc
            } else if reg == 1 {
                self.s
            } else {
                404u16
            },
    {
        if reg == 0 {
            self.pc
        } else if reg == 1 {
            self.s
        } else {
            404
        }
    }
}

/// 16-bit wrapping addition, the form the program counter moves in.
pub open spec fn wrap16(a: u16, b: u16) -> u16 {
    vstd::wrapping::u16_specs::wrapping_add(a, b)
}

// Flag writes: each touches exactly its own bit.
impl Cpu {
    pub fn write_negative_flag(&mut self, is_active: bool)
        ensures
            final(self).p == flag_set(old(self).p, FLAG_NEGATIVE, is_active),
            final(self).pc == old(self).pc && final(self).x == old(self).x && final(self).y == old(
                self,
            ).y && final(self).a == old(self).a && final(self).s == old(self).s,
    {
        if is_active {
            self.p = self.p | 0x80u8;
        } else {
            self.p = self.p & (!0x80u8);
        }
    }

    pub fn write_overflow_flag(&mut self, is_active: bool)
        ensures
            final(self).p == flag_set(old(self).p, FLAG_OVERFLOW, is_active),
            final(self).pc == old(self).pc && final(self).x == old(self).x && final(self).y == old(
                self,
            ).y && final(self).a == old(self).a && final(self).s == old(self).s,
    {
        if is_active {
            self.p = self.p | 0x40u8;
        } else {
            self.p = self.p & (!0x40u8);
        }
    }

    pub fn write_reserved_flag(&mut self, is_active: bool)
        ensures
            final(self).p == flag_set(old(self).p, FLAG_RESERVED, is_active),
            final(self).pc == old(self).pc && final(self).x == old(self).x && final(self).y == old(
                self,
            ).y && final(self).a == old(self).a && final(self).s == old(self).s,
    {
        if is_active {
            self.p = self.p | 0x20u8;
        } else {
            self.p = self.p & (!0x20u8);
        }
    }

    pub fn write_break_flag(&mut self, is_active: bool)
        ensures
            final(self).p == flag_set(old(self).p, FLAG_BREAK, is_active),
            final(self).pc == old(self).pc && final(self).x == old(self).x && final(self).y == old(
                self,
            ).y && final(self).a == old(self).a && final(self).s == old(self).s,
    {
        if is_active {
            self.p = self.p | 0x10u8;
        } else {
            self.p = self.p & (!0x10u8);
        }
    }

    pub fn write_decimal_flag(&mut self, is_active: bool)
        ensures
            final(self).p == flag_set(old(self).p, FLAG_DECIMAL, is_active),
            final(self).pc == old(self).pc && final(self).x == old(self).x && final(self).y == old(
                self,
            ).y && final(self).a == old(self).a && final(self).s == old(self).s,
    {
        if is_active {
            self.p = self.p | 0x08u8;
        } else {
            self.p = self.p & (!0x08u8);
        }
    }

    pub fn write_interrupt_flag(&mut self, is_active: bool)
        ensures
            final(self).p == flag_set(old(self).p, FLAG_INTERRUPT, is_active),
            final(self).pc == old(self).pc && final(self).x == old(self).x && final(self).y == old(
                self,
            ).y && final(self).a == old(self).a && final(self).s == old(self).s,
    {
        if is_active {
            self.p = self.p | 0x04u8;
        } else {
            self.p = self.p & (!0x04u8);
        }
    }

    pub fn write_zero_flag(&mut self, is_active: bool)
        ensures
            final(self).p == flag_set(old(self).p, FLAG_ZERO, is_active),
            final(self).pc == old(self).pc && final(self).x == old(self).x && final(self).y == old(
                self,
            ).y && final(self).a == old(self).a && final(self).s == old(self).s,
    {
        if is_active {
            self.p = self.p | 0x02u8;
        } else {
            self.p = self.p & (!0x02u8);
        }
    }

    pub fn write_carry_flag(&mut self, is_active: bool)
        ensures
            final(self).p == flag_set(old(self).p, FLAG_CARRY, is_active),
            final(self).pc == old(self).pc && final(self).x == old(self).x && final(self).y == old(
                self,
            ).y && final(self).a == old(self).a && final(self).s == old(self).s,
    {
        if is_active {
            self.p = self.p | 0x01u8;
        } else {
            self.p = self.p & (!0x01u8);
        }
    }

    pub fn read_negative_flag(&self) -> (result: bool)
        ensures
            result == flag_on(self.p, FLAG_NEGATIVE),
    {
        (self.p & 0x80u8) == 0x80u8
    }

    pub fn read_overflow_flag(&self) -> (result: bool)
        ensures
            result == flag_on(self.p, FLAG_OVERFLOW),
    {
        (self.p & 0x40u8) == 0x40u8
    }

    pub fn read_reserved_flag(&self) -> (result: bool)
        ensures
            result == flag_on(self.p, FLAG_RESERVED),
    {
        (self.p & 0x20u8) == 0x20u8
    }

    pub fn read_break_flag(&self) -> (result: bool)
        ensures
            result == flag_on(self.p, FLAG_BREAK),
    {
        (self.p & 0x10u8) == 0x10u8
    }

    pub fn read_decimal_flag(&self) -> (result: bool)
        ensures
            result == flag_on(self.p, FLAG_DECIMAL),
    {
        (self.p & 0x08u8) == 0x08u8
    }

    pub fn read_interrupt_flag(&self) -> (result: bool)
        ensures
            result == flag_on(self.p, FLAG_INTERRUPT),
    {
        (self.p & 0x04u8) == 0x04u8
    }

    pub fn read_zero_flag(&self) -> (result: bool)
        ensures
            result == flag_on(self.p, FLAG_ZERO),
    {
        (self.p & 0x02u8) == 0x02u8
    }

    pub fn read_carry_flag(&self) -> (result: bool)
        ensures
            result == flag_on(self.p, FLAG_CARRY),
    {
        (self.p & 0x01u8) == 0x01u8
    }
}

// The stack: push writes at the pointer then decrements; pop increments
// then reads. Both wrap within the fixed stack page, which lies in work
// RAM, so a push lands in the cell the matching pop reads.
impl Cpu {
    pub fn stack_push(&mut self, system: &mut System, data: u8)
        requires
            cpu_wf(*old(self)),
            sys_wf(*old(system)),
        ensures
            cpu_wf(*final(self)),
            sys_wf(*final(system)),
            final(self).s == stack_dec(old(self).s),
            final(self).pc == old(self).pc && final(self).x == old(self).x && final(self).y == old(
                self,
            ).y && final(self).a == old(self).a && final(self).p == old(self).p,
            final(system).wram@ == old(system).wram@.update(old(self).s as int, data),
            final(system).ppu_reg@ == old(system).ppu_reg@,
            final(system).io_reg@ == old(system).io_reg@,
            final(system).rom == old(system).rom,
            final(system).video == old(system).video,
            final(system).pad1 == old(system).pad1,
            final(system).pad2 == old(system).pad2,
            sys_latches_unchanged(*old(system), *final(system)),
    {
        proof {
            lemma_stack_page(old(self).s);
        }
        system.write_u8(self.s, data, false);
        let low = self.s & 0xff;
        let new_low: u16 = if low == 0 {
            0xff
        } else {
            low - 1
        };
        self.s = (self.s & 0xff00) | new_low;
        proof {
            lemma_stack_page(old(self).s);
            assert(wram_index_spec(old(self).s) == old(self).s as int);
        }
    }

    pub fn stack_pop(&mut self, system: &mut System) -> (result: u8)
        requires
            cpu_wf(*old(self)),
            sys_wf(*old(system)),
        ensures
            cpu_wf(*final(self)),
            sys_wf(*final(system)),
            final(self).s == stack_inc(old(self).s),
            result == old(system).wram@[stack_inc(old(self).s) as int],
            final(self).pc == old(self).pc && final(self).x == old(self).x && final(self).y == old(
                self,
            ).y && final(self).a == old(self).a && final(self).p == old(self).p,
            final(system).wram@ == old(system).wram@,
            final(system).ppu_reg@ == old(system).ppu_reg@,
            final(system).io_reg@ == old(system).io_reg@,
            final(system).rom == old(system).rom,
            final(system).video == old(system).video,
            final(system).pad1 == old(system).pad1,
            final(system).pad2 == old(system).pad2,
            sys_latches_unchanged(*old(system), *final(system)),
    {
        proof {
            lemma_stack_page(old(self).s);
        }
        let low = self.s & 0xff;
        proof {
            let s_now = self.s;
            assert(s_now & 0xff < 0x100) by (bit_vector);
        }
        let new_low: u16 = if low == 0xff {
            0
        } else {
            low + 1
        };
        self.s = (self.s & 0xff00) | new_low;
        proof {
            lemma_stack_page(old(self).s);
            assert(wram_index_spec(stack_inc(old(self).s)) == stack_inc(old(self).s) as int);
        }
        system.read_u8(self.s, false)
    }
}

// Composition facts for the status register: writing the zero and
// negative flags (and optionally carry and overflow) sets exactly those
// bits and leaves every other bit alone.
pub proof fn lemma_flags_zn(p: u8, z: bool, n: bool)
    by (bit_vector)
    ensures
        flag_on(flag_set(flag_set(p, 0x02, z), 0x80, n), 0x02) == z,
        flag_on(flag_set(flag_set(p, 0x02, z), 0x80, n), 0x80) == n,
        flag_on(flag_set(flag_set(p, 0x02, z), 0x80, n), 0x01) == flag_on(p, 0x01),
        flag_on(flag_set(flag_set(p, 0x02, z), 0x80, n), 0x04) == flag_on(p, 0x04),
        flag_on(flag_set(flag_set(p, 0x02, z), 0x80, n), 0x08) == flag_on(p, 0x08),
        flag_on(flag_set(flag_set(p, 0x02, z), 0x80, n), 0x10) == flag_on(p, 0x10),
        flag_on(flag_set(flag_set(p, 0x02, z), 0x80, n), 0x20) == flag_on(p, 0x20),
        flag_on(flag_set(flag_set(p, 0x02, z), 0x80, n), 0x40) == flag_on(p, 0x40),
{
}

pub proof fn lemma_flags_znc(p: u8, z: bool, n: bool, c: bool)
    by (bit_vector)
    ensures
        flag_on(flag_set(flag_set(flag_set(p, 0x02, z), 0x80, n), 0x01, c), 0x02) == z,
        flag_on(flag_set(flag_set(flag_set(p, 0x02, z), 0x80, n), 0x01, c), 0x80) == n,
        flag_on(flag_set(flag_set(flag_set(p, 0x02, z), 0x80, n), 0x01, c), 0x01) == c,
        flag_on(flag_set(flag_set(flag_set(p, 0x02, z), 0x80, n), 0x01, c), 0x04) == flag_on(
            p,
            0x04,
        ),
        flag_on(flag_set(flag_set(flag_set(p, 0x02, z), 0x80, n), 0x01, c), 0x08) == flag_on(
            p,
            0x08,
        ),
        flag_on(flag_set(flag_set(flag_set(p, 0x02, z), 0x80, n), 0x01, c), 0x10) == flag_on(
            p,
            0x10,
        ),
        flag_on(flag_set(flag_set(flag_set(p, 0x02, z), 0x80, n), 0x01, c), 0x20) == flag_on(
            p,
            0x20,
        ),
        flag_on(flag_set(flag_set(flag_set(p, 0x02, z), 0x80, n), 0x01, c), 0x40) == flag_on(
            p,
            0x40,
        ),
{
}

pub proof fn lemma_flags_zncv(p: u8, z: bool, n: bool, c: bool, v: bool)
    by (bit_vector)
    ensures
        flag_on(flag_set(flag_set(flag_set(flag_set(p, 0x02, z), 0x80, n), 0x01, c), 0x40, v), 0x02)
            == z,
        flag_on(flag_set(flag_set(flag_set(flag_set(p, 0x02, z), 0x80, n), 0x01, c), 0x40, v), 0x80)
            == n,
        flag_on(flag_set(flag_set(flag_set(flag_set(p, 0x02, z), 0x80, n), 0x01, c), 0x40, v), 0x01)
            == c,
        flag_on(flag_set(flag_set(flag_set(flag_set(p, 0x02, z), 0x80, n), 0x01, c), 0x40, v), 0x40)
            == v,
        flag_on(flag_set(flag_set(flag_set(flag_set(p, 0x02, z), 0x80, n), 0x01, c), 0x40, v), 0x04)
            == flag_on(p, 0x04),
        flag_on(flag_set(flag_set(flag_set(flag_set(p, 0x02, z), 0x80, n), 0x01, c), 0x40, v), 0x08)
            == flag_on(p, 0x08),
        flag_on(flag_set(flag_set(flag_set(flag_set(p, 0x02, z), 0x80, n), 0x01, c), 0x40, v), 0x10)
            == flag_on(p, 0x10),
        flag_on(flag_set(flag_set(flag_set(flag_set(p, 0x02, z), 0x80, n), 0x01, c), 0x40, v), 0x20)
            == flag_on(p, 0x20),
{
}

pub proof fn lemma_flags_znv(p: u8, z: bool, n: bool, v: bool)
    by (bit_vector)
    ensures
        flag_on(flag_set(flag_set(flag_set(p, 0x02, z), 0x80, n), 0x40, v), 0x02) == z,
        flag_on(flag_set(flag_set(flag_set(p, 0x02, z), 0x80, n), 0x40, v), 0x80) == n,
        flag_on(flag_set(flag_set(flag_set(p, 0x02, z), 0x80, n), 0x40, v), 0x40) == v,
        flag_on(flag_set(flag_set(flag_set(p, 0x02, z), 0x80, n), 0x40, v), 0x01) == flag_on(
            p,
            0x01,
        ),
        flag_on(flag_set(flag_set(flag_set(p, 0x02, z), 0x80, n), 0x40, v), 0x04) == flag_on(
            p,
            0x04,
        ),
        flag_on(flag_set(flag_set(flag_set(p, 0x02, z), 0x80, n), 0x40, v), 0x08) == flag_on(
            p,
            0x08,
        ),
        flag_on(flag_set(flag_set(flag_set(p, 0x02, z), 0x80, n), 0x40, v), 0x10) == flag_on(
            p,
            0x10,
        ),
        flag_on(flag_set(flag_set(flag_set(p, 0x02, z), 0x80, n), 0x40, v), 0x20) == flag_on(
            p,
            0x20,
        ),
{
}

/// The low byte of a 16-bit value is the value modulo 256.
pub proof fn lemma_u16_low_byte(t: u16)
    by (bit_vector)
    ensures
        (t & 0xff) < 0x100,
        (t & 0xff) as int == t as int % 256,
{
}

/// 8-bit wrapping addition and subtraction, the forms the arithmetic
/// instructions wrap in.
pub open spec fn wrap8(a: u8, b: u8) -> u8 {
    vstd::wrapping::u8_specs::wrapping_add(a, b)
}

pub open spec fn wsub8(a: u8, b: u8) -> u8 {
    vstd::wrapping::u8_specs::wrapping_sub(a, b)
}

/// Add-with-carry: the accumulator result, its carry-out, and the signed
/// overflow rule (sign mismatch between both inputs and the result).
pub open spec fn adc_result(a: u8, b: u8, carry_in: bool) -> u8 {
    ((a + b + if carry_in {
        1int
    } else {
        0int
    }) % 256) as u8
}

pub open spec fn adc_carry(a: u8, b: u8, carry_in: bool) -> bool {
    a + b + (if carry_in {
        1int
    } else {
        0int
    }) > 255
}

pub open spec fn adc_overflow(a: u8, b: u8, r: u8) -> bool {
    (a ^ r) & (b ^ r) & 0x80 == 0x80
}

/// Subtract-with-carry: a clear carry flag borrows one more.
pub open spec fn sbc_result(a: u8, b: u8, carry_in: bool) -> u8 {
    wsub8(wsub8(a, b), if carry_in {
        0u8
    } else {
        1u8
    })
}

pub open spec fn sbc_carry(a: u8, b: u8, carry_in: bool) -> bool {
    !(a < b || wsub8(a, b) < (if carry_in {
        0u8
    } else {
        1u8
    }))
}

pub open spec fn sbc_overflow(a: u8, b: u8, r: u8) -> bool {
    ((a ^ b) & 0x80 == 0x80) && ((a ^ r) & 0x80 == 0x80)
}

/// Round-trip law for the carry chain: adding `b` with the carry clear
/// and then subtracting `b` with the carry set (no borrow) returns the
/// original accumulator, whenever the addition does not carry out.
pub proof fn lemma_adc_sbc_round_trip(a: u8, b: u8)
    requires
        a + b <= 255,
    ensures
        sbc_result(adc_result(a, b, false), b, true) == a,
{
}

// The per-operation register updates. Each carries the flag-update law:
// the zero flag is set exactly when the result byte is zero, the negative
// flag exactly when bit 7 of the result is set, and untouched flags keep
// their values. The step function feeds these the operand fetched by any
// addressing mode, so the laws hold independent of the mode.
impl Cpu {
    /// Sets the zero and negative flags from a result byte.
    pub fn update_zero_negative(&mut self, value: u8)
        ensures
            flag_on(final(self).p, FLAG_ZERO) == (value == 0),
            flag_on(final(self).p, FLAG_NEGATIVE) == (value & 0x80 == 0x80),
            flag_on(final(self).p, FLAG_CARRY) == flag_on(old(self).p, FLAG_CARRY),
            flag_on(final(self).p, FLAG_OVERFLOW) == flag_on(old(self).p, FLAG_OVERFLOW),
            flag_on(final(self).p, FLAG_RESERVED) == flag_on(old(self).p, FLAG_RESERVED),
            flag_on(final(self).p, FLAG_BREAK) == flag_on(old(self).p, FLAG_BREAK),
            flag_on(final(self).p, FLAG_DECIMAL) == flag_on(old(self).p, FLAG_DECIMAL),
            flag_on(final(self).p, FLAG_INTERRUPT) == flag_on(old(self).p, FLAG_INTERRUPT),
            final(self).pc == old(self).pc && final(self).x == old(self).x && final(self).y == old(
                self,
            ).y && final(self).a == old(self).a && final(self).s == old(self).s,
    {
        self.write_zero_flag(value == 0);
        self.write_negative_flag((value & 0x80) == 0x80);
        proof {
            lemma_flags_zn(old(self).p, value == 0, value & 0x80 == 0x80);
        }
    }

    /// Sets zero, negative and carry.
    fn update_zero_negative_carry(&mut self, value: u8, carry: bool)
        ensures
            flag_on(final(self).p, FLAG_ZERO) == (value == 0),
            flag_on(final(self).p, FLAG_NEGATIVE) == (value & 0x80 == 0x80),
            flag_on(final(self).p, FLAG_CARRY) == carry,
            flag_on(final(self).p, FLAG_OVERFLOW) == flag_on(old(self).p, FLAG_OVERFLOW),
            flag_on(final(self).p, FLAG_RESERVED) == flag_on(old(self).p, FLAG_RESERVED),
            flag_on(final(self).p, FLAG_BREAK) == flag_on(old(self).p, FLAG_BREAK),
            flag_on(final(self).p, FLAG_DECIMAL) == flag_on(old(self).p, FLAG_DECIMAL),
            flag_on(final(self).p, FLAG_INTERRUPT) == flag_on(old(self).p, FLAG_INTERRUPT),
            final(self).pc == old(self).pc && final(self).x == old(self).x && final(self).y == old(
                self,
            ).y && final(self).a == old(self).a && final(self).s == old(self).s,
    {
        self.write_zero_flag(value == 0);
        self.write_negative_flag((value & 0x80) == 0x80);
        self.write_carry_flag(carry);
        proof {
            lemma_flags_znc(old(self).p, value == 0, value & 0x80 == 0x80, carry);
        }
    }

    /// Sets zero, negative, carry and overflow.
    fn update_zero_negative_carry_overflow(&mut self, value: u8, carry: bool, overflow: bool)
        ensures
            flag_on(final(self).p, FLAG_ZERO) == (value == 0),
            flag_on(final(self).p, FLAG_NEGATIVE) == (value & 0x80 == 0x80),
            flag_on(final(self).p, FLAG_CARRY) == carry,
            flag_on(final(self).p, FLAG_OVERFLOW) == overflow,
            flag_on(final(self).p, FLAG_RESERVED) == flag_on(old(self).p, FLAG_RESERVED),
            flag_on(final(self).p, FLAG_BREAK) == flag_on(old(self).p, FLAG_BREAK),
            flag_on(final(self).p, FLAG_DECIMAL) == flag_on(old(self).p, FLAG_DECIMAL),
            flag_on(final(self).p, FLAG_INTERRUPT) == flag_on(old(self).p, FLAG_INTERRUPT),
            final(self).pc == old(self).pc && final(self).x == old(self).x && final(self).y == old(
                self,
            ).y && final(self).a == old(self).a && final(self).s == old(self).s,
    {
        self.write_zero_flag(value == 0);
        self.write_negative_flag((value & 0x80) == 0x80);
        self.write_carry_flag(carry);
        self.write_overflow_flag(overflow);
        proof {
            lemma_flags_zncv(old(self).p, value == 0, value & 0x80 == 0x80, carry, overflow);
        }
    }

    /// Add with carry into the accumulator.
    pub fn execute_adc(&mut self, arg: u8)
        ensures
            final(self).a == adc_result(old(self).a, arg, flag_on(old(self).p, FLAG_CARRY)),
            flag_on(final(self).p, FLAG_ZERO) == (final(self).a == 0),
            flag_on(final(self).p, FLAG_NEGATIVE) == (final(self).a & 0x80 == 0x80),
            flag_on(final(self).p, FLAG_CARRY) == adc_carry(
                old(self).a,
                arg,
                flag_on(old(self).p, FLAG_CARRY),
            ),
            flag_on(final(self).p, FLAG_OVERFLOW) == adc_overflow(old(self).a, arg, final(self).a),
            flag_on(final(self).p, FLAG_RESERVED) == flag_on(old(self).p, FLAG_RESERVED),
            flag_on(final(self).p, FLAG_BREAK) == flag_on(old(self).p, FLAG_BREAK),
            flag_on(final(self).p, FLAG_DECIMAL) == flag_on(old(self).p, FLAG_DECIMAL),
            flag_on(final(self).p, FLAG_INTERRUPT) == flag_on(old(self).p, FLAG_INTERRUPT),
            final(self).pc == old(self).pc && final(self).x == old(self).x && final(self).y == old(
                self,
            ).y && final(self).s == old(self).s,
    {
        let carry_in = self.read_carry_flag();
        let tmp = u16::from(self.a) + u16::from(arg) + (if carry_in {
            1u16
        } else {
            0u16
        });
        let result = (tmp & 0xff) as u8;
        proof {
            lemma_u16_low_byte(tmp);
        }

        let carry_flag = tmp > 0x00ffu16;
        let zero_flag = result == 0;
        let negative_flag = (result & 0x80) == 0x80;
        let overflow_flag = ((self.a ^ result) & (arg ^ result) & 0x80) == 0x80;

        self.update_zero_negative_carry_overflow(result, carry_flag, overflow_flag);
        self.a = result;
    }

    /// Subtract with carry (a clear carry borrows one more) into the
    /// accumulator.
    pub fn execute_sbc(&mut self, arg: u8)
        ensures
            final(self).a == sbc_result(old(self).a, arg, flag_on(old(self).p, FLAG_CARRY)),
            flag_on(final(self).p, FLAG_ZERO) == (final(self).a == 0),
            flag_on(final(self).p, FLAG_NEGATIVE) == (final(self).a & 0x80 == 0x80),
            flag_on(final(self).p, FLAG_CARRY) == sbc_carry(
                old(self).a,
                arg,
                flag_on(old(self).p, FLAG_CARRY),
            ),
            flag_on(final(self).p, FLAG_OVERFLOW) == sbc_overflow(old(self).a, arg, final(self).a),
            flag_on(final(self).p, FLAG_RESERVED) == flag_on(old(self).p, FLAG_RESERVED),
            flag_on(final(self).p, FLAG_BREAK) == flag_on(old(self).p, FLAG_BREAK),
            flag_on(final(self).p, FLAG_DECIMAL) == flag_on(old(self).p, FLAG_DECIMAL),
            flag_on(final(self).p, FLAG_INTERRUPT) == flag_on(old(self).p, FLAG_INTERRUPT),
            final(self).pc == old(self).pc && final(self).x == old(self).x && final(self).y == old(
                self,
            ).y && final(self).s == old(self).s,
    {
        let carry_in = self.read_carry_flag();
        let borrow: u8 = if carry_in {
            0
        } else {
            1
        };
        let carry1 = self.a < arg;
        let data = self.a.wrapping_sub(arg);
        let carry2 = data < borrow;
        let result = data.wrapping_sub(borrow);

        let carry_flag = !(carry1 || carry2);
        let overflow_flag = (((self.a ^ arg) & 0x80) == 0x80) && (((self.a ^ result) & 0x80)
            == 0x80);

        self.update_zero_negative_carry_overflow(result, carry_flag, overflow_flag);
        self.a = result;
    }

    /// Bitwise AND into the accumulator.
    pub fn execute_and(&mut self, arg: u8)
        ensures
            final(self).a == (old(self).a & arg),
            flag_on(final(self).p, FLAG_ZERO) == (final(self).a == 0),
            flag_on(final(self).p, FLAG_NEGATIVE) == (final(self).a & 0x80 == 0x80),
            flag_on(final(self).p, FLAG_CARRY) == flag_on(old(self).p, FLAG_CARRY),
            flag_on(final(self).p, FLAG_OVERFLOW) == flag_on(old(self).p, FLAG_OVERFLOW),
            flag_on(final(self).p, FLAG_RESERVED) == flag_on(old(self).p, FLAG_RESERVED),
            flag_on(final(self).p, FLAG_BREAK) == flag_on(old(self).p, FLAG_BREAK),
            flag_on(final(self).p, FLAG_DECIMAL) == flag_on(old(self).p, FLAG_DECIMAL),
            flag_on(final(self).p, FLAG_INTERRUPT) == flag_on(old(self).p, FLAG_INTERRUPT),
            final(self).pc == old(self).pc && final(self).x == old(self).x && final(self).y == old(
                self,
            ).y && final(self).s == old(self).s,
    {
        let result = self.a & arg;
        self.update_zero_negative(result);
        self.a = result;
    }

    /// Bitwise exclusive-or into the accumulator.
    pub fn execute_eor(&mut self, arg: u8)
        ensures
            final(self).a == (old(self).a ^ arg),
            flag_on(final(self).p, FLAG_ZERO) == (final(self).a == 0),
            flag_on(final(self).p, FLAG_NEGATIVE) == (final(self).a & 0x80 == 0x80),
            flag_on(final(self).p, FLAG_CARRY) == flag_on(old(self).p, FLAG_CARRY),
            flag_on(final(self).p, FLAG_OVERFLOW) == flag_on(old(self).p, FLAG_OVERFLOW),
            flag_on(final(self).p, FLAG_RESERVED) == flag_on(old(self).p, FLAG_RESERVED),
            flag_on(final(self).p, FLAG_BREAK) == flag_on(old(self).p, FLAG_BREAK),
            flag_on(final(self).p, FLAG_DECIMAL) == flag_on(old(self).p, FLAG_DECIMAL),
            flag_on(final(self).p, FLAG_INTERRUPT) == flag_on(old(self).p, FLAG_INTERRUPT),
            final(self).pc == old(self).pc && final(self).x == old(self).x && final(self).y == old(
                self,
            ).y && final(self).s == old(self).s,
    {
        let result = self.a ^ arg;
        self.update_zero_negative(result);
        self.a = result;
    }

    /// Bitwise OR into the accumulator.
    pub fn execute_ora(&mut self, arg: u8)
        ensures
            final(self).a == (old(self).a | arg),
            flag_on(final(self).p, FLAG_ZERO) == (final(self).a == 0),
            flag_on(final(self).p, FLAG_NEGATIVE) == (final(self).a & 0x80 == 0x80),
            flag_on(final(self).p, FLAG_CARRY) == flag_on(old(self).p, FLAG_CARRY),
            flag_on(final(self).p, FLAG_OVERFLOW) == flag_on(old(self).p, FLAG_OVERFLOW),
            flag_on(final(self).p, FLAG_RESERVED) == flag_on(old(self).p, FLAG_RESERVED),
            flag_on(final(self).p, FLAG_BREAK) == flag_on(old(self).p, FLAG_BREAK),
            flag_on(final(self).p, FLAG_DECIMAL) == flag_on(old(self).p, FLAG_DECIMAL),
            flag_on(final(self).p, FLAG_INTERRUPT) == flag_on(old(self).p, FLAG_INTERRUPT),
            final(self).pc == old(self).pc && final(self).x == old(self).x && final(self).y == old(
                self,
            ).y && final(self).s == old(self).s,
    {
        let result = self.a | arg;
        self.update_zero_negative(result);
        self.a = result;
    }

    /// Compare a register with an operand: flags as if subtracting,
    /// registers untouched.
    pub fn execute_compare(&mut self, reg: u8, arg: u8)
        ensures
            flag_on(final(self).p, FLAG_ZERO) == (reg == arg),
            flag_on(final(self).p, FLAG_NEGATIVE) == (wsub8(reg, arg) & 0x80 == 0x80),
            flag_on(final(self).p, FLAG_CARRY) == (reg >= arg),
            flag_on(final(self).p, FLAG_OVERFLOW) == flag_on(old(self).p, FLAG_OVERFLOW),
            flag_on(final(self).p, FLAG_RESERVED) == flag_on(old(self).p, FLAG_RESERVED),
            flag_on(final(self).p, FLAG_BREAK) == flag_on(old(self).p, FLAG_BREAK),
            flag_on(final(self).p, FLAG_DECIMAL) == flag_on(old(self).p, FLAG_DECIMAL),
            flag_on(final(self).p, FLAG_INTERRUPT) == flag_on(old(self).p, FLAG_INTERRUPT),
            final(self).pc == old(self).pc && final(self).x == old(self).x && final(self).y == old(
                self,
            ).y && final(self).a == old(self).a && final(self).s == old(self).s,
    {
        let result = reg.wrapping_sub(arg);
        self.update_zero_negative_carry(result, reg >= arg);
    }

    /// Shift left one bit; returns the shifted byte for the caller to
    /// store (accumulator or memory).
    pub fn execute_asl(&mut self, arg: u8) -> (result: u8)
        ensures
            result == arg << 1,
            flag_on(final(self).p, FLAG_ZERO) == (result == 0),
            flag_on(final(self).p, FLAG_NEGATIVE) == (result & 0x80 == 0x80),
            flag_on(final(self).p, FLAG_CARRY) == (arg & 0x80 == 0x80),
            flag_on(final(self).p, FLAG_OVERFLOW) == flag_on(old(self).p, FLAG_OVERFLOW),
            flag_on(final(self).p, FLAG_RESERVED) == flag_on(old(self).p, FLAG_RESERVED),
            flag_on(final(self).p, FLAG_BREAK) == flag_on(old(self).p, FLAG_BREAK),
            flag_on(final(self).p, FLAG_DECIMAL) == flag_on(old(self).p, FLAG_DECIMAL),
            flag_on(final(self).p, FLAG_INTERRUPT) == flag_on(old(self).p, FLAG_INTERRUPT),
            final(self).pc == old(self).pc && final(self).x == old(self).x && final(self).y == old(
                self,
            ).y && final(self).a == old(self).a && final(self).s == old(self).s,
    {
        let result = arg << 1;
        self.update_zero_negative_carry(result, (arg & 0x80) == 0x80);
        result
    }

    /// Shift right one bit.
    pub fn execute_lsr(&mut self, arg: u8) -> (result: u8)
        ensures
            result == arg >> 1,
            flag_on(final(self).p, FLAG_ZERO) == (result == 0),
            flag_on(final(self).p, FLAG_NEGATIVE) == (result & 0x80 == 0x80),
            flag_on(final(self).p, FLAG_CARRY) == (arg & 0x01 == 0x01),
            flag_on(final(self).p, FLAG_OVERFLOW) == flag_on(old(self).p, FLAG_OVERFLOW),
            flag_on(final(self).p, FLAG_RESERVED) == flag_on(old(self).p, FLAG_RESERVED),
            flag_on(final(self).p, FLAG_BREAK) == flag_on(old(self).p, FLAG_BREAK),
            flag_on(final(self).p, FLAG_DECIMAL) == flag_on(old(self).p, FLAG_DECIMAL),
            flag_on(final(self).p, FLAG_INTERRUPT) == flag_on(old(self).p, FLAG_INTERRUPT),
            final(self).pc == old(self).pc && final(self).x == old(self).x && final(self).y == old(
                self,
            ).y && final(self).a == old(self).a && final(self).s == old(self).s,
    {
        let result = arg >> 1;
        self.update_zero_negative_carry(result, (arg & 0x01) == 0x01);
        result
    }

    /// Rotate left through the carry flag.
    pub fn execute_rol(&mut self, arg: u8) -> (result: u8)
        ensures
            result == (arg << 1) | (if flag_on(old(self).p, FLAG_CARRY) {
                0x01u8
            } else {
                0x00u8
            }),
            flag_on(final(self).p, FLAG_ZERO) == (result == 0),
            flag_on(final(self).p, FLAG_NEGATIVE) == (result & 0x80 == 0x80),
            flag_on(final(self).p, FLAG_CARRY) == (arg & 0x80 == 0x80),
            flag_on(final(self).p, FLAG_OVERFLOW) == flag_on(old(self).p, FLAG_OVERFLOW),
            flag_on(final(self).p, FLAG_RESERVED) == flag_on(old(self).p, FLAG_RESERVED),
            flag_on(final(self).p, FLAG_BREAK) == flag_on(old(self).p, FLAG_BREAK),
            flag_on(final(self).p, FLAG_DECIMAL) == flag_on(old(self).p, FLAG_DECIMAL),
            flag_on(final(self).p, FLAG_INTERRUPT) == flag_on(old(self).p, FLAG_INTERRUPT),
            final(self).pc == old(self).pc && final(self).x == old(self).x && final(self).y == old(
                self,
            ).y && final(self).a == old(self).a && final(self).s == old(self).s,
    {
        let result = (arg << 1) | (if self.read_carry_flag() {
            0x01u8
        } else {
            0x00u8
        });
        self.update_zero_negative_carry(result, (arg & 0x80) == 0x80);
        result
    }

    /// Rotate right through the carry flag.
    pub fn execute_ror(&mut self, arg: u8) -> (result: u8)
        ensures
            result == (arg >> 1) | (if flag_on(old(self).p, FLAG_CARRY) {
                0x80u8
            } else {
                0x00u8
            }),
            flag_on(final(self).p, FLAG_ZERO) == (result == 0),
            flag_on(final(self).p, FLAG_NEGATIVE) == (result & 0x80 == 0x80),
            flag_on(final(self).p, FLAG_CARRY) == (arg & 0x01 == 0x01),
            flag_on(final(self).p, FLAG_OVERFLOW) == flag_on(old(self).p, FLAG_OVERFLOW),
            flag_on(final(self).p, FLAG_RESERVED) == flag_on(old(self).p, FLAG_RESERVED),
            flag_on(final(self).p, FLAG_BREAK) == flag_on(old(self).p, FLAG_BREAK),
            flag_on(final(self).p, FLAG_DECIMAL) == flag_on(old(self).p, FLAG_DECIMAL),
            flag_on(final(self).p, FLAG_INTERRUPT) == flag_on(old(self).p, FLAG_INTERRUPT),
            final(self).pc == old(self).pc && final(self).x == old(self).x && final(self).y == old(
                self,
            ).y && final(self).a == old(self).a && final(self).s == old(self).s,
    {
        let result = (arg >> 1) | (if self.read_carry_flag() {
            0x80u8
        } else {
            0x00u8
        });
        self.update_zero_negative_carry(result, (arg & 0x01) == 0x01);
        result
    }

    /// Increment a byte, wrapping; returns the new byte.
    pub fn execute_inc_val(&mut self, arg: u8) -> (result: u8)
        ensures
            result == wrap8(arg, 1),
            flag_on(final(self).p, FLAG_ZERO) == (result == 0),
            flag_on(final(self).p, FLAG_NEGATIVE) == (result & 0x80 == 0x80),
            flag_on(final(self).p, FLAG_CARRY) == flag_on(old(self).p, FLAG_CARRY),
            flag_on(final(self).p, FLAG_OVERFLOW) == flag_on(old(self).p, FLAG_OVERFLOW),
            flag_on(final(self).p, FLAG_RESERVED) == flag_on(old(self).p, FLAG_RESERVED),
            flag_on(final(self).p, FLAG_BREAK) == flag_on(old(self).p, FLAG_BREAK),
            flag_on(final(self).p, FLAG_DECIMAL) == flag_on(old(self).p, FLAG_DECIMAL),
            flag_on(final(self).p, FLAG_INTERRUPT) == flag_on(old(self).p, FLAG_INTERRUPT),
            final(self).pc == old(self).pc && final(self).x == old(self).x && final(self).y == old(
                self,
            ).y && final(self).a == old(self).a && final(self).s == old(self).s,
    {
        let result = arg.wrapping_add(1);
        self.update_zero_negative(result);
        result
    }

    /// Decrement a byte, wrapping; returns the new byte.
    pub fn execute_dec_val(&mut self, arg: u8) -> (result: u8)
        ensures
            result == wsub8(arg, 1),
            flag_on(final(self).p, FLAG_ZERO) == (result == 0),
            flag_on(final(self).p, FLAG_NEGATIVE) == (result & 0x80 == 0x80),
            flag_on(final(self).p, FLAG_CARRY) == flag_on(old(self).p, FLAG_CARRY),
            flag_on(final(self).p, FLAG_OVERFLOW) == flag_on(old(self).p, FLAG_OVERFLOW),
            flag_on(final(self).p, FLAG_RESERVED) == flag_on(old(self).p, FLAG_RESERVED),
            flag_on(final(self).p, FLAG_BREAK) == flag_on(old(self).p, FLAG_BREAK),
            flag_on(final(self).p, FLAG_DECIMAL) == flag_on(old(self).p, FLAG_DECIMAL),
            flag_on(final(self).p, FLAG_INTERRUPT) == flag_on(old(self).p, FLAG_INTERRUPT),
            final(self).pc == old(self).pc && final(self).x == old(self).x && final(self).y == old(
                self,
            ).y && final(self).a == old(self).a && final(self).s == old(self).s,
    {
        let result = arg.wrapping_sub(1);
        self.update_zero_negative(result);
        result
    }

    /// Bit test: negative and overflow from the operand's top bits, zero
    /// from the masked accumulator.
    pub fn execute_bit(&mut self, arg: u8)
        ensures
            flag_on(final(self).p, FLAG_ZERO) == (old(self).a & arg == 0),
            flag_on(final(self).p, FLAG_NEGATIVE) == (arg & 0x80 == 0x80),
            flag_on(final(self).p, FLAG_OVERFLOW) == (arg & 0x40 == 0x40),
            flag_on(final(self).p, FLAG_CARRY) == flag_on(old(self).p, FLAG_CARRY),
            flag_on(final(self).p, FLAG_RESERVED) == flag_on(old(self).p, FLAG_RESERVED),
            flag_on(final(self).p, FLAG_BREAK) == flag_on(old(self).p, FLAG_BREAK),
            flag_on(final(self).p, FLAG_DECIMAL) == flag_on(old(self).p, FLAG_DECIMAL),
            flag_on(final(self).p, FLAG_INTERRUPT) == flag_on(old(self).p, FLAG_INTERRUPT),
            final(self).pc == old(self).pc && final(self).x == old(self).x && final(self).y == old(
                self,
            ).y && final(self).a == old(self).a && final(self).s == old(self).s,
    {
        let zero = (self.a & arg) == 0;
        let negative = (arg & 0x80) == 0x80;
        let overflow = (arg & 0x40) == 0x40;
        self.write_zero_flag(zero);
        self.write_negative_flag(negative);
        self.write_overflow_flag(overflow);
        proof {
            lemma_flags_znv(old(self).p, zero, negative, overflow);
        }
    }
}

/// The branch displacement sign-extended to 16 bits.
pub open spec fn sign_extend(offset: u8) -> u16 {
    if offset < 0x80 {
        offset as u16
    } else {
        (offset as u16) | 0xff00
    }
}

/// Whether two addresses lie on different 256-byte pages.
pub open spec fn page_crossed(a: u16, b: u16) -> bool {
    a & 0xff00 != b & 0xff00
}

/// The cycle cost of absolute indexed addressing: the base cost plus one
/// when the effective address leaves the un-indexed base's page.
pub open spec fn absolute_indexed_cost(base: u16, index: u8) -> u8 {
    if page_crossed(base, wrap16(base, index as u16)) {
        4u8
    } else {
        3u8
    }
}

/// Page-cross penalty law: an absolute indexed access whose effective
/// address crosses a page boundary costs exactly one cycle more than one
/// that stays on the base's page, all else equal.
pub proof fn lemma_page_cross_penalty(base1: u16, index1: u8, base2: u16, index2: u8)
    requires
        page_crossed(base1, wrap16(base1, index1 as u16)),
        !page_crossed(base2, wrap16(base2, index2 as u16)),
    ensures
        absolute_indexed_cost(base1, index1) == absolute_indexed_cost(base2, index2) + 1,
{
}

impl Cpu {
    /// Indexing within the zero page wraps at 0x100: the effective
    /// address never leaves the zero page.
    pub fn zero_page_indexed(base: u8, index: u8) -> (result: u16)
        ensures
            result == wrap8(base, index) as u16,
            result < 0x100,
    {
        u16::from(base.wrapping_add(index))
    }

    /// Absolute indexed addressing: the wrapped effective address and its
    /// cycle cost including the page-cross penalty.
    pub fn absolute_indexed(base: u16, index: u8) -> (result: (u16, u8))
        ensures
            result.0 == wrap16(base, index as u16),
            result.1 == absolute_indexed_cost(base, index),
    {
        let addr = base.wrapping_add(u16::from(index));
        let cyc: u8 = if (base & 0xff00u16) != (addr & 0xff00u16) {
            4
        } else {
            3
        };
        (addr, cyc)
    }

    /// The target of a relative branch: the displacement is signed and
    /// added to the address after the displacement byte.
    pub fn relative_target(pc: u16, offset: u8) -> (result: u16)
        ensures
            result == wrap16(pc, sign_extend(offset)),
    {
        let ext: u16 = if offset < 0x80 {
            u16::from(offset)
        } else {
            u16::from(offset) | 0xff00
        };
        pc.wrapping_add(ext)
    }

    /// Fetches the byte at the program counter and advances it.
    fn fetch8(&mut self, sys: &mut System) -> (result: u8)
        requires
            cpu_wf(*old(self)),
            sys_wf(*old(sys)),
        ensures
            cpu_wf(*final(self)),
            sys_wf(*final(sys)),
            result == sys_read_val(*old(sys), old(self).pc, false),
            final(self).pc == wrap16(old(self).pc, 1),
            final(self).x == old(self).x && final(self).y == old(self).y && final(self).a == old(
                self,
            ).a && final(self).s == old(self).s && final(self).p == old(self).p,
            final(sys).wram@ == old(sys).wram@,
            final(sys).io_reg@ == old(sys).io_reg@,
            final(sys).rom == old(sys).rom,
            final(sys).video == old(sys).video,
            crate::system::read_is_pure(old(self).pc) ==> crate::system::sys_eq(
                *old(sys),
                *final(sys),
            ),
    {
        let data = sys.read_u8(self.pc, false);
        self.pc = self.pc.wrapping_add(1);
        data
    }

    /// Fetches a 16-bit little-endian value at the program counter.
    fn fetch16(&mut self, sys: &mut System) -> (result: u16)
        requires
            cpu_wf(*old(self)),
            sys_wf(*old(sys)),
        ensures
            cpu_wf(*final(self)),
            sys_wf(*final(sys)),
            final(self).pc == wrap16(old(self).pc, 2),
            final(self).x == old(self).x && final(self).y == old(self).y && final(self).a == old(
                self,
            ).a && final(self).s == old(self).s && final(self).p == old(self).p,
            final(sys).wram@ == old(sys).wram@,
            final(sys).io_reg@ == old(sys).io_reg@,
            final(sys).rom == old(sys).rom,
            final(sys).video == old(sys).video,
            (crate::system::read_is_pure(old(self).pc) && crate::system::read_is_pure(
                wrap16(old(self).pc, 1),
            )) ==> {
                &&& crate::system::sys_eq(*old(sys), *final(sys))
                &&& result == (sys_read_val(*old(sys), old(self).pc, false) as u16) | ((
                sys_read_val(*old(sys), wrap16(old(self).pc, 1), false) as u16) << 8)
            },
    {
        let lower = self.fetch8(sys);
        let upper = self.fetch8(sys);
        let data = u16::from(lower) | (u16::from(upper) << 8);
        proof {
            assert(wrap16(wrap16(old(self).pc, 1), 1) == wrap16(old(self).pc, 2));
        }
        data
    }
}

/// How many operand bytes an addressing mode consumes.
pub open spec fn mode_operand_len(mode: AddressingMode) -> u16 {
    match mode {
        AddressingMode::Implied => 0,
        AddressingMode::Accumulator => 0,
        AddressingMode::Immediate => 1,
        AddressingMode::Absolute => 2,
        AddressingMode::ZeroPage => 1,
        AddressingMode::ZeroPageX => 1,
        AddressingMode::ZeroPageY => 1,
        AddressingMode::AbsoluteX => 2,
        AddressingMode::AbsoluteY => 2,
        AddressingMode::Relative => 1,
        AddressingMode::Indirect => 2,
        AddressingMode::IndirectX => 1,
        AddressingMode::IndirectY => 1,
    }
}

/// The base cycle cost each addressing mode can report.
pub open spec fn operand_cycles_ok(mode: AddressingMode, cyc: u8) -> bool {
    match mode {
        AddressingMode::Implied => cyc == 0,
        AddressingMode::Accumulator => cyc == 1,
        AddressingMode::Immediate => cyc == 1,
        AddressingMode::Absolute => cyc == 3,
        AddressingMode::ZeroPage => cyc == 2,
        AddressingMode::ZeroPageX => cyc == 3,
        AddressingMode::ZeroPageY => cyc == 3,
        AddressingMode::AbsoluteX => 3 <= cyc <= 4,
        AddressingMode::AbsoluteY => 3 <= cyc <= 4,
        AddressingMode::Relative => 1 <= cyc <= 2,
        AddressingMode::Indirect => cyc == 5,
        AddressingMode::IndirectX => cyc == 5,
        AddressingMode::IndirectY => 4 <= cyc <= 5,
    }
}

/// The 16-bit operand stored little-endian at `pc`.
pub open spec fn abs_base(s: System, pc: u16) -> u16 {
    (sys_read_val(s, pc, false) as u16) | ((sys_read_val(s, wrap16(pc, 1), false) as u16) << 8)
}

/// The two cells an indirect jump reads its target from: the pointer
/// named by the operand, and its companion with the low byte stepped
/// without carrying into the high byte.
pub open spec fn indirect_ptr_lo(s: System, pc: u16) -> u16 {
    abs_base(s, pc)
}

pub open spec fn indirect_ptr_hi(s: System, pc: u16) -> u16 {
    (wrap8(sys_read_val(s, pc, false), 1) as u16) | ((sys_read_val(s, wrap16(pc, 1), false) as u16)
        << 8)
}

impl Cpu {
    /// Resolves one addressing mode: fetches the operand bytes, computes
    /// the effective address (or immediate value) and the mode's base
    /// cycle cost. Zero-page indexing wraps within the zero page;
    /// absolute indexed and post-indexed modes pay the page-cross
    /// penalty relative to their un-indexed base.
    fn fetch_operand(&mut self, system: &mut System, mode: AddressingMode) -> (result: Operand)
        requires
            cpu_wf(*old(self)),
            sys_wf(*old(system)),
        ensures
            cpu_wf(*final(self)),
            sys_wf(*final(system)),
            final(self).x == old(self).x && final(self).y == old(self).y && final(self).a == old(
                self,
            ).a && final(self).s == old(self).s && final(self).p == old(self).p,
            final(self).pc == wrap16(old(self).pc, mode_operand_len(mode)),
            final(system).wram@ == old(system).wram@,
            final(system).io_reg@ == old(system).io_reg@,
            final(system).rom == old(system).rom,
            final(system).video == old(system).video,
            operand_cycles_ok(mode, result.1),
            mode == AddressingMode::Implied ==> result == Operand(0, 0) && crate::system::sys_eq(
                *old(system),
                *final(system),
            ),
            mode == AddressingMode::Accumulator ==> result == Operand(0, 1)
                && crate::system::sys_eq(*old(system), *final(system)),
            ((mode == AddressingMode::Immediate || mode == AddressingMode::ZeroPage || mode
                == AddressingMode::ZeroPageX || mode == AddressingMode::ZeroPageY || mode
                == AddressingMode::Relative) && crate::system::read_is_pure(old(self).pc))
                ==> crate::system::sys_eq(*old(system), *final(system)),
            ((mode == AddressingMode::Absolute || mode == AddressingMode::AbsoluteX || mode
                == AddressingMode::AbsoluteY) && crate::system::read_is_pure(old(self).pc)
                && crate::system::read_is_pure(wrap16(old(self).pc, 1)))
                ==> crate::system::sys_eq(*old(system), *final(system)),
            mode == AddressingMode::Immediate ==> result.0 == sys_read_val(
                *old(system),
                old(self).pc,
                false,
            ) as u16,
            mode == AddressingMode::ZeroPage ==> result.0 == sys_read_val(
                *old(system),
                old(self).pc,
                false,
            ) as u16,
            mode == AddressingMode::ZeroPageX ==> result.0 == wrap8(
                sys_read_val(*old(system), old(self).pc, false),
                old(self).x,
            ) as u16,
            mode == AddressingMode::ZeroPageY ==> result.0 == wrap8(
                sys_read_val(*old(system), old(self).pc, false),
                old(self).y,
            ) as u16,
            mode == AddressingMode::Relative ==> {
                let target = wrap16(
                    wrap16(old(self).pc, 1),
                    sign_extend(sys_read_val(*old(system), old(self).pc, false)),
                );
                &&& result.0 == target
                &&& result.1 == 1 + (if page_crossed(target, wrap16(old(self).pc, 1)) {
                    1int
                } else {
                    0int
                })
            },
            (mode == AddressingMode::Absolute && crate::system::read_is_pure(old(self).pc)
                && crate::system::read_is_pure(wrap16(old(self).pc, 1))) ==> result.0 == abs_base(
                *old(system),
                old(self).pc,
            ),
            (mode == AddressingMode::AbsoluteX && crate::system::read_is_pure(old(self).pc)
                && crate::system::read_is_pure(wrap16(old(self).pc, 1))) ==> {
                &&& result.0 == wrap16(abs_base(*old(system), old(self).pc), old(self).x as u16)
                &&& result.1 == absolute_indexed_cost(
                    abs_base(*old(system), old(self).pc),
                    old(self).x,
                )
            },
            (mode == AddressingMode::AbsoluteY && crate::system::read_is_pure(old(self).pc)
                && crate::system::read_is_pure(wrap16(old(self).pc, 1))) ==> {
                &&& result.0 == wrap16(abs_base(*old(system), old(self).pc), old(self).y as u16)
                &&& result.1 == absolute_indexed_cost(
                    abs_base(*old(system), old(self).pc),
                    old(self).y,
                )
            },
            // The indirect jump pointer: the high pointer byte is fetched
            // with the low byte incremented without carrying into the
            // page (the hardware's pointer page-wrap quirk).
            (mode == AddressingMode::Indirect && crate::system::read_is_pure(old(self).pc)
                && crate::system::read_is_pure(wrap16(old(self).pc, 1))
                && crate::system::read_is_pure(indirect_ptr_lo(*old(system), old(self).pc))) ==> {
                let b0 = sys_read_val(*old(system), old(self).pc, false);
                let b1 = sys_read_val(*old(system), wrap16(old(self).pc, 1), false);
                result.0 == (sys_read_val(*old(system), indirect_ptr_lo(*old(system), old(self).pc), false) as u16)
                    | ((sys_read_val(*old(system), indirect_ptr_hi(*old(system), old(self).pc), false) as u16) << 8)
            },
    {
        match mode {
            AddressingMode::Implied => Operand(0, 0),
            AddressingMode::Accumulator => Operand(0, 1),
            AddressingMode::Immediate => {
                let value = self.fetch8(system);
                Operand(u16::from(value), 1)
            },
            AddressingMode::Absolute => {
                let addr = self.fetch16(system);
                Operand(addr, 3)
            },
            AddressingMode::ZeroPage => {
                let value = self.fetch8(system);
                Operand(u16::from(value), 2)
            },
            AddressingMode::ZeroPageX => {
                let base = self.fetch8(system);
                let addr = Self::zero_page_indexed(base, self.x);
                Operand(addr, 3)
            },
            AddressingMode::ZeroPageY => {
                let base = self.fetch8(system);
                let addr = Self::zero_page_indexed(base, self.y);
                Operand(addr, 3)
            },
            AddressingMode::AbsoluteX => {
                let base = self.fetch16(system);
                let (addr, cyc) = Self::absolute_indexed(base, self.x);
                Operand(addr, cyc)
            },
            AddressingMode::AbsoluteY => {
                let base = self.fetch16(system);
                let (addr, cyc) = Self::absolute_indexed(base, self.y);
                Operand(addr, cyc)
            },
            AddressingMode::Relative => {
                let src_addr = self.fetch8(system);
                let data = Self::relative_target(self.pc, src_addr);
                let additional_cyc: u8 = if (data & 0xff00u16) != (self.pc & 0xff00u16) {
                    1
                } else {
                    0
                };
                Operand(data, 1 + additional_cyc)
            },
            AddressingMode::Indirect => {
                let src_addr_lower = self.fetch8(system);
                let src_addr_upper = self.fetch8(system);

                let dst_addr_lower = u16::from(src_addr_lower) | (u16::from(src_addr_upper) << 8);
                let dst_addr_upper = u16::from(src_addr_lower.wrapping_add(1)) | (u16::from(
                    src_addr_upper,
                ) << 8);
                proof {
                    if crate::system::read_is_pure(old(self).pc) && crate::system::read_is_pure(
                        wrap16(old(self).pc, 1),
                    ) {
                        lemma_read_val_eq(*system, *old(system), dst_addr_lower, false);
                        lemma_read_val_eq(*system, *old(system), dst_addr_upper, false);
                    }
                }
                let ghost sys_before_ptr_reads = *system;

                let dst_data_lower = u16::from(system.read_u8(dst_addr_lower, false));
                proof {
                    if crate::system::read_is_pure(old(self).pc) && crate::system::read_is_pure(
                        wrap16(old(self).pc, 1),
                    ) && crate::system::read_is_pure(dst_addr_lower) {
                        lemma_read_val_eq(*system, sys_before_ptr_reads, dst_addr_upper, false);
                        lemma_read_val_eq(sys_before_ptr_reads, *old(system), dst_addr_upper, false);
                    }
                }
                let dst_data_upper = u16::from(system.read_u8(dst_addr_upper, false));

                let data = dst_data_lower | (dst_data_upper << 8);
                Operand(data, 5)
            },
            AddressingMode::IndirectX => {
                let src_addr = self.fetch8(system);
                let dst_addr = src_addr.wrapping_add(self.x);

                let data_lower = u16::from(system.read_u8(u16::from(dst_addr), false));
                let data_upper = u16::from(
                    system.read_u8(u16::from(dst_addr.wrapping_add(1)), false),
                );

                let data = data_lower | (data_upper << 8);
                Operand(data, 5)
            },
            AddressingMode::IndirectY => {
                let src_addr = self.fetch8(system);

                let data_lower = u16::from(system.read_u8(u16::from(src_addr), false));
                let data_upper = u16::from(
                    system.read_u8(u16::from(src_addr.wrapping_add(1)), false),
                );

                let base_data = data_lower | (data_upper << 8);
                let data = base_data.wrapping_add(u16::from(self.y));
                let additional_cyc: u8 = if (base_data & 0xff00u16) != (data & 0xff00u16) {
                    1
                } else {
                    0
                };
                Operand(data, 4 + additional_cyc)
            },
        }
    }

    /// Resolves an addressing mode and loads the operand byte it refers
    /// to: nothing for implied, the accumulator, the immediate byte, or
    /// the byte at the effective address.
    fn fetch_args(&mut self, system: &mut System, mode: AddressingMode) -> (result: (Operand, u8))
        requires
            cpu_wf(*old(self)),
            sys_wf(*old(system)),
        ensures
            cpu_wf(*final(self)),
            sys_wf(*final(system)),
            final(self).x == old(self).x && final(self).y == old(self).y && final(self).a == old(
                self,
            ).a && final(self).s == old(self).s && final(self).p == old(self).p,
            final(self).pc == wrap16(old(self).pc, mode_operand_len(mode)),
            final(system).wram@ == old(system).wram@,
            final(system).io_reg@ == old(system).io_reg@,
            final(system).rom == old(system).rom,
            final(system).video == old(system).video,
            operand_cycles_ok(mode, result.0.1),
            mode == AddressingMode::Implied ==> result.1 == 0 && crate::system::sys_eq(
                *old(system),
                *final(system),
            ),
            mode == AddressingMode::Accumulator ==> result.1 == old(self).a
                && crate::system::sys_eq(*old(system), *final(system)),
            mode == AddressingMode::Immediate ==> result.1 == sys_read_val(
                *old(system),
                old(self).pc,
                false,
            ),
            // Zero-page operands live in work RAM, so with a
            // side-effect-free operand fetch the loaded byte is fixed by
            // the pre-state.
            (mode == AddressingMode::ZeroPage && crate::system::read_is_pure(old(self).pc)) ==> {
                &&& result.0.0 == sys_read_val(*old(system), old(self).pc, false) as u16
                &&& result.1 == sys_read_val(
                    *old(system),
                    sys_read_val(*old(system), old(self).pc, false) as u16,
                    false,
                )
                &&& crate::system::sys_eq(*old(system), *final(system))
            },
            (mode == AddressingMode::ZeroPageX && crate::system::read_is_pure(old(self).pc)) ==> {
                &&& result.0.0 == wrap8(
                    sys_read_val(*old(system), old(self).pc, false),
                    old(self).x,
                ) as u16
                &&& result.1 == sys_read_val(
                    *old(system),
                    wrap8(sys_read_val(*old(system), old(self).pc, false), old(self).x) as u16,
                    false,
                )
                &&& crate::system::sys_eq(*old(system), *final(system))
            },
            (mode == AddressingMode::ZeroPageY && crate::system::read_is_pure(old(self).pc)) ==> {
                &&& result.0.0 == wrap8(
                    sys_read_val(*old(system), old(self).pc, false),
                    old(self).y,
                ) as u16
                &&& result.1 == sys_read_val(
                    *old(system),
                    wrap8(sys_read_val(*old(system), old(self).pc, false), old(self).y) as u16,
                    false,
                )
                &&& crate::system::sys_eq(*old(system), *final(system))
            },
            (mode == AddressingMode::Absolute && crate::system::read_is_pure(old(self).pc)
                && crate::system::read_is_pure(wrap16(old(self).pc, 1))
                && crate::system::read_is_pure(abs_base(*old(system), old(self).pc))) ==> {
                &&& result.0.0 == abs_base(*old(system), old(self).pc)
                &&& result.1 == sys_read_val(
                    *old(system),
                    abs_base(*old(system), old(self).pc),
                    false,
                )
                &&& crate::system::sys_eq(*old(system), *final(system))
            },
    {
        match mode {
            AddressingMode::Implied => {
                let operand = self.fetch_operand(system, mode);
                (operand, 0)
            },
            AddressingMode::Accumulator => {
                let operand = self.fetch_operand(system, mode);
                (operand, self.a)
            },
            AddressingMode::Immediate => {
                let Operand(data, cyc) = self.fetch_operand(system, mode);
                proof {
                    lemma_u16_low_byte(data);
                }
                ((Operand(data, cyc)), (data & 0xff) as u8)
            },
            _ => {
                let Operand(addr, cyc) = self.fetch_operand(system, mode);
                proof {
                    if (mode == AddressingMode::ZeroPage || mode == AddressingMode::ZeroPageX
                        || mode == AddressingMode::ZeroPageY) && crate::system::read_is_pure(
                        old(self).pc,
                    ) {
                        lemma_read_val_eq(*system, *old(system), addr, false);
                    }
                    if mode == AddressingMode::Absolute && crate::system::read_is_pure(
                        old(self).pc,
                    ) && crate::system::read_is_pure(wrap16(old(self).pc, 1)) {
                        lemma_read_val_eq(*system, *old(system), addr, false);
                    }
                }
                let data = system.read_u8(addr, false);
                ((Operand(addr, cyc)), data)
            },
        }
    }
}

impl Cpu {
    /// One interrupt sequence. A maskable or software-break interrupt is
    /// suppressed while the interrupt-disable flag is set. The
    /// non-maskable and maskable kinds (and break, which first advances
    /// the program counter once) push the program counter and status onto
    /// the stack; reset pushes nothing. All four set the
    /// interrupt-disable flag and load the program counter from the
    /// kind's fixed vector pair.
    pub fn interrupt(&mut self, system: &mut System, irq: Interrupt)
        requires
            cpu_wf(*old(self)),
            sys_wf(*old(system)),
        ensures
            cpu_wf(*final(self)),
            sys_wf(*final(system)),
            final(self).x == old(self).x && final(self).y == old(self).y && final(self).a == old(
                self,
            ).a,
            final(system).io_reg@ == old(system).io_reg@,
            final(system).ppu_reg@ == old(system).ppu_reg@,
            final(system).rom == old(system).rom,
            final(system).video == old(system).video,
            final(system).pad1 == old(system).pad1,
            final(system).pad2 == old(system).pad2,
            sys_latches_unchanged(*old(system), *final(system)),
            (flag_on(old(self).p, FLAG_INTERRUPT) && (irq == Interrupt::IRQ || irq
                == Interrupt::BRK)) ==> {
                &&& *final(self) == *old(self)
                &&& final(system).wram@ == old(system).wram@
            },
            irq == Interrupt::RESET ==> {
                &&& final(self).p == flag_set(old(self).p, FLAG_INTERRUPT, true)
                &&& final(self).s == old(self).s
                &&& final(system).wram@ == old(system).wram@
                &&& final(self).pc == interrupt_vector_value(*old(system), irq)
            },
            (!(flag_on(old(self).p, FLAG_INTERRUPT) && (irq == Interrupt::IRQ || irq
                == Interrupt::BRK)) && irq != Interrupt::RESET) ==> {
                let pushed_pc = if irq == Interrupt::BRK {
                    wrap16(old(self).pc, 1)
                } else {
                    old(self).pc
                };
                let pushed_p = flag_set(old(self).p, FLAG_BREAK, irq == Interrupt::BRK);
                &&& final(self).p == flag_set(pushed_p, FLAG_INTERRUPT, true)
                &&& final(self).s == stack_dec(stack_dec(stack_dec(old(self).s)))
                &&& final(system).wram@ == old(system).wram@.update(
                    old(self).s as int,
                    (pushed_pc >> 8) as u8,
                ).update(stack_dec(old(self).s) as int, (pushed_pc & 0xff) as u8).update(
                    stack_dec(stack_dec(old(self).s)) as int,
                    pushed_p,
                )
                &&& final(self).pc == interrupt_vector_value(*old(system), irq)
            },
    {
        let is_nested = self.read_interrupt_flag();
        if is_nested && (irq == Interrupt::IRQ || irq == Interrupt::BRK) {
            return ;
        }
        match irq {
            Interrupt::NMI => {
                self.write_break_flag(false);
                let pc_upper = (self.pc >> 8) as u8;
                let pc_lower = (self.pc & 0xff) as u8;
                self.stack_push(system, pc_upper);
                self.stack_push(system, pc_lower);
                self.stack_push(system, self.p);
                self.write_interrupt_flag(true);
            },
            Interrupt::RESET => {
                self.write_interrupt_flag(true);
            },
            Interrupt::IRQ => {
                self.write_break_flag(false);
                let pc_upper = (self.pc >> 8) as u8;
                let pc_lower = (self.pc & 0xff) as u8;
                self.stack_push(system, pc_upper);
                self.stack_push(system, pc_lower);
                self.stack_push(system, self.p);
                self.write_interrupt_flag(true);
            },
            Interrupt::BRK => {
                self.write_break_flag(true);
                self.pc = self.pc.wrapping_add(1);
                let pc_upper = (self.pc >> 8) as u8;
                let pc_lower = (self.pc & 0xff) as u8;
                self.stack_push(system, pc_upper);
                self.stack_push(system, pc_lower);
                self.stack_push(system, self.p);
                self.write_interrupt_flag(true);
            },
        }

        let lower = match irq {
            Interrupt::BRK => BRK_READ_LOWER,
            Interrupt::NMI => NMI_READ_LOWER,
            Interrupt::IRQ => IRQ_READ_LOWER,
            Interrupt::RESET => RESET_READ_LOWER,
        };
        let upper = match irq {
            Interrupt::BRK => BRK_READ_UPPER,
            Interrupt::NMI => NMI_READ_UPPER,
            Interrupt::IRQ => IRQ_READ_UPPER,
            Interrupt::RESET => RESET_READ_UPPER,
        };

        let lower_d = system.read_u8(lower, false);
        let upper_d = system.read_u8(upper, false);
        self.pc = u16::from(lower_d) | (u16::from(upper_d) << 8);
    }
}

/// The vector address pair an interrupt kind loads the program counter
/// from.
pub open spec fn interrupt_vector_lower(irq: Interrupt) -> u16 {
    match irq {
        Interrupt::BRK => BRK_READ_LOWER,
        Interrupt::NMI => NMI_READ_LOWER,
        Interrupt::IRQ => IRQ_READ_LOWER,
        Interrupt::RESET => RESET_READ_LOWER,
    }
}

pub open spec fn interrupt_vector_upper(irq: Interrupt) -> u16 {
    match irq {
        Interrupt::BRK => BRK_READ_UPPER,
        Interrupt::NMI => NMI_READ_UPPER,
        Interrupt::IRQ => IRQ_READ_UPPER,
        Interrupt::RESET => RESET_READ_UPPER,
    }
}

/// The 16-bit value stored at an interrupt kind's vector pair: both
/// bytes lie in the cartridge region, so stack traffic never disturbs
/// them.
pub open spec fn interrupt_vector_value(s: System, irq: Interrupt) -> u16 {
    (sys_read_val(s, interrupt_vector_lower(irq), false) as u16) | ((sys_read_val(
        s,
        interrupt_vector_upper(irq),
        false,
    ) as u16) << 8)
}

/// Writing an index register into the stack pointer keeps it in the
/// fixed stack page.
pub proof fn lemma_txs_in_page(x: u8)
    by (bit_vector)
    ensures
        ((x as u16) | 0x0100) & 0xff00 == 0x0100,
{
}



/// Two bus states that agree on every component return the same byte
/// for every read.
pub proof fn lemma_read_val_eq(s1: System, s2: System, addr: u16, is_nondestructive: bool)
    requires
        crate::system::sys_eq(s1, s2),
    ensures
        sys_read_val(s1, addr, is_nondestructive) == sys_read_val(s2, addr, is_nondestructive),
{
}

/// The interrupt-disable, decimal, break and reserved flags, carried
/// over untouched.
pub open spec fn flags_idbr_unchanged(p_pre: u8, p_post: u8) -> bool {
    &&& flag_on(p_post, FLAG_INTERRUPT) == flag_on(p_pre, FLAG_INTERRUPT)
    &&& flag_on(p_post, FLAG_DECIMAL) == flag_on(p_pre, FLAG_DECIMAL)
    &&& flag_on(p_post, FLAG_BREAK) == flag_on(p_pre, FLAG_BREAK)
    &&& flag_on(p_post, FLAG_RESERVED) == flag_on(p_pre, FLAG_RESERVED)
}

/// What each documented operand-consuming operation does to the
/// registers and flags, given the operand byte it resolved. The zero
/// flag is set exactly when the result byte is zero and the negative
/// flag exactly on bit 7, whatever addressing mode produced the byte.
pub open spec fn alu_op_effect(op: Opcode, arg: u8, pre: Cpu, post: Cpu) -> bool {
    match op {
        Opcode::ADC => {
            &&& post.a == adc_result(pre.a, arg, flag_on(pre.p, FLAG_CARRY))
            &&& post.x == pre.x && post.y == pre.y && post.s == pre.s
            &&& flag_on(post.p, FLAG_ZERO) == (post.a == 0)
            &&& flag_on(post.p, FLAG_NEGATIVE) == (post.a & 0x80 == 0x80)
            &&& flag_on(post.p, FLAG_CARRY) == adc_carry(pre.a, arg, flag_on(pre.p, FLAG_CARRY))
            &&& flag_on(post.p, FLAG_OVERFLOW) == adc_overflow(pre.a, arg, post.a)
            &&& flags_idbr_unchanged(pre.p, post.p)
        },
        Opcode::SBC => {
            &&& post.a == sbc_result(pre.a, arg, flag_on(pre.p, FLAG_CARRY))
            &&& post.x == pre.x && post.y == pre.y && post.s == pre.s
            &&& flag_on(post.p, FLAG_ZERO) == (post.a == 0)
            &&& flag_on(post.p, FLAG_NEGATIVE) == (post.a & 0x80 == 0x80)
            &&& flag_on(post.p, FLAG_CARRY) == sbc_carry(pre.a, arg, flag_on(pre.p, FLAG_CARRY))
            &&& flag_on(post.p, FLAG_OVERFLOW) == sbc_overflow(pre.a, arg, post.a)
            &&& flags_idbr_unchanged(pre.p, post.p)
        },
        Opcode::AND => {
            &&& post.a == (pre.a & arg)
            &&& post.x == pre.x && post.y == pre.y && post.s == pre.s
            &&& zn_updated(pre.p, post.p, post.a)
        },
        Opcode::EOR => {
            &&& post.a == (pre.a ^ arg)
            &&& post.x == pre.x && post.y == pre.y && post.s == pre.s
            &&& zn_updated(pre.p, post.p, post.a)
        },
        Opcode::ORA => {
            &&& post.a == (pre.a | arg)
            &&& post.x == pre.x && post.y == pre.y && post.s == pre.s
            &&& zn_updated(pre.p, post.p, post.a)
        },
        Opcode::CMP => compare_effect(pre.a, arg, pre, post),
        Opcode::CPX => compare_effect(pre.x, arg, pre, post),
        Opcode::CPY => compare_effect(pre.y, arg, pre, post),
        Opcode::LDA => {
            &&& post.a == arg
            &&& post.x == pre.x && post.y == pre.y && post.s == pre.s
            &&& zn_updated(pre.p, post.p, arg)
        },
        Opcode::LDX => {
            &&& post.x == arg
            &&& post.a == pre.a && post.y == pre.y && post.s == pre.s
            &&& zn_updated(pre.p, post.p, arg)
        },
        Opcode::LDY => {
            &&& post.y == arg
            &&& post.a == pre.a && post.x == pre.x && post.s == pre.s
            &&& zn_updated(pre.p, post.p, arg)
        },
        _ => true,
    }
}

/// The operand-consuming operations whose register effect
/// `alu_op_effect` documents.
pub open spec fn alu_op_documented(op: Opcode) -> bool {
    ||| op == Opcode::ADC
    ||| op == Opcode::SBC
    ||| op == Opcode::AND
    ||| op == Opcode::EOR
    ||| op == Opcode::ORA
    ||| op == Opcode::CMP
    ||| op == Opcode::CPX
    ||| op == Opcode::CPY
    ||| op == Opcode::LDA
    ||| op == Opcode::LDX
    ||| op == Opcode::LDY
}

/// A compare: registers untouched, flags as if subtracting the operand.
pub open spec fn compare_effect(reg: u8, arg: u8, pre: Cpu, post: Cpu) -> bool {
    &&& post.a == pre.a && post.x == pre.x && post.y == pre.y && post.s == pre.s
    &&& flag_on(post.p, FLAG_ZERO) == (reg == arg)
    &&& flag_on(post.p, FLAG_NEGATIVE) == (wsub8(reg, arg) & 0x80 == 0x80)
    &&& flag_on(post.p, FLAG_CARRY) == (reg >= arg)
    &&& flag_on(post.p, FLAG_OVERFLOW) == flag_on(pre.p, FLAG_OVERFLOW)
    &&& flags_idbr_unchanged(pre.p, post.p)
}

/// The eight conditional branches and the flag each one tests.
pub open spec fn is_branch_op(op: Opcode) -> bool {
    ||| op == Opcode::BCC
    ||| op == Opcode::BCS
    ||| op == Opcode::BEQ
    ||| op == Opcode::BNE
    ||| op == Opcode::BMI
    ||| op == Opcode::BPL
    ||| op == Opcode::BVC
    ||| op == Opcode::BVS
}

pub open spec fn branch_taken(op: Opcode, p: u8) -> bool {
    match op {
        Opcode::BCC => !flag_on(p, FLAG_CARRY),
        Opcode::BCS => flag_on(p, FLAG_CARRY),
        Opcode::BEQ => flag_on(p, FLAG_ZERO),
        Opcode::BNE => !flag_on(p, FLAG_ZERO),
        Opcode::BMI => flag_on(p, FLAG_NEGATIVE),
        Opcode::BPL => !flag_on(p, FLAG_NEGATIVE),
        Opcode::BVC => !flag_on(p, FLAG_OVERFLOW),
        Opcode::BVS => flag_on(p, FLAG_OVERFLOW),
        _ => false,
    }
}

/// The shifted, rotated or stepped byte of a read-modify-write
/// operation, and its flag rule: zero and negative from the result byte,
/// carry from the bit the shifts push out (stepping keeps the carry).
pub open spec fn rmw_result(op: Opcode, m: u8, carry_in: bool) -> u8 {
    match op {
        Opcode::ASL => m << 1,
        Opcode::LSR => m >> 1,
        Opcode::ROL => (m << 1) | (if carry_in {
            0x01u8
        } else {
            0x00u8
        }),
        Opcode::ROR => (m >> 1) | (if carry_in {
            0x80u8
        } else {
            0x00u8
        }),
        Opcode::INC => wrap8(m, 1),
        Opcode::DEC => wsub8(m, 1),
        _ => m,
    }
}

pub open spec fn rmw_flags_ok(op: Opcode, m: u8, r: u8, p_pre: u8, p_post: u8) -> bool {
    &&& flag_on(p_post, FLAG_ZERO) == (r == 0)
    &&& flag_on(p_post, FLAG_NEGATIVE) == (r & 0x80 == 0x80)
    &&& ((op == Opcode::ASL || op == Opcode::ROL) ==> flag_on(p_post, FLAG_CARRY) == (m & 0x80
        == 0x80))
    &&& ((op == Opcode::LSR || op == Opcode::ROR) ==> flag_on(p_post, FLAG_CARRY) == (m & 0x01
        == 0x01))
    &&& ((op == Opcode::INC || op == Opcode::DEC) ==> flag_on(p_post, FLAG_CARRY) == flag_on(
        p_pre,
        FLAG_CARRY,
    ))
    &&& flag_on(p_post, FLAG_OVERFLOW) == flag_on(p_pre, FLAG_OVERFLOW)
    &&& flags_idbr_unchanged(p_pre, p_post)
}

/// The zero and negative flags follow `value`; every other flag is
/// carried over.
pub open spec fn zn_updated(p_pre: u8, p_post: u8, value: u8) -> bool {
    &&& flag_on(p_post, FLAG_ZERO) == (value == 0)
    &&& flag_on(p_post, FLAG_NEGATIVE) == (value & 0x80 == 0x80)
    &&& flag_on(p_post, FLAG_CARRY) == flag_on(p_pre, FLAG_CARRY)
    &&& flag_on(p_post, FLAG_OVERFLOW) == flag_on(p_pre, FLAG_OVERFLOW)
    &&& flag_on(p_post, FLAG_RESERVED) == flag_on(p_pre, FLAG_RESERVED)
    &&& flag_on(p_post, FLAG_BREAK) == flag_on(p_pre, FLAG_BREAK)
    &&& flag_on(p_post, FLAG_DECIMAL) == flag_on(p_pre, FLAG_DECIMAL)
    &&& flag_on(p_post, FLAG_INTERRUPT) == flag_on(p_pre, FLAG_INTERRUPT)
}

/// The operations that touch registers and flags alone: the no-op, the
/// flag sets and clears, the register transfers, and the index-register
/// steps. Each costs two cycles and reads nothing from the bus.
pub open spec fn is_register_op(op: Opcode) -> bool {
    ||| op == Opcode::NOP
    ||| op == Opcode::SEC
    ||| op == Opcode::SED
    ||| op == Opcode::SEI
    ||| op == Opcode::CLC
    ||| op == Opcode::CLD
    ||| op == Opcode::CLI
    ||| op == Opcode::CLV
    ||| op == Opcode::TXS
    ||| op == Opcode::TAX
    ||| op == Opcode::TAY
    ||| op == Opcode::TXA
    ||| op == Opcode::TYA
    ||| op == Opcode::TSX
    ||| op == Opcode::INX
    ||| op == Opcode::INY
    ||| op == Opcode::DEX
    ||| op == Opcode::DEY
}

/// What each register-only operation does to the CPU.
pub open spec fn register_op_effect(op: Opcode, pre: Cpu, post: Cpu) -> bool {
    match op {
        Opcode::NOP => post == pre,
        Opcode::SEC => post == (Cpu { p: flag_set(pre.p, FLAG_CARRY, true), ..pre }),
        Opcode::SED => post == (Cpu { p: flag_set(pre.p, FLAG_DECIMAL, true), ..pre }),
        Opcode::SEI => post == (Cpu { p: flag_set(pre.p, FLAG_INTERRUPT, true), ..pre }),
        Opcode::CLC => post == (Cpu { p: flag_set(pre.p, FLAG_CARRY, false), ..pre }),
        Opcode::CLD => post == (Cpu { p: flag_set(pre.p, FLAG_DECIMAL, false), ..pre }),
        Opcode::CLI => post == (Cpu { p: flag_set(pre.p, FLAG_INTERRUPT, false), ..pre }),
        Opcode::CLV => post == (Cpu { p: flag_set(pre.p, FLAG_OVERFLOW, false), ..pre }),
        Opcode::TXS => post == (Cpu { s: (pre.x as u16) | 0x0100, ..pre }),
        Opcode::TAX => post.x == pre.a && post.a == pre.a && post.y == pre.y && post.s == pre.s
            && post.pc == pre.pc && zn_updated(pre.p, post.p, pre.a),
        Opcode::TAY => post.y == pre.a && post.a == pre.a && post.x == pre.x && post.s == pre.s
            && post.pc == pre.pc && zn_updated(pre.p, post.p, pre.a),
        Opcode::TXA => post.a == pre.x && post.x == pre.x && post.y == pre.y && post.s == pre.s
            && post.pc == pre.pc && zn_updated(pre.p, post.p, pre.x),
        Opcode::TYA => post.a == pre.y && post.x == pre.x && post.y == pre.y && post.s == pre.s
            && post.pc == pre.pc && zn_updated(pre.p, post.p, pre.y),
        Opcode::TSX => post.x == (pre.s & 0xff) as u8 && post.a == pre.a && post.y == pre.y
            && post.s == pre.s && post.pc == pre.pc && zn_updated(
            pre.p,
            post.p,
            (pre.s & 0xff) as u8,
        ),
        Opcode::INX => post.x == wrap8(pre.x, 1) && post.a == pre.a && post.y == pre.y && post.s
            == pre.s && post.pc == pre.pc && zn_updated(pre.p, post.p, wrap8(pre.x, 1)),
        Opcode::INY => post.y == wrap8(pre.y, 1) && post.a == pre.a && post.x == pre.x && post.s
            == pre.s && post.pc == pre.pc && zn_updated(pre.p, post.p, wrap8(pre.y, 1)),
        Opcode::DEX => post.x == wsub8(pre.x, 1) && post.a == pre.a && post.y == pre.y && post.s
            == pre.s && post.pc == pre.pc && zn_updated(pre.p, post.p, wsub8(pre.x, 1)),
        Opcode::DEY => post.y == wsub8(pre.y, 1) && post.a == pre.a && post.x == pre.x && post.s
            == pre.s && post.pc == pre.pc && zn_updated(pre.p, post.p, wsub8(pre.y, 1)),
        _ => true,
    }
}

impl Cpu {
    /// One instruction: fetches the opcode byte at the program counter,
    /// decodes it through the fixed table, executes it, and returns its
    /// cycle cost including addressing-mode and branch penalties. An
    /// opcode byte with no table entry returns nothing, with the
    /// program counter advanced past the bad byte and nothing executed:
    /// the caller must treat that as a fatal error, not skip it.
    pub fn step(&mut self, system: &mut System) -> (result: Option<u8>)
        requires
            cpu_wf(*old(self)),
            sys_wf(*old(system)),
        ensures
            cpu_wf(*final(self)),
            sys_wf(*final(system)),
            result.is_some() == decode_spec(
                sys_read_val(*old(system), old(self).pc, false),
            ).is_some(),
            result matches Some(cycles) ==> 1 <= cycles <= 8,
            // The register-only instructions are pinned end to end: two
            // cycles, the opcode's exact register and flag effect, and
            // the program counter one past the opcode byte.
            (decode_spec(sys_read_val(*old(system), old(self).pc, false)) matches Some(inst)
                && is_register_op(inst.0)) ==> {
                &&& result == Some(2u8)
                &&& register_op_effect(
                    (decode_spec(sys_read_val(*old(system), old(self).pc, false))->Some_0).0,
                    (Cpu { pc: wrap16(old(self).pc, 1), ..*old(self) }),
                    *final(self),
                )
            },
            // With a side-effect-free opcode fetch, the documented
            // operand-consuming operations are pinned end to end: each
            // register and flag takes exactly the value the opcode's
            // rule gives for the operand byte, for the immediate and
            // zero-page modes alike.
            (decode_spec(sys_read_val(*old(system), old(self).pc, false)) matches Some(inst)
                && alu_op_documented(inst.0) && inst.1 == AddressingMode::Immediate
                && crate::system::read_is_pure(old(self).pc)) ==> {
                let op = (decode_spec(sys_read_val(*old(system), old(self).pc, false))->Some_0).0;
                let value = sys_read_val(*old(system), wrap16(old(self).pc, 1), false);
                &&& result == Some(2u8)
                &&& final(self).pc == wrap16(old(self).pc, 2)
                &&& alu_op_effect(
                    op,
                    value,
                    (Cpu { pc: wrap16(old(self).pc, 1), ..*old(self) }),
                    *final(self),
                )
            },
            (decode_spec(sys_read_val(*old(system), old(self).pc, false)) matches Some(inst)
                && alu_op_documented(inst.0) && inst.1 == AddressingMode::ZeroPage
                && crate::system::read_is_pure(old(self).pc) && crate::system::read_is_pure(
                wrap16(old(self).pc, 1),
            )) ==> {
                let op = (decode_spec(sys_read_val(*old(system), old(self).pc, false))->Some_0).0;
                let value = sys_read_val(
                    *old(system),
                    sys_read_val(*old(system), wrap16(old(self).pc, 1), false) as u16,
                    false,
                );
                &&& result == Some(3u8)
                &&& final(self).pc == wrap16(old(self).pc, 2)
                &&& alu_op_effect(
                    op,
                    value,
                    (Cpu { pc: wrap16(old(self).pc, 1), ..*old(self) }),
                    *final(self),
                )
            },
            (decode_spec(sys_read_val(*old(system), old(self).pc, false)) matches Some(inst)
                && alu_op_documented(inst.0) && inst.1 == AddressingMode::Absolute
                && crate::system::read_is_pure(old(self).pc) && crate::system::read_is_pure(
                wrap16(old(self).pc, 1),
            ) && crate::system::read_is_pure(wrap16(old(self).pc, 2))
                && crate::system::read_is_pure(
                abs_base(*old(system), wrap16(old(self).pc, 1)),
            )) ==> {
                let op = (decode_spec(sys_read_val(*old(system), old(self).pc, false))->Some_0).0;
                let value = sys_read_val(
                    *old(system),
                    abs_base(*old(system), wrap16(old(self).pc, 1)),
                    false,
                );
                &&& result == Some(4u8)
                &&& final(self).pc == wrap16(old(self).pc, 3)
                &&& alu_op_effect(
                    op,
                    value,
                    (Cpu { pc: wrap16(old(self).pc, 1), ..*old(self) }),
                    *final(self),
                )
            },
            (decode_spec(sys_read_val(*old(system), old(self).pc, false)) matches Some(inst)
                && alu_op_documented(inst.0) && inst.1 == AddressingMode::ZeroPageX
                && crate::system::read_is_pure(old(self).pc) && crate::system::read_is_pure(
                wrap16(old(self).pc, 1),
            )) ==> {
                let op = (decode_spec(sys_read_val(*old(system), old(self).pc, false))->Some_0).0;
                let value = sys_read_val(
                    *old(system),
                    wrap8(
                        sys_read_val(*old(system), wrap16(old(self).pc, 1), false),
                        old(self).x,
                    ) as u16,
                    false,
                );
                &&& result == Some(4u8)
                &&& final(self).pc == wrap16(old(self).pc, 2)
                &&& alu_op_effect(
                    op,
                    value,
                    (Cpu { pc: wrap16(old(self).pc, 1), ..*old(self) }),
                    *final(self),
                )
            },
            // Shifts and rotates on the accumulator.
            (decode_spec(sys_read_val(*old(system), old(self).pc, false)) matches Some(inst)
                && (inst.0 == Opcode::ASL || inst.0 == Opcode::LSR || inst.0 == Opcode::ROL
                || inst.0 == Opcode::ROR) && inst.1 == AddressingMode::Accumulator) ==> {
                let op = (decode_spec(sys_read_val(*old(system), old(self).pc, false))->Some_0).0;
                let shifted = rmw_result(op, old(self).a, flag_on(old(self).p, FLAG_CARRY));
                &&& result == Some(2u8)
                &&& final(self).pc == wrap16(old(self).pc, 1)
                &&& final(self).a == shifted
                &&& final(self).x == old(self).x && final(self).y == old(self).y && final(self).s
                    == old(self).s
                &&& rmw_flags_ok(op, old(self).a, shifted, old(self).p, final(self).p)
            },
            // Zero-page read-modify-write: the stepped or shifted byte
            // lands back in the named work-RAM cell, with the flags
            // computed from the fetched operand.
            (decode_spec(sys_read_val(*old(system), old(self).pc, false)) matches Some(inst)
                && is_shift_step_op(inst.0) && inst.1 == AddressingMode::ZeroPage
                && crate::system::read_is_pure(old(self).pc) && crate::system::read_is_pure(
                wrap16(old(self).pc, 1),
            )) ==> {
                let op = (decode_spec(sys_read_val(*old(system), old(self).pc, false))->Some_0).0;
                let zp_addr = sys_read_val(*old(system), wrap16(old(self).pc, 1), false);
                let operand = sys_read_val(*old(system), zp_addr as u16, false);
                let written = rmw_result(op, operand, flag_on(old(self).p, FLAG_CARRY));
                &&& result == Some(5u8)
                &&& final(self).pc == wrap16(old(self).pc, 2)
                &&& final(self).a == old(self).a && final(self).x == old(self).x && final(self).y
                    == old(self).y && final(self).s == old(self).s
                &&& final(system).wram@ == old(system).wram@.update(zp_addr as int, written)
                &&& rmw_flags_ok(op, operand, written, old(self).p, final(self).p)
            },
            // Conditional branches: target, direction and the taken
            // penalty are pinned whenever the opcode fetch is pure.
            (decode_spec(sys_read_val(*old(system), old(self).pc, false)) matches Some(inst)
                && is_branch_op(inst.0) && inst.1 == AddressingMode::Relative
                && crate::system::read_is_pure(old(self).pc)) ==> {
                let op = (decode_spec(sys_read_val(*old(system), old(self).pc, false))->Some_0).0;
                let displacement = sys_read_val(*old(system), wrap16(old(self).pc, 1), false);
                let next = wrap16(old(self).pc, 2);
                let target = wrap16(next, sign_extend(displacement));
                let penalty: int = if page_crossed(target, next) {
                    1int
                } else {
                    0int
                };
                &&& final(self).a == old(self).a && final(self).x == old(self).x && final(self).y
                    == old(self).y && final(self).s == old(self).s && final(self).p == old(self).p
                &&& if branch_taken(op, old(self).p) {
                    final(self).pc == target && result == Some((3 + penalty) as u8)
                } else {
                    final(self).pc == next && result == Some((2 + penalty) as u8)
                }
            },
            // An absolute unconditional jump: three cycles, the program
            // counter lands on the little-endian operand.
            (decode_spec(sys_read_val(*old(system), old(self).pc, false)) matches Some(inst)
                && inst.0 == Opcode::JMP && inst.1 == AddressingMode::Absolute
                && crate::system::read_is_pure(old(self).pc) && crate::system::read_is_pure(
                wrap16(old(self).pc, 1),
            ) && crate::system::read_is_pure(wrap16(old(self).pc, 2))) ==> {
                &&& result == Some(3u8)
                &&& final(self).pc == abs_base(*old(system), wrap16(old(self).pc, 1))
                &&& final(self).a == old(self).a && final(self).x == old(self).x && final(self).y
                    == old(self).y && final(self).s == old(self).s && final(self).p == old(self).p
            },
            result.is_none() ==> {
                &&& final(self).pc == wrap16(old(self).pc, 1)
                &&& final(self).x == old(self).x
                &&& final(self).y == old(self).y
                &&& final(self).a == old(self).a
                &&& final(self).s == old(self).s
                &&& final(self).p == old(self).p
                &&& final(system).wram@ == old(system).wram@
                &&& final(system).io_reg@ == old(system).io_reg@
                &&& final(system).rom == old(system).rom
                &&& final(system).video == old(system).video
            },
    {
        let inst_pc = self.pc;
        let inst_code = self.fetch8(system);

        let decoded = Instruction::from(inst_code);
        let inst = match decoded {
            Some(inst) => inst,
            None => {
                return None;
            },
        };
        proof {
            lemma_decode_jmp(inst_code);
            if crate::system::read_is_pure(old(self).pc) {
                lemma_read_val_eq(*system, *old(system), wrap16(old(self).pc, 1), false);
                lemma_read_val_eq(*system, *old(system), wrap16(old(self).pc, 2), false);
                let zp_addr = sys_read_val(*old(system), wrap16(old(self).pc, 1), false);
                lemma_read_val_eq(*system, *old(system), zp_addr as u16, false);
                lemma_read_val_eq(
                    *system,
                    *old(system),
                    wrap8(zp_addr, old(self).x) as u16,
                    false,
                );
                let operand_addr = abs_base(*old(system), wrap16(old(self).pc, 1));
                lemma_read_val_eq(*system, *old(system), operand_addr, false);
            }
        }
        let cycles = self.execute_instruction(system, inst_pc, inst);
        Some(cycles)
    }

    /// Executes one decoded instruction and returns its cycle cost. An
    /// unconditional jump reports the addressing mode's cost alone; the
    /// decode table only pairs it with modes that cost at least one.
    fn execute_instruction(&mut self, system: &mut System, inst_pc: u16, inst: Instruction) -> (result: u8)
        requires
            cpu_wf(*old(self)),
            sys_wf(*old(system)),
        ensures
            cpu_wf(*final(self)),
            sys_wf(*final(system)),
            result <= 8,
            inst.0 != Opcode::JMP ==> result >= 1,
            (inst.0 == Opcode::JMP && (inst.1 == AddressingMode::Absolute || inst.1
                == AddressingMode::Indirect)) ==> result >= 1,
            is_register_op(inst.0) ==> result == 2 && register_op_effect(
                inst.0,
                *old(self),
                *final(self),
            ),
            ((inst.0 == Opcode::LDA || inst.0 == Opcode::LDX || inst.0 == Opcode::LDY) && inst.1
                == AddressingMode::Immediate) ==> {
                let value = sys_read_val(*old(system), old(self).pc, false);
                &&& result == 2
                &&& final(self).pc == wrap16(old(self).pc, 1)
                &&& final(self).s == old(self).s
                &&& (inst.0 == Opcode::LDA ==> final(self).a == value)
                &&& (inst.0 == Opcode::LDX ==> final(self).x == value)
                &&& (inst.0 == Opcode::LDY ==> final(self).y == value)
                &&& zn_updated(old(self).p, final(self).p, value)
            },
            (inst.0 == Opcode::STA && inst.1 == AddressingMode::ZeroPage) ==> {
                let addr = sys_read_val(*old(system), old(self).pc, false) as int;
                &&& result == 3
                &&& final(system).wram@ == old(system).wram@.update(addr, old(self).a)
                &&& *final(self) == (Cpu { pc: wrap16(old(self).pc, 1), ..*old(self) })
            },
            (alu_op_documented(inst.0) && inst.1 == AddressingMode::Immediate) ==> {
                &&& result == 2
                &&& final(self).pc == wrap16(old(self).pc, 1)
                &&& alu_op_effect(
                    inst.0,
                    sys_read_val(*old(system), old(self).pc, false),
                    *old(self),
                    *final(self),
                )
            },
            (alu_op_documented(inst.0) && inst.1 == AddressingMode::ZeroPage
                && crate::system::read_is_pure(old(self).pc)) ==> {
                &&& result == 3
                &&& final(self).pc == wrap16(old(self).pc, 1)
                &&& alu_op_effect(
                    inst.0,
                    sys_read_val(
                        *old(system),
                        sys_read_val(*old(system), old(self).pc, false) as u16,
                        false,
                    ),
                    *old(self),
                    *final(self),
                )
            },
            (alu_op_documented(inst.0) && inst.1 == AddressingMode::Absolute
                && crate::system::read_is_pure(old(self).pc) && crate::system::read_is_pure(
                wrap16(old(self).pc, 1),
            ) && crate::system::read_is_pure(abs_base(*old(system), old(self).pc))) ==> {
                &&& result == 4
                &&& final(self).pc == wrap16(old(self).pc, 2)
                &&& alu_op_effect(
                    inst.0,
                    sys_read_val(*old(system), abs_base(*old(system), old(self).pc), false),
                    *old(self),
                    *final(self),
                )
            },
            (alu_op_documented(inst.0) && inst.1 == AddressingMode::ZeroPageX
                && crate::system::read_is_pure(old(self).pc)) ==> {
                &&& result == 4
                &&& final(self).pc == wrap16(old(self).pc, 1)
                &&& alu_op_effect(
                    inst.0,
                    sys_read_val(
                        *old(system),
                        wrap8(sys_read_val(*old(system), old(self).pc, false), old(self).x) as u16,
                        false,
                    ),
                    *old(self),
                    *final(self),
                )
            },
            ((inst.0 == Opcode::ASL || inst.0 == Opcode::LSR || inst.0 == Opcode::ROL || inst.0
                == Opcode::ROR) && inst.1 == AddressingMode::Accumulator) ==> {
                let shifted = rmw_result(inst.0, old(self).a, flag_on(old(self).p, FLAG_CARRY));
                &&& result == 2
                &&& final(self).pc == old(self).pc
                &&& final(self).a == shifted
                &&& final(self).x == old(self).x && final(self).y == old(self).y && final(self).s
                    == old(self).s
                &&& rmw_flags_ok(inst.0, old(self).a, shifted, old(self).p, final(self).p)
            },
            (is_shift_step_op(inst.0) && inst.1 == AddressingMode::ZeroPage
                && crate::system::read_is_pure(old(self).pc)) ==> {
                let zp_addr = sys_read_val(*old(system), old(self).pc, false);
                let operand = sys_read_val(*old(system), zp_addr as u16, false);
                let written = rmw_result(inst.0, operand, flag_on(old(self).p, FLAG_CARRY));
                &&& result == 5
                &&& final(self).pc == wrap16(old(self).pc, 1)
                &&& final(self).a == old(self).a && final(self).x == old(self).x && final(self).y
                    == old(self).y && final(self).s == old(self).s
                &&& final(system).wram@ == old(system).wram@.update(zp_addr as int, written)
                &&& rmw_flags_ok(inst.0, operand, written, old(self).p, final(self).p)
            },
            (is_branch_op(inst.0) && inst.1 == AddressingMode::Relative) ==> {
                let displacement = sys_read_val(*old(system), old(self).pc, false);
                let next = wrap16(old(self).pc, 1);
                let target = wrap16(next, sign_extend(displacement));
                let penalty: int = if page_crossed(target, next) {
                    1int
                } else {
                    0int
                };
                &&& final(self).a == old(self).a && final(self).x == old(self).x && final(self).y
                    == old(self).y && final(self).s == old(self).s && final(self).p == old(self).p
                &&& if branch_taken(inst.0, old(self).p) {
                    final(self).pc == target && result == 3 + penalty
                } else {
                    final(self).pc == next && result == 2 + penalty
                }
            },
            (inst.0 == Opcode::JMP && inst.1 == AddressingMode::Absolute
                && crate::system::read_is_pure(old(self).pc) && crate::system::read_is_pure(
                wrap16(old(self).pc, 1),
            )) ==> {
                &&& result == 3
                &&& final(self).pc == abs_base(*old(system), old(self).pc)
                &&& final(self).a == old(self).a && final(self).x == old(self).x && final(self).y
                    == old(self).y && final(self).s == old(self).s && final(self).p == old(self).p
            },
    {
        let Instruction(opcode, mode) = inst;
        match opcode {
            Opcode::ADC | Opcode::SBC | Opcode::AND | Opcode::EOR | Opcode::ORA | Opcode::CMP | Opcode::CPX | Opcode::CPY => self.execute_binary_op(system, inst_pc, opcode, mode),
            Opcode::LDA | Opcode::LDX | Opcode::LDY | Opcode::LAX | Opcode::ALR | Opcode::ANC | Opcode::ARR | Opcode::AXS | Opcode::SKB | Opcode::IGN => self.execute_load_op(system, inst_pc, opcode, mode),
            Opcode::ASL | Opcode::LSR | Opcode::ROL | Opcode::ROR | Opcode::INC | Opcode::DEC => self.execute_shift_step_op(system, inst_pc, opcode, mode),
            Opcode::STA | Opcode::STX | Opcode::STY | Opcode::SAX | Opcode::BIT => self.execute_store_op(system, inst_pc, opcode, mode),
            Opcode::DCP | Opcode::ISC | Opcode::RLA | Opcode::RRA | Opcode::SLO | Opcode::SRE => self.execute_fused_rmw_op(system, inst_pc, opcode, mode),
            Opcode::JMP | Opcode::JSR | Opcode::RTI | Opcode::RTS | Opcode::BCC | Opcode::BCS | Opcode::BEQ | Opcode::BNE | Opcode::BMI | Opcode::BPL | Opcode::BVC | Opcode::BVS | Opcode::PHA | Opcode::PHP | Opcode::PLA | Opcode::PLP | Opcode::TAX | Opcode::TAY | Opcode::TSX | Opcode::TXA | Opcode::TXS | Opcode::TYA | Opcode::SEC | Opcode::SED | Opcode::SEI | Opcode::CLC | Opcode::CLD | Opcode::CLI | Opcode::CLV | Opcode::INX | Opcode::INY | Opcode::DEX | Opcode::DEY | Opcode::BRK | Opcode::NOP => self.execute_control_op(system, inst_pc, opcode, mode),
        }
    }

    #[verifier::rlimit(100)]
    #[verifier::spinoff_prover]
    fn execute_binary_op(&mut self, system: &mut System, _inst_pc: u16, opcode: Opcode, mode: AddressingMode) -> (result: u8)
        requires
            cpu_wf(*old(self)),
            sys_wf(*old(system)),
            is_binary_op(opcode),
        ensures
            cpu_wf(*final(self)),
            sys_wf(*final(system)),
            result <= 8,
            opcode != Opcode::JMP ==> result >= 1,
            (opcode == Opcode::JMP && (mode == AddressingMode::Absolute || mode
                == AddressingMode::Indirect)) ==> result >= 1,
            (alu_op_documented(opcode) && mode == AddressingMode::Immediate) ==> {
                &&& result == 2
                &&& final(self).pc == wrap16(old(self).pc, 1)
                &&& alu_op_effect(
                    opcode,
                    sys_read_val(*old(system), old(self).pc, false),
                    *old(self),
                    *final(self),
                )
            },
            (alu_op_documented(opcode) && mode == AddressingMode::ZeroPage
                && crate::system::read_is_pure(old(self).pc)) ==> {
                &&& result == 3
                &&& final(self).pc == wrap16(old(self).pc, 1)
                &&& alu_op_effect(
                    opcode,
                    sys_read_val(
                        *old(system),
                        sys_read_val(*old(system), old(self).pc, false) as u16,
                        false,
                    ),
                    *old(self),
                    *final(self),
                )
            },
            (alu_op_documented(opcode) && mode == AddressingMode::Absolute
                && crate::system::read_is_pure(old(self).pc) && crate::system::read_is_pure(
                wrap16(old(self).pc, 1),
            ) && crate::system::read_is_pure(abs_base(*old(system), old(self).pc))) ==> {
                &&& result == 4
                &&& final(self).pc == wrap16(old(self).pc, 2)
                &&& alu_op_effect(
                    opcode,
                    sys_read_val(*old(system), abs_base(*old(system), old(self).pc), false),
                    *old(self),
                    *final(self),
                )
            },
            (alu_op_documented(opcode) && mode == AddressingMode::ZeroPageX
                && crate::system::read_is_pure(old(self).pc)) ==> {
                &&& result == 4
                &&& final(self).pc == wrap16(old(self).pc, 1)
                &&& alu_op_effect(
                    opcode,
                    sys_read_val(
                        *old(system),
                        wrap8(sys_read_val(*old(system), old(self).pc, false), old(self).x) as u16,
                        false,
                    ),
                    *old(self),
                    *final(self),
                )
            },
    {
        match opcode {
            Opcode::ADC => {
                let (Operand(_, cyc), arg) = self.fetch_args(system, mode);
                self.execute_adc(arg);
                1 + cyc
            },
            Opcode::SBC => {
                let (Operand(_, cyc), arg) = self.fetch_args(system, mode);
                self.execute_sbc(arg);
                1 + cyc
            },
            Opcode::AND => {
                let (Operand(_, cyc), arg) = self.fetch_args(system, mode);
                self.execute_and(arg);
                1 + cyc
            },
            Opcode::EOR => {
                let (Operand(_, cyc), arg) = self.fetch_args(system, mode);
                self.execute_eor(arg);
                1 + cyc
            },
            Opcode::ORA => {
                let (Operand(_, cyc), arg) = self.fetch_args(system, mode);
                self.execute_ora(arg);
                1 + cyc
            },
            Opcode::CMP => {
                let (Operand(_, cyc), arg) = self.fetch_args(system, mode);
                let reg = self.a;
                self.execute_compare(reg, arg);
                1 + cyc
            },
            Opcode::CPX => {
                let (Operand(_, cyc), arg) = self.fetch_args(system, mode);
                let reg = self.x;
                self.execute_compare(reg, arg);
                1 + cyc
            },
            Opcode::CPY => {
                let (Operand(_, cyc), arg) = self.fetch_args(system, mode);
                let reg = self.y;
                self.execute_compare(reg, arg);
                1 + cyc
            },
            _ => vstd::pervasive::unreached(),
        }
    }

    #[verifier::rlimit(100)]
    #[verifier::spinoff_prover]
    fn execute_load_op(&mut self, system: &mut System, _inst_pc: u16, opcode: Opcode, mode: AddressingMode) -> (result: u8)
        requires
            cpu_wf(*old(self)),
            sys_wf(*old(system)),
            is_load_op(opcode),
        ensures
            cpu_wf(*final(self)),
            sys_wf(*final(system)),
            result <= 8,
            opcode != Opcode::JMP ==> result >= 1,
            (opcode == Opcode::JMP && (mode == AddressingMode::Absolute || mode
                == AddressingMode::Indirect)) ==> result >= 1,
            (alu_op_documented(opcode) && mode == AddressingMode::Immediate) ==> {
                &&& result == 2
                &&& final(self).pc == wrap16(old(self).pc, 1)
                &&& alu_op_effect(
                    opcode,
                    sys_read_val(*old(system), old(self).pc, false),
                    *old(self),
                    *final(self),
                )
            },
            (alu_op_documented(opcode) && mode == AddressingMode::ZeroPage
                && crate::system::read_is_pure(old(self).pc)) ==> {
                &&& result == 3
                &&& final(self).pc == wrap16(old(self).pc, 1)
                &&& alu_op_effect(
                    opcode,
                    sys_read_val(
                        *old(system),
                        sys_read_val(*old(system), old(self).pc, false) as u16,
                        false,
                    ),
                    *old(self),
                    *final(self),
                )
            },
            (alu_op_documented(opcode) && mode == AddressingMode::Absolute
                && crate::system::read_is_pure(old(self).pc) && crate::system::read_is_pure(
                wrap16(old(self).pc, 1),
            ) && crate::system::read_is_pure(abs_base(*old(system), old(self).pc))) ==> {
                &&& result == 4
                &&& final(self).pc == wrap16(old(self).pc, 2)
                &&& alu_op_effect(
                    opcode,
                    sys_read_val(*old(system), abs_base(*old(system), old(self).pc), false),
                    *old(self),
                    *final(self),
                )
            },
            (alu_op_documented(opcode) && mode == AddressingMode::ZeroPageX
                && crate::system::read_is_pure(old(self).pc)) ==> {
                &&& result == 4
                &&& final(self).pc == wrap16(old(self).pc, 1)
                &&& alu_op_effect(
                    opcode,
                    sys_read_val(
                        *old(system),
                        wrap8(sys_read_val(*old(system), old(self).pc, false), old(self).x) as u16,
                        false,
                    ),
                    *old(self),
                    *final(self),
                )
            },
    {
        match opcode {
            Opcode::LDA => {
                let (Operand(_, cyc), arg) = self.fetch_args(system, mode);
                self.update_zero_negative(arg);
                self.a = arg;
                1 + cyc
            },
            Opcode::LDX => {
                let (Operand(_, cyc), arg) = self.fetch_args(system, mode);
                self.update_zero_negative(arg);
                self.x = arg;
                1 + cyc
            },
            Opcode::LDY => {
                let (Operand(_, cyc), arg) = self.fetch_args(system, mode);
                self.update_zero_negative(arg);
                self.y = arg;
                1 + cyc
            },
            Opcode::LAX => {
                let (Operand(_, cyc), arg) = self.fetch_args(system, mode);
                self.update_zero_negative(arg);
                self.a = arg;
                self.x = arg;
                1 + cyc
            },
            Opcode::ALR => {
                let (Operand(_, cyc), arg) = self.fetch_args(system, mode);
                let src = self.a & arg;
                let result = self.execute_lsr(src);
                self.a = result;
                1 + cyc
            },
            Opcode::ANC => {
                let (Operand(_, cyc), arg) = self.fetch_args(system, mode);
                self.execute_and(arg);
                let carry = self.read_negative_flag();
                self.write_carry_flag(carry);
                1 + cyc
            },
            Opcode::ARR => {
                let (Operand(_, cyc), arg) = self.fetch_args(system, mode);
                let src = self.a & arg;
                let result = (src >> 1) | (if self.read_carry_flag() {
                    0x80u8
                } else {
                    0x00u8
                });
                let carry = (result & 0x40) == 0x40;
                let overflow = ((result & 0x40) ^ ((result & 0x20) << 1)) == 0x40;
                self.update_zero_negative_carry_overflow(result, carry, overflow);
                self.a = result;
                1 + cyc
            },
            Opcode::AXS => {
                let (Operand(_, cyc), arg) = self.fetch_args(system, mode);
                let src = self.a & arg;
                let borrowed = self.a < src;
                let result = self.a.wrapping_sub(src);
                self.update_zero_negative_carry(result, borrowed);
                self.x = result;
                1 + cyc
            },
            Opcode::SKB => {
                let (Operand(_, cyc), _arg) = self.fetch_args(system, mode);
                1 + cyc
            },
            Opcode::IGN => {
                let (Operand(_, cyc), _arg) = self.fetch_args(system, mode);
                1 + cyc
            },
            _ => vstd::pervasive::unreached(),
        }
    }

    #[verifier::rlimit(100)]
    #[verifier::spinoff_prover]
    fn execute_shift_step_op(&mut self, system: &mut System, _inst_pc: u16, opcode: Opcode, mode: AddressingMode) -> (result: u8)
        requires
            cpu_wf(*old(self)),
            sys_wf(*old(system)),
            is_shift_step_op(opcode),
        ensures
            cpu_wf(*final(self)),
            sys_wf(*final(system)),
            result <= 8,
            opcode != Opcode::JMP ==> result >= 1,
            (opcode == Opcode::JMP && (mode == AddressingMode::Absolute || mode
                == AddressingMode::Indirect)) ==> result >= 1,
            ((opcode == Opcode::ASL || opcode == Opcode::LSR || opcode == Opcode::ROL || opcode
                == Opcode::ROR) && mode == AddressingMode::Accumulator) ==> {
                let shifted = rmw_result(opcode, old(self).a, flag_on(old(self).p, FLAG_CARRY));
                &&& result == 2
                &&& final(self).pc == old(self).pc
                &&& final(self).a == shifted
                &&& final(self).x == old(self).x && final(self).y == old(self).y && final(self).s
                    == old(self).s
                &&& rmw_flags_ok(opcode, old(self).a, shifted, old(self).p, final(self).p)
            },
            (mode == AddressingMode::ZeroPage && crate::system::read_is_pure(old(self).pc)) ==> {
                let zp_addr = sys_read_val(*old(system), old(self).pc, false);
                let operand = sys_read_val(*old(system), zp_addr as u16, false);
                let written = rmw_result(opcode, operand, flag_on(old(self).p, FLAG_CARRY));
                &&& result == 5
                &&& final(self).pc == wrap16(old(self).pc, 1)
                &&& final(self).a == old(self).a && final(self).x == old(self).x && final(self).y
                    == old(self).y && final(self).s == old(self).s
                &&& final(system).wram@ == old(system).wram@.update(zp_addr as int, written)
                &&& rmw_flags_ok(opcode, operand, written, old(self).p, final(self).p)
            },
    {
        match opcode {
            Opcode::ASL => {
                let (Operand(addr, cyc), arg) = self.fetch_args(system, mode);
                let result = self.execute_asl(arg);
                if mode == AddressingMode::Accumulator {
                    self.a = result;
                    1 + cyc
                } else {
                    system.write_u8(addr, result, false);
                    3 + cyc
                }
            },
            Opcode::LSR => {
                let (Operand(addr, cyc), arg) = self.fetch_args(system, mode);
                let result = self.execute_lsr(arg);
                if mode == AddressingMode::Accumulator {
                    self.a = result;
                    1 + cyc
                } else {
                    system.write_u8(addr, result, false);
                    3 + cyc
                }
            },
            Opcode::ROL => {
                let (Operand(addr, cyc), arg) = self.fetch_args(system, mode);
                let result = self.execute_rol(arg);
                if mode == AddressingMode::Accumulator {
                    self.a = result;
                    1 + cyc
                } else {
                    system.write_u8(addr, result, false);
                    3 + cyc
                }
            },
            Opcode::ROR => {
                let (Operand(addr, cyc), arg) = self.fetch_args(system, mode);
                let result = self.execute_ror(arg);
                if mode == AddressingMode::Accumulator {
                    self.a = result;
                    1 + cyc
                } else {
                    system.write_u8(addr, result, false);
                    3 + cyc
                }
            },
            Opcode::INC => {
                let (Operand(addr, cyc), arg) = self.fetch_args(system, mode);
                let result = self.execute_inc_val(arg);
                system.write_u8(addr, result, false);
                3 + cyc
            },
            Opcode::DEC => {
                let (Operand(addr, cyc), arg) = self.fetch_args(system, mode);
                let result = self.execute_dec_val(arg);
                system.write_u8(addr, result, false);
                3 + cyc
            },
            _ => vstd::pervasive::unreached(),
        }
    }

    #[verifier::rlimit(100)]
    #[verifier::spinoff_prover]
    fn execute_store_op(&mut self, system: &mut System, _inst_pc: u16, opcode: Opcode, mode: AddressingMode) -> (result: u8)
        requires
            cpu_wf(*old(self)),
            sys_wf(*old(system)),
            is_store_op(opcode),
        ensures
            cpu_wf(*final(self)),
            sys_wf(*final(system)),
            result <= 8,
            opcode != Opcode::JMP ==> result >= 1,
            (opcode == Opcode::JMP && (mode == AddressingMode::Absolute || mode
                == AddressingMode::Indirect)) ==> result >= 1,
            (opcode == Opcode::STA && mode == AddressingMode::ZeroPage) ==> {
                let addr = sys_read_val(*old(system), old(self).pc, false) as int;
                &&& result == 3
                &&& final(system).wram@ == old(system).wram@.update(addr, old(self).a)
                &&& *final(self) == (Cpu { pc: wrap16(old(self).pc, 1), ..*old(self) })
            },
    {
        match opcode {
            Opcode::STA => {
                let Operand(addr, cyc) = self.fetch_operand(system, mode);
                system.write_u8(addr, self.a, false);
                1 + cyc
            },
            Opcode::STX => {
                let Operand(addr, cyc) = self.fetch_operand(system, mode);
                system.write_u8(addr, self.x, false);
                1 + cyc
            },
            Opcode::STY => {
                let Operand(addr, cyc) = self.fetch_operand(system, mode);
                system.write_u8(addr, self.y, false);
                1 + cyc
            },
            Opcode::SAX => {
                let (Operand(addr, cyc), _arg) = self.fetch_args(system, mode);
                let result = self.a & self.x;
                system.write_u8(addr, result, false);
                1 + cyc
            },
            Opcode::BIT => {
                let Operand(addr, cyc) = self.fetch_operand(system, mode);
                let arg = system.read_u8(addr, true);
                self.execute_bit(arg);
                2 + cyc
            },
            _ => vstd::pervasive::unreached(),
        }
    }

    #[verifier::rlimit(100)]
    #[verifier::spinoff_prover]
    fn execute_fused_rmw_op(&mut self, system: &mut System, _inst_pc: u16, opcode: Opcode, mode: AddressingMode) -> (result: u8)
        requires
            cpu_wf(*old(self)),
            sys_wf(*old(system)),
            is_fused_rmw_op(opcode),
        ensures
            cpu_wf(*final(self)),
            sys_wf(*final(system)),
            result <= 8,
            opcode != Opcode::JMP ==> result >= 1,
            (opcode == Opcode::JMP && (mode == AddressingMode::Absolute || mode
                == AddressingMode::Indirect)) ==> result >= 1,
    {
        match opcode {
            Opcode::DCP => {
                let (Operand(addr, cyc), arg) = self.fetch_args(system, mode);
                let dec_result = arg.wrapping_sub(1);
                system.write_u8(addr, dec_result, false);
                let reg = self.a;
                self.execute_compare(reg, dec_result);
                3 + cyc
            },
            Opcode::ISC => {
                let (Operand(addr, cyc), arg) = self.fetch_args(system, mode);
                let inc_result = arg.wrapping_add(1);
                system.write_u8(addr, inc_result, false);
                self.execute_sbc(inc_result);
                1 + cyc
            },
            Opcode::RLA => {
                let (Operand(addr, cyc), arg) = self.fetch_args(system, mode);
                let result_rol = self.execute_rol(arg);
                system.write_u8(addr, result_rol, false);
                self.execute_and(result_rol);
                3 + cyc
            },
            Opcode::RRA => {
                let (Operand(addr, cyc), arg) = self.fetch_args(system, mode);
                let result_ror = self.execute_ror(arg);
                system.write_u8(addr, result_ror, false);
                self.execute_adc(result_ror);
                3 + cyc
            },
            Opcode::SLO => {
                let (Operand(addr, cyc), arg) = self.fetch_args(system, mode);
                let result_asl = self.execute_asl(arg);
                system.write_u8(addr, result_asl, false);
                self.execute_ora(result_asl);
                3 + cyc
            },
            Opcode::SRE => {
                let (Operand(addr, cyc), arg) = self.fetch_args(system, mode);
                let result_lsr = self.execute_lsr(arg);
                system.write_u8(addr, result_lsr, false);
                self.execute_eor(result_lsr);
                3 + cyc
            },
            _ => vstd::pervasive::unreached(),
        }
    }

    #[verifier::rlimit(100)]
    #[verifier::spinoff_prover]
    fn execute_control_op(&mut self, system: &mut System, inst_pc: u16, opcode: Opcode, mode: AddressingMode) -> (result: u8)
        requires
            cpu_wf(*old(self)),
            sys_wf(*old(system)),
            is_control_op(opcode),
        ensures
            cpu_wf(*final(self)),
            sys_wf(*final(system)),
            result <= 8,
            opcode != Opcode::JMP ==> result >= 1,
            (opcode == Opcode::JMP && (mode == AddressingMode::Absolute || mode
                == AddressingMode::Indirect)) ==> result >= 1,
            is_register_op(opcode) ==> result == 2 && register_op_effect(
                opcode,
                *old(self),
                *final(self),
            ),
            (is_branch_op(opcode) && mode == AddressingMode::Relative) ==> {
                let displacement = sys_read_val(*old(system), old(self).pc, false);
                let next = wrap16(old(self).pc, 1);
                let target = wrap16(next, sign_extend(displacement));
                let penalty: int = if page_crossed(target, next) {
                    1int
                } else {
                    0int
                };
                &&& final(self).a == old(self).a && final(self).x == old(self).x && final(self).y
                    == old(self).y && final(self).s == old(self).s && final(self).p == old(self).p
                &&& if branch_taken(opcode, old(self).p) {
                    final(self).pc == target && result == 3 + penalty
                } else {
                    final(self).pc == next && result == 2 + penalty
                }
            },
            (opcode == Opcode::JMP && mode == AddressingMode::Absolute
                && crate::system::read_is_pure(old(self).pc) && crate::system::read_is_pure(
                wrap16(old(self).pc, 1),
            )) ==> {
                &&& result == 3
                &&& final(self).pc == abs_base(*old(system), old(self).pc)
                &&& final(self).a == old(self).a && final(self).x == old(self).x && final(self).y
                    == old(self).y && final(self).s == old(self).s && final(self).p == old(self).p
            },
    {
        match opcode {
            Opcode::JMP => {
                let Operand(addr, cyc) = self.fetch_operand(system, mode);
                self.pc = addr;
                cyc
            },
            Opcode::JSR => {
                let Operand(addr, _) = self.fetch_operand(system, mode);
                let ret_addr = inst_pc.wrapping_add(2);
                self.stack_push(system, (ret_addr >> 8) as u8);
                self.stack_push(system, (ret_addr & 0xff) as u8);
                self.pc = addr;
                6
            },
            Opcode::RTI => {
                self.p = self.stack_pop(system);
                let pc_lower = self.stack_pop(system);
                let pc_upper = self.stack_pop(system);
                self.pc = (u16::from(pc_upper) << 8) | u16::from(pc_lower);
                6
            },
            Opcode::RTS => {
                let pc_lower = self.stack_pop(system);
                let pc_upper = self.stack_pop(system);
                let ret = (u16::from(pc_upper) << 8) | u16::from(pc_lower);
                self.pc = ret.wrapping_add(1);
                6
            },
            Opcode::BCC => {
                let Operand(addr, cyc) = self.fetch_operand(system, mode);
                if !self.read_carry_flag() {
                    self.pc = addr;
                    2 + cyc
                } else {
                    1 + cyc
                }
            },
            Opcode::BCS => {
                let Operand(addr, cyc) = self.fetch_operand(system, mode);
                if self.read_carry_flag() {
                    self.pc = addr;
                    2 + cyc
                } else {
                    1 + cyc
                }
            },
            Opcode::BEQ => {
                let Operand(addr, cyc) = self.fetch_operand(system, mode);
                if self.read_zero_flag() {
                    self.pc = addr;
                    2 + cyc
                } else {
                    1 + cyc
                }
            },
            Opcode::BNE => {
                let Operand(addr, cyc) = self.fetch_operand(system, mode);
                if !self.read_zero_flag() {
                    self.pc = addr;
                    2 + cyc
                } else {
                    1 + cyc
                }
            },
            Opcode::BMI => {
                let Operand(addr, cyc) = self.fetch_operand(system, mode);
                if self.read_negative_flag() {
                    self.pc = addr;
                    2 + cyc
                } else {
                    1 + cyc
                }
            },
            Opcode::BPL => {
                let Operand(addr, cyc) = self.fetch_operand(system, mode);
                if !self.read_negative_flag() {
                    self.pc = addr;
                    2 + cyc
                } else {
                    1 + cyc
                }
            },
            Opcode::BVC => {
                let Operand(addr, cyc) = self.fetch_operand(system, mode);
                if !self.read_overflow_flag() {
                    self.pc = addr;
                    2 + cyc
                } else {
                    1 + cyc
                }
            },
            Opcode::BVS => {
                let Operand(addr, cyc) = self.fetch_operand(system, mode);
                if self.read_overflow_flag() {
                    self.pc = addr;
                    2 + cyc
                } else {
                    1 + cyc
                }
            },
            Opcode::PHA => {
                let a = self.a;
                self.stack_push(system, a);
                3
            },
            Opcode::PHP => {
                let p = self.p;
                self.stack_push(system, p);
                3
            },
            Opcode::PLA => {
                let result = self.stack_pop(system);
                self.update_zero_negative(result);
                self.a = result;
                4
            },
            Opcode::PLP => {
                self.p = self.stack_pop(system);
                4
            },
            Opcode::TAX => {
                let value = self.a;
                self.update_zero_negative(value);
                self.x = value;
                2
            },
            Opcode::TAY => {
                let value = self.a;
                self.update_zero_negative(value);
                self.y = value;
                2
            },
            Opcode::TSX => {
                let result = (self.s & 0xff) as u8;
                self.update_zero_negative(result);
                self.x = result;
                2
            },
            Opcode::TXA => {
                let value = self.x;
                self.update_zero_negative(value);
                self.a = value;
                2
            },
            Opcode::TXS => {
                self.s = u16::from(self.x) | 0x0100u16;
                proof {
                    lemma_txs_in_page(old(self).x);
                }
                2
            },
            Opcode::TYA => {
                let value = self.y;
                self.update_zero_negative(value);
                self.a = value;
                2
            },
            Opcode::SEC => {
                self.write_carry_flag(true);
                2
            },
            Opcode::SED => {
                self.write_decimal_flag(true);
                2
            },
            Opcode::SEI => {
                self.write_interrupt_flag(true);
                2
            },
            Opcode::CLC => {
                self.write_carry_flag(false);
                2
            },
            Opcode::CLD => {
                self.write_decimal_flag(false);
                2
            },
            Opcode::CLI => {
                self.write_interrupt_flag(false);
                2
            },
            Opcode::CLV => {
                self.write_overflow_flag(false);
                2
            },
            Opcode::INX => {
                let result = self.x.wrapping_add(1);
                self.update_zero_negative(result);
                self.x = result;
                2
            },
            Opcode::INY => {
                let result = self.y.wrapping_add(1);
                self.update_zero_negative(result);
                self.y = result;
                2
            },
            Opcode::DEX => {
                let result = self.x.wrapping_sub(1);
                self.update_zero_negative(result);
                self.x = result;
                2
            },
            Opcode::DEY => {
                let result = self.y.wrapping_sub(1);
                self.update_zero_negative(result);
                self.y = result;
                2
            },
            Opcode::BRK => {
                self.write_break_flag(true);
                self.interrupt(system, Interrupt::BRK);
                7
            },
            Opcode::NOP => {
                2
            },
            _ => vstd::pervasive::unreached(),
        }
    }
}

/// Arithmetic, logic and compare: read an operand, update registers and flags.
pub open spec fn is_binary_op(opcode: Opcode) -> bool {
    ||| opcode == Opcode::ADC
    ||| opcode == Opcode::SBC
    ||| opcode == Opcode::AND
    ||| opcode == Opcode::EOR
    ||| opcode == Opcode::ORA
    ||| opcode == Opcode::CMP
    ||| opcode == Opcode::CPX
    ||| opcode == Opcode::CPY
}

/// Loads and the fused immediate operations, plus the multi-byte no-ops.
pub open spec fn is_load_op(opcode: Opcode) -> bool {
    ||| opcode == Opcode::LDA
    ||| opcode == Opcode::LDX
    ||| opcode == Opcode::LDY
    ||| opcode == Opcode::LAX
    ||| opcode == Opcode::ALR
    ||| opcode == Opcode::ANC
    ||| opcode == Opcode::ARR
    ||| opcode == Opcode::AXS
    ||| opcode == Opcode::SKB
    ||| opcode == Opcode::IGN
}

/// Shift, rotate, increment and decrement: the result returns to the accumulator or to memory.
pub open spec fn is_shift_step_op(opcode: Opcode) -> bool {
    ||| opcode == Opcode::ASL
    ||| opcode == Opcode::LSR
    ||| opcode == Opcode::ROL
    ||| opcode == Opcode::ROR
    ||| opcode == Opcode::INC
    ||| opcode == Opcode::DEC
}

/// Stores and the bit test.
pub open spec fn is_store_op(opcode: Opcode) -> bool {
    ||| opcode == Opcode::STA
    ||| opcode == Opcode::STX
    ||| opcode == Opcode::STY
    ||| opcode == Opcode::SAX
    ||| opcode == Opcode::BIT
}

/// The fused read-modify-write operations: a canonical memory step followed by a canonical accumulator step.
pub open spec fn is_fused_rmw_op(opcode: Opcode) -> bool {
    ||| opcode == Opcode::DCP
    ||| opcode == Opcode::ISC
    ||| opcode == Opcode::RLA
    ||| opcode == Opcode::RRA
    ||| opcode == Opcode::SLO
    ||| opcode == Opcode::SRE
}

/// Jumps, branches, stack and transfer operations, flag changes, break, and the plain no-op.
pub open spec fn is_control_op(opcode: Opcode) -> bool {
    ||| opcode == Opcode::JMP
    ||| opcode == Opcode::JSR
    ||| opcode == Opcode::RTI
    ||| opcode == Opcode::RTS
    ||| opcode == Opcode::BCC
    ||| opcode == Opcode::BCS
    ||| opcode == Opcode::BEQ
    ||| opcode == Opcode::BNE
    ||| opcode == Opcode::BMI
    ||| opcode == Opcode::BPL
    ||| opcode == Opcode::BVC
    ||| opcode == Opcode::BVS
    ||| opcode == Opcode::PHA
    ||| opcode == Opcode::PHP
    ||| opcode == Opcode::PLA
    ||| opcode == Opcode::PLP
    ||| opcode == Opcode::TAX
    ||| opcode == Opcode::TAY
    ||| opcode == Opcode::TSX
    ||| opcode == Opcode::TXA
    ||| opcode == Opcode::TXS
    ||| opcode == Opcode::TYA
    ||| opcode == Opcode::SEC
    ||| opcode == Opcode::SED
    ||| opcode == Opcode::SEI
    ||| opcode == Opcode::CLC
    ||| opcode == Opcode::CLD
    ||| opcode == Opcode::CLI
    ||| opcode == Opcode::CLV
    ||| opcode == Opcode::INX
    ||| opcode == Opcode::INY
    ||| opcode == Opcode::DEX
    ||| opcode == Opcode::DEY
    ||| opcode == Opcode::BRK
    ||| opcode == Opcode::NOP
}

/// The decode table pairs an unconditional jump only with the absolute
/// and indirect modes, so its cycle cost is never zero.
pub proof fn lemma_decode_jmp(code: u8)
    ensures
        (match decode_spec(code) {
            Some(inst) => inst.0 == Opcode::JMP ==> (inst.1 == AddressingMode::Absolute || inst.1
                == AddressingMode::Indirect),
            None => true,
        }),
{
}

/// Stepping the stack pointer down and back up returns it to where it
/// was, the pointer moves to a different cell each time, and three
/// pushes land on three distinct cells.
pub proof fn lemma_stack_cells(s: u16)
    by (bit_vector)
    requires
        s & 0xff00 == 0x0100,
    ensures
        stack_inc(stack_dec(s)) == s,
        stack_dec(s) != s,
        stack_dec(stack_dec(s)) != s,
        stack_dec(s) & 0xff00 == 0x0100,
{
}

/// The stack is last-in first-out: pushing bytes in order and then
/// popping three times yields them in reverse. The pushed cells and the
/// popped cells are exactly the ones `stack_push` writes and `stack_pop`
/// reads, for any stack pointer in the fixed page.
pub proof fn lemma_stack_lifo(s: u16, wram: Seq<u8>, byte1: u8, byte2: u8, byte3: u8)
    requires
        s & 0xff00 == 0x0100,
        wram.len() == crate::system::WRAM_SIZE,
    ensures
        ({
            let s1 = stack_dec(s);
            let s2 = stack_dec(s1);
            let s3 = stack_dec(s2);
            let pushed = wram.update(s as int, byte1).update(s1 as int, byte2).update(
                s2 as int,
                byte3,
            );
            &&& stack_inc(s3) == s2 && stack_inc(s2) == s1 && stack_inc(s1) == s
            &&& pushed[stack_inc(s3) as int] == byte3
            &&& pushed[stack_inc(s2) as int] == byte2
            &&& pushed[stack_inc(s1) as int] == byte1
        }),
{
    let s1 = stack_dec(s);
    let s2 = stack_dec(s1);
    lemma_stack_cells(s);
    lemma_stack_cells(s1);
    lemma_stack_cells(s2);
    lemma_stack_page(s);
    lemma_stack_page(s1);
    lemma_stack_page(s2);
}

} // verus!
