//! The register file: eight 8-bit registers, two 16-bit registers, and the
//! paired 16-bit views AF, BC, DE and HL composed from two 8-bit halves.

use crate::flags::{spec_flags_from_byte, spec_flags_to_byte, Flags};
use vstd::prelude::*;

verus! {

/// Selector for an 8-bit register operand. The flag register has no selector:
/// instructions reach it only through the AF view or as flag side effects.
#[derive(Clone, Copy, Debug)]
pub enum U8Register {
    A,
    B,
    C,
    D,
    E,
    H,
    L,
}

/// Selector for a 16-bit register operand of the arithmetic and load
/// instructions.
#[derive(Clone, Copy, Debug)]
pub enum U16Register {
    BC,
    DE,
    HL,
    SP,
}

/// The CPU register file. All arithmetic on these registers wraps modulo
/// 2^8 or 2^16, as the emulated hardware does.
#[derive(Clone, Copy, Debug, PartialEq, Eq, Structural)]
pub struct Registers {
    pub a: u8,
    pub b: u8,
    pub c: u8,
    pub d: u8,
    pub e: u8,
    pub f: Flags,
    pub h: u8,
    pub l: u8,
    pub sp: u16,
    pub pc: u16,
}

/// The 16-bit value with high byte `hi` and low byte `lo`.
pub open spec fn spec_u16_from_bytes(hi: u8, lo: u8) -> u16 {
    (hi as u16) << 8 | (lo as u16)
}

/// The high byte of a 16-bit value.
pub open spec fn spec_hi_byte(value: u16) -> u8 {
    (value >> 8) as u8
}

/// The low byte of a 16-bit value.
pub open spec fn spec_lo_byte(value: u16) -> u8 {
    (value & 0xFF) as u8
}

/// The AF view: A is the high byte, the packed flags byte the low byte.
pub open spec fn spec_af(r: Registers) -> u16 {
    spec_u16_from_bytes(r.a, spec_flags_to_byte(r.f))
}

/// The BC view.
pub open spec fn spec_bc(r: Registers) -> u16 {
    spec_u16_from_bytes(r.b, r.c)
}

/// The DE view.
pub open spec fn spec_de(r: Registers) -> u16 {
    spec_u16_from_bytes(r.d, r.e)
}

/// The HL view.
pub open spec fn spec_hl(r: Registers) -> u16 {
    spec_u16_from_bytes(r.h, r.l)
}

/// The register file after writing `value` through the AF view: the high byte
/// lands in A, the low byte is re-normalized through the flags mapping, so
/// only its high nibble survives.
pub open spec fn spec_set_af(r: Registers, value: u16) -> Registers {
    Registers {
        a: spec_hi_byte(value),
        f: spec_flags_from_byte(spec_lo_byte(value)),
        ..r
    }
}

/// The register file after writing `value` through the BC view.
pub open spec fn spec_set_bc(r: Registers, value: u16) -> Registers {
    Registers { b: spec_hi_byte(value), c: spec_lo_byte(value), ..r }
}

/// The register file after writing `value` through the DE view.
pub open spec fn spec_set_de(r: Registers, value: u16) -> Registers {
    Registers { d: spec_hi_byte(value), e: spec_lo_byte(value), ..r }
}

/// The register file after writing `value` through the HL view.
pub open spec fn spec_set_hl(r: Registers, value: u16) -> Registers {
    Registers { h: spec_hi_byte(value), l: spec_lo_byte(value), ..r }
}

/// The value of the 8-bit register that `id` selects.
pub open spec fn spec_read_u8(r: Registers, id: U8Register) -> u8 {
    match id {
        U8Register::A => r.a,
        U8Register::B => r.b,
        U8Register::C => r.c,
        U8Register::D => r.d,
        U8Register::E => r.e,
        U8Register::H => r.h,
        U8Register::L => r.l,
    }
}

/// The register file after overwriting the 8-bit register that `id` selects.
pub open spec fn spec_write_u8(r: Registers, id: U8Register, value: u8) -> Registers {
    match id {
        U8Register::A => Registers { a: value, ..r },
        U8Register::B => Registers { b: value, ..r },
        U8Register::C => Registers { c: value, ..r },
        U8Register::D => Registers { d: value, ..r },
        U8Register::E => Registers { e: value, ..r },
        U8Register::H => Registers { h: value, ..r },
        U8Register::L => Registers { l: value, ..r },
    }
}

/// The value of the 16-bit register that `id` selects.
pub open spec fn spec_read_u16(r: Registers, id: U16Register) -> u16 {
    match id {
        U16Register::BC => spec_bc(r),
        U16Register::DE => spec_de(r),
        U16Register::HL => spec_hl(r),
        U16Register::SP => r.sp,
    }
}

/// The register file after overwriting the 16-bit register that `id` selects.
pub open spec fn spec_write_u16(r: Registers, id: U16Register, value: u16) -> Registers {
    match id {
        U16Register::BC => spec_set_bc(r, value),
        U16Register::DE => spec_set_de(r, value),
        U16Register::HL => spec_set_hl(r, value),
        U16Register::SP => Registers { sp: value, ..r },
    }
}

/// Composing a 16-bit value from its own two bytes gives the value back.
pub proof fn lemma_u16_bytes_round_trip(value: u16)
    ensures
        spec_u16_from_bytes(spec_hi_byte(value), spec_lo_byte(value)) == value,
{
    assert((((value >> 8) as u8 as u16) << 8 | ((value & 0xFF) as u8 as u16)) == value)
        by (bit_vector);
}

/// Writing any 16-bit register through its selector and reading it back
/// through the same selector yields the written value unchanged.
pub proof fn lemma_write_read_u16_round_trip(r: Registers, id: U16Register, value: u16)
    ensures
        spec_read_u16(spec_write_u16(r, id, value), id) == value,
{
    lemma_u16_bytes_round_trip(value);
}

/// Writing the AF view and reading it back yields the written value with its
/// low nibble cleared: the low byte passes through the flags mapping, which
/// keeps only the four flag bits.
pub proof fn lemma_set_af_af_round_trip(r: Registers, value: u16)
    ensures
        spec_af(spec_set_af(r, value)) == (value & 0xFF00) | (value & 0x00F0),
{
    crate::flags::lemma_flags_byte_round_trip(spec_lo_byte(value));
    assert((((value >> 8) as u8 as u16) << 8 | (((value & 0xFF) as u8 & 0xF0u8) as u16)) == (
    (value & 0xFF00) | (value & 0x00F0))) by (bit_vector);
}

/// The high byte of a 16-bit value, as an executable function.
fn hi_byte(value: u16) -> (hi: u8)
    ensures
        hi == spec_hi_byte(value),
{
    proof {
        assert(value >> 8 < 0x100) by (bit_vector);
    }
    (value >> 8) as u8
}

/// The low byte of a 16-bit value, as an executable function.
fn lo_byte(value: u16) -> (lo: u8)
    ensures
        lo == spec_lo_byte(value),
{
    proof {
        assert(value & 0xFF < 0x100) by (bit_vector);
    }
    (value & 0xFF) as u8
}

/// The 16-bit value with high byte `hi` and low byte `lo`, as an executable
/// function.
fn u16_from_bytes(hi: u8, lo: u8) -> (value: u16)
    ensures
        value == spec_u16_from_bytes(hi, lo),
{
    (hi as u16) << 8 | (lo as u16)
}

/// The power-on register file: every register zero, every flag clear.
pub open spec fn spec_registers_default() -> Registers {
    Registers {
        a: 0,
        b: 0,
        c: 0,
        d: 0,
        e: 0,
        f: Flags { zero: false, subtraction: false, half_carry: false, carry: false },
        h: 0,
        l: 0,
        sp: 0,
        pc: 0,
    }
}

impl Default for Registers {
    /// All registers zero, all flags clear.
    fn default() -> (r: Self)
        ensures
            r == spec_registers_default(),
    {
        Registers {
            a: 0,
            b: 0,
            c: 0,
            d: 0,
            e: 0,
            f: Flags { zero: false, subtraction: false, half_carry: false, carry: false },
            h: 0,
            l: 0,
            sp: 0,
            pc: 0,
        }
    }
}

impl Registers {
    /// The combined AF value: A above the packed flags byte.
    pub fn af(&self) -> (value: u16)
        ensures
            value == spec_af(*self),
    {
        u16_from_bytes(self.a, u8::from(self.f))
    }

    /// Writes a 16-bit value through the AF view. The low byte is passed
    /// through the flags mapping, so only its high nibble is kept.
    pub fn set_af(&mut self, value: u16)
        ensures
            *final(self) == spec_set_af(*old(self), value),
    {
        self.a = hi_byte(value);
        self.f = Flags::from(lo_byte(value));
    }

    /// The combined BC value.
    pub fn bc(&self) -> (value: u16)
        ensures
            value == spec_bc(*self),
    {
        u16_from_bytes(self.b, self.c)
    }

    /// Writes a 16-bit value through the BC view.
    pub fn set_bc(&mut self, value: u16)
        ensures
            *final(self) == spec_set_bc(*old(self), value),
    {
        self.b = hi_byte(value);
        self.c = lo_byte(value);
    }

    /// The combined DE value.
    pub fn de(&self) -> (value: u16)
        ensures
            value == spec_de(*self),
    {
        u16_from_bytes(self.d, self.e)
    }

    /// Writes a 16-bit value through the DE view.
    pub fn set_de(&mut self, value: u16)
        ensures
            *final(self) == spec_set_de(*old(self), value),
    {
        self.d = hi_byte(value);
        self.e = lo_byte(value);
    }

    /// The combined HL value.
    pub fn hl(&self) -> (value: u16)
        ensures
            value == spec_hl(*self),
    {
        u16_from_bytes(self.h, self.l)
    }

    /// Writes a 16-bit value through the HL view.
    pub fn set_hl(&mut self, value: u16)
        ensures
            *final(self) == spec_set_hl(*old(self), value),
    {
        self.h = hi_byte(value);
        self.l = lo_byte(value);
    }

    /// The value of the 8-bit register that `id` selects.
    pub fn read_u8(&self, id: U8Register) -> (value: u8)
        ensures
            value == spec_read_u8(*self, id),
    {
        match id {
            U8Register::A => self.a,
            U8Register::B => self.b,
            U8Register::C => self.c,
            U8Register::D => self.d,
            U8Register::E => self.e,
            U8Register::H => self.h,
            U8Register::L => self.l,
        }
    }

    /// Overwrites the 8-bit register that `id` selects.
    pub fn write_u8(&mut self, id: U8Register, value: u8)
        ensures
            *final(self) == spec_write_u8(*old(self), id, value),
    {
        match id {
            U8Register::A => self.a = value,
            U8Register::B => self.b = value,
            U8Register::C => self.c = value,
            U8Register::D => self.d = value,
            U8Register::E => self.e = value,
            U8Register::H => self.h = value,
            U8Register::L => self.l = value,
        }
    }

    /// The value of the 16-bit register that `id` selects.
    pub fn read_u16(&self, id: U16Register) -> (value: u16)
        ensures
            value == spec_read_u16(*self, id),
    {
        match id {
            U16Register::BC => self.bc(),
            U16Register::DE => self.de(),
            U16Register::HL => self.hl(),
            U16Register::SP => self.sp,
        }
    }

    /// Overwrites the 16-bit register that `id` selects.
    pub fn write_u16(&mut self, id: U16Register, value: u16)
        ensures
            *final(self) == spec_write_u16(*old(self), id, value),
    {
        match id {
            U16Register::BC => self.set_bc(value),
            U16Register::DE => self.set_de(value),
            U16Register::HL => self.set_hl(value),
            U16Register::SP => self.sp = value,
        }
    }
}

} // verus!
