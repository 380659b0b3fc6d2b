//! The CPU core: instruction operations that mutate the register file given
//! already-resolved operands, with bit-exact flag semantics.

use crate::flags::Flags;
use crate::registers::{
    spec_hl, spec_read_u16, spec_read_u8, spec_registers_default, spec_set_hl, spec_write_u16,
    spec_write_u8, Registers, U16Register, U8Register,
};
use vstd::prelude::*;

verus! {

/// A CPU core: one register file, mutated in place by the instruction
/// operations below. An external dispatcher decodes opcodes, resolves
/// operands, calls an operation, and observes the effect by reading
/// `registers` afterward.
#[derive(Debug)]
pub struct Cpu {
    pub registers: Registers,
}

/// `x` reduced modulo 2^8 into a byte, for `x` within one wrap of the byte
/// range (enough for every 8-bit instruction: one add or one subtract).
pub open spec fn wrap8(x: int) -> u8
    recommends
        -0x100 <= x < 0x200,
{
    if x < 0 {
        (x + 0x100) as u8
    } else if x > 0xFF {
        (x - 0x100) as u8
    } else {
        x as u8
    }
}

/// `x` reduced modulo 2^16 into a 16-bit word, for `x` within one wrap of
/// the 16-bit range.
pub open spec fn wrap16(x: int) -> u16
    recommends
        -0x10000 <= x < 0x20000,
{
    if x < 0 {
        (x + 0x10000) as u16
    } else if x > 0xFFFF {
        (x - 0x10000) as u16
    } else {
        x as u16
    }
}

/// The current carry flag as the 0-or-1 summand of `adc` and `sbc`.
pub open spec fn spec_carry_in(f: Flags) -> int {
    if f.carry {
        1
    } else {
        0
    }
}

/// An 8-bit signed operand sign-extended to 16 bits, two's complement.
pub open spec fn spec_sign_extend(v: i8) -> u16 {
    if v >= 0 {
        v as u16
    } else {
        (v + 0x10000) as u16
    }
}

/// `ld`: the selected 8-bit register overwritten; no flag effects.
pub open spec fn spec_ld(r: Registers, id: U8Register, val: u8) -> Registers {
    spec_write_u8(r, id, val)
}

/// `ldi`: the 8-bit write of `ld`, then HL incremented by 1, wrapping.
pub open spec fn spec_ldi(r: Registers, id: U8Register, val: u8) -> Registers {
    let r1 = spec_write_u8(r, id, val);
    spec_set_hl(r1, wrap16(spec_hl(r1) + 1))
}

/// `ldd`: the 8-bit write of `ld`, then HL decremented by 1, wrapping.
pub open spec fn spec_ldd(r: Registers, id: U8Register, val: u8) -> Registers {
    let r1 = spec_write_u8(r, id, val);
    spec_set_hl(r1, wrap16(spec_hl(r1) - 1))
}

/// `ld_u16`: the selected 16-bit register overwritten; no flag effects.
pub open spec fn spec_ld_u16(r: Registers, id: U16Register, val: u16) -> Registers {
    spec_write_u16(r, id, val)
}

/// `add`: A + v wrapping; zero and carry from the result, half-carry from
/// the low nibbles of the operands, subtraction cleared.
pub open spec fn spec_add(r: Registers, val: u8) -> Registers {
    let sum = r.a + val;
    let new_a = wrap8(sum);
    Registers {
        a: new_a,
        f: Flags {
            zero: new_a == 0,
            subtraction: false,
            half_carry: (r.a & 0x0F) + (val & 0x0F) > 0x0F,
            carry: sum > 0xFF,
        },
        ..r
    }
}

/// `adc`: A + v + carry wrapping; flags as `add`, with the carry-in joining
/// both the nibble test and the overflow test.
pub open spec fn spec_adc(r: Registers, val: u8) -> Registers {
    let c = spec_carry_in(r.f);
    let sum = r.a + val + c;
    let new_a = wrap8(sum);
    Registers {
        a: new_a,
        f: Flags {
            zero: new_a == 0,
            subtraction: false,
            half_carry: (r.a & 0x0F) + (val & 0x0F) + c > 0x0F,
            carry: sum > 0xFF,
        },
        ..r
    }
}

/// `sub`: A - v wrapping; carry is the unsigned underflow of the subtraction,
/// half-carry the underflow of the low nibbles, subtraction set.
pub open spec fn spec_sub(r: Registers, val: u8) -> Registers {
    let new_a = wrap8(r.a - val);
    Registers {
        a: new_a,
        f: Flags {
            zero: new_a == 0,
            subtraction: true,
            half_carry: (r.a & 0x0F) < (val & 0x0F),
            carry: val > r.a,
        },
        ..r
    }
}

/// `sbc`: A + v + carry via wrapping addition, mirroring `adc`'s add-based
/// formulation, but with subtraction set and the half-carry stated as the
/// nibble underflow test.
pub open spec fn spec_sbc(r: Registers, val: u8) -> Registers {
    let c = spec_carry_in(r.f);
    let sum = r.a + val + c;
    let new_a = wrap8(sum);
    Registers {
        a: new_a,
        f: Flags {
            zero: new_a == 0,
            subtraction: true,
            half_carry: (r.a & 0x0F) < (val & 0x0F) + c,
            carry: sum > 0xFF,
        },
        ..r
    }
}

/// `and`: A & v; half-carry set, carry cleared.
pub open spec fn spec_and(r: Registers, val: u8) -> Registers {
    let new_a = r.a & val;
    Registers {
        a: new_a,
        f: Flags { zero: new_a == 0, subtraction: false, half_carry: true, carry: false },
        ..r
    }
}

/// `xor`: A ^ v; half-carry and carry cleared.
pub open spec fn spec_xor(r: Registers, val: u8) -> Registers {
    let new_a = r.a ^ val;
    Registers {
        a: new_a,
        f: Flags { zero: new_a == 0, subtraction: false, half_carry: false, carry: false },
        ..r
    }
}

/// `or`: A | v; half-carry and carry cleared.
pub open spec fn spec_or(r: Registers, val: u8) -> Registers {
    let new_a = r.a | val;
    Registers {
        a: new_a,
        f: Flags { zero: new_a == 0, subtraction: false, half_carry: false, carry: false },
        ..r
    }
}

/// `cp`: the flags of `sub`, with A left unchanged.
pub open spec fn spec_cp(r: Registers, val: u8) -> Registers {
    Registers {
        f: Flags {
            zero: wrap8(r.a - val) == 0,
            subtraction: true,
            half_carry: (r.a & 0x0F) < (val & 0x0F),
            carry: val > r.a,
        },
        ..r
    }
}

/// `inc`: the selected register + 1 wrapping; carry untouched.
pub open spec fn spec_inc(r: Registers, id: U8Register) -> Registers {
    let x = spec_read_u8(r, id);
    let new_x = wrap8(x + 1);
    Registers {
        f: Flags {
            zero: new_x == 0,
            subtraction: false,
            half_carry: (x & 0x0F) + 1 > 0x0F,
            carry: r.f.carry,
        },
        ..spec_write_u8(r, id, new_x)
    }
}

/// `dec`: the selected register - 1 wrapping; carry untouched, half-carry
/// the underflow of the low nibble.
pub open spec fn spec_dec(r: Registers, id: U8Register) -> Registers {
    let x = spec_read_u8(r, id);
    let new_x = wrap8(x - 1);
    Registers {
        f: Flags {
            zero: new_x == 0,
            subtraction: true,
            half_carry: x & 0x0F == 0,
            carry: r.f.carry,
        },
        ..spec_write_u8(r, id, new_x)
    }
}

/// The decimal-adjust correction term: 0x60 when carry is set or A exceeds
/// 0x9F, plus 0x06 when half-carry is set or the low nibble exceeds 0x09,
/// both judged on the pre-correction accumulator.
pub open spec fn spec_daa_adjust(r: Registers) -> int {
    (if r.f.carry || r.a > 0x9F {
        0x60int
    } else {
        0int
    }) + (if r.f.half_carry || r.a & 0x0F > 0x09 {
        0x06int
    } else {
        0int
    })
}

/// `daa`: the correction term subtracted from A after a subtraction, added
/// otherwise, wrapping; then carry = (A > 0x99) and zero = (A == 0) on the
/// corrected value; subtraction and half-carry untouched.
pub open spec fn spec_daa(r: Registers) -> Registers {
    let adjust = spec_daa_adjust(r);
    let new_a = if r.f.subtraction {
        wrap8(r.a - adjust)
    } else {
        wrap8(r.a + adjust)
    };
    Registers {
        a: new_a,
        f: Flags {
            zero: new_a == 0,
            subtraction: r.f.subtraction,
            half_carry: r.f.half_carry,
            carry: new_a > 0x99,
        },
        ..r
    }
}

/// `cpl`: A complemented; subtraction and half-carry forced set, zero and
/// carry untouched.
pub open spec fn spec_cpl(r: Registers) -> Registers {
    Registers {
        a: r.a ^ 0xFF,
        f: Flags { zero: r.f.zero, subtraction: true, half_carry: true, carry: r.f.carry },
        ..r
    }
}

/// `add_HL`: HL + the selected pair, wrapping; half-carry on the bit-12
/// boundary, carry the 16-bit overflow, zero untouched.
pub open spec fn spec_add_hl(r: Registers, id: U16Register) -> Registers {
    let hl = spec_hl(r);
    let v = spec_read_u16(r, id);
    let sum = hl + v;
    Registers {
        f: Flags {
            zero: r.f.zero,
            subtraction: false,
            half_carry: (hl & 0x0F00) + (v & 0x0F00) > 0x0F00,
            carry: sum > 0xFFFF,
        },
        ..spec_set_hl(r, wrap16(sum))
    }
}

/// `inc_u16`: the selected pair + 1 wrapping; no flag effects.
pub open spec fn spec_inc_u16(r: Registers, id: U16Register) -> Registers {
    spec_write_u16(r, id, wrap16(spec_read_u16(r, id) + 1))
}

/// `dec_u16`: the selected pair - 1 wrapping; no flag effects.
pub open spec fn spec_dec_u16(r: Registers, id: U16Register) -> Registers {
    spec_write_u16(r, id, wrap16(spec_read_u16(r, id) - 1))
}

/// `add_SP`: SP + the sign-extended operand, wrapping; zero and subtraction
/// cleared, half-carry and carry computed as in `add_HL`.
pub open spec fn spec_add_sp(r: Registers, val: i8) -> Registers {
    let o = spec_sign_extend(val);
    let sum = r.sp + o;
    Registers {
        sp: wrap16(sum),
        f: Flags {
            zero: false,
            subtraction: false,
            half_carry: (r.sp & 0x0F00) + (o & 0x0F00) > 0x0F00,
            carry: sum > 0xFFFF,
        },
        ..r
    }
}

/// `ld_HL`: the computation of `add_SP`, its result written into HL instead,
/// SP unchanged, flags computed identically.
pub open spec fn spec_ld_hl(r: Registers, val: i8) -> Registers {
    let o = spec_sign_extend(val);
    let sum = r.sp + o;
    Registers {
        f: Flags {
            zero: false,
            subtraction: false,
            half_carry: (r.sp & 0x0F00) + (o & 0x0F00) > 0x0F00,
            carry: sum > 0xFFFF,
        },
        ..spec_set_hl(r, wrap16(sum))
    }
}

/// A second `or` of zero right after a first one is a no-op: the accumulator
/// keeps its value and every flag is recomputed to the same value.
pub proof fn lemma_or_zero_idempotent(r: Registers)
    ensures
        spec_or(spec_or(r, 0), 0) == spec_or(r, 0),
{
    let a = r.a;
    assert(a | 0u8 == a) by (bit_vector);
}

proof fn lemma_low_nibble_bound(x: u8)
    ensures
        x & 0x0F <= 0x0F,
{
    assert(x & 0x0F <= 0x0F) by (bit_vector);
}

proof fn lemma_bit12_mask_bound(x: u16)
    ensures
        x & 0x0F00 <= 0x0F00,
{
    assert(x & 0x0F00 <= 0x0F00) by (bit_vector);
}

impl Default for Cpu {
    /// A CPU in its power-on state: every register zero, every flag clear.
    fn default() -> (cpu: Self)
        ensures
            cpu.registers == spec_registers_default(),
    {
        Cpu { registers: Registers::default() }
    }
}

impl Cpu {
    /// 8-bit load: overwrites the selected register with `val`.
    pub fn ld(&mut self, id: U8Register, val: u8)
        ensures
            final(self).registers == spec_ld(old(self).registers, id, val),
    {
        self.registers.write_u8(id, val);
    }

    /// Load-and-increment: the write of `ld`, then HL incremented, wrapping.
    pub fn ldi(&mut self, id: U8Register, val: u8)
        ensures
            final(self).registers == spec_ldi(old(self).registers, id, val),
    {
        self.registers.write_u8(id, val);
        let hl = self.registers.hl();
        let new_hl: u16 = if hl == 0xFFFF {
            0
        } else {
            hl + 1
        };
        self.registers.set_hl(new_hl);
    }

    /// Load-and-decrement: the write of `ld`, then HL decremented, wrapping.
    pub fn ldd(&mut self, id: U8Register, val: u8)
        ensures
            final(self).registers == spec_ldd(old(self).registers, id, val),
    {
        self.registers.write_u8(id, val);
        let hl = self.registers.hl();
        let new_hl: u16 = if hl == 0 {
            0xFFFF
        } else {
            hl - 1
        };
        self.registers.set_hl(new_hl);
    }

    /// 16-bit load: overwrites the selected pair or SP with `val`.
    pub fn ld_u16(&mut self, id: U16Register, val: u16)
        ensures
            final(self).registers == spec_ld_u16(old(self).registers, id, val),
    {
        self.registers.write_u16(id, val);
    }

    /// Adds `val` to the accumulator, wrapping, and sets all four flags.
    pub fn add(&mut self, val: u8)
        ensures
            final(self).registers == spec_add(old(self).registers, val),
    {
        let a = self.registers.a;
        let sum: u16 = a as u16 + val as u16;
        let new_a: u16 = if sum > 0xFF {
            sum - 0x100
        } else {
            sum
        };
        proof {
            lemma_low_nibble_bound(a);
            lemma_low_nibble_bound(val);
        }
        self.registers.f.zero = new_a == 0;
        self.registers.f.subtraction = false;
        self.registers.f.half_carry = (a & 0x0F) + (val & 0x0F) > 0x0F;
        self.registers.f.carry = sum > 0xFF;
        self.registers.a = new_a as u8;
    }

    /// Adds `val` and the current carry flag to the accumulator, wrapping,
    /// and sets all four flags.
    pub fn adc(&mut self, val: u8)
        ensures
            final(self).registers == spec_adc(old(self).registers, val),
    {
        let a = self.registers.a;
        let carry_in: u8 = if self.registers.f.carry {
            1
        } else {
            0
        };
        let sum: u16 = a as u16 + val as u16 + carry_in as u16;
        let new_a: u16 = if sum > 0xFF {
            sum - 0x100
        } else {
            sum
        };
        proof {
            lemma_low_nibble_bound(a);
            lemma_low_nibble_bound(val);
        }
        self.registers.f.zero = new_a == 0;
        self.registers.f.subtraction = false;
        self.registers.f.half_carry = (a & 0x0F) + (val & 0x0F) + carry_in > 0x0F;
        self.registers.f.carry = sum > 0xFF;
        self.registers.a = new_a as u8;
    }

    /// Subtracts `val` from the accumulator, wrapping, and sets all four
    /// flags; carry is the unsigned underflow.
    pub fn sub(&mut self, val: u8)
        ensures
            final(self).registers == spec_sub(old(self).registers, val),
    {
        let a = self.registers.a;
        let new_a: u8 = if val > a {
            (a as u16 + 0x100 - val as u16) as u8
        } else {
            a - val
        };
        self.registers.f.zero = new_a == 0;
        self.registers.f.subtraction = true;
        self.registers.f.half_carry = (a & 0x0F) < (val & 0x0F);
        self.registers.f.carry = val > a;
        self.registers.a = new_a;
    }

    /// Subtract-with-carry, computed as A + v + carry via wrapping addition
    /// (mirroring `adc`), with subtraction set and the half-carry stated as
    /// the nibble underflow test.
    pub fn sbc(&mut self, val: u8)
        ensures
            final(self).registers == spec_sbc(old(self).registers, val),
    {
        let a = self.registers.a;
        let carry_in: u8 = if self.registers.f.carry {
            1
        } else {
            0
        };
        let sum: u16 = a as u16 + val as u16 + carry_in as u16;
        let new_a: u16 = if sum > 0xFF {
            sum - 0x100
        } else {
            sum
        };
        proof {
            lemma_low_nibble_bound(val);
        }
        self.registers.f.zero = new_a == 0;
        self.registers.f.subtraction = true;
        self.registers.f.half_carry = (a & 0x0F) < (val & 0x0F) + carry_in;
        self.registers.f.carry = sum > 0xFF;
        self.registers.a = new_a as u8;
    }

    /// Bitwise AND into the accumulator; half-carry set, carry cleared.
    pub fn and(&mut self, val: u8)
        ensures
            final(self).registers == spec_and(old(self).registers, val),
    {
        let new_a = self.registers.a & val;
        self.registers.a = new_a;
        self.registers.f.zero = new_a == 0;
        self.registers.f.subtraction = false;
        self.registers.f.half_carry = true;
        self.registers.f.carry = false;
    }

    /// Bitwise XOR into the accumulator; half-carry and carry cleared.
    pub fn xor(&mut self, val: u8)
        ensures
            final(self).registers == spec_xor(old(self).registers, val),
    {
        let new_a = self.registers.a ^ val;
        self.registers.a = new_a;
        self.registers.f.zero = new_a == 0;
        self.registers.f.subtraction = false;
        self.registers.f.half_carry = false;
        self.registers.f.carry = false;
    }

    /// Bitwise OR into the accumulator; half-carry and carry cleared.
    pub fn or(&mut self, val: u8)
        ensures
            final(self).registers == spec_or(old(self).registers, val),
    {
        let new_a = self.registers.a | val;
        self.registers.a = new_a;
        self.registers.f.zero = new_a == 0;
        self.registers.f.subtraction = false;
        self.registers.f.half_carry = false;
        self.registers.f.carry = false;
    }

    /// Compare: the flags of `sub`, with the accumulator left unchanged.
    pub fn cp(&mut self, val: u8)
        ensures
            final(self).registers == spec_cp(old(self).registers, val),
    {
        let a = self.registers.a;
        let diff: u8 = if val > a {
            (a as u16 + 0x100 - val as u16) as u8
        } else {
            a - val
        };
        self.registers.f.zero = diff == 0;
        self.registers.f.subtraction = true;
        self.registers.f.half_carry = (a & 0x0F) < (val & 0x0F);
        self.registers.f.carry = val > a;
    }

    /// Increments the selected 8-bit register, wrapping; carry untouched.
    pub fn inc(&mut self, id: U8Register)
        ensures
            final(self).registers == spec_inc(old(self).registers, id),
    {
        let x = self.registers.read_u8(id);
        let new_x: u8 = if x == 0xFF {
            0
        } else {
            x + 1
        };
        proof {
            lemma_low_nibble_bound(x);
        }
        self.registers.f.zero = new_x == 0;
        self.registers.f.subtraction = false;
        self.registers.f.half_carry = (x & 0x0F) + 1 > 0x0F;
        self.registers.write_u8(id, new_x);
    }

    /// Decrements the selected 8-bit register, wrapping; carry untouched.
    pub fn dec(&mut self, id: U8Register)
        ensures
            final(self).registers == spec_dec(old(self).registers, id),
    {
        let x = self.registers.read_u8(id);
        let new_x: u8 = if x == 0 {
            0xFF
        } else {
            x - 1
        };
        self.registers.f.zero = new_x == 0;
        self.registers.f.subtraction = true;
        self.registers.f.half_carry = x & 0x0F == 0;
        self.registers.write_u8(id, new_x);
    }

    /// Decimal-adjust: corrects the accumulator after binary arithmetic on
    /// binary-coded-decimal operands, then recomputes carry and zero from
    /// the corrected value.
    pub fn daa(&mut self)
        ensures
            final(self).registers == spec_daa(old(self).registers),
    {
        let a = self.registers.a;
        let high_adjust: u16 = if self.registers.f.carry || a > 0x9F {
            0x60
        } else {
            0
        };
        let low_adjust: u16 = if self.registers.f.half_carry || (a & 0x0F) > 0x09 {
            0x06
        } else {
            0
        };
        let adjust: u16 = high_adjust + low_adjust;
        let new_a: u8 = if self.registers.f.subtraction {
            if adjust > a as u16 {
                (a as u16 + 0x100 - adjust) as u8
            } else {
                a - (adjust as u8)
            }
        } else {
            if a as u16 + adjust > 0xFF {
                (a as u16 + adjust - 0x100) as u8
            } else {
                a + (adjust as u8)
            }
        };
        self.registers.a = new_a;
        self.registers.f.carry = new_a > 0x99;
        self.registers.f.zero = new_a == 0;
    }

    /// Complements the accumulator; subtraction and half-carry forced set,
    /// zero and carry untouched.
    pub fn cpl(&mut self)
        ensures
            final(self).registers == spec_cpl(old(self).registers),
    {
        self.registers.a = self.registers.a ^ 0xFF;
        self.registers.f.subtraction = true;
        self.registers.f.half_carry = true;
    }

    /// Adds the selected pair to HL, wrapping; half-carry on the bit-12
    /// boundary, carry the 16-bit overflow, zero untouched.
    #[allow(non_snake_case)]
    pub fn add_HL(&mut self, id: U16Register)
        ensures
            final(self).registers == spec_add_hl(old(self).registers, id),
    {
        let hl = self.registers.hl();
        let v = self.registers.read_u16(id);
        let sum: u32 = hl as u32 + v as u32;
        let new_hl: u32 = if sum > 0xFFFF {
            sum - 0x10000
        } else {
            sum
        };
        proof {
            lemma_bit12_mask_bound(hl);
            lemma_bit12_mask_bound(v);
        }
        self.registers.f.subtraction = false;
        self.registers.f.half_carry = (hl & 0x0F00) + (v & 0x0F00) > 0x0F00;
        self.registers.f.carry = sum > 0xFFFF;
        self.registers.set_hl(new_hl as u16);
    }

    /// Increments the selected 16-bit register, wrapping; no flag effects.
    pub fn inc_u16(&mut self, id: U16Register)
        ensures
            final(self).registers == spec_inc_u16(old(self).registers, id),
    {
        let v = self.registers.read_u16(id);
        let new_v: u16 = if v == 0xFFFF {
            0
        } else {
            v + 1
        };
        self.registers.write_u16(id, new_v);
    }

    /// Decrements the selected 16-bit register, wrapping; no flag effects.
    pub fn dec_u16(&mut self, id: U16Register)
        ensures
            final(self).registers == spec_dec_u16(old(self).registers, id),
    {
        let v = self.registers.read_u16(id);
        let new_v: u16 = if v == 0 {
            0xFFFF
        } else {
            v - 1
        };
        self.registers.write_u16(id, new_v);
    }

    /// Adds a sign-extended 8-bit operand to SP, wrapping; zero and
    /// subtraction cleared, half-carry and carry as in `add_HL`.
    #[allow(non_snake_case)]
    pub fn add_SP(&mut self, val: i8)
        ensures
            final(self).registers == spec_add_sp(old(self).registers, val),
    {
        let operand: u16 = if val >= 0 {
            val as u16
        } else {
            (val as i32 + 0x10000) as u16
        };
        let sp = self.registers.sp;
        let sum: u32 = sp as u32 + operand as u32;
        let new_sp: u32 = if sum > 0xFFFF {
            sum - 0x10000
        } else {
            sum
        };
        proof {
            lemma_bit12_mask_bound(sp);
            lemma_bit12_mask_bound(operand);
        }
        self.registers.f.zero = false;
        self.registers.f.subtraction = false;
        self.registers.f.half_carry = (sp & 0x0F00) + (operand & 0x0F00) > 0x0F00;
        self.registers.f.carry = sum > 0xFFFF;
        self.registers.sp = new_sp as u16;
    }

    /// The computation of `add_SP`, its result written into HL instead;
    /// SP unchanged, flags computed identically.
    #[allow(non_snake_case)]
    pub fn ld_HL(&mut self, val: i8)
        ensures
            final(self).registers == spec_ld_hl(old(self).registers, val),
    {
        let operand: u16 = if val >= 0 {
            val as u16
        } else {
            (val as i32 + 0x10000) as u16
        };
        let sp = self.registers.sp;
        let sum: u32 = sp as u32 + operand as u32;
        let new_hl: u32 = if sum > 0xFFFF {
            sum - 0x10000
        } else {
            sum
        };
        proof {
            lemma_bit12_mask_bound(sp);
            lemma_bit12_mask_bound(operand);
        }
        self.registers.f.zero = false;
        self.registers.f.subtraction = false;
        self.registers.f.half_carry = (sp & 0x0F00) + (operand & 0x0F00) > 0x0F00;
        self.registers.f.carry = sum > 0xFFFF;
        self.registers.set_hl(new_hl as u16);
    }
}

} // verus!
