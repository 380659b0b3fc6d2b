//! The flag register: four status bits packed into the high nibble of a byte.

use vstd::prelude::*;

verus! {

/// The four CPU status flags. As a byte they occupy bits 7 (zero),
/// 6 (subtraction), 5 (half-carry) and 4 (carry); bits 3-0 are always zero.
#[derive(Clone, Copy, Debug, PartialEq, Eq, Structural)]
pub struct Flags {
    pub zero: bool,
    pub subtraction: bool,
    pub half_carry: bool,
    pub carry: bool,
}

/// The flags encoded by a byte: one bit per flag, the low nibble ignored.
pub open spec fn spec_flags_from_byte(byte: u8) -> Flags {
    Flags {
        zero: byte & 0x80 != 0,
        subtraction: byte & 0x40 != 0,
        half_carry: byte & 0x20 != 0,
        carry: byte & 0x10 != 0,
    }
}

/// The byte encoding a flags value: one bit per flag, the low nibble zero.
pub open spec fn spec_flags_to_byte(flags: Flags) -> u8 {
    (if flags.zero { 0x80u8 } else { 0u8 })
        | (if flags.subtraction { 0x40u8 } else { 0u8 })
        | (if flags.half_carry { 0x20u8 } else { 0u8 })
        | (if flags.carry { 0x10u8 } else { 0u8 })
}

impl core::convert::From<u8> for Flags {
    /// Decodes the four flag bits of `byte`; bits 3-0 are ignored.
    fn from(byte: u8) -> (flags: Self) {
        Flags {
            zero: byte & 0x80 != 0,
            subtraction: byte & 0x40 != 0,
            half_carry: byte & 0x20 != 0,
            carry: byte & 0x10 != 0,
        }
    }
}

impl vstd::std_specs::convert::FromSpecImpl<u8> for Flags {
    open spec fn obeys_from_spec() -> bool {
        true
    }

    open spec fn from_spec(byte: u8) -> Flags {
        spec_flags_from_byte(byte)
    }
}

impl core::convert::From<Flags> for u8 {
    /// Packs the four flags into bits 7-4; the low nibble is zero.
    fn from(flags: Flags) -> (byte: Self) {
        (if flags.zero { 0x80u8 } else { 0u8 })
            | (if flags.subtraction { 0x40u8 } else { 0u8 })
            | (if flags.half_carry { 0x20u8 } else { 0u8 })
            | (if flags.carry { 0x10u8 } else { 0u8 })
    }
}

impl vstd::std_specs::convert::FromSpecImpl<Flags> for u8 {
    open spec fn obeys_from_spec() -> bool {
        true
    }

    open spec fn from_spec(flags: Flags) -> u8 {
        spec_flags_to_byte(flags)
    }
}

impl Default for Flags {
    /// All four flags clear.
    fn default() -> (flags: Self)
        ensures
            flags == (Flags { zero: false, subtraction: false, half_carry: false, carry: false }),
    {
        Flags { zero: false, subtraction: false, half_carry: false, carry: false }
    }
}

/// Encoding a decoded byte gives the byte back with its low nibble cleared:
/// the mapping is lossless on the four flag bits.
pub proof fn lemma_flags_byte_round_trip(byte: u8)
    ensures
        spec_flags_to_byte(spec_flags_from_byte(byte)) == byte & 0xF0,
{
    assert(((if byte & 0x80u8 != 0 { 0x80u8 } else { 0u8 })
        | (if byte & 0x40u8 != 0 { 0x40u8 } else { 0u8 })
        | (if byte & 0x20u8 != 0 { 0x20u8 } else { 0u8 })
        | (if byte & 0x10u8 != 0 { 0x10u8 } else { 0u8 })) == byte & 0xF0u8) by (bit_vector);
}

/// Decoding an encoded flags value gives the flags back unchanged: the byte
/// mapping loses nothing in the other direction either.
pub proof fn lemma_byte_flags_round_trip(flags: Flags)
    ensures
        spec_flags_from_byte(spec_flags_to_byte(flags)) == flags,
{
    let z = flags.zero;
    let s = flags.subtraction;
    let h = flags.half_carry;
    let c = flags.carry;
    let byte = spec_flags_to_byte(flags);
    assert(byte == ((if z { 0x80u8 } else { 0u8 }) | (if s { 0x40u8 } else { 0u8 })
        | (if h { 0x20u8 } else { 0u8 }) | (if c { 0x10u8 } else { 0u8 })));
    assert({
        let b = (if z { 0x80u8 } else { 0u8 }) | (if s { 0x40u8 } else { 0u8 })
            | (if h { 0x20u8 } else { 0u8 }) | (if c { 0x10u8 } else { 0u8 });
        (b & 0x80 != 0) == z && (b & 0x40 != 0) == s && (b & 0x20 != 0) == h && (b & 0x10 != 0)
            == c
    }) by (bit_vector);
}

} // verus!
