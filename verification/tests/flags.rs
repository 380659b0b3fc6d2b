use gb_cpu::flags::Flags;

#[test]
fn flags_from_u8() {
    let flags = Flags {
        zero: true,
        subtraction: true,
        half_carry: true,
        carry: true,
    };
    assert_eq!(flags, Flags::from(0xF0));

    let flags = Flags {
        zero: true,
        ..Flags::default()
    };
    assert_eq!(flags, Flags::from(0x80));

    let flags = Flags {
        subtraction: true,
        ..Flags::default()
    };
    assert_eq!(flags, Flags::from(0x40));

    let flags = Flags {
        half_carry: true,
        ..Flags::default()
    };
    assert_eq!(flags, Flags::from(0x20));

    let flags = Flags {
        carry: true,
        ..Flags::default()
    };
    assert_eq!(flags, Flags::from(0x10));

    let flags = Flags::default();
    assert_eq!(flags, Flags::from(0x00));
}

#[test]
fn u8_from_flags() {
    let flags = Flags {
        zero: true,
        subtraction: true,
        half_carry: true,
        carry: true,
    };
    assert_eq!(u8::from(flags), 0xF0);

    let flags = Flags {
        zero: true,
        ..Flags::default()
    };
    assert_eq!(u8::from(flags), 0x80);

    let flags = Flags {
        subtraction: true,
        ..Flags::default()
    };
    assert_eq!(u8::from(flags), 0x40);

    let flags = Flags {
        half_carry: true,
        ..Flags::default()
    };
    assert_eq!(u8::from(flags), 0x20);

    let flags = Flags {
        carry: true,
        ..Flags::default()
    };
    assert_eq!(u8::from(flags), 0x10);

    let flags = Flags::default();
    assert_eq!(u8::from(flags), 0x00);
}

#[test]
fn flags_byte_round_trip_drops_low_nibble() {
    // to_byte(from_byte(b)) == b & 0xF0, sampled across the byte range
    for b in 0..=0xFFu16 {
        let b = b as u8;
        assert_eq!(u8::from(Flags::from(b)), b & 0xF0);
    }
}

#[test]
fn byte_flags_round_trip_is_lossless() {
    for b in 0..=0xFFu16 {
        let flags = Flags::from(b as u8);
        assert_eq!(Flags::from(u8::from(flags)), flags);
    }
}
