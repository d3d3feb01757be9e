use bytewise::nonzero::NonZero;
use bytewise::primitive::{
    BoolError, ByteArray, CharError, NonZeroError, NonZeroPrimitive, Primitive, ZeroablePrimitive,
};
use bytewise::radix::{parse, spell};
use bytewise::Endian;

#[test]
fn spell_writes_the_digits_in_order() {
    assert_eq!(spell::<4>(0x0102_0304, Endian::Big), [1, 2, 3, 4]);
    assert_eq!(spell::<4>(0x0102_0304, Endian::Little), [4, 3, 2, 1]);
    assert_eq!(spell::<2>(0x0102_0304, Endian::Big), [3, 4]);
    assert_eq!(spell::<2>(0x0102_0304, Endian::Little), [4, 3]);
    assert_eq!(spell::<0>(7, Endian::Big), [0u8; 0]);
    assert_eq!(spell::<3>(1, Endian::Big), [0, 0, 1]);
}

#[test]
fn parse_reads_the_digits_in_order() {
    assert_eq!(parse(&[1, 2, 3, 4], Endian::Big), 0x0102_0304);
    assert_eq!(parse(&[1, 2, 3, 4], Endian::Little), 0x0403_0201);
    assert_eq!(parse(&[], Endian::Little), 0);
    assert_eq!(parse(&[0xFF; 16], Endian::Big), u128::MAX);
    assert_eq!(parse(&[0xFF; 16], Endian::Little), u128::MAX);
}

#[test]
fn unsigned_bytes_are_those_of_the_standard_library() {
    let value = 0xDEAD_BEEFu32;
    assert_eq!(value.to_bytes(Endian::Little), value.to_le_bytes());
    assert_eq!(value.to_bytes(Endian::Big), value.to_be_bytes());
    assert_eq!(0xABu8.to_bytes(Endian::Big), [0xAB]);
    assert_eq!(0x1234u16.to_bytes(Endian::Big), [0x12, 0x34]);
    assert_eq!(0x1234u16.to_bytes(Endian::Little), [0x34, 0x12]);
    let value = 0x0102_0304_0506_0708u64;
    assert_eq!(value.to_bytes(Endian::Little), value.to_le_bytes());
    assert_eq!(value.to_bytes(Endian::Big), value.to_be_bytes());
    let value = 0x0102_0304_0506_0708_090A_0B0C_0D0E_0F10u128;
    assert_eq!(value.to_bytes(Endian::Little), value.to_le_bytes());
    assert_eq!(value.to_bytes(Endian::Big), value.to_be_bytes());
    assert_eq!(u128::MAX.to_bytes(Endian::Big), [0xFF; 16]);
}

#[test]
fn signed_bytes_are_two_s_complement() {
    assert_eq!((-2i16).to_bytes(Endian::Little), [0xFE, 0xFF]);
    assert_eq!((-2i16).to_bytes(Endian::Big), [0xFF, 0xFE]);
    assert_eq!((-1i8).to_bytes(Endian::Big), [0xFF]);
    assert_eq!(i8::MIN.to_bytes(Endian::Big), [0x80]);
    assert_eq!(i32::MIN.to_bytes(Endian::Big), i32::MIN.to_be_bytes());
    assert_eq!((-123_456_789i32).to_bytes(Endian::Little), (-123_456_789i32).to_le_bytes());
    assert_eq!(i64::MIN.to_bytes(Endian::Little), i64::MIN.to_le_bytes());
    assert_eq!((-1i64).to_bytes(Endian::Big), [0xFF; 8]);
    assert_eq!(i128::MIN.to_bytes(Endian::Big), i128::MIN.to_be_bytes());
    assert_eq!((-1i128).to_bytes(Endian::Little), [0xFF; 16]);
    assert_eq!(i128::MAX.to_bytes(Endian::Little), i128::MAX.to_le_bytes());
    assert_eq!(i16::from_bytes([0xFE, 0xFF], Endian::Little), -2);
    assert_eq!(i8::from_bytes([0x80], Endian::Big), i8::MIN);
    assert_eq!(i128::from_bytes([0xFF; 16], Endian::Big), -1);
    assert_eq!(i128::from_bytes(i128::MIN.to_be_bytes(), Endian::Big), i128::MIN);
    assert_eq!(i64::from_bytes(i64::MIN.to_le_bytes(), Endian::Little), i64::MIN);
}

#[test]
fn integers_round_trip_in_both_orders() {
    for endian in [Endian::Little, Endian::Big] {
        for value in [0u8, 1, 0x7F, 0x80, u8::MAX] {
            assert_eq!(u8::try_from_bytes(value.to_bytes(endian), endian), Ok(value));
        }
        for value in [0u16, 1, 0x00FF, 0x0100, 0x8000, u16::MAX] {
            assert_eq!(u16::try_from_bytes(value.to_bytes(endian), endian), Ok(value));
        }
        for value in [0u32, 1, 0xDEAD_BEEF, 0x8000_0000, u32::MAX] {
            assert_eq!(u32::try_from_bytes(value.to_bytes(endian), endian), Ok(value));
        }
        for value in [0u64, 1, 0x0123_4567_89AB_CDEF, u64::MAX] {
            assert_eq!(u64::try_from_bytes(value.to_bytes(endian), endian), Ok(value));
        }
        for value in [0u128, 1, 1 << 127, u128::MAX] {
            assert_eq!(u128::try_from_bytes(value.to_bytes(endian), endian), Ok(value));
        }
        for value in [0i8, 1, -1, i8::MIN, i8::MAX] {
            assert_eq!(i8::try_from_bytes(value.to_bytes(endian), endian), Ok(value));
        }
        for value in [0i16, 1, -1, -257, i16::MIN, i16::MAX] {
            assert_eq!(i16::try_from_bytes(value.to_bytes(endian), endian), Ok(value));
        }
        for value in [0i32, 1, -1, -123_456_789, i32::MIN, i32::MAX] {
            assert_eq!(i32::try_from_bytes(value.to_bytes(endian), endian), Ok(value));
        }
        for value in [0i64, 1, -1, i64::MIN, i64::MAX] {
            assert_eq!(i64::try_from_bytes(value.to_bytes(endian), endian), Ok(value));
        }
        for value in [0i128, 1, -1, i128::MIN, i128::MAX] {
            assert_eq!(i128::try_from_bytes(value.to_bytes(endian), endian), Ok(value));
        }
    }
}

#[test]
fn pointer_width_integers_round_trip_in_both_orders() {
    assert_eq!(<usize as Primitive>::BYTE_LEN, core::mem::size_of::<usize>());
    assert_eq!(<isize as Primitive>::BYTE_LEN, core::mem::size_of::<isize>());
    assert_eq!(bytewise::primitive::POINTER_SIZE, core::mem::size_of::<usize>());
    assert_eq!(0x0102usize.to_bytes(Endian::Big), 0x0102usize.to_be_bytes());
    assert_eq!(0x0102usize.to_bytes(Endian::Little), 0x0102usize.to_le_bytes());
    assert_eq!((-2isize).to_bytes(Endian::Big), (-2isize).to_be_bytes());
    assert_eq!(isize::MIN.to_bytes(Endian::Little), isize::MIN.to_le_bytes());
    for endian in [Endian::Little, Endian::Big] {
        for value in [0usize, 1, 0xDEAD_BEEF, usize::MAX] {
            assert_eq!(usize::try_from_bytes(value.to_bytes(endian), endian), Ok(value));
        }
        for value in [0isize, 1, -1, -2, isize::MIN, isize::MAX] {
            assert_eq!(isize::try_from_bytes(value.to_bytes(endian), endian), Ok(value));
        }
        let nonzero = NonZero::new(77usize).unwrap();
        assert_eq!(nonzero.to_bytes(endian), 77usize.to_bytes(endian));
        assert_eq!(NonZero::<usize>::try_from_bytes(nonzero.to_bytes(endian), endian), Ok(nonzero));
    }
}

#[test]
fn float_bit_patterns_round_trip_as_integers() {
    for endian in [Endian::Little, Endian::Big] {
        for bits in [f32::NAN.to_bits(), 0x7FC0_1234, 0xFFFF_FFFF, (-0.0f32).to_bits()] {
            let back = u32::from_bytes(bits.to_bytes(endian), endian);
            assert_eq!(back, bits);
            assert_eq!(f32::from_bits(back).to_bits(), bits);
        }
        for bits in [f64::NAN.to_bits(), 0x7FF8_0000_0000_1234, 1.5f64.to_bits()] {
            assert_eq!(u64::from_bytes(bits.to_bytes(endian), endian), bits);
        }
    }
}

#[test]
fn bool_is_the_byte_zero_or_one() {
    for endian in [Endian::Little, Endian::Big] {
        assert_eq!(bool::try_from_bytes([0x00], endian), Ok(false));
        assert_eq!(bool::try_from_bytes([0x01], endian), Ok(true));
        assert_eq!(bool::try_from_bytes([0x02], endian), Err(BoolError(2)));
        assert_eq!(bool::try_from_bytes([0xFF], endian), Err(BoolError(0xFF)));
        assert_eq!(true.to_bytes(endian), [1]);
        assert_eq!(false.to_bytes(endian), [0]);
        assert!(bool::from_bytes([1], endian));
    }
    assert_eq!(BoolError(2).message(), "invalid byte for a bool");
}

#[test]
fn char_is_a_unicode_scalar_value() {
    assert_eq!(char::try_from_bytes([0x41, 0, 0, 0], Endian::Little), Ok('A'));
    assert_eq!(char::try_from_bytes([0, 0, 0, 0x41], Endian::Big), Ok('A'));
    assert_eq!(
        char::try_from_bytes(0xD800u32.to_le_bytes(), Endian::Little),
        Err(CharError(0xD800))
    );
    assert_eq!(
        char::try_from_bytes(0xDFFFu32.to_be_bytes(), Endian::Big),
        Err(CharError(0xDFFF))
    );
    assert_eq!(
        char::try_from_bytes(0x11_0000u32.to_be_bytes(), Endian::Big),
        Err(CharError(0x11_0000))
    );
    assert_eq!(char::try_from_bytes(0xD7FFu32.to_be_bytes(), Endian::Big), Ok('\u{D7FF}'));
    assert_eq!(char::try_from_bytes(0xE000u32.to_be_bytes(), Endian::Big), Ok('\u{E000}'));
    assert_eq!(
        char::try_from_bytes(0x10_FFFFu32.to_le_bytes(), Endian::Little),
        Ok('\u{10FFFF}')
    );
    assert_eq!('A'.to_bytes(Endian::Little), [0x41, 0, 0, 0]);
    assert_eq!('\u{FFFD}'.to_bytes(Endian::Big), [0, 0, 0xFF, 0xFD]);
    for endian in [Endian::Little, Endian::Big] {
        for ch in ['\0', 'A', 'é', '\u{FFFD}', '\u{10FFFF}'] {
            assert_eq!(char::try_from_bytes(ch.to_bytes(endian), endian), Ok(ch));
        }
    }
    assert_eq!(CharError(0xD800).message(), "unicode code point out of range");
}

#[test]
fn unit_has_no_bytes() {
    assert_eq!(().to_bytes(Endian::Big), [0u8; 0]);
    assert_eq!(<()>::try_from_bytes([], Endian::Little), Ok(()));
    assert_eq!(<()>::from_bytes([], Endian::Little), ());
    assert_eq!(<() as Primitive>::BYTE_LEN, 0);
}

#[test]
fn byte_len_is_the_size_of_the_type() {
    assert_eq!(<u8 as Primitive>::BYTE_LEN, 1);
    assert_eq!(<i16 as Primitive>::BYTE_LEN, 2);
    assert_eq!(<u32 as Primitive>::BYTE_LEN, 4);
    assert_eq!(<i64 as Primitive>::BYTE_LEN, 8);
    assert_eq!(<u128 as Primitive>::BYTE_LEN, 16);
    assert_eq!(<bool as Primitive>::BYTE_LEN, 1);
    assert_eq!(<char as Primitive>::BYTE_LEN, 4);
    assert_eq!(<NonZero<u64> as Primitive>::BYTE_LEN, 8);
}

#[test]
fn zero_has_no_nonzero_form() {
    assert_eq!(0u32.to_nonzero(), Err(NonZeroError(0u32)));
    assert_eq!(0i64.to_nonzero(), Err(NonZeroError(0i64)));
    assert_eq!(NonZero::<u8>::from_zeroable(0), Err(NonZeroError(0u8)));
    assert_eq!(NonZero::new(0u16), None);
    assert_eq!(NonZeroError(0u8).message(), "primitive cannot be zero");
}

#[test]
fn nonzero_values_round_trip_through_their_zeroable_form() {
    for value in [1u32, 2, 0xDEAD_BEEF, u32::MAX] {
        let nonzero = value.to_nonzero().ok().unwrap();
        assert_eq!(nonzero.get(), value);
        assert_eq!(u32::from_nonzero(nonzero), value);
        assert_eq!(nonzero.to_zeroable(), value);
        assert_eq!(NonZero::<u32>::from_zeroable(value), Ok(nonzero));
    }
    for value in [1i16, -1, i16::MIN, i16::MAX] {
        let nonzero = value.to_nonzero().ok().unwrap();
        assert_eq!(i16::from_nonzero(nonzero), value);
    }
}

#[test]
fn nonzero_bytes_agree_with_the_zeroable_bytes() {
    for endian in [Endian::Little, Endian::Big] {
        let nonzero = NonZero::new(0x0102_0304u32).unwrap();
        assert_eq!(nonzero.to_bytes(endian), 0x0102_0304u32.to_bytes(endian));
        assert_eq!(NonZero::<u32>::try_from_bytes(nonzero.to_bytes(endian), endian), Ok(nonzero));
        assert_eq!(
            NonZero::<u32>::try_from_bytes([0, 0, 0, 0], endian),
            Err(NonZeroError(0u32))
        );
        let negative = NonZero::new(-5i64).unwrap();
        assert_eq!(negative.to_bytes(endian), (-5i64).to_bytes(endian));
        assert_eq!(NonZero::<i64>::from_bytes(negative.to_bytes(endian), endian), negative);
    }
}

#[test]
fn byte_arrays_are_made_from_slices() {
    assert_eq!(<[u8; 3]>::zeroed(), [0, 0, 0]);
    assert_eq!(<[u8; 3]>::size(), 3);
    assert_eq!(<[u8; 0]>::size(), 0);
    assert_eq!(<[u8; 3]>::from_slice(&[7, 8, 9]), [7, 8, 9]);
    let mut bytes = [1u8, 2];
    assert_eq!(ByteArray::as_slice(&bytes), &[1u8, 2][..]);
    ByteArray::as_mut_slice(&mut bytes)[1] = 5;
    assert_eq!(bytes, [1, 5]);
}
