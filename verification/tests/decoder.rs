use bytewise::binary::{
    Bool, BoolError, Char, Isize, Usize, I128, I16, I32, I64, I8, U128, U16, U32, U64, U8,
};
use bytewise::decoder::{end_of_stream, Decoder, Error};
use bytewise::endian::{BigEndian, LittleEndian, NativeEndian};
use bytewise::nonzero::NonZero;
use bytewise::primitive::CharError;
use bytewise::{Endian, Size};
use core::convert::Infallible;

fn known(bytes: usize) -> Size {
    Size::Known(NonZero::new(bytes).unwrap())
}

#[test]
fn integer_decoders_take_their_width() {
    let bytes = [0x01u8, 0x02, 0x03, 0x04, 0x05];
    let mut src = &bytes[..];
    assert_eq!(U16::new(Endian::Big).decode(&mut src), Ok(0x0102));
    assert_eq!(src, &[0x03u8, 0x04, 0x05][..]);
    assert_eq!(U16::new(Endian::Little).decode(&mut src), Ok(0x0403));
    assert_eq!(src, &[0x05u8][..]);
    assert_eq!(U8::new(BigEndian).decode(&mut src), Ok(5));
    assert!(src.is_empty());
}

#[test]
fn integer_decoders_read_in_their_byte_order() {
    let bytes = 0xDEAD_BEEFu32.to_be_bytes();
    assert_eq!(U32::new(BigEndian).decode(&mut &bytes[..]), Ok(0xDEAD_BEEF));
    assert_eq!(U32::new(LittleEndian).decode(&mut &bytes[..]), Ok(0xEFBE_ADDE));
    let bytes = 0x0102_0304_0506_0708u64.to_le_bytes();
    assert_eq!(U64::new(Endian::Little).decode(&mut &bytes[..]), Ok(0x0102_0304_0506_0708));
    let bytes = u128::MAX.to_le_bytes();
    assert_eq!(U128::new(Endian::Little).decode(&mut &bytes[..]), Ok(u128::MAX));
    assert_eq!(I8::new(Endian::Big).decode(&mut &[0x80u8][..]), Ok(i8::MIN));
    assert_eq!(I16::new(Endian::Little).decode(&mut &[0xFEu8, 0xFF][..]), Ok(-2));
    let bytes = (-123_456_789i32).to_be_bytes();
    assert_eq!(I32::new(Endian::Big).decode(&mut &bytes[..]), Ok(-123_456_789));
    let bytes = i64::MIN.to_le_bytes();
    assert_eq!(I64::new(Endian::Little).decode(&mut &bytes[..]), Ok(i64::MIN));
    let bytes = (-1i128).to_be_bytes();
    assert_eq!(I128::new(Endian::Big).decode(&mut &bytes[..]), Ok(-1));
    let bytes = 0x1234_5678u32.to_ne_bytes();
    assert_eq!(U32::new(NativeEndian::new()).decode(&mut &bytes[..]), Ok(0x1234_5678));
    assert_eq!(U32::<NativeEndian>::default().decode(&mut &bytes[..]), Ok(0x1234_5678));
}

#[test]
fn pointer_width_decoders_read_a_machine_word() {
    let mut bytes = Vec::new();
    bytes.extend(usize::MAX.to_be_bytes());
    bytes.extend((12345usize).to_le_bytes());
    bytes.push(9);
    let mut src = bytes.as_slice();
    assert_eq!(Usize::new(Endian::Big).decode(&mut src), Ok(usize::MAX));
    assert_eq!(Usize::new(Endian::Little).decode(&mut src), Ok(12345));
    assert_eq!(src, &[9u8][..]);
    let needed = core::mem::size_of::<usize>() - 1;
    assert_eq!(
        Usize::new(Endian::Little).decode(&mut src),
        Err(Error::Incomplete { needed: known(needed) })
    );
    assert_eq!(src, &[9u8][..]);

    for value in [0isize, 1, -1, -2, isize::MIN, isize::MAX] {
        let bytes = value.to_be_bytes();
        assert_eq!(Isize::new(Endian::Big).decode(&mut &bytes[..]), Ok(value));
        let bytes = value.to_le_bytes();
        assert_eq!(Isize::new(Endian::Little).decode(&mut &bytes[..]), Ok(value));
    }
    assert_eq!(Usize::new(Endian::Big).hint(), known(core::mem::size_of::<usize>()));
    assert_eq!(Isize::new(Endian::Big).hint(), known(core::mem::size_of::<isize>()));
    assert_eq!(Usize::<Endian>::SIZE, core::mem::size_of::<usize>());
}

#[test]
fn incomplete_never_consumes() {
    let bytes = [0x01u8, 0x02, 0x03];
    let mut src = &bytes[..];
    assert_eq!(
        U32::new(Endian::Big).decode(&mut src),
        Err(Error::Incomplete { needed: known(1) })
    );
    assert_eq!(src, &[0x01u8, 0x02, 0x03][..]);
    assert_eq!(
        U64::new(Endian::Little).decode(&mut src),
        Err(Error::Incomplete { needed: known(5) })
    );
    assert_eq!(src.len(), 3);
    assert_eq!(
        U128::new(Endian::Little).decode(&mut src),
        Err(Error::Incomplete { needed: known(13) })
    );
    assert_eq!(
        I16::new(Endian::Little).decode(&mut &bytes[..1]),
        Err(Error::Incomplete { needed: known(1) })
    );
    let mut empty = &bytes[..0];
    assert_eq!(
        U8::new(Endian::Big).decode(&mut empty),
        Err(Error::Incomplete { needed: known(1) })
    );
    assert_eq!(
        Char::new(Endian::Big).decode(&mut src),
        Err(Error::Incomplete { needed: known(1) })
    );
    assert_eq!(src, &[0x01u8, 0x02, 0x03][..]);
    assert_eq!(
        Bool::new(Endian::Big).decode(&mut empty),
        Err(Error::Incomplete { needed: known(1) })
    );
    assert!(empty.is_empty());
}

#[test]
fn hints_are_the_byte_widths() {
    assert_eq!(U8::new(Endian::Big).hint(), known(1));
    assert_eq!(I8::new(Endian::Big).hint(), known(1));
    assert_eq!(U16::new(Endian::Big).hint(), known(2));
    assert_eq!(I16::new(Endian::Big).hint(), known(2));
    assert_eq!(U32::new(Endian::Big).hint(), known(4));
    assert_eq!(I32::new(Endian::Big).hint(), known(4));
    assert_eq!(U64::new(Endian::Big).hint(), known(8));
    assert_eq!(I64::new(Endian::Big).hint(), known(8));
    assert_eq!(U128::new(Endian::Big).hint(), known(16));
    assert_eq!(I128::new(Endian::Big).hint(), known(16));
    assert_eq!(Bool::new(Endian::Big).hint(), known(1));
    assert_eq!(Char::new(Endian::Big).hint(), known(4));
    assert_eq!(U32::<Endian>::SIZE, 4);
}

#[test]
fn bool_validity() {
    let mut src = &[0x00u8, 0x01, 0x02, 0x01][..];
    let mut decoder = Bool::new(Endian::Little);
    assert_eq!(decoder.decode(&mut src), Ok(false));
    assert_eq!(decoder.decode(&mut src), Ok(true));
    assert_eq!(src, &[0x02u8, 0x01][..]);
    let fatal = decoder.decode(&mut src);
    assert!(matches!(fatal, Err(Error::Fatal { .. })));
    assert_eq!(src, &[0x02u8, 0x01][..]);
    match fatal {
        Err(Error::Fatal { error }) => assert_eq!(error.message(), "invalid bits for a bool"),
        _ => unreachable!(),
    }
    assert_eq!(Bool::new(BigEndian).decode(&mut &[0xFFu8][..]).ok(), None);
}

#[test]
fn char_validity() {
    let bytes = 0x0000_0041u32.to_le_bytes();
    let mut src = &bytes[..];
    assert_eq!(Char::new(Endian::Little).decode(&mut src), Ok('A'));
    assert!(src.is_empty());

    let bytes = 0x0000_D800u32.to_le_bytes();
    let mut src = &bytes[..];
    assert_eq!(
        Char::new(Endian::Little).decode(&mut src),
        Err(Error::Fatal { error: CharError(0xD800) })
    );
    assert_eq!(src.len(), 4);

    let bytes = 0x0000_0041u32.to_be_bytes();
    assert_eq!(Char::new(BigEndian).decode(&mut &bytes[..]), Ok('A'));
    assert_eq!(
        Char::new(LittleEndian).decode(&mut &bytes[..]),
        Err(Error::Fatal { error: CharError(0x4100_0000) })
    );
    let bytes = 0x0011_0000u32.to_be_bytes();
    assert_eq!(
        Char::new(BigEndian).decode(&mut &bytes[..]),
        Err(Error::Fatal { error: CharError(0x11_0000) })
    );
}

#[test]
fn eof_boundary() {
    let mut decoder = U16::new(Endian::Big);

    let mut src = &[0x12u8, 0x34][..];
    assert_eq!(decoder.decode_eof(&mut src), Ok(0x1234));
    assert!(src.is_empty());
    assert_eq!(decoder.decode_eof(&mut src), Err(Error::Eof));

    let mut src = &[0x12u8, 0x34, 0x56][..];
    assert_eq!(decoder.decode_eof(&mut src), Ok(0x1234));
    assert_eq!(decoder.decode_eof(&mut src), Err(Error::DataRemains));
    assert_eq!(src, &[0x56u8][..]);

    let mut src = &[0x02u8][..];
    assert!(matches!(
        Bool::new(Endian::Big).decode_eof(&mut src),
        Err(Error::Fatal { .. })
    ));
    let mut src = &[][..];
    assert_eq!(Bool::new(Endian::Big).decode_eof(&mut src), Err(Error::Eof));
    assert_eq!(Char::new(Endian::Big).decode_eof(&mut &[0u8, 0][..]), Err(Error::DataRemains));
}

#[test]
fn end_of_stream_reads_an_outcome() {
    let ok: Result<u8, Error<BoolError>> = Ok(3);
    assert_eq!(end_of_stream(ok, true), Ok(3));
    assert_eq!(end_of_stream(ok, false), Ok(3));
    let incomplete: Result<u8, Error<u8>> = Err(Error::Incomplete { needed: Size::Unknown });
    assert_eq!(end_of_stream(incomplete, true), Err(Error::Eof));
    assert_eq!(end_of_stream(incomplete, false), Err(Error::DataRemains));
    let fatal: Result<u8, Error<u8>> = Err(Error::Fatal { error: 9 });
    assert_eq!(end_of_stream(fatal, true), Err(Error::Fatal { error: 9 }));
    assert_eq!(end_of_stream(fatal, false), Err(Error::Fatal { error: 9 }));
    let eof: Result<u8, Error<u8>> = Err(Error::Eof);
    assert_eq!(end_of_stream(eof, false), Err(Error::DataRemains));
    let remains: Result<u8, Error<u8>> = Err(Error::DataRemains);
    assert_eq!(end_of_stream(remains, true), Err(Error::Eof));
}

#[test]
fn error_map_touches_the_fatal_error_only() {
    let fatal: Error<u8> = Error::Fatal { error: 4 };
    assert_eq!(fatal.map(|error| u32::from(error) * 2), Error::Fatal { error: 8u32 });
    assert_eq!(Error::<u8>::Eof.map(|error| u32::from(error)), Error::Eof);
    assert_eq!(Error::<u8>::DataRemains.map(|error| u32::from(error)), Error::DataRemains);
    assert_eq!(
        Error::<u8>::Incomplete { needed: known(3) }.map(|error| u32::from(error)),
        Error::Incomplete { needed: known(3) }
    );
}

#[test]
fn error_messages() {
    assert_eq!(Error::<u8>::Eof.message(), "reached end of stream");
    assert_eq!(Error::<u8>::DataRemains.message(), "data remains in stream");
    assert_eq!(
        Error::<u8>::Incomplete { needed: Size::Unknown }.message(),
        "incomplete frame"
    );
    assert_eq!(Error::<u8>::Fatal { error: 1 }.message(), "fatal error occurred");
}

#[test]
fn errors_of_infallible_decoders_carry_over() {
    assert_eq!(Error::<u8>::from_infallible(Error::<Infallible>::Eof), Error::Eof);
    assert_eq!(
        Error::<u8>::from_infallible(Error::<Infallible>::DataRemains),
        Error::DataRemains
    );
    assert_eq!(
        Error::<u8>::from_infallible(Error::<Infallible>::Incomplete { needed: known(2) }),
        Error::Incomplete { needed: known(2) }
    );
}

#[test]
fn decoders_are_made_with_their_byte_order() {
    assert_eq!(Bool::new(Endian::Big).byte_order, Endian::Big);
    assert_eq!(Char::new(LittleEndian).byte_order, LittleEndian);
    assert_eq!(U32::new(BigEndian), U32 { byte_order: BigEndian });
    assert_eq!(Bool::<LittleEndian>::default(), Bool::new(LittleEndian));
    assert_eq!(Char::<BigEndian>::default(), Char::new(BigEndian));
    assert_eq!(I64::<LittleEndian>::default(), I64::new(LittleEndian));
    assert_eq!(Bool::<Endian>::default().byte_order, Endian::native());
}
