//! The machine integers as primitives, those of pointer width among them.
//!
//! An unsigned integer is the number that its bytes spell. A signed integer is
//! the two's complement reading of that number.

use crate::endian::Endian;
use crate::primitive::{
    pointer_width, width, ByteArray, Primitive, ZeroablePrimitive, POINTER_SIZE,
};
use crate::radix::{
    bytes_of, image_of, lemma_bytes_len, lemma_pow256_widths, lemma_signed_round_trip,
    lemma_value_of_bytes, parse, pow256, signed_of, spell, value_of,
};
use core::convert::Infallible;
use vstd::prelude::*;

verus! {

impl Primitive for u8 {
    type Bytes = [u8; 1];

    type Error = Infallible;

    const BYTE_LEN: usize = 1;

    open spec fn in_range(self) -> bool {
        true
    }

    /// The number that the bytes spell.
    open spec fn decoded(bytes: Seq<u8>, endian: Endian) -> Result<u8, Infallible> {
        Ok(value_of(bytes, endian) as u8)
    }

    /// The 1 bytes that spell the number.
    open spec fn encoded(self, endian: Endian) -> Seq<u8> {
        bytes_of(self as nat, 1, endian)
    }

    #[inline]
    fn try_from_bytes(bytes: [u8; 1], endian: Endian) -> (value: Result<u8, Infallible>) {
        Ok(Self::from_bytes(bytes, endian))
    }

    #[inline]
    fn to_bytes(self, endian: Endian) -> (bytes: [u8; 1]) {
        spell::<1>(self as u128, endian)
    }

    #[inline]
    fn from_bytes(bytes: [u8; 1], endian: Endian) -> (value: u8) {
        proof {
            lemma_pow256_widths();
        }
        parse(bytes.as_slice(), endian) as u8
    }

    proof fn lemma_round_trip(value: u8, endian: Endian) {
        assert(<[u8; 1] as ByteArray>::len() == 1);
        lemma_pow256_widths();
        lemma_bytes_len(value as nat, 1, endian);
        lemma_value_of_bytes(value as nat, 1, endian);
    }
}

impl ZeroablePrimitive for u8 {
    proof fn lemma_total(bytes: Seq<u8>, endian: Endian) {
    }

    proof fn lemma_in_range(value: u8) {
    }
}

impl Primitive for u16 {
    type Bytes = [u8; 2];

    type Error = Infallible;

    const BYTE_LEN: usize = 2;

    open spec fn in_range(self) -> bool {
        true
    }

    /// The number that the bytes spell.
    open spec fn decoded(bytes: Seq<u8>, endian: Endian) -> Result<u16, Infallible> {
        Ok(value_of(bytes, endian) as u16)
    }

    /// The 2 bytes that spell the number.
    open spec fn encoded(self, endian: Endian) -> Seq<u8> {
        bytes_of(self as nat, 2, endian)
    }

    #[inline]
    fn try_from_bytes(bytes: [u8; 2], endian: Endian) -> (value: Result<u16, Infallible>) {
        Ok(Self::from_bytes(bytes, endian))
    }

    #[inline]
    fn to_bytes(self, endian: Endian) -> (bytes: [u8; 2]) {
        spell::<2>(self as u128, endian)
    }

    #[inline]
    fn from_bytes(bytes: [u8; 2], endian: Endian) -> (value: u16) {
        proof {
            lemma_pow256_widths();
        }
        parse(bytes.as_slice(), endian) as u16
    }

    proof fn lemma_round_trip(value: u16, endian: Endian) {
        assert(<[u8; 2] as ByteArray>::len() == 2);
        lemma_pow256_widths();
        lemma_bytes_len(value as nat, 2, endian);
        lemma_value_of_bytes(value as nat, 2, endian);
    }
}

impl ZeroablePrimitive for u16 {
    proof fn lemma_total(bytes: Seq<u8>, endian: Endian) {
    }

    proof fn lemma_in_range(value: u16) {
    }
}

impl Primitive for u32 {
    type Bytes = [u8; 4];

    type Error = Infallible;

    const BYTE_LEN: usize = 4;

    open spec fn in_range(self) -> bool {
        true
    }

    /// The number that the bytes spell.
    open spec fn decoded(bytes: Seq<u8>, endian: Endian) -> Result<u32, Infallible> {
        Ok(value_of(bytes, endian) as u32)
    }

    /// The 4 bytes that spell the number.
    open spec fn encoded(self, endian: Endian) -> Seq<u8> {
        bytes_of(self as nat, 4, endian)
    }

    #[inline]
    fn try_from_bytes(bytes: [u8; 4], endian: Endian) -> (value: Result<u32, Infallible>) {
        Ok(Self::from_bytes(bytes, endian))
    }

    #[inline]
    fn to_bytes(self, endian: Endian) -> (bytes: [u8; 4]) {
        spell::<4>(self as u128, endian)
    }

    #[inline]
    fn from_bytes(bytes: [u8; 4], endian: Endian) -> (value: u32) {
        proof {
            lemma_pow256_widths();
        }
        parse(bytes.as_slice(), endian) as u32
    }

    proof fn lemma_round_trip(value: u32, endian: Endian) {
        assert(<[u8; 4] as ByteArray>::len() == 4);
        lemma_pow256_widths();
        lemma_bytes_len(value as nat, 4, endian);
        lemma_value_of_bytes(value as nat, 4, endian);
    }
}

impl ZeroablePrimitive for u32 {
    proof fn lemma_total(bytes: Seq<u8>, endian: Endian) {
    }

    proof fn lemma_in_range(value: u32) {
    }
}

impl Primitive for u64 {
    type Bytes = [u8; 8];

    type Error = Infallible;

    const BYTE_LEN: usize = 8;

    open spec fn in_range(self) -> bool {
        true
    }

    /// The number that the bytes spell.
    open spec fn decoded(bytes: Seq<u8>, endian: Endian) -> Result<u64, Infallible> {
        Ok(value_of(bytes, endian) as u64)
    }

    /// The 8 bytes that spell the number.
    open spec fn encoded(self, endian: Endian) -> Seq<u8> {
        bytes_of(self as nat, 8, endian)
    }

    #[inline]
    fn try_from_bytes(bytes: [u8; 8], endian: Endian) -> (value: Result<u64, Infallible>) {
        Ok(Self::from_bytes(bytes, endian))
    }

    #[inline]
    fn to_bytes(self, endian: Endian) -> (bytes: [u8; 8]) {
        spell::<8>(self as u128, endian)
    }

    #[inline]
    fn from_bytes(bytes: [u8; 8], endian: Endian) -> (value: u64) {
        proof {
            lemma_pow256_widths();
        }
        parse(bytes.as_slice(), endian) as u64
    }

    proof fn lemma_round_trip(value: u64, endian: Endian) {
        assert(<[u8; 8] as ByteArray>::len() == 8);
        lemma_pow256_widths();
        lemma_bytes_len(value as nat, 8, endian);
        lemma_value_of_bytes(value as nat, 8, endian);
    }
}

impl ZeroablePrimitive for u64 {
    proof fn lemma_total(bytes: Seq<u8>, endian: Endian) {
    }

    proof fn lemma_in_range(value: u64) {
    }
}

impl Primitive for u128 {
    type Bytes = [u8; 16];

    type Error = Infallible;

    const BYTE_LEN: usize = 16;

    open spec fn in_range(self) -> bool {
        true
    }

    /// The number that the bytes spell.
    open spec fn decoded(bytes: Seq<u8>, endian: Endian) -> Result<u128, Infallible> {
        Ok(value_of(bytes, endian) as u128)
    }

    /// The 16 bytes that spell the number.
    open spec fn encoded(self, endian: Endian) -> Seq<u8> {
        bytes_of(self as nat, 16, endian)
    }

    #[inline]
    fn try_from_bytes(bytes: [u8; 16], endian: Endian) -> (value: Result<u128, Infallible>) {
        Ok(Self::from_bytes(bytes, endian))
    }

    #[inline]
    fn to_bytes(self, endian: Endian) -> (bytes: [u8; 16]) {
        spell::<16>(self as u128, endian)
    }

    #[inline]
    fn from_bytes(bytes: [u8; 16], endian: Endian) -> (value: u128) {
        proof {
            lemma_pow256_widths();
        }
        parse(bytes.as_slice(), endian) as u128
    }

    proof fn lemma_round_trip(value: u128, endian: Endian) {
        assert(<[u8; 16] as ByteArray>::len() == 16);
        lemma_pow256_widths();
        lemma_bytes_len(value as nat, 16, endian);
        lemma_value_of_bytes(value as nat, 16, endian);
    }
}

impl ZeroablePrimitive for u128 {
    proof fn lemma_total(bytes: Seq<u8>, endian: Endian) {
    }

    proof fn lemma_in_range(value: u128) {
    }
}

impl Primitive for i8 {
    type Bytes = [u8; 1];

    type Error = Infallible;

    const BYTE_LEN: usize = 1;

    open spec fn in_range(self) -> bool {
        true
    }

    /// The two's complement reading of the number that the bytes spell.
    open spec fn decoded(bytes: Seq<u8>, endian: Endian) -> Result<i8, Infallible> {
        Ok(signed_of(value_of(bytes, endian), 1) as i8)
    }

    /// The 1 bytes that spell the number's two's complement image.
    open spec fn encoded(self, endian: Endian) -> Seq<u8> {
        bytes_of(image_of(self as int, 1), 1, endian)
    }

    #[inline]
    fn try_from_bytes(bytes: [u8; 1], endian: Endian) -> (value: Result<i8, Infallible>) {
        Ok(Self::from_bytes(bytes, endian))
    }

    #[inline]
    fn to_bytes(self, endian: Endian) -> (bytes: [u8; 1]) {
        proof {
            lemma_pow256_widths();
        }
        let image: u128 = if self >= 0 {
            self as u128
        } else {
            (self as i128 + 0x100) as u128
        };
        spell::<1>(image, endian)
    }

    #[inline]
    fn from_bytes(bytes: [u8; 1], endian: Endian) -> (value: i8) {
        proof {
            lemma_pow256_widths();
        }
        let image = parse(bytes.as_slice(), endian);
        if image < 0x80 {
            image as i8
        } else {
            (image as i128 - 0x100) as i8
        }
    }

    proof fn lemma_round_trip(value: i8, endian: Endian) {
        assert(<[u8; 1] as ByteArray>::len() == 1);
        lemma_pow256_widths();
        lemma_signed_round_trip(value as int, 1);
        let image = image_of(value as int, 1);
        lemma_bytes_len(image, 1, endian);
        lemma_value_of_bytes(image, 1, endian);
    }
}

impl ZeroablePrimitive for i8 {
    proof fn lemma_total(bytes: Seq<u8>, endian: Endian) {
    }

    proof fn lemma_in_range(value: i8) {
    }
}

impl Primitive for i16 {
    type Bytes = [u8; 2];

    type Error = Infallible;

    const BYTE_LEN: usize = 2;

    open spec fn in_range(self) -> bool {
        true
    }

    /// The two's complement reading of the number that the bytes spell.
    open spec fn decoded(bytes: Seq<u8>, endian: Endian) -> Result<i16, Infallible> {
        Ok(signed_of(value_of(bytes, endian), 2) as i16)
    }

    /// The 2 bytes that spell the number's two's complement image.
    open spec fn encoded(self, endian: Endian) -> Seq<u8> {
        bytes_of(image_of(self as int, 2), 2, endian)
    }

    #[inline]
    fn try_from_bytes(bytes: [u8; 2], endian: Endian) -> (value: Result<i16, Infallible>) {
        Ok(Self::from_bytes(bytes, endian))
    }

    #[inline]
    fn to_bytes(self, endian: Endian) -> (bytes: [u8; 2]) {
        proof {
            lemma_pow256_widths();
        }
        let image: u128 = if self >= 0 {
            self as u128
        } else {
            (self as i128 + 0x1_0000) as u128
        };
        spell::<2>(image, endian)
    }

    #[inline]
    fn from_bytes(bytes: [u8; 2], endian: Endian) -> (value: i16) {
        proof {
            lemma_pow256_widths();
        }
        let image = parse(bytes.as_slice(), endian);
        if image < 0x8000 {
            image as i16
        } else {
            (image as i128 - 0x1_0000) as i16
        }
    }

    proof fn lemma_round_trip(value: i16, endian: Endian) {
        assert(<[u8; 2] as ByteArray>::len() == 2);
        lemma_pow256_widths();
        lemma_signed_round_trip(value as int, 2);
        let image = image_of(value as int, 2);
        lemma_bytes_len(image, 2, endian);
        lemma_value_of_bytes(image, 2, endian);
    }
}

impl ZeroablePrimitive for i16 {
    proof fn lemma_total(bytes: Seq<u8>, endian: Endian) {
    }

    proof fn lemma_in_range(value: i16) {
    }
}

impl Primitive for i32 {
    type Bytes = [u8; 4];

    type Error = Infallible;

    const BYTE_LEN: usize = 4;

    open spec fn in_range(self) -> bool {
        true
    }

    /// The two's complement reading of the number that the bytes spell.
    open spec fn decoded(bytes: Seq<u8>, endian: Endian) -> Result<i32, Infallible> {
        Ok(signed_of(value_of(bytes, endian), 4) as i32)
    }

    /// The 4 bytes that spell the number's two's complement image.
    open spec fn encoded(self, endian: Endian) -> Seq<u8> {
        bytes_of(image_of(self as int, 4), 4, endian)
    }

    #[inline]
    fn try_from_bytes(bytes: [u8; 4], endian: Endian) -> (value: Result<i32, Infallible>) {
        Ok(Self::from_bytes(bytes, endian))
    }

    #[inline]
    fn to_bytes(self, endian: Endian) -> (bytes: [u8; 4]) {
        proof {
            lemma_pow256_widths();
        }
        let image: u128 = if self >= 0 {
            self as u128
        } else {
            (self as i128 + 0x1_0000_0000) as u128
        };
        spell::<4>(image, endian)
    }

    #[inline]
    fn from_bytes(bytes: [u8; 4], endian: Endian) -> (value: i32) {
        proof {
            lemma_pow256_widths();
        }
        let image = parse(bytes.as_slice(), endian);
        if image < 0x8000_0000 {
            image as i32
        } else {
            (image as i128 - 0x1_0000_0000) as i32
        }
    }

    proof fn lemma_round_trip(value: i32, endian: Endian) {
        assert(<[u8; 4] as ByteArray>::len() == 4);
        lemma_pow256_widths();
        lemma_signed_round_trip(value as int, 4);
        let image = image_of(value as int, 4);
        lemma_bytes_len(image, 4, endian);
        lemma_value_of_bytes(image, 4, endian);
    }
}

impl ZeroablePrimitive for i32 {
    proof fn lemma_total(bytes: Seq<u8>, endian: Endian) {
    }

    proof fn lemma_in_range(value: i32) {
    }
}

impl Primitive for i64 {
    type Bytes = [u8; 8];

    type Error = Infallible;

    const BYTE_LEN: usize = 8;

    open spec fn in_range(self) -> bool {
        true
    }

    /// The two's complement reading of the number that the bytes spell.
    open spec fn decoded(bytes: Seq<u8>, endian: Endian) -> Result<i64, Infallible> {
        Ok(signed_of(value_of(bytes, endian), 8) as i64)
    }

    /// The 8 bytes that spell the number's two's complement image.
    open spec fn encoded(self, endian: Endian) -> Seq<u8> {
        bytes_of(image_of(self as int, 8), 8, endian)
    }

    #[inline]
    fn try_from_bytes(bytes: [u8; 8], endian: Endian) -> (value: Result<i64, Infallible>) {
        Ok(Self::from_bytes(bytes, endian))
    }

    #[inline]
    fn to_bytes(self, endian: Endian) -> (bytes: [u8; 8]) {
        proof {
            lemma_pow256_widths();
        }
        let image: u128 = if self >= 0 {
            self as u128
        } else {
            (self as i128 + 0x1_0000_0000_0000_0000) as u128
        };
        spell::<8>(image, endian)
    }

    #[inline]
    fn from_bytes(bytes: [u8; 8], endian: Endian) -> (value: i64) {
        proof {
            lemma_pow256_widths();
        }
        let image = parse(bytes.as_slice(), endian);
        if image < 0x8000_0000_0000_0000 {
            image as i64
        } else {
            (image as i128 - 0x1_0000_0000_0000_0000) as i64
        }
    }

    proof fn lemma_round_trip(value: i64, endian: Endian) {
        assert(<[u8; 8] as ByteArray>::len() == 8);
        lemma_pow256_widths();
        lemma_signed_round_trip(value as int, 8);
        let image = image_of(value as int, 8);
        lemma_bytes_len(image, 8, endian);
        lemma_value_of_bytes(image, 8, endian);
    }
}

impl ZeroablePrimitive for i64 {
    proof fn lemma_total(bytes: Seq<u8>, endian: Endian) {
    }

    proof fn lemma_in_range(value: i64) {
    }
}

impl Primitive for i128 {
    type Bytes = [u8; 16];

    type Error = Infallible;

    const BYTE_LEN: usize = 16;

    open spec fn in_range(self) -> bool {
        true
    }

    /// The two's complement reading of the number that the bytes spell.
    open spec fn decoded(bytes: Seq<u8>, endian: Endian) -> Result<i128, Infallible> {
        Ok(signed_of(value_of(bytes, endian), 16) as i128)
    }

    /// The 16 bytes that spell the number's two's complement image.
    open spec fn encoded(self, endian: Endian) -> Seq<u8> {
        bytes_of(image_of(self as int, 16), 16, endian)
    }

    #[inline]
    fn try_from_bytes(bytes: [u8; 16], endian: Endian) -> (value: Result<i128, Infallible>) {
        Ok(Self::from_bytes(bytes, endian))
    }

    #[inline]
    fn to_bytes(self, endian: Endian) -> (bytes: [u8; 16]) {
        proof {
            lemma_pow256_widths();
        }
        let image: u128 = if self >= 0 {
            self as u128
        } else {
            (self - i128::MIN) as u128 + 0x8000_0000_0000_0000_0000_0000_0000_0000
        };
        spell::<16>(image, endian)
    }

    #[inline]
    fn from_bytes(bytes: [u8; 16], endian: Endian) -> (value: i128) {
        proof {
            lemma_pow256_widths();
        }
        let image = parse(bytes.as_slice(), endian);
        if image < 0x8000_0000_0000_0000_0000_0000_0000_0000 {
            image as i128
        } else {
            (image - 0x8000_0000_0000_0000_0000_0000_0000_0000) as i128 + i128::MIN
        }
    }

    proof fn lemma_round_trip(value: i128, endian: Endian) {
        assert(<[u8; 16] as ByteArray>::len() == 16);
        lemma_pow256_widths();
        lemma_signed_round_trip(value as int, 16);
        let image = image_of(value as int, 16);
        lemma_bytes_len(image, 16, endian);
        lemma_value_of_bytes(image, 16, endian);
    }
}

impl ZeroablePrimitive for i128 {
    proof fn lemma_total(bytes: Seq<u8>, endian: Endian) {
    }

    proof fn lemma_in_range(value: i128) {
    }
}

impl Primitive for usize {
    type Bytes = [u8; POINTER_SIZE];

    type Error = Infallible;

    const BYTE_LEN: usize = POINTER_SIZE;

    open spec fn in_range(self) -> bool {
        true
    }

    /// The number that the bytes spell.
    open spec fn decoded(bytes: Seq<u8>, endian: Endian) -> Result<usize, Infallible> {
        Ok(value_of(bytes, endian) as usize)
    }

    /// The bytes that spell the number, as many as a `usize` has.
    open spec fn encoded(self, endian: Endian) -> Seq<u8> {
        bytes_of(self as nat, pointer_width(), endian)
    }

    #[inline]
    fn try_from_bytes(bytes: [u8; POINTER_SIZE], endian: Endian) -> (value: Result<
        usize,
        Infallible,
    >) {
        Ok(Self::from_bytes(bytes, endian))
    }

    #[inline]
    fn to_bytes(self, endian: Endian) -> (bytes: [u8; POINTER_SIZE]) {
        spell::<POINTER_SIZE>(self as u128, endian)
    }

    #[inline]
    fn from_bytes(bytes: [u8; POINTER_SIZE], endian: Endian) -> (value: usize) {
        parse(bytes.as_slice(), endian) as usize
    }

    proof fn lemma_round_trip(value: usize, endian: Endian) {
        lemma_pow256_widths();
        lemma_bytes_len(value as nat, pointer_width(), endian);
        lemma_value_of_bytes(value as nat, pointer_width(), endian);
    }
}

impl ZeroablePrimitive for usize {
    proof fn lemma_total(bytes: Seq<u8>, endian: Endian) {
    }

    proof fn lemma_in_range(value: usize) {
    }
}

/// The count of the numbers that the bytes of an `isize` can spell, for the
/// step between a negative number and its two's complement image.
fn pointer_modulus() -> (modulus: i128)
    ensures
        modulus == pow256(pointer_width()),
{
    proof {
        lemma_pow256_widths();
    }
    if <[u8; POINTER_SIZE]>::size() == 4 {
        0x1_0000_0000
    } else {
        0x1_0000_0000_0000_0000
    }
}

impl Primitive for isize {
    type Bytes = [u8; POINTER_SIZE];

    type Error = Infallible;

    const BYTE_LEN: usize = POINTER_SIZE;

    open spec fn in_range(self) -> bool {
        true
    }

    /// The two's complement reading of the number that the bytes spell.
    open spec fn decoded(bytes: Seq<u8>, endian: Endian) -> Result<isize, Infallible> {
        Ok(signed_of(value_of(bytes, endian), pointer_width()) as isize)
    }

    /// The bytes that spell the number's two's complement image, as many as an
    /// `isize` has.
    open spec fn encoded(self, endian: Endian) -> Seq<u8> {
        bytes_of(image_of(self as int, pointer_width()), pointer_width(), endian)
    }

    #[inline]
    fn try_from_bytes(bytes: [u8; POINTER_SIZE], endian: Endian) -> (value: Result<
        isize,
        Infallible,
    >) {
        Ok(Self::from_bytes(bytes, endian))
    }

    #[inline]
    fn to_bytes(self, endian: Endian) -> (bytes: [u8; POINTER_SIZE]) {
        proof {
            lemma_pow256_widths();
        }
        let image: u128 = if self >= 0 {
            self as u128
        } else {
            (self as i128 + pointer_modulus()) as u128
        };
        spell::<POINTER_SIZE>(image, endian)
    }

    #[inline]
    fn from_bytes(bytes: [u8; POINTER_SIZE], endian: Endian) -> (value: isize) {
        proof {
            lemma_pow256_widths();
        }
        let image = parse(bytes.as_slice(), endian);
        let modulus = pointer_modulus();
        if 2 * (image as i128) < modulus {
            image as isize
        } else {
            (image as i128 - modulus) as isize
        }
    }

    proof fn lemma_round_trip(value: isize, endian: Endian) {
        lemma_pow256_widths();
        lemma_signed_round_trip(value as int, pointer_width());
        let image = image_of(value as int, pointer_width());
        lemma_bytes_len(image, pointer_width(), endian);
        lemma_value_of_bytes(image, pointer_width(), endian);
    }
}

impl ZeroablePrimitive for isize {
    proof fn lemma_total(bytes: Seq<u8>, endian: Endian) {
    }

    proof fn lemma_in_range(value: isize) {
    }
}

/// Each integer of a fixed width has as many bytes as [`Primitive::BYTE_LEN`]
/// says. The integers of pointer width have as many as the arrays that hold
/// them, and [`POINTER_SIZE`] for their `BYTE_LEN`.
pub proof fn lemma_byte_len_of_integers()
    ensures
        width::<u8>() == 1 && <u8 as Primitive>::BYTE_LEN == 1,
        width::<u16>() == 2 && <u16 as Primitive>::BYTE_LEN == 2,
        width::<u32>() == 4 && <u32 as Primitive>::BYTE_LEN == 4,
        width::<u64>() == 8 && <u64 as Primitive>::BYTE_LEN == 8,
        width::<u128>() == 16 && <u128 as Primitive>::BYTE_LEN == 16,
        width::<i8>() == 1 && <i8 as Primitive>::BYTE_LEN == 1,
        width::<i16>() == 2 && <i16 as Primitive>::BYTE_LEN == 2,
        width::<i32>() == 4 && <i32 as Primitive>::BYTE_LEN == 4,
        width::<i64>() == 8 && <i64 as Primitive>::BYTE_LEN == 8,
        width::<i128>() == 16 && <i128 as Primitive>::BYTE_LEN == 16,
        width::<usize>() == pointer_width() && <usize as Primitive>::BYTE_LEN == POINTER_SIZE,
        width::<isize>() == pointer_width() && <isize as Primitive>::BYTE_LEN == POINTER_SIZE,
{
}

} // verus!
