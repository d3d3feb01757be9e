//! Decoders for the primitive types in binary form.
//!
//! Each holds the byte order of the stream and takes a fixed number of bytes
//! from it: the size of the primitive that it reads.

use crate::decoder::{lifted, rest_of, Decoder, Error};
use crate::endian::{ByteOrder, NativeEndian};
use crate::primitive::{
    char_from_u32, is_scalar_value, pointer_width, ByteArray, CharError, Primitive, POINTER_SIZE,
};
use crate::size::Size;
use core::convert::Infallible;
use vstd::prelude::*;

verus! {

/// What an attempt to take a frame of `width` bytes from `src` gives, where
/// `value` is what those bytes stand for: `value` and `width`, or the amount of
/// bytes that `src` is short of `width`.
pub open spec fn fixed_width<T>(src: Seq<u8>, width: usize, value: T) -> Result<
    (T, nat),
    Error<Infallible>,
> {
    if src.len() < width {
        Err(Error::Incomplete { needed: Size::of((width - src.len()) as usize) })
    } else {
        Ok((value, width as nat))
    }
}

/// Where fewer bytes are there than a frame has, the attempt is incomplete by the
/// bytes that are missing, and leaves every byte where it is.
pub proof fn lemma_short_input_is_incomplete<T>(src: Seq<u8>, width: usize, value: T)
    requires
        src.len() < width,
    ensures
        fixed_width(src, width, value) == Err::<(T, nat), Error<Infallible>>(
            Error::Incomplete { needed: Size::of((width - src.len()) as usize) },
        ),
        Size::of((width - src.len()) as usize) is Known,
        rest_of(src, fixed_width(src, width, value)) == src,
{
}

/// A binary [`Decoder`] that is capable of reading a `bool`
/// in a specified byte order.
#[derive(Debug, Clone, PartialEq, Eq, PartialOrd, Ord, Hash)]
pub struct Bool<B: ByteOrder = NativeEndian> {
    /// The byte order for this decoder.
    pub byte_order: B,
}

impl<B: ByteOrder> Bool<B> {
    /// Create a new decoder for a `bool`.
    #[inline]
    #[must_use]
    pub fn new(byte_order: B) -> (decoder: Bool<B>)
        ensures
            decoder.byte_order == byte_order,
    {
        Bool { byte_order }
    }
}

impl<B: ByteOrder + Default> Default for Bool<B> {
    #[inline]
    fn default() -> (decoder: Self)
        ensures
            call_ensures(B::default, (), decoder.byte_order),
    {
        Bool::new(B::default())
    }
}

/// A byte that is neither `0` nor `1`, where the byte of a `bool` was to be
/// decoded.
#[derive(Debug, Clone, Copy, PartialEq, Eq, PartialOrd, Ord, Hash)]
pub struct BoolError(());

impl BoolError {
    /// The one value of this type.
    pub closed spec fn invalid_bits() -> BoolError {
        BoolError(())
    }

    /// What is wrong, in words.
    #[inline]
    #[must_use]
    pub fn message(&self) -> (message: &'static str)
        ensures
            message@ == "invalid bits for a bool"@,
    {
        "invalid bits for a bool"
    }
}

/// What the byte `bits`, taken as a frame of `taken` bytes, is as a `bool`: `0` is
/// `false`, `1` is `true`, and any other byte is a fatal error.
pub open spec fn bool_of(bits: u8, taken: nat) -> Result<(bool, nat), Error<BoolError>> {
    if bits == 0 {
        Ok((false, taken))
    } else if bits == 1 {
        Ok((true, taken))
    } else {
        Err(Error::Fatal { error: BoolError::invalid_bits() })
    }
}

impl<B: ByteOrder> Decoder for Bool<B> {
    type Item<'src> = bool;

    type Error = BoolError;

    /// What the decoder of a `u8` gives, if it is `0` or `1`. Where it gives
    /// another byte, the error is fatal, and where it gives none, its error is
    /// the error.
    open spec fn attempt(&self, src: Seq<u8>) -> Result<(bool, nat), Error<BoolError>> {
        match U8::new_spec(self.byte_order).attempt(src) {
            Ok((bits, taken)) => bool_of(bits, taken),
            Err(error) => Err(lifted(error)),
        }
    }

    #[inline]
    fn hint(&self) -> (size: Size)
        ensures
            size == Size::of(1),
            size is Known,
    {
        Size::new(1)
    }

    #[inline]
    fn decode<'s>(&mut self, src: &mut &'s [u8]) -> (frame: Result<bool, Error<BoolError>>)
        ensures
            *final(self) == *old(self),
    {
        let mut rest = *src;
        match U8::new(self.byte_order).decode(&mut rest) {
            Ok(bits) => {
                if bits == 0 {
                    *src = rest;
                    Ok(false)
                } else if bits == 1 {
                    *src = rest;
                    Ok(true)
                } else {
                    Err(Error::Fatal { error: BoolError(()) })
                }
            },
            Err(error) => Err(Error::from_infallible(error)),
        }
    }
}

/// Without a byte to read, the attempt at a `bool` is incomplete by that byte, and
/// leaves `src` as it is.
pub proof fn lemma_bool_short_input<B: ByteOrder>(decoder: Bool<B>, src: Seq<u8>)
    requires
        src.len() < 1,
    ensures
        decoder.attempt(src) == Err::<(bool, nat), Error<BoolError>>(
            Error::Incomplete { needed: Size::of(1) },
        ),
        rest_of(src, decoder.attempt(src)) == src,
{
}

/// A binary [`Decoder`] that is capable of reading a `char`
/// in a specified byte order.
#[derive(Debug, Clone, PartialEq, Eq, PartialOrd, Ord, Hash)]
pub struct Char<B: ByteOrder = NativeEndian> {
    /// The byte order for this decoder.
    pub byte_order: B,
}

impl<B: ByteOrder> Char<B> {
    /// Create a new decoder for a `char`.
    #[inline]
    #[must_use]
    pub fn new(byte_order: B) -> (decoder: Char<B>)
        ensures
            decoder.byte_order == byte_order,
    {
        Char { byte_order }
    }
}

impl<B: ByteOrder + Default> Default for Char<B> {
    #[inline]
    fn default() -> (decoder: Self)
        ensures
            call_ensures(B::default, (), decoder.byte_order),
    {
        Char::new(B::default())
    }
}

/// What the number `bits`, taken as a frame of `taken` bytes, is as a `char`: the
/// character with that scalar value, or a fatal error where `bits` is no Unicode
/// scalar value.
pub open spec fn char_of(bits: u32, taken: nat) -> Result<(char, nat), Error<CharError>> {
    if is_scalar_value(bits) {
        Ok((bits as char, taken))
    } else {
        Err(Error::Fatal { error: CharError(bits) })
    }
}

impl<B: ByteOrder> Decoder for Char<B> {
    type Item<'src> = char;

    type Error = CharError;

    /// What the decoder of a `u32` gives, if it is a Unicode scalar value. Where
    /// it gives another number, the error is fatal, and where it gives none, its
    /// error is the error.
    open spec fn attempt(&self, src: Seq<u8>) -> Result<(char, nat), Error<CharError>> {
        match U32::new_spec(self.byte_order).attempt(src) {
            Ok((bits, taken)) => char_of(bits, taken),
            Err(error) => Err(lifted(error)),
        }
    }

    #[inline]
    fn hint(&self) -> (size: Size)
        ensures
            size == Size::of(4),
            size is Known,
    {
        Size::new(4)
    }

    #[inline]
    fn decode<'s>(&mut self, src: &mut &'s [u8]) -> (frame: Result<char, Error<CharError>>)
        ensures
            *final(self) == *old(self),
    {
        let mut rest = *src;
        match U32::new(self.byte_order).decode(&mut rest) {
            Ok(bits) => match char_from_u32(bits) {
                Some(ch) => {
                    *src = rest;
                    Ok(ch)
                },
                None => Err(Error::Fatal { error: CharError(bits) }),
            },
            Err(error) => Err(Error::from_infallible(error)),
        }
    }
}

/// With fewer than four bytes to read, the attempt at a `char` is incomplete by
/// the bytes that are missing, and leaves `src` as it is.
pub proof fn lemma_char_short_input<B: ByteOrder>(decoder: Char<B>, src: Seq<u8>)
    requires
        src.len() < 4,
    ensures
        decoder.attempt(src) == Err::<(char, nat), Error<CharError>>(
            Error::Incomplete { needed: Size::of((4 - src.len()) as usize) },
        ),
        rest_of(src, decoder.attempt(src)) == src,
{
}

/// A binary [`Decoder`] that is capable of reading a `u8` in a specified byte order.
#[derive(Debug, Clone, PartialEq, Eq, PartialOrd, Ord, Hash)]
pub struct U8<B: ByteOrder = NativeEndian> {
    /// The byte order for this decoder.
    pub byte_order: B,
}

impl<B: ByteOrder> U8<B> {
    /// The number of bytes of a `u8`.
    pub const SIZE: usize = 1;

    /// The decoder that [`U8::new`] gives for `byte_order`.
    pub open spec fn new_spec(byte_order: B) -> U8<B> {
        U8 { byte_order }
    }

    /// Create a new binary decoder for a `u8`.
    #[inline]
    #[must_use]
    #[verifier::when_used_as_spec(new_spec)]
    pub fn new(byte_order: B) -> (decoder: U8<B>)
        ensures
            decoder == Self::new_spec(byte_order),
    {
        U8 { byte_order }
    }
}

impl<B: ByteOrder + Default> Default for U8<B> {
    #[inline]
    fn default() -> (decoder: Self)
        ensures
            call_ensures(B::default, (), decoder.byte_order),
    {
        Self::new(B::default())
    }
}

impl<B: ByteOrder> Decoder for U8<B> {
    type Item<'src> = u8;

    type Error = Infallible;

    /// The `u8` that the first byte of `src` stands for in the byte order
    /// of the decoder, or the amount of bytes that `src` is short of 1.
    open spec fn attempt(&self, src: Seq<u8>) -> Result<(u8, nat), Error<Infallible>> {
        fixed_width(src, 1, u8::decoded(src.take(1), self.byte_order.order())->Ok_0)
    }

    #[inline]
    fn hint(&self) -> (size: Size)
        ensures
            size == Size::of(1),
            size is Known,
    {
        Size::new(1)
    }

    #[inline]
    fn decode<'s>(&mut self, src: &mut &'s [u8]) -> (frame: Result<u8, Error<Infallible>>)
        ensures
            *final(self) == *old(self),
    {
        let len = src.len();
        if len < 1 {
            assert(src@ == old(src)@);
            return Err(Error::Incomplete { needed: Size::new(1 - len) });
        }
        let (bytes, rest) = src.split_at(1);
        let bits = u8::from_bytes(<[u8; 1]>::from_slice(bytes), self.byte_order.endian());
        *src = rest;
        assert(src@ == old(src)@.skip(1));
        Ok(bits)
    }
}

/// A binary [`Decoder`] that is capable of reading a `u16` in a specified byte order.
#[derive(Debug, Clone, PartialEq, Eq, PartialOrd, Ord, Hash)]
pub struct U16<B: ByteOrder = NativeEndian> {
    /// The byte order for this decoder.
    pub byte_order: B,
}

impl<B: ByteOrder> U16<B> {
    /// The number of bytes of a `u16`.
    pub const SIZE: usize = 2;

    /// The decoder that [`U16::new`] gives for `byte_order`.
    pub open spec fn new_spec(byte_order: B) -> U16<B> {
        U16 { byte_order }
    }

    /// Create a new binary decoder for a `u16`.
    #[inline]
    #[must_use]
    #[verifier::when_used_as_spec(new_spec)]
    pub fn new(byte_order: B) -> (decoder: U16<B>)
        ensures
            decoder == Self::new_spec(byte_order),
    {
        U16 { byte_order }
    }
}

impl<B: ByteOrder + Default> Default for U16<B> {
    #[inline]
    fn default() -> (decoder: Self)
        ensures
            call_ensures(B::default, (), decoder.byte_order),
    {
        Self::new(B::default())
    }
}

impl<B: ByteOrder> Decoder for U16<B> {
    type Item<'src> = u16;

    type Error = Infallible;

    /// The `u16` that the first 2 bytes of `src` stand for in the byte order
    /// of the decoder, or the amount of bytes that `src` is short of 2.
    open spec fn attempt(&self, src: Seq<u8>) -> Result<(u16, nat), Error<Infallible>> {
        fixed_width(src, 2, u16::decoded(src.take(2), self.byte_order.order())->Ok_0)
    }

    #[inline]
    fn hint(&self) -> (size: Size)
        ensures
            size == Size::of(2),
            size is Known,
    {
        Size::new(2)
    }

    #[inline]
    fn decode<'s>(&mut self, src: &mut &'s [u8]) -> (frame: Result<u16, Error<Infallible>>)
        ensures
            *final(self) == *old(self),
    {
        let len = src.len();
        if len < 2 {
            assert(src@ == old(src)@);
            return Err(Error::Incomplete { needed: Size::new(2 - len) });
        }
        let (bytes, rest) = src.split_at(2);
        let bits = u16::from_bytes(<[u8; 2]>::from_slice(bytes), self.byte_order.endian());
        *src = rest;
        assert(src@ == old(src)@.skip(2));
        Ok(bits)
    }
}

/// A binary [`Decoder`] that is capable of reading a `u32` in a specified byte order.
#[derive(Debug, Clone, PartialEq, Eq, PartialOrd, Ord, Hash)]
pub struct U32<B: ByteOrder = NativeEndian> {
    /// The byte order for this decoder.
    pub byte_order: B,
}

impl<B: ByteOrder> U32<B> {
    /// The number of bytes of a `u32`.
    pub const SIZE: usize = 4;

    /// The decoder that [`U32::new`] gives for `byte_order`.
    pub open spec fn new_spec(byte_order: B) -> U32<B> {
        U32 { byte_order }
    }

    /// Create a new binary decoder for a `u32`.
    #[inline]
    #[must_use]
    #[verifier::when_used_as_spec(new_spec)]
    pub fn new(byte_order: B) -> (decoder: U32<B>)
        ensures
            decoder == Self::new_spec(byte_order),
    {
        U32 { byte_order }
    }
}

impl<B: ByteOrder + Default> Default for U32<B> {
    #[inline]
    fn default() -> (decoder: Self)
        ensures
            call_ensures(B::default, (), decoder.byte_order),
    {
        Self::new(B::default())
    }
}

impl<B: ByteOrder> Decoder for U32<B> {
    type Item<'src> = u32;

    type Error = Infallible;

    /// The `u32` that the first 4 bytes of `src` stand for in the byte order
    /// of the decoder, or the amount of bytes that `src` is short of 4.
    open spec fn attempt(&self, src: Seq<u8>) -> Result<(u32, nat), Error<Infallible>> {
        fixed_width(src, 4, u32::decoded(src.take(4), self.byte_order.order())->Ok_0)
    }

    #[inline]
    fn hint(&self) -> (size: Size)
        ensures
            size == Size::of(4),
            size is Known,
    {
        Size::new(4)
    }

    #[inline]
    fn decode<'s>(&mut self, src: &mut &'s [u8]) -> (frame: Result<u32, Error<Infallible>>)
        ensures
            *final(self) == *old(self),
    {
        let len = src.len();
        if len < 4 {
            assert(src@ == old(src)@);
            return Err(Error::Incomplete { needed: Size::new(4 - len) });
        }
        let (bytes, rest) = src.split_at(4);
        let bits = u32::from_bytes(<[u8; 4]>::from_slice(bytes), self.byte_order.endian());
        *src = rest;
        assert(src@ == old(src)@.skip(4));
        Ok(bits)
    }
}

/// A binary [`Decoder`] that is capable of reading a `u64` in a specified byte order.
#[derive(Debug, Clone, PartialEq, Eq, PartialOrd, Ord, Hash)]
pub struct U64<B: ByteOrder = NativeEndian> {
    /// The byte order for this decoder.
    pub byte_order: B,
}

impl<B: ByteOrder> U64<B> {
    /// The number of bytes of a `u64`.
    pub const SIZE: usize = 8;

    /// The decoder that [`U64::new`] gives for `byte_order`.
    pub open spec fn new_spec(byte_order: B) -> U64<B> {
        U64 { byte_order }
    }

    /// Create a new binary decoder for a `u64`.
    #[inline]
    #[must_use]
    #[verifier::when_used_as_spec(new_spec)]
    pub fn new(byte_order: B) -> (decoder: U64<B>)
        ensures
            decoder == Self::new_spec(byte_order),
    {
        U64 { byte_order }
    }
}

impl<B: ByteOrder + Default> Default for U64<B> {
    #[inline]
    fn default() -> (decoder: Self)
        ensures
            call_ensures(B::default, (), decoder.byte_order),
    {
        Self::new(B::default())
    }
}

impl<B: ByteOrder> Decoder for U64<B> {
    type Item<'src> = u64;

    type Error = Infallible;

    /// The `u64` that the first 8 bytes of `src` stand for in the byte order
    /// of the decoder, or the amount of bytes that `src` is short of 8.
    open spec fn attempt(&self, src: Seq<u8>) -> Result<(u64, nat), Error<Infallible>> {
        fixed_width(src, 8, u64::decoded(src.take(8), self.byte_order.order())->Ok_0)
    }

    #[inline]
    fn hint(&self) -> (size: Size)
        ensures
            size == Size::of(8),
            size is Known,
    {
        Size::new(8)
    }

    #[inline]
    fn decode<'s>(&mut self, src: &mut &'s [u8]) -> (frame: Result<u64, Error<Infallible>>)
        ensures
            *final(self) == *old(self),
    {
        let len = src.len();
        if len < 8 {
            assert(src@ == old(src)@);
            return Err(Error::Incomplete { needed: Size::new(8 - len) });
        }
        let (bytes, rest) = src.split_at(8);
        let bits = u64::from_bytes(<[u8; 8]>::from_slice(bytes), self.byte_order.endian());
        *src = rest;
        assert(src@ == old(src)@.skip(8));
        Ok(bits)
    }
}

/// A binary [`Decoder`] that is capable of reading a `u128` in a specified byte order.
#[derive(Debug, Clone, PartialEq, Eq, PartialOrd, Ord, Hash)]
pub struct U128<B: ByteOrder = NativeEndian> {
    /// The byte order for this decoder.
    pub byte_order: B,
}

impl<B: ByteOrder> U128<B> {
    /// The number of bytes of a `u128`.
    pub const SIZE: usize = 16;

    /// The decoder that [`U128::new`] gives for `byte_order`.
    pub open spec fn new_spec(byte_order: B) -> U128<B> {
        U128 { byte_order }
    }

    /// Create a new binary decoder for a `u128`.
    #[inline]
    #[must_use]
    #[verifier::when_used_as_spec(new_spec)]
    pub fn new(byte_order: B) -> (decoder: U128<B>)
        ensures
            decoder == Self::new_spec(byte_order),
    {
        U128 { byte_order }
    }
}

impl<B: ByteOrder + Default> Default for U128<B> {
    #[inline]
    fn default() -> (decoder: Self)
        ensures
            call_ensures(B::default, (), decoder.byte_order),
    {
        Self::new(B::default())
    }
}

impl<B: ByteOrder> Decoder for U128<B> {
    type Item<'src> = u128;

    type Error = Infallible;

    /// The `u128` that the first 16 bytes of `src` stand for in the byte order
    /// of the decoder, or the amount of bytes that `src` is short of 16.
    open spec fn attempt(&self, src: Seq<u8>) -> Result<(u128, nat), Error<Infallible>> {
        fixed_width(src, 16, u128::decoded(src.take(16), self.byte_order.order())->Ok_0)
    }

    #[inline]
    fn hint(&self) -> (size: Size)
        ensures
            size == Size::of(16),
            size is Known,
    {
        Size::new(16)
    }

    #[inline]
    fn decode<'s>(&mut self, src: &mut &'s [u8]) -> (frame: Result<u128, Error<Infallible>>)
        ensures
            *final(self) == *old(self),
    {
        let len = src.len();
        if len < 16 {
            assert(src@ == old(src)@);
            return Err(Error::Incomplete { needed: Size::new(16 - len) });
        }
        let (bytes, rest) = src.split_at(16);
        let bits = u128::from_bytes(<[u8; 16]>::from_slice(bytes), self.byte_order.endian());
        *src = rest;
        assert(src@ == old(src)@.skip(16));
        Ok(bits)
    }
}

/// A binary [`Decoder`] that is capable of reading an `i8` in a specified byte order.
#[derive(Debug, Clone, PartialEq, Eq, PartialOrd, Ord, Hash)]
pub struct I8<B: ByteOrder = NativeEndian> {
    /// The byte order for this decoder.
    pub byte_order: B,
}

impl<B: ByteOrder> I8<B> {
    /// The number of bytes of an `i8`.
    pub const SIZE: usize = 1;

    /// The decoder that [`I8::new`] gives for `byte_order`.
    pub open spec fn new_spec(byte_order: B) -> I8<B> {
        I8 { byte_order }
    }

    /// Create a new binary decoder for an `i8`.
    #[inline]
    #[must_use]
    #[verifier::when_used_as_spec(new_spec)]
    pub fn new(byte_order: B) -> (decoder: I8<B>)
        ensures
            decoder == Self::new_spec(byte_order),
    {
        I8 { byte_order }
    }
}

impl<B: ByteOrder + Default> Default for I8<B> {
    #[inline]
    fn default() -> (decoder: Self)
        ensures
            call_ensures(B::default, (), decoder.byte_order),
    {
        Self::new(B::default())
    }
}

impl<B: ByteOrder> Decoder for I8<B> {
    type Item<'src> = i8;

    type Error = Infallible;

    /// The `i8` that the first byte of `src` stands for in the byte order
    /// of the decoder, or the amount of bytes that `src` is short of 1.
    open spec fn attempt(&self, src: Seq<u8>) -> Result<(i8, nat), Error<Infallible>> {
        fixed_width(src, 1, i8::decoded(src.take(1), self.byte_order.order())->Ok_0)
    }

    #[inline]
    fn hint(&self) -> (size: Size)
        ensures
            size == Size::of(1),
            size is Known,
    {
        Size::new(1)
    }

    #[inline]
    fn decode<'s>(&mut self, src: &mut &'s [u8]) -> (frame: Result<i8, Error<Infallible>>)
        ensures
            *final(self) == *old(self),
    {
        let len = src.len();
        if len < 1 {
            assert(src@ == old(src)@);
            return Err(Error::Incomplete { needed: Size::new(1 - len) });
        }
        let (bytes, rest) = src.split_at(1);
        let bits = i8::from_bytes(<[u8; 1]>::from_slice(bytes), self.byte_order.endian());
        *src = rest;
        assert(src@ == old(src)@.skip(1));
        Ok(bits)
    }
}

/// A binary [`Decoder`] that is capable of reading an `i16` in a specified byte order.
#[derive(Debug, Clone, PartialEq, Eq, PartialOrd, Ord, Hash)]
pub struct I16<B: ByteOrder = NativeEndian> {
    /// The byte order for this decoder.
    pub byte_order: B,
}

impl<B: ByteOrder> I16<B> {
    /// The number of bytes of an `i16`.
    pub const SIZE: usize = 2;

    /// The decoder that [`I16::new`] gives for `byte_order`.
    pub open spec fn new_spec(byte_order: B) -> I16<B> {
        I16 { byte_order }
    }

    /// Create a new binary decoder for an `i16`.
    #[inline]
    #[must_use]
    #[verifier::when_used_as_spec(new_spec)]
    pub fn new(byte_order: B) -> (decoder: I16<B>)
        ensures
            decoder == Self::new_spec(byte_order),
    {
        I16 { byte_order }
    }
}

impl<B: ByteOrder + Default> Default for I16<B> {
    #[inline]
    fn default() -> (decoder: Self)
        ensures
            call_ensures(B::default, (), decoder.byte_order),
    {
        Self::new(B::default())
    }
}

impl<B: ByteOrder> Decoder for I16<B> {
    type Item<'src> = i16;

    type Error = Infallible;

    /// The `i16` that the first 2 bytes of `src` stand for in the byte order
    /// of the decoder, or the amount of bytes that `src` is short of 2.
    open spec fn attempt(&self, src: Seq<u8>) -> Result<(i16, nat), Error<Infallible>> {
        fixed_width(src, 2, i16::decoded(src.take(2), self.byte_order.order())->Ok_0)
    }

    #[inline]
    fn hint(&self) -> (size: Size)
        ensures
            size == Size::of(2),
            size is Known,
    {
        Size::new(2)
    }

    #[inline]
    fn decode<'s>(&mut self, src: &mut &'s [u8]) -> (frame: Result<i16, Error<Infallible>>)
        ensures
            *final(self) == *old(self),
    {
        let len = src.len();
        if len < 2 {
            assert(src@ == old(src)@);
            return Err(Error::Incomplete { needed: Size::new(2 - len) });
        }
        let (bytes, rest) = src.split_at(2);
        let bits = i16::from_bytes(<[u8; 2]>::from_slice(bytes), self.byte_order.endian());
        *src = rest;
        assert(src@ == old(src)@.skip(2));
        Ok(bits)
    }
}

/// A binary [`Decoder`] that is capable of reading an `i32` in a specified byte order.
#[derive(Debug, Clone, PartialEq, Eq, PartialOrd, Ord, Hash)]
pub struct I32<B: ByteOrder = NativeEndian> {
    /// The byte order for this decoder.
    pub byte_order: B,
}

impl<B: ByteOrder> I32<B> {
    /// The number of bytes of an `i32`.
    pub const SIZE: usize = 4;

    /// The decoder that [`I32::new`] gives for `byte_order`.
    pub open spec fn new_spec(byte_order: B) -> I32<B> {
        I32 { byte_order }
    }

    /// Create a new binary decoder for an `i32`.
    #[inline]
    #[must_use]
    #[verifier::when_used_as_spec(new_spec)]
    pub fn new(byte_order: B) -> (decoder: I32<B>)
        ensures
            decoder == Self::new_spec(byte_order),
    {
        I32 { byte_order }
    }
}

impl<B: ByteOrder + Default> Default for I32<B> {
    #[inline]
    fn default() -> (decoder: Self)
        ensures
            call_ensures(B::default, (), decoder.byte_order),
    {
        Self::new(B::default())
    }
}

impl<B: ByteOrder> Decoder for I32<B> {
    type Item<'src> = i32;

    type Error = Infallible;

    /// The `i32` that the first 4 bytes of `src` stand for in the byte order
    /// of the decoder, or the amount of bytes that `src` is short of 4.
    open spec fn attempt(&self, src: Seq<u8>) -> Result<(i32, nat), Error<Infallible>> {
        fixed_width(src, 4, i32::decoded(src.take(4), self.byte_order.order())->Ok_0)
    }

    #[inline]
    fn hint(&self) -> (size: Size)
        ensures
            size == Size::of(4),
            size is Known,
    {
        Size::new(4)
    }

    #[inline]
    fn decode<'s>(&mut self, src: &mut &'s [u8]) -> (frame: Result<i32, Error<Infallible>>)
        ensures
            *final(self) == *old(self),
    {
        let len = src.len();
        if len < 4 {
            assert(src@ == old(src)@);
            return Err(Error::Incomplete { needed: Size::new(4 - len) });
        }
        let (bytes, rest) = src.split_at(4);
        let bits = i32::from_bytes(<[u8; 4]>::from_slice(bytes), self.byte_order.endian());
        *src = rest;
        assert(src@ == old(src)@.skip(4));
        Ok(bits)
    }
}

/// A binary [`Decoder`] that is capable of reading an `i64` in a specified byte order.
#[derive(Debug, Clone, PartialEq, Eq, PartialOrd, Ord, Hash)]
pub struct I64<B: ByteOrder = NativeEndian> {
    /// The byte order for this decoder.
    pub byte_order: B,
}

impl<B: ByteOrder> I64<B> {
    /// The number of bytes of an `i64`.
    pub const SIZE: usize = 8;

    /// The decoder that [`I64::new`] gives for `byte_order`.
    pub open spec fn new_spec(byte_order: B) -> I64<B> {
        I64 { byte_order }
    }

    /// Create a new binary decoder for an `i64`.
    #[inline]
    #[must_use]
    #[verifier::when_used_as_spec(new_spec)]
    pub fn new(byte_order: B) -> (decoder: I64<B>)
        ensures
            decoder == Self::new_spec(byte_order),
    {
        I64 { byte_order }
    }
}

impl<B: ByteOrder + Default> Default for I64<B> {
    #[inline]
    fn default() -> (decoder: Self)
        ensures
            call_ensures(B::default, (), decoder.byte_order),
    {
        Self::new(B::default())
    }
}

impl<B: ByteOrder> Decoder for I64<B> {
    type Item<'src> = i64;

    type Error = Infallible;

    /// The `i64` that the first 8 bytes of `src` stand for in the byte order
    /// of the decoder, or the amount of bytes that `src` is short of 8.
    open spec fn attempt(&self, src: Seq<u8>) -> Result<(i64, nat), Error<Infallible>> {
        fixed_width(src, 8, i64::decoded(src.take(8), self.byte_order.order())->Ok_0)
    }

    #[inline]
    fn hint(&self) -> (size: Size)
        ensures
            size == Size::of(8),
            size is Known,
    {
        Size::new(8)
    }

    #[inline]
    fn decode<'s>(&mut self, src: &mut &'s [u8]) -> (frame: Result<i64, Error<Infallible>>)
        ensures
            *final(self) == *old(self),
    {
        let len = src.len();
        if len < 8 {
            assert(src@ == old(src)@);
            return Err(Error::Incomplete { needed: Size::new(8 - len) });
        }
        let (bytes, rest) = src.split_at(8);
        let bits = i64::from_bytes(<[u8; 8]>::from_slice(bytes), self.byte_order.endian());
        *src = rest;
        assert(src@ == old(src)@.skip(8));
        Ok(bits)
    }
}

/// A binary [`Decoder`] that is capable of reading an `i128` in a specified byte order.
#[derive(Debug, Clone, PartialEq, Eq, PartialOrd, Ord, Hash)]
pub struct I128<B: ByteOrder = NativeEndian> {
    /// The byte order for this decoder.
    pub byte_order: B,
}

impl<B: ByteOrder> I128<B> {
    /// The number of bytes of an `i128`.
    pub const SIZE: usize = 16;

    /// The decoder that [`I128::new`] gives for `byte_order`.
    pub open spec fn new_spec(byte_order: B) -> I128<B> {
        I128 { byte_order }
    }

    /// Create a new binary decoder for an `i128`.
    #[inline]
    #[must_use]
    #[verifier::when_used_as_spec(new_spec)]
    pub fn new(byte_order: B) -> (decoder: I128<B>)
        ensures
            decoder == Self::new_spec(byte_order),
    {
        I128 { byte_order }
    }
}

impl<B: ByteOrder + Default> Default for I128<B> {
    #[inline]
    fn default() -> (decoder: Self)
        ensures
            call_ensures(B::default, (), decoder.byte_order),
    {
        Self::new(B::default())
    }
}

impl<B: ByteOrder> Decoder for I128<B> {
    type Item<'src> = i128;

    type Error = Infallible;

    /// The `i128` that the first 16 bytes of `src` stand for in the byte order
    /// of the decoder, or the amount of bytes that `src` is short of 16.
    open spec fn attempt(&self, src: Seq<u8>) -> Result<(i128, nat), Error<Infallible>> {
        fixed_width(src, 16, i128::decoded(src.take(16), self.byte_order.order())->Ok_0)
    }

    #[inline]
    fn hint(&self) -> (size: Size)
        ensures
            size == Size::of(16),
            size is Known,
    {
        Size::new(16)
    }

    #[inline]
    fn decode<'s>(&mut self, src: &mut &'s [u8]) -> (frame: Result<i128, Error<Infallible>>)
        ensures
            *final(self) == *old(self),
    {
        let len = src.len();
        if len < 16 {
            assert(src@ == old(src)@);
            return Err(Error::Incomplete { needed: Size::new(16 - len) });
        }
        let (bytes, rest) = src.split_at(16);
        let bits = i128::from_bytes(<[u8; 16]>::from_slice(bytes), self.byte_order.endian());
        *src = rest;
        assert(src@ == old(src)@.skip(16));
        Ok(bits)
    }
}

/// A binary [`Decoder`] that is capable of reading a `usize` in a specified byte order.
#[derive(Debug, Clone, PartialEq, Eq, PartialOrd, Ord, Hash)]
pub struct Usize<B: ByteOrder = NativeEndian> {
    /// The byte order for this decoder.
    pub byte_order: B,
}

impl<B: ByteOrder> Usize<B> {
    /// The number of bytes of a `usize`.
    pub const SIZE: usize = POINTER_SIZE;

    /// The decoder that [`Usize::new`] gives for `byte_order`.
    pub open spec fn new_spec(byte_order: B) -> Usize<B> {
        Usize { byte_order }
    }

    /// Create a new binary decoder for a `usize`.
    #[inline]
    #[must_use]
    #[verifier::when_used_as_spec(new_spec)]
    pub fn new(byte_order: B) -> (decoder: Usize<B>)
        ensures
            decoder == Self::new_spec(byte_order),
    {
        Usize { byte_order }
    }
}

impl<B: ByteOrder + Default> Default for Usize<B> {
    #[inline]
    fn default() -> (decoder: Self)
        ensures
            call_ensures(B::default, (), decoder.byte_order),
    {
        Self::new(B::default())
    }
}

impl<B: ByteOrder> Decoder for Usize<B> {
    type Item<'src> = usize;

    type Error = Infallible;

    /// The `usize` that the first bytes of `src` stand for in the byte order of the
    /// decoder, as many as a `usize` has, or the amount of bytes that `src` is
    /// short of them.
    open spec fn attempt(&self, src: Seq<u8>) -> Result<(usize, nat), Error<Infallible>> {
        fixed_width(
            src,
            pointer_width() as usize,
            usize::decoded(src.take(pointer_width() as int), self.byte_order.order())->Ok_0,
        )
    }

    #[inline]
    fn hint(&self) -> (size: Size)
        ensures
            size == Size::of(pointer_width() as usize),
            size is Known,
    {
        Size::new(<[u8; POINTER_SIZE]>::size())
    }

    #[inline]
    fn decode<'s>(&mut self, src: &mut &'s [u8]) -> (frame: Result<usize, Error<Infallible>>)
        ensures
            *final(self) == *old(self),
    {
        let width = <[u8; POINTER_SIZE]>::size();
        let len = src.len();
        if len < width {
            assert(src@ == old(src)@);
            return Err(Error::Incomplete { needed: Size::new(width - len) });
        }
        let (bytes, rest) = src.split_at(width);
        let bits = usize::from_bytes(
            <[u8; POINTER_SIZE]>::from_slice(bytes),
            self.byte_order.endian(),
        );
        *src = rest;
        assert(src@ == old(src)@.skip(width as int));
        Ok(bits)
    }
}

/// A binary [`Decoder`] that is capable of reading an `isize` in a specified byte order.
#[derive(Debug, Clone, PartialEq, Eq, PartialOrd, Ord, Hash)]
pub struct Isize<B: ByteOrder = NativeEndian> {
    /// The byte order for this decoder.
    pub byte_order: B,
}

impl<B: ByteOrder> Isize<B> {
    /// The number of bytes of an `isize`.
    pub const SIZE: usize = POINTER_SIZE;

    /// The decoder that [`Isize::new`] gives for `byte_order`.
    pub open spec fn new_spec(byte_order: B) -> Isize<B> {
        Isize { byte_order }
    }

    /// Create a new binary decoder for an `isize`.
    #[inline]
    #[must_use]
    #[verifier::when_used_as_spec(new_spec)]
    pub fn new(byte_order: B) -> (decoder: Isize<B>)
        ensures
            decoder == Self::new_spec(byte_order),
    {
        Isize { byte_order }
    }
}

impl<B: ByteOrder + Default> Default for Isize<B> {
    #[inline]
    fn default() -> (decoder: Self)
        ensures
            call_ensures(B::default, (), decoder.byte_order),
    {
        Self::new(B::default())
    }
}

impl<B: ByteOrder> Decoder for Isize<B> {
    type Item<'src> = isize;

    type Error = Infallible;

    /// The `isize` that the first bytes of `src` stand for in the byte order of the
    /// decoder, as many as an `isize` has, or the amount of bytes that `src` is
    /// short of them.
    open spec fn attempt(&self, src: Seq<u8>) -> Result<(isize, nat), Error<Infallible>> {
        fixed_width(
            src,
            pointer_width() as usize,
            isize::decoded(src.take(pointer_width() as int), self.byte_order.order())->Ok_0,
        )
    }

    #[inline]
    fn hint(&self) -> (size: Size)
        ensures
            size == Size::of(pointer_width() as usize),
            size is Known,
    {
        Size::new(<[u8; POINTER_SIZE]>::size())
    }

    #[inline]
    fn decode<'s>(&mut self, src: &mut &'s [u8]) -> (frame: Result<isize, Error<Infallible>>)
        ensures
            *final(self) == *old(self),
    {
        let width = <[u8; POINTER_SIZE]>::size();
        let len = src.len();
        if len < width {
            assert(src@ == old(src)@);
            return Err(Error::Incomplete { needed: Size::new(width - len) });
        }
        let (bytes, rest) = src.split_at(width);
        let bits = isize::from_bytes(
            <[u8; POINTER_SIZE]>::from_slice(bytes),
            self.byte_order.endian(),
        );
        *src = rest;
        assert(src@ == old(src)@.skip(width as int));
        Ok(bits)
    }
}

} // verus!
