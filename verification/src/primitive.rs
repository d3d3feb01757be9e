//! The primitive types and their fixed-size byte representations.

use crate::endian::Endian;
use crate::nonzero::{NonZero, Zeroable};
use crate::radix::{bytes_of, lemma_bytes_len, lemma_pow256_widths, lemma_value_of_bytes, value_of};
use crate::sealed::Sealed;
use core::convert::Infallible;
use vstd::prelude::*;

verus! {

/// Trait for the fixed-size byte arrays that hold the bytes of a primitive.
pub trait ByteArray: Copy + Sealed + View<V = Seq<u8>> {
    /// The number of bytes in an array of this type.
    spec fn len() -> nat;

    /// The number of bytes in an array of this type.
    fn size() -> (size: usize)
        ensures
            size == Self::len(),
    ;

    /// An array of zeros.
    fn zeroed() -> (bytes: Self)
        ensures
            bytes@ == Seq::new(Self::len(), |i: int| 0u8),
    ;

    /// The array that holds the bytes of `slice`.
    fn from_slice(slice: &[u8]) -> (bytes: Self)
        requires
            slice@.len() == Self::len(),
        ensures
            bytes@ == slice@,
    ;

    /// The bytes of the array as a slice.
    fn as_slice(&self) -> (slice: &[u8])
        ensures
            slice@ == self@,
            slice@.len() == Self::len(),
    ;

    /// The bytes of the array as a slice to write to.
    fn as_mut_slice(&mut self) -> (slice: &mut [u8])
        ensures
            slice@ == old(self)@,
            slice@.len() == Self::len(),
            final(self)@ == final(slice)@,
    ;
}

impl<const N: usize> ByteArray for [u8; N] {
    open spec fn len() -> nat {
        N as nat
    }

    #[inline]
    fn size() -> (size: usize) {
        N
    }

    #[inline]
    fn zeroed() -> (bytes: Self) {
        let bytes = [0u8;N];
        assert(bytes@ =~= Seq::new(N as nat, |i: int| 0u8));
        bytes
    }

    #[inline]
    fn from_slice(slice: &[u8]) -> (bytes: Self) {
        assert(<[u8; N] as ByteArray>::len() == N);
        let mut bytes = [0u8;N];
        let mut i: usize = 0;
        while i < N
            invariant
                i <= N,
                slice@.len() == N,
                bytes@.len() == N,
                bytes@.take(i as int) == slice@.take(i as int),
            decreases N - i,
        {
            bytes[i] = slice[i];
            i = i + 1;
            assert(bytes@.take(i as int) == slice@.take(i as int)) by {
                assert(bytes@.take(i as int) == bytes@.take(i - 1).push(bytes@[i - 1]));
                assert(slice@.take(i as int) == slice@.take(i - 1).push(slice@[i - 1]));
            }
        }
        assert(bytes@.take(N as int) == bytes@);
        assert(slice@.take(N as int) == slice@);
        bytes
    }

    #[inline]
    fn as_slice(&self) -> (slice: &[u8]) {
        self
    }

    #[inline]
    fn as_mut_slice(&mut self) -> (slice: &mut [u8]) {
        self
    }
}

/// The number of bytes of a `usize` and of an `isize`: four or eight, by the
/// machine that the program is built for.
pub const POINTER_SIZE: usize = (usize::BITS / 8) as usize;

/// The number of bytes of a `usize` and of an `isize`, as the length of the
/// arrays that hold them.
pub open spec fn pointer_width() -> nat {
    <[u8; POINTER_SIZE] as ByteArray>::len()
}

/// The number of bytes in the byte representation of the primitive `P`.
pub open spec fn width<P: Primitive>() -> nat {
    <P::Bytes as ByteArray>::len()
}

/// Trait for Rust's sized primitive types, including the unit type `()`.
///
/// Each has a byte representation of a fixed size, and is written to it and
/// read from it in a byte order that every call names.
pub trait Primitive: Sized + Sealed {
    /// The byte representation: an array of [`width`] bytes.
    type Bytes: ByteArray;

    /// What is wrong with bytes that stand for no value of the type.
    type Error: Copy;

    /// The size of the byte representation, in bytes.
    const BYTE_LEN: usize;

    /// Whether this is a value that the program can hold. Every value is one, but
    /// for the non-zero integers: a non-zero that holds zero is a value that only
    /// ghost code can speak of.
    spec fn in_range(self) -> bool;

    /// The value that `bytes` stand for in the byte order `endian`, or the error
    /// where they stand for none.
    spec fn decoded(bytes: Seq<u8>, endian: Endian) -> Result<Self, Self::Error>;

    /// The bytes that stand for this value in the byte order `endian`.
    spec fn encoded(self, endian: Endian) -> Seq<u8>;

    /// Reads a value from its bytes in the byte order `endian`.
    #[must_use]
    fn try_from_bytes(bytes: Self::Bytes, endian: Endian) -> (value: Result<Self, Self::Error>)
        ensures
            value == Self::decoded(bytes@, endian),
    ;

    /// Writes the value to its bytes in the byte order `endian`.
    #[must_use]
    fn to_bytes(self, endian: Endian) -> (bytes: Self::Bytes)
        ensures
            bytes@ == self.encoded(endian),
    ;

    /// Reads a value from bytes that stand for one, in the byte order `endian`.
    #[must_use]
    #[inline]
    fn from_bytes(bytes: Self::Bytes, endian: Endian) -> (value: Self)
        requires
            Self::decoded(bytes@, endian) is Ok,
        ensures
            Self::decoded(bytes@, endian) == Ok::<Self, Self::Error>(value),
    {
        match Self::try_from_bytes(bytes, endian) {
            Ok(value) => value,
            Err(_) => vstd::pervasive::unreached(),
        }
    }

    /// A value has as many bytes as its type says, and reading them in the order
    /// in which they were written gives the value again.
    proof fn lemma_round_trip(value: Self, endian: Endian)
        requires
            value.in_range(),
        ensures
            value.encoded(endian).len() == <Self::Bytes as ByteArray>::len(),
            Self::decoded(value.encoded(endian), endian) == Ok::<Self, Self::Error>(value),
    ;
}

impl Primitive for () {
    type Bytes = [u8; 0];

    type Error = Infallible;

    const BYTE_LEN: usize = 0;

    open spec fn in_range(self) -> bool {
        true
    }

    open spec fn decoded(bytes: Seq<u8>, endian: Endian) -> Result<(), Infallible> {
        Ok(())
    }

    open spec fn encoded(self, endian: Endian) -> Seq<u8> {
        Seq::empty()
    }

    #[inline]
    fn try_from_bytes(bytes: [u8; 0], endian: Endian) -> (value: Result<(), Infallible>) {
        Ok(())
    }

    #[inline]
    fn to_bytes(self, endian: Endian) -> (bytes: [u8; 0]) {
        let bytes: [u8; 0] = [];
        assert(bytes@ =~= Seq::empty());
        bytes
    }

    #[inline]
    fn from_bytes(bytes: [u8; 0], endian: Endian) -> (value: ()) {
        ()
    }

    proof fn lemma_round_trip(value: (), endian: Endian) {
    }
}

/// A byte that is neither `0` nor `1`, where a `bool` was to be read.
#[derive(Debug, Clone, Copy, PartialEq, Eq, Structural, PartialOrd, Ord, Hash)]
pub struct BoolError(pub u8);

impl BoolError {
    /// What is wrong, in words.
    #[inline]
    #[must_use]
    pub fn message(&self) -> (message: &'static str)
        ensures
            message@ == "invalid byte for a bool"@,
    {
        "invalid byte for a bool"
    }
}

impl Primitive for bool {
    type Bytes = [u8; 1];

    type Error = BoolError;

    const BYTE_LEN: usize = 1;

    open spec fn in_range(self) -> bool {
        true
    }

    /// The byte `0` is `false`, the byte `1` is `true`, and no other byte is a
    /// `bool`. The byte order plays no part.
    open spec fn decoded(bytes: Seq<u8>, endian: Endian) -> Result<bool, BoolError> {
        if bytes[0] == 0 {
            Ok(false)
        } else if bytes[0] == 1 {
            Ok(true)
        } else {
            Err(BoolError(bytes[0]))
        }
    }

    open spec fn encoded(self, endian: Endian) -> Seq<u8> {
        seq![if self { 1u8 } else { 0u8 }]
    }

    #[inline]
    fn try_from_bytes(bytes: [u8; 1], endian: Endian) -> (value: Result<bool, BoolError>) {
        let byte = bytes[0];
        if byte == 0 {
            Ok(false)
        } else if byte == 1 {
            Ok(true)
        } else {
            Err(BoolError(byte))
        }
    }

    #[inline]
    fn to_bytes(self, endian: Endian) -> (bytes: [u8; 1]) {
        let bytes = [if self { 1u8 } else { 0u8 }];
        assert(bytes@ =~= self.encoded(endian));
        bytes
    }

    proof fn lemma_round_trip(value: bool, endian: Endian) {
    }
}

/// A number that is no Unicode scalar value, where a `char` was to be read.
#[derive(Debug, Clone, Copy, PartialEq, Eq, Structural, PartialOrd, Ord, Hash)]
pub struct CharError(pub u32);

impl CharError {
    /// What is wrong, in words.
    #[inline]
    #[must_use]
    pub fn message(&self) -> (message: &'static str)
        ensures
            message@ == "unicode code point out of range"@,
    {
        "unicode code point out of range"
    }
}

/// Whether `bits` is a Unicode scalar value: a code point up to `0x10FFFF` that
/// is no surrogate.
pub open spec fn is_scalar_value(bits: u32) -> bool {
    bits <= 0xD7FF || 0xE000 <= bits <= 0x10FFFF
}

/// Calls `char::from_u32`, which gives the character whose scalar value is
/// `bits`, and nothing where `bits` is a surrogate or above `0x10FFFF`.
#[verifier::external_body]
pub(crate) fn char_from_u32(bits: u32) -> (ch: Option<char>)
    ensures
        ch == (if is_scalar_value(bits) {
            Some(bits as char)
        } else {
            None
        }),
{
    char::from_u32(bits)
}

/// The scalar value of a character.
#[inline]
fn scalar_value(ch: char) -> (bits: u32)
    ensures
        bits == ch as u32,
        bits as nat == ch as nat,
        is_scalar_value(bits),
{
    ch as u32
}

/// A character is the Unicode scalar value that it has as a number.
proof fn lemma_char_is_scalar_value(ch: char)
    ensures
        ch as nat <= 0x10FFFF,
        is_scalar_value(ch as u32),
        (ch as u32) as char == ch,
        (ch as nat) as u32 == ch as u32,
{
}

impl Primitive for char {
    type Bytes = [u8; 4];

    type Error = CharError;

    const BYTE_LEN: usize = 4;

    open spec fn in_range(self) -> bool {
        true
    }

    /// The bytes spell a 32-bit number, which is a `char` where it is a Unicode
    /// scalar value.
    open spec fn decoded(bytes: Seq<u8>, endian: Endian) -> Result<char, CharError> {
        let bits = value_of(bytes, endian) as u32;
        if is_scalar_value(bits) {
            Ok(bits as char)
        } else {
            Err(CharError(bits))
        }
    }

    open spec fn encoded(self, endian: Endian) -> Seq<u8> {
        bytes_of(self as nat, 4, endian)
    }

    #[inline]
    fn try_from_bytes(bytes: [u8; 4], endian: Endian) -> (value: Result<char, CharError>) {
        let bits = u32::from_bytes(bytes, endian);
        match char_from_u32(bits) {
            Some(ch) => Ok(ch),
            None => Err(CharError(bits)),
        }
    }

    #[inline]
    fn to_bytes(self, endian: Endian) -> (bytes: [u8; 4]) {
        scalar_value(self).to_bytes(endian)
    }

    proof fn lemma_round_trip(value: char, endian: Endian) {
        lemma_char_is_scalar_value(value);
        lemma_pow256_widths();
        lemma_bytes_len(value as nat, 4, endian);
        lemma_value_of_bytes(value as nat, 4, endian);
    }
}

/// A zero, where an integer that is not zero was asked for. It holds the zero.
#[derive(Debug, PartialEq, Eq, PartialOrd, Ord, Hash)]
pub struct NonZeroError<T: Zeroable>(pub T);

impl<T: Zeroable> Clone for NonZeroError<T> {
    #[inline]
    fn clone(&self) -> (copy: Self)
        ensures
            copy == *self,
    {
        *self
    }
}

impl<T: Zeroable> Copy for NonZeroError<T> {

}

impl<T: Zeroable> NonZeroError<T> {
    /// What is wrong, in words.
    #[inline]
    #[must_use]
    pub fn message(&self) -> (message: &'static str)
        ensures
            message@ == "primitive cannot be zero"@,
    {
        "primitive cannot be zero"
    }
}

/// The non-zero form of `value`, or the error that holds `value` where it is
/// zero.
pub open spec fn nonzero_of<T: Zeroable>(value: T) -> Result<NonZero<T>, NonZeroError<T>> {
    if value.zero() {
        Err(NonZeroError(value))
    } else {
        Ok(NonZero::of(value))
    }
}

/// Trait for primitives that are allowed to be zero but have a nonzero variant,
/// [`NonZero`] of the type. Every run of bytes of the right length stands for one
/// of their values.
pub trait ZeroablePrimitive: Primitive<Error = Infallible> + Zeroable {
    /// Reading a value of this type from bytes does not fail.
    proof fn lemma_total(bytes: Seq<u8>, endian: Endian)
        ensures
            Self::decoded(bytes, endian) is Ok,
    ;

    /// Every value of this type is one that the program can hold.
    proof fn lemma_in_range(value: Self)
        ensures
            value.in_range(),
    ;

    /// The nonzero form of this value. Fails, and hands the value back in the
    /// error, exactly where the value is zero.
    #[must_use]
    #[inline]
    fn to_nonzero(self) -> (nonzero: Result<NonZero<Self>, NonZeroError<Self>>)
        ensures
            nonzero == nonzero_of(self),
    {
        match NonZero::new(self) {
            Some(nonzero) => Ok(nonzero),
            None => Err(NonZeroError(self)),
        }
    }

    /// The value that a nonzero form holds. Never fails.
    #[must_use]
    #[inline]
    fn from_nonzero(value: NonZero<Self>) -> (zeroable: Self)
        ensures
            zeroable == value@,
            !zeroable.zero(),
            nonzero_of(zeroable) == Ok::<NonZero<Self>, NonZeroError<Self>>(value),
    {
        value.get()
    }
}

/// Trait for primitives that are disallowed to be zero.
pub trait NonZeroPrimitive: Primitive {
    /// The zeroable variant of this type.
    type Zeroable: ZeroablePrimitive;

    /// The value of the zeroable variant that this value holds.
    spec fn zeroable(self) -> Self::Zeroable;

    /// The nonzero form of `value`. Fails, and hands `value` back in the error,
    /// exactly where `value` is zero.
    #[must_use]
    fn from_zeroable(value: Self::Zeroable) -> (nonzero: Result<
        Self,
        NonZeroError<Self::Zeroable>,
    >)
        ensures
            match nonzero {
                Ok(held) => !value.zero() && held.zeroable() == value && held.in_range(),
                Err(error) => value.zero() && error == NonZeroError(value),
            },
    ;

    /// The value of the zeroable variant that this value holds. Never fails, and
    /// never gives zero.
    #[must_use]
    fn to_zeroable(self) -> (value: Self::Zeroable)
        ensures
            value == self.zeroable(),
            !value.zero(),
    ;
}

impl<T: ZeroablePrimitive> Primitive for NonZero<T> {
    type Bytes = T::Bytes;

    type Error = NonZeroError<T>;

    const BYTE_LEN: usize = T::BYTE_LEN;

    open spec fn in_range(self) -> bool {
        !self@.zero() && self@.in_range()
    }

    /// The bytes stand for a value of the zeroable type, which has a non-zero
    /// form unless it is zero.
    open spec fn decoded(bytes: Seq<u8>, endian: Endian) -> Result<Self, NonZeroError<T>> {
        nonzero_of(T::decoded(bytes, endian)->Ok_0)
    }

    /// The bytes of a non-zero are those of the value it holds.
    open spec fn encoded(self, endian: Endian) -> Seq<u8> {
        self@.encoded(endian)
    }

    #[inline]
    fn try_from_bytes(bytes: T::Bytes, endian: Endian) -> (value: Result<Self, NonZeroError<T>>) {
        proof {
            T::lemma_total(bytes@, endian);
        }
        let zeroable = T::from_bytes(bytes, endian);
        Self::from_zeroable(zeroable)
    }

    #[inline]
    fn to_bytes(self, endian: Endian) -> (bytes: T::Bytes) {
        self.to_zeroable().to_bytes(endian)
    }

    proof fn lemma_round_trip(value: Self, endian: Endian) {
        T::lemma_round_trip(value@, endian);
        NonZero::lemma_view_of(value);
    }
}

impl<T: ZeroablePrimitive> NonZeroPrimitive for NonZero<T> {
    type Zeroable = T;

    open spec fn zeroable(self) -> T {
        self@
    }

    #[inline]
    fn from_zeroable(value: T) -> (nonzero: Result<Self, NonZeroError<T>>)
        ensures
            nonzero == nonzero_of(value),
    {
        proof {
            NonZero::lemma_of_view(value);
            T::lemma_in_range(value);
        }
        match NonZero::new(value) {
            Some(nonzero) => {
                assert(nonzero.zeroable() == value && nonzero.in_range());
                Ok(nonzero)
            },
            None => Err(NonZeroError(value)),
        }
    }

    #[inline]
    fn to_zeroable(self) -> (value: T) {
        self.get()
    }
}

/// The unit, `bool` and `char` have as many bytes as [`Primitive::BYTE_LEN`]
/// says.
pub proof fn lemma_byte_len()
    ensures
        width::<()>() == 0 && <() as Primitive>::BYTE_LEN == 0,
        width::<bool>() == 1 && <bool as Primitive>::BYTE_LEN == 1,
        width::<char>() == 4 && <char as Primitive>::BYTE_LEN == 4,
{
}

/// A nonzero integer has as many bytes as the integer that it holds.
pub proof fn lemma_nonzero_width<T: ZeroablePrimitive>()
    ensures
        width::<NonZero<T>>() == width::<T>(),
        <NonZero<T> as Primitive>::BYTE_LEN == T::BYTE_LEN,
{
}

/// Zero has no nonzero form, and the error hands it back; any other value has
/// one, which holds it, so that it comes back from there unchanged.
pub proof fn lemma_nonzero_duality<T: ZeroablePrimitive>(value: T)
    ensures
        value.zero() ==> nonzero_of(value) == Err::<NonZero<T>, NonZeroError<T>>(
            NonZeroError(value),
        ),
        !value.zero() ==> (nonzero_of(value) matches Ok(nonzero) && nonzero@ == value),
{
    NonZero::lemma_of_view(value);
}

/// A nonzero value is the nonzero form of the value that it holds: the way
/// through the zeroable form and back loses nothing.
pub proof fn lemma_nonzero_round_trip<T: ZeroablePrimitive>(nonzero: NonZero<T>)
    requires
        !nonzero@.zero(),
    ensures
        nonzero_of(nonzero@) == Ok::<NonZero<T>, NonZeroError<T>>(nonzero),
{
    NonZero::lemma_view_of(nonzero);
}

/// A nonzero value and the value that it holds have the same bytes, in either
/// byte order.
pub proof fn lemma_nonzero_bytes_agree<T: ZeroablePrimitive>(nonzero: NonZero<T>, endian: Endian)
    ensures
        nonzero.encoded(endian) == nonzero@.encoded(endian),
{
}

} // verus!
