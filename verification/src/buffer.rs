//! Buffers of bytes to read from, and the values that can be read from them.

use crate::endian::Endian;
use crate::primitive::{width, ByteArray, Primitive};
use vstd::prelude::*;

verus! {

/// A source of bytes that hands them out from its front, and fails where more
/// are asked for than it has.
pub trait Buffer {
    /// The error for more bytes than the buffer has.
    type Error;

    /// The bytes that are left in the buffer.
    spec fn remaining_bytes(&self) -> Seq<u8>;

    /// The error with which the buffer refuses to hand out `cnt` bytes.
    spec fn refusal(&self, cnt: usize) -> Self::Error;

    /// The bytes at the front of the buffer that lie together in memory. There
    /// is at least one, unless the buffer is empty.
    fn chunk(&self) -> (chunk: &[u8])
        ensures
            chunk@.len() <= self.remaining_bytes().len(),
            chunk@ == self.remaining_bytes().take(chunk@.len() as int),
            self.remaining_bytes().len() > 0 ==> chunk@.len() > 0,
    ;

    /// The number of bytes that are left in the buffer.
    fn remaining(&self) -> (remaining: usize)
        ensures
            remaining == self.remaining_bytes().len(),
    ;

    /// Leaves out the next `cnt` bytes. Fails, and changes nothing, where fewer are
    /// left.
    fn try_advance(&mut self, cnt: usize) -> (done: Result<(), Self::Error>)
        ensures
            cnt <= old(self).remaining_bytes().len() ==> done == Ok::<(), Self::Error>(())
                && final(self).remaining_bytes() == old(self).remaining_bytes().skip(cnt as int),
            cnt > old(self).remaining_bytes().len() ==> done == Err::<(), Self::Error>(
                old(self).refusal(cnt),
            ) && final(self).remaining_bytes() == old(self).remaining_bytes(),
    ;

    /// Takes the next bytes from the buffer into `slice`, as many as it holds.
    /// Fails, and changes nothing, where fewer are left.
    fn try_copy_to_slice(&mut self, slice: &mut [u8]) -> (done: Result<(), Self::Error>)
        ensures
            final(slice)@.len() == old(slice)@.len(),
            old(slice)@.len() <= old(self).remaining_bytes().len() ==> done == Ok::<
                (),
                Self::Error,
            >(()) && final(slice)@ == old(self).remaining_bytes().take(old(slice)@.len() as int)
                && final(self).remaining_bytes() == old(self).remaining_bytes().skip(
                old(slice)@.len() as int,
            ),
            old(slice)@.len() > old(self).remaining_bytes().len() ==> done == Err::<
                (),
                Self::Error,
            >(old(self).refusal(old(slice)@.len() as usize)) && final(slice)@ == old(slice)@
                && final(self).remaining_bytes() == old(self).remaining_bytes(),
    ;
}

impl Buffer for &[u8] {
    type Error = &'static str;

    open spec fn remaining_bytes(&self) -> Seq<u8> {
        (*self)@
    }

    open spec fn refusal(&self, cnt: usize) -> &'static str {
        "failed to advance slice"
    }

    #[inline]
    fn chunk(&self) -> (chunk: &[u8]) {
        let chunk: &[u8] = *self;
        assert(chunk@ == self.remaining_bytes().take(chunk@.len() as int));
        chunk
    }

    #[inline]
    fn remaining(&self) -> (remaining: usize) {
        self.len()
    }

    #[inline]
    fn try_advance(&mut self, cnt: usize) -> (done: Result<(), &'static str>) {
        if cnt <= self.len() {
            let (_, rest) = self.split_at(cnt);
            *self = rest;
            assert(self.remaining_bytes() == old(self).remaining_bytes().skip(cnt as int));
            Ok(())
        } else {
            assert(self.remaining_bytes() == old(self).remaining_bytes());
            Err("failed to advance slice")
        }
    }

    #[inline]
    fn try_copy_to_slice(&mut self, slice: &mut [u8]) -> (done: Result<(), &'static str>) {
        let len = slice.len();
        if len <= self.len() {
            let (bytes, rest) = self.split_at(len);
            let mut i: usize = 0;
            while i < len
                invariant
                    i <= len,
                    len == slice@.len(),
                    len == bytes@.len(),
                    slice@.take(i as int) == bytes@.take(i as int),
                decreases len - i,
            {
                slice[i] = bytes[i];
                i = i + 1;
                assert(slice@.take(i as int) == bytes@.take(i as int)) by {
                    assert(slice@.take(i as int) == slice@.take(i - 1).push(slice@[i - 1]));
                    assert(bytes@.take(i as int) == bytes@.take(i - 1).push(bytes@[i - 1]));
                }
            }
            *self = rest;
            assert(slice@.take(len as int) == slice@);
            assert(bytes@.take(len as int) == bytes@);
            assert(self.remaining_bytes() == old(self).remaining_bytes().skip(len as int));
            Ok(())
        } else {
            assert(self.remaining_bytes() == old(self).remaining_bytes());
            Err("failed to advance slice")
        }
    }
}

/// Trait for the errors of reading a value in a context: they may keep the
/// context.
pub trait ReadError<Ctx = ()>: Sized {
    /// The context that the error keeps, where it keeps one.
    spec fn kept_context(&self) -> Option<Ctx>;

    /// The context of the error, where it keeps one.
    fn context(&self) -> (kept: Option<&Ctx>)
        ensures
            match kept {
                Some(context) => self.kept_context() == Some(*context),
                None => self.kept_context() is None,
            },
    ;

    /// The error in the context `context`, where it keeps one, and the error
    /// itself where it keeps none.
    #[inline]
    fn with_context(self, context: Ctx) -> (placed: Self)
        default_ensures
            placed == self,
    {
        self
    }
}

impl<Ctx> ReadError<Ctx> for () {
    /// The unit error keeps no context.
    open spec fn kept_context(&self) -> Option<Ctx> {
        None
    }

    #[inline]
    fn context(&self) -> Option<&Ctx> {
        None
    }
}

impl<Ctx> ReadError<Ctx> for core::convert::Infallible {
    /// An error that cannot be keeps no context.
    open spec fn kept_context(&self) -> Option<Ctx> {
        None
    }

    #[inline]
    fn context(&self) -> Option<&Ctx> {
        None
    }
}

/// Trait for the errors of reading that can be made of an error of the buffer
/// `B`.
pub trait FromBufferError<B: Buffer + ?Sized>: Sized {
    /// The error of reading that stands for `error`, an error of the buffer.
    #[must_use]
    fn from_buffer_error(error: B::Error) -> (made: Self);
}

impl<B: Buffer + ?Sized> FromBufferError<B> for () {
    /// The unit error, which holds nothing of `error`.
    #[inline]
    fn from_buffer_error(error: B::Error) -> (made: ()) {
        ()
    }
}

/// What went wrong where a primitive was to be read from a buffer: the bytes were
/// there and stand for no value, or the bytes were not there.
#[allow(inconsistent_fields)]
#[derive(Debug, Clone, Copy, PartialEq, Eq, PartialOrd, Ord, Hash)]
pub enum ReadPrimitiveError<P, B> where P: Primitive, B: Buffer + ?Sized {
    /// The bytes stand for no value of the primitive.
    Primitive {
        /// The byte order in which the bytes were read.
        endian: Endian,
        /// What is wrong with the bytes.
        error: P::Error,
    },
    /// The buffer did not hold the bytes of a primitive.
    Buffer {
        /// A byte order, which played no part.
        endian: Endian,
        /// The error of the buffer.
        error: B::Error,
    },
}

impl<P, B> ReadPrimitiveError<P, B> where P: Primitive, B: Buffer + ?Sized {
    /// The byte order that the error holds.
    pub open spec fn order(&self) -> Endian {
        match self {
            ReadPrimitiveError::Primitive { endian, .. } => *endian,
            ReadPrimitiveError::Buffer { endian, .. } => *endian,
        }
    }

    /// The error with `endian` in the place of its byte order.
    pub open spec fn in_order(self, endian: Endian) -> Self {
        match self {
            ReadPrimitiveError::Primitive { error, .. } => ReadPrimitiveError::Primitive {
                endian,
                error,
            },
            ReadPrimitiveError::Buffer { error, .. } => ReadPrimitiveError::Buffer {
                endian,
                error,
            },
        }
    }

    /// The byte order that the error holds.
    #[inline]
    pub fn endian(&self) -> (endian: Endian)
        ensures
            endian == self.order(),
    {
        match self {
            ReadPrimitiveError::Primitive { endian, .. } => *endian,
            ReadPrimitiveError::Buffer { endian, .. } => *endian,
        }
    }
}

impl<P, B> ReadError<Endian> for ReadPrimitiveError<P, B> where P: Primitive, B: Buffer + ?Sized {
    /// The byte order that the error holds.
    open spec fn kept_context(&self) -> Option<Endian> {
        Some(self.order())
    }

    #[inline]
    fn context(&self) -> Option<&Endian> {
        match self {
            ReadPrimitiveError::Primitive { endian, .. } => Some(endian),
            ReadPrimitiveError::Buffer { endian, .. } => Some(endian),
        }
    }

    /// The error with `endian` in the place of its byte order.
    #[inline]
    fn with_context(self, endian: Endian) -> (placed: Self)
        ensures
            placed == self.in_order(endian),
    {
        match self {
            ReadPrimitiveError::Primitive { error, .. } => ReadPrimitiveError::Primitive {
                endian,
                error,
            },
            ReadPrimitiveError::Buffer { error, .. } => ReadPrimitiveError::Buffer {
                endian,
                error,
            },
        }
    }
}

impl<P, B> ReadError<()> for ReadPrimitiveError<P, B> where P: Primitive, B: Buffer + ?Sized {
    /// There is nothing to keep of the unit context.
    open spec fn kept_context(&self) -> Option<()> {
        None
    }

    #[inline]
    fn context(&self) -> Option<&()> {
        None
    }

    /// The error with some byte order in the place of its own: the order is that
    /// of the machine.
    #[inline]
    fn with_context(self, context: ()) -> (placed: Self)
        ensures
            exists|endian: Endian| placed == self.in_order(endian),
    {
        let endian = Endian::native();
        let placed = <Self as ReadError<Endian>>::with_context(self, endian);
        assert(placed == self.in_order(endian));
        placed
    }
}

impl<P, B> FromBufferError<B> for ReadPrimitiveError<P, B> where P: Primitive, B: Buffer + ?Sized {
    /// The error that holds `error`, with the byte order of the machine beside it.
    #[inline]
    fn from_buffer_error(error: B::Error) -> (made: Self)
        ensures
            made matches ReadPrimitiveError::Buffer { error: held, .. } && held == error,
    {
        ReadPrimitiveError::Buffer { endian: Endian::native(), error }
    }
}

/// Trait for the values that can be read from the buffer `B` in a context.
pub trait ReadBuffer<B: Buffer + ?Sized, Ctx = ()>: Sized {
    /// What can go wrong.
    type Error: ReadError<Ctx> + FromBufferError<B>;

    /// Whether reading from the buffer `before` in the context `context` may end
    /// as `outcome` and leave the buffer as `after`.
    spec fn reads(before: &B, context: Ctx, outcome: Result<Self, Self::Error>, after: &B) -> bool;

    /// Reads a value from the front of the buffer. The bytes of the value leave
    /// the buffer, also where they stand for no value.
    fn try_read_buffer(buffer: &mut B, context: Ctx) -> (outcome: Result<Self, Self::Error>)
        ensures
            Self::reads(&*old(buffer), context, outcome, &*final(buffer)),
    ;

    /// Reads a value from the front of a buffer in a context from which reading
    /// does not fail.
    #[inline]
    #[must_use]
    fn read_buffer(buffer: &mut B, context: Ctx) -> (value: Self)
        requires
            forall|outcome: Result<Self, Self::Error>, after: &B| #[trigger]
                Self::reads(&*old(buffer), context, outcome, after) ==> outcome is Ok,
        ensures
            Self::reads(
                &*old(buffer),
                context,
                Ok::<Self, Self::Error>(value),
                &*final(buffer),
            ),
    {
        match Self::try_read_buffer(buffer, context) {
            Ok(value) => value,
            Err(_) => vstd::pervasive::unreached(),
        }
    }
}

/// What reading the primitive `P` in the byte order `endian` gives, from the
/// buffer `before`: where the bytes of a `P` are there, they leave the buffer, and
/// the outcome is the value that they stand for or the error that says why they
/// stand for none. Where they are not there, the buffer keeps its bytes, and the
/// outcome is the error with which it refuses them, beside some byte order.
pub open spec fn reads_primitive<P: Primitive, B: Buffer + ?Sized>(
    before: &B,
    endian: Endian,
    outcome: Result<P, ReadPrimitiveError<P, B>>,
    after: &B,
) -> bool {
    let bytes = before.remaining_bytes();
    if bytes.len() < width::<P>() {
        &&& after.remaining_bytes() == bytes
        &&& outcome matches Err(ReadPrimitiveError::Buffer { error, .. })
        &&& error == before.refusal(width::<P>() as usize)
    } else {
        &&& after.remaining_bytes() == bytes.skip(width::<P>() as int)
        &&& match P::decoded(bytes.take(width::<P>() as int), endian) {
            Ok(value) => outcome == Ok::<P, ReadPrimitiveError<P, B>>(value),
            Err(error) => outcome == Err::<P, ReadPrimitiveError<P, B>>(
                ReadPrimitiveError::Primitive { endian, error },
            ),
        }
    }
}

impl<P: Primitive, B: Buffer + ?Sized> ReadBuffer<B, Endian> for P {
    type Error = ReadPrimitiveError<P, B>;

    open spec fn reads(
        before: &B,
        endian: Endian,
        outcome: Result<P, ReadPrimitiveError<P, B>>,
        after: &B,
    ) -> bool {
        reads_primitive(before, endian, outcome, after)
    }

    #[inline]
    fn try_read_buffer(buffer: &mut B, endian: Endian) -> (outcome: Result<
        P,
        ReadPrimitiveError<P, B>,
    >) {
        let mut bytes = P::Bytes::zeroed();
        match buffer.try_copy_to_slice(bytes.as_mut_slice()) {
            Ok(()) => {},
            Err(error) => {
                return Err(FromBufferError::from_buffer_error(error));
            },
        }
        match P::try_from_bytes(bytes, endian) {
            Ok(value) => Ok(value),
            Err(error) => Err(ReadPrimitiveError::Primitive { endian, error }),
        }
    }
}

impl<P: Primitive, B: Buffer + ?Sized> ReadBuffer<B, ()> for P {
    type Error = ReadPrimitiveError<P, B>;

    /// What reading in some byte order gives: the order is that of the machine.
    open spec fn reads(
        before: &B,
        context: (),
        outcome: Result<P, ReadPrimitiveError<P, B>>,
        after: &B,
    ) -> bool {
        exists|endian: Endian| reads_primitive(before, endian, outcome, after)
    }

    #[inline]
    fn try_read_buffer(buffer: &mut B, context: ()) -> (outcome: Result<
        P,
        ReadPrimitiveError<P, B>,
    >) {
        let endian = Endian::native();
        let outcome = <P as ReadBuffer<B, Endian>>::try_read_buffer(buffer, endian);
        assert(reads_primitive(&*old(buffer), endian, outcome, &*buffer));
        outcome
    }
}

/// The reading of values from a buffer, for every [`Buffer`].
pub trait BufferExt: Buffer {
    /// Reads a value from the front of the buffer in the context `ctx`.
    #[inline]
    fn read_with<T: ReadBuffer<Self, Ctx>, Ctx>(&mut self, ctx: Ctx) -> (outcome: Result<
        T,
        T::Error,
    >)
        ensures
            T::reads(&*old(self), ctx, outcome, &*final(self)),
    {
        T::try_read_buffer(self, ctx)
    }

    /// Reads a value from the front of the buffer. A primitive is read in the byte
    /// order of the machine.
    #[inline]
    fn read<T: ReadBuffer<Self, ()>>(&mut self) -> (outcome: Result<T, T::Error>)
        ensures
            T::reads(&*old(self), (), outcome, &*final(self)),
    {
        T::try_read_buffer(self, ())
    }
}

impl<B: Buffer + ?Sized> BufferExt for B {

}

} // verus!
