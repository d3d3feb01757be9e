//! The protocol by which frames are decoded from a stream of bytes, one attempt
//! at a time.

use crate::size::Size;
use core::convert::Infallible;
use vstd::prelude::*;

verus! {

/// Type for errors that may occur while decoding a frame.
#[derive(Debug, Clone, Copy, PartialEq, Eq, Hash)]
pub enum Error<E> {
    /// We've reached the end of a stream.
    ///
    /// There are no more frames to decode.
    Eof,
    /// Bytes remain in the stream despite being at the end of it.
    DataRemains,
    /// The data read so far looks to be valid but
    /// the input was incomplete.
    ///
    /// The source is not advanced when this is returned.
    Incomplete {
        /// The minimum amount of bytes required for
        /// reading the next frame.
        needed: Size,
    },
    /// A fatal error has occurred while reading the
    /// current frame.
    ///
    /// This indicates that the stream is corrupt and should
    /// be terminated.
    Fatal {
        /// The error.
        error: E,
    },
}

/// The same error for a decoder whose fatal errors are of the type `E`. An error
/// of a decoder that cannot fail fatally is none of the fatal ones.
pub open spec fn lifted<E>(error: Error<Infallible>) -> Error<E>
    recommends
        !(error is Fatal),
{
    match error {
        Error::Eof => Error::Eof,
        Error::DataRemains => Error::DataRemains,
        Error::Incomplete { needed } => Error::Incomplete { needed },
        Error::Fatal { .. } => arbitrary(),
    }
}

impl<E> Error<E> {
    /// Maps the error of a fatal error by applying a closure to it. The three
    /// other errors stay as they are, and the closure is not called for them.
    #[inline]
    #[must_use]
    pub fn map<T, F: FnOnce(E) -> T>(self, f: F) -> (mapped: Error<T>)
        requires
            self matches Error::Fatal { error } ==> call_requires(f, (error,)),
        ensures
            match self {
                Error::Eof => mapped == Error::<T>::Eof,
                Error::DataRemains => mapped == Error::<T>::DataRemains,
                Error::Incomplete { needed } => mapped == (Error::<T>::Incomplete { needed }),
                Error::Fatal { error } => mapped matches Error::Fatal { error: to }
                    && call_ensures(f, (error,), to),
            },
    {
        match self {
            Error::Eof => Error::Eof,
            Error::DataRemains => Error::DataRemains,
            Error::Incomplete { needed } => Error::Incomplete { needed },
            Error::Fatal { error } => Error::Fatal { error: f(error) },
        }
    }

    /// The text that describes the kind of the error.
    pub open spec fn message_text(&self) -> Seq<char> {
        match self {
            Error::Eof => "reached end of stream"@,
            Error::DataRemains => "data remains in stream"@,
            Error::Incomplete { .. } => "incomplete frame"@,
            Error::Fatal { .. } => "fatal error occurred"@,
        }
    }

    /// Describes the kind of the error in a few words.
    #[inline]
    #[must_use]
    pub fn message(&self) -> (message: &'static str)
        ensures
            message@ == self.message_text(),
    {
        match self {
            Error::Eof => "reached end of stream",
            Error::DataRemains => "data remains in stream",
            Error::Incomplete { .. } => "incomplete frame",
            Error::Fatal { .. } => "fatal error occurred",
        }
    }

    /// Takes over the error of a decoder that cannot fail fatally.
    #[inline]
    #[must_use]
    pub fn from_infallible(error: Error<Infallible>) -> (same: Error<E>)
        ensures
            !(error is Fatal) ==> same == lifted::<E>(error) && !(same is Fatal),
    {
        match error {
            Error::Eof => Error::Eof,
            Error::DataRemains => Error::DataRemains,
            Error::Incomplete { needed } => Error::Incomplete { needed },
        }
    }
}

/// What the caller of a decoder sees of an attempt: the frame, or the error.
pub open spec fn frame_of<T, E>(attempt: Result<(T, nat), Error<E>>) -> Result<T, Error<E>> {
    match attempt {
        Ok((frame, _)) => Ok(frame),
        Err(error) => Err(error),
    }
}

/// What is left of `src` after an attempt: `src` without the bytes of the frame
/// where there is one, and all of `src` where there is none.
pub open spec fn rest_of<T, E>(src: Seq<u8>, attempt: Result<(T, nat), Error<E>>) -> Seq<u8> {
    match attempt {
        Ok((_, taken)) => src.skip(taken as int),
        Err(_) => src,
    }
}

/// What an outcome means at the end of a stream, of which `empty` says whether no
/// byte is left: a frame and a fatal error stay what they are, and any other error
/// is the end of the stream where nothing is left, and data that remains where
/// something is.
pub open spec fn at_end<T, E>(outcome: Result<T, Error<E>>, empty: bool) -> Result<T, Error<E>> {
    match outcome {
        Ok(frame) => Ok(frame),
        Err(Error::Fatal { error }) => Err(Error::Fatal { error }),
        Err(_) => if empty {
            Err(Error::Eof)
        } else {
            Err(Error::DataRemains)
        },
    }
}

/// Reads an outcome as one at the end of a stream, of which `empty` says whether
/// no byte is left. See [`at_end`].
#[inline]
pub fn end_of_stream<T, E>(outcome: Result<T, Error<E>>, empty: bool) -> (last: Result<T, Error<E>>)
    ensures
        last == at_end(outcome, empty),
        !(last matches Err(Error::Incomplete { .. })),
{
    match outcome {
        Ok(frame) => Ok(frame),
        Err(Error::Fatal { error }) => Err(Error::Fatal { error }),
        Err(_) => if empty {
            Err(Error::Eof)
        } else {
            Err(Error::DataRemains)
        },
    }
}

/// Trait for decoders.
///
/// A decoder is handed a region of bytes, the start of what is left of a stream,
/// and attempts to take one frame from its front. A frame that it finds, it
/// takes: the region then starts behind the frame. Where it finds none, the
/// region stays as it was.
pub trait Decoder {
    /// The frames that the decoder gives. They may borrow from the bytes.
    type Item<'src>;

    /// What can be wrong with the bytes of a frame.
    type Error;

    /// What an attempt on `src` gives in this state: the frame and the number of
    /// bytes that it takes from the front of `src`, or the error.
    spec fn attempt(&self, src: Seq<u8>) -> Result<(Self::Item<'static>, nat), Error<Self::Error>>;

    /// Get an estimate for the amount of bytes required to read the next frame.
    ///
    /// It depends on the state of the decoder alone, not on previous attempts
    /// to decode the next frame. A decoder that says nothing else gives
    /// [`Size::Unknown`].
    #[inline]
    fn hint(&self) -> (size: Size)
        default_ensures
            size == Size::Unknown,
    {
        Size::Unknown
    }

    /// Try to decode a single frame from a byte stream.
    fn decode<'s>(&mut self, src: &mut &'s [u8]) -> (frame: Result<
        Self::Item<'s>,
        Error<Self::Error>,
    >)
        ensures
            frame == frame_of(old(self).attempt(old(src)@)),
            final(src)@ == rest_of(old(src)@, old(self).attempt(old(src)@)),
            final(src)@.len() <= old(src)@.len(),
    ;

    /// Try to decode the last frame from a byte stream.
    ///
    /// A frame and a fatal error are passed on. Any other error tells of the end
    /// of the stream where no byte is left, and of data that remains otherwise.
    #[inline]
    fn decode_eof<'s>(&mut self, src: &mut &'s [u8]) -> (frame: Result<
        Self::Item<'s>,
        Error<Self::Error>,
    >)
        ensures
            frame == at_end(frame_of(old(self).attempt(old(src)@)), old(src)@.len() == 0),
            final(src)@ == rest_of(old(src)@, old(self).attempt(old(src)@)),
            !(frame matches Err(Error::Incomplete { .. })),
    {
        let outcome = self.decode(src);
        let empty = src.is_empty();
        end_of_stream(outcome, empty)
    }
}

} // verus!
