//! A byte buffer that is filled and initialized step by step.

use vstd::prelude::*;

verus! {

/// What can go wrong with a [`ReadBuf`].
#[derive(Debug, Clone, Copy, PartialEq, Eq, Structural, PartialOrd, Ord, Hash)]
pub enum Error {
    /// The filled part would become larger than the initialized part.
    FilledTooLarge,
    /// The initialized part would become larger than the buffer.
    InitTooLarge,
    /// A slice is larger than the room that is left for it.
    SliceTooLarge,
}

impl Error {
    /// The text that describes the error.
    pub open spec fn message_text(self) -> Seq<char> {
        match self {
            Error::FilledTooLarge => "filled buffer size exceeds the size of the initialized buffer"@,
            Error::InitTooLarge => "initialized buffer size exceeds the size of the internal buffer"@,
            Error::SliceTooLarge => "there is not enough remaining room to append the slice"@,
        }
    }

    /// Describes the error in a few words.
    #[inline]
    #[must_use]
    pub fn message(self) -> (message: &'static str)
        ensures
            message@ == self.message_text(),
    {
        match self {
            Error::FilledTooLarge => {
                "filled buffer size exceeds the size of the initialized buffer"
            },
            Error::InitTooLarge => {
                "initialized buffer size exceeds the size of the internal buffer"
            },
            Error::SliceTooLarge => "there is not enough remaining room to append the slice",
        }
    }
}

/// What a [`ReadBuf`] is to its users: the bytes of the region that it borrows,
/// and the two marks that part it.
///
/// The bytes before `filled` are the data written so far. The bytes from there
/// up to `init` have been given a value, which says nothing. The bytes behind
/// `init` have not.
pub struct ReadBufView {
    /// The bytes of the whole region. There are as many as the buffer has room
    /// for.
    pub bytes: Seq<u8>,
    /// The number of bytes that are filled.
    pub filled: nat,
    /// The number of bytes that are initialized.
    pub init: nat,
}

impl ReadBufView {
    /// The two marks are in order and within the region.
    pub open spec fn wf(self) -> bool {
        self.filled <= self.init <= self.bytes.len()
    }

    /// The number of bytes that the buffer has room for.
    pub open spec fn capacity(self) -> nat {
        self.bytes.len()
    }

    /// The bytes that are filled.
    pub open spec fn filled_bytes(self) -> Seq<u8> {
        self.bytes.take(self.filled as int)
    }

    /// The bytes that are not filled.
    pub open spec fn unfilled_bytes(self) -> Seq<u8> {
        self.bytes.skip(self.filled as int)
    }

    /// The bytes that are initialized.
    pub open spec fn init_bytes(self) -> Seq<u8> {
        self.bytes.take(self.init as int)
    }

    /// The bytes that are not initialized.
    pub open spec fn uninit_bytes(self) -> Seq<u8> {
        self.bytes.skip(self.init as int)
    }

    /// The buffer with `filled` as its filled mark.
    pub open spec fn with_filled(self, filled: nat) -> ReadBufView {
        ReadBufView { filled, ..self }
    }

    /// The buffer with its filled mark moved on by `n` bytes.
    pub open spec fn advanced(self, n: nat) -> ReadBufView {
        ReadBufView { filled: self.filled + n, ..self }
    }

    /// The buffer with its initialized mark `n` bytes behind the filled mark at
    /// the least: the mark moves up to there where it was before it, and stays
    /// where it was not.
    pub open spec fn initialized_to(self, n: nat) -> ReadBufView {
        ReadBufView {
            init: if self.init < self.filled + n {
                self.filled + n
            } else {
                self.init
            },
            ..self
        }
    }

    /// The buffer after `slice` was written behind the filled bytes: the filled
    /// mark moves on by the length of the slice, and the initialized mark moves
    /// with it where it would fall behind.
    pub open spec fn pushed(self, slice: Seq<u8>) -> ReadBufView {
        let end = self.filled + slice.len();
        ReadBufView {
            bytes: self.bytes.take(self.filled as int) + slice + self.bytes.skip(end as int),
            filled: end,
            init: if self.init < end {
                end
            } else {
                self.init
            },
        }
    }

    /// The marks stay in order under every step that the buffer takes: where they
    /// are in order before it, and the step stays within its bounds, they are in
    /// order after it, and the buffer has the room that it had.
    pub proof fn lemma_marks_stay_in_order(self, n: nat, slice: Seq<u8>, byte: u8)
        requires
            self.wf(),
        ensures
            n <= self.init ==> self.with_filled(n).wf(),
            self.filled + n <= self.init ==> self.advanced(n).wf(),
            self.filled + n <= self.capacity() ==> self.initialized_to(n).wf(),
            self.filled + slice.len() <= self.capacity() ==> self.pushed(slice).wf()
                && self.pushed(slice).capacity() == self.capacity() && self.pushed(slice).filled
                == self.filled + slice.len(),
            n <= self.capacity() ==> self.initialized_from(n, byte).wf() && self.initialized_from(
                n,
                byte,
            ).capacity() == self.capacity(),
    {
    }

    /// The buffer after each byte from `from` on was given the value `byte`: all
    /// of it is initialized then.
    pub open spec fn initialized_from(self, from: nat, byte: u8) -> ReadBufView {
        ReadBufView {
            bytes: self.bytes.take(from as int) + Seq::new(
                (self.bytes.len() - from) as nat,
                |i: int| byte,
            ),
            filled: self.filled,
            init: self.bytes.len(),
        }
    }
}

/// A byte buffer that is incrementally filled and initialized.
///
/// It borrows a region of bytes and parts it by two marks, of which the one
/// for the filled bytes never passes the one for the initialized bytes, and that
/// one never passes the end of the region.
#[derive(Debug)]
pub struct ReadBuf<'a> {
    /// The borrowed byte buffer.
    buf: &'a mut [u8],
    /// The amount of bytes that are known to be filled.
    filled: usize,
    /// The amount of bytes that are known to be initialized.
    init: usize,
}

impl<'a> View for ReadBuf<'a> {
    type V = ReadBufView;

    closed spec fn view(&self) -> ReadBufView {
        ReadBufView { bytes: self.buf@, filled: self.filled as nat, init: self.init as nat }
    }
}

impl<'a> ReadBuf<'a> {
    /// Create a new buffer with all bytes within it being initialized and unfilled.
    #[inline]
    #[must_use]
    pub fn new(buf: &'a mut [u8]) -> (read_buf: Self)
        ensures
            read_buf@ == (ReadBufView { bytes: old(buf)@, filled: 0, init: old(buf)@.len() }),
            read_buf@.wf(),
    {
        let init = buf.len();
        ReadBuf { buf, filled: 0, init }
    }

    /// Create a new buffer with all bytes within it being uninitialized and unfilled.
    #[inline]
    #[must_use]
    pub fn from_uninit(uninit: &'a mut [u8]) -> (read_buf: Self)
        ensures
            read_buf@ == (ReadBufView { bytes: old(uninit)@, filled: 0, init: 0 }),
            read_buf@.wf(),
    {
        ReadBuf { buf: uninit, filled: 0, init: 0 }
    }

    /// Get the capacity of the internal buffer.
    #[inline]
    #[must_use]
    pub fn capacity(&self) -> (capacity: usize)
        requires
            self@.wf(),
        ensures
            capacity == self@.capacity(),
    {
        self.buf.len()
    }

    /// Get the length of the filled buffer.
    #[inline]
    #[must_use]
    pub fn filled_len(&self) -> (len: usize)
        requires
            self@.wf(),
        ensures
            len == self@.filled,
    {
        self.filled
    }

    /// Get the length of the unfilled buffer.
    #[inline]
    #[must_use]
    pub fn unfilled_len(&self) -> (len: usize)
        requires
            self@.wf(),
        ensures
            len == self@.capacity() - self@.filled,
    {
        self.capacity() - self.filled
    }

    /// Get the length of the initialized buffer.
    #[inline]
    #[must_use]
    pub fn init_len(&self) -> (len: usize)
        requires
            self@.wf(),
        ensures
            len == self@.init,
    {
        self.init
    }

    /// Get the length of the uninitalized buffer.
    #[inline]
    #[must_use]
    pub fn uninit_len(&self) -> (len: usize)
        requires
            self@.wf(),
        ensures
            len == self@.capacity() - self@.init,
    {
        self.capacity() - self.init
    }

    /// Set the length of the filled buffer to zero. What is initialized stays so.
    #[inline]
    pub fn clear(&mut self)
        requires
            old(self)@.wf(),
        ensures
            final(self)@ == old(self)@.with_filled(0),
            final(self)@.wf(),
    {
        self.filled = 0;
    }

    /// Set the length of the filled buffer without checks.
    ///
    /// The caller must ensure that the new length of the filled
    /// buffer won't become larger than the initialized buffer.
    #[inline]
    pub fn set_filled_unchecked(&mut self, filled: usize)
        requires
            old(self)@.wf(),
            filled <= old(self)@.init,
        ensures
            final(self)@ == old(self)@.with_filled(filled as nat),
            final(self)@.wf(),
    {
        self.filled = filled;
    }

    /// Try to set the length of the filled buffer. Fails, and changes nothing,
    /// where it would become larger than the initialized buffer.
    #[inline]
    pub fn try_set_filled(&mut self, filled: usize) -> (done: Result<(), Error>)
        requires
            old(self)@.wf(),
        ensures
            final(self)@.wf(),
            filled <= old(self)@.init ==> done == Ok::<(), Error>(()) && final(self)@ == old(
                self,
            )@.with_filled(filled as nat),
            filled > old(self)@.init ==> done == Err::<(), Error>(Error::FilledTooLarge)
                && final(self)@ == old(self)@,
    {
        if filled <= self.init {
            self.set_filled_unchecked(filled);
            Ok(())
        } else {
            Err(Error::FilledTooLarge)
        }
    }

    /// Set the length of the filled buffer, which must not become larger than the
    /// initialized buffer.
    #[inline]
    pub fn set_filled(&mut self, filled: usize)
        requires
            old(self)@.wf(),
            filled <= old(self)@.init,
        ensures
            final(self)@ == old(self)@.with_filled(filled as nat),
            final(self)@.wf(),
    {
        self.set_filled_unchecked(filled);
    }

    /// Advance the filled buffer by `n` bytes without checks.
    ///
    /// The caller must ensure that the next `n` unfilled bytes are
    /// initialized.
    #[inline]
    pub fn advance_unchecked(&mut self, n: usize)
        requires
            old(self)@.wf(),
            old(self)@.filled + n <= old(self)@.init,
        ensures
            final(self)@ == old(self)@.advanced(n as nat),
            final(self)@.wf(),
    {
        let filled = self.filled + n;
        self.set_filled_unchecked(filled);
    }

    /// Try to advance the filled buffer by `n` bytes. Fails, and changes nothing,
    /// where fewer than `n` of the unfilled bytes are initialized.
    #[inline]
    pub fn try_advance(&mut self, n: usize) -> (done: Result<(), Error>)
        requires
            old(self)@.wf(),
        ensures
            final(self)@.wf(),
            old(self)@.filled + n <= old(self)@.init ==> done == Ok::<(), Error>(())
                && final(self)@ == old(self)@.advanced(n as nat),
            old(self)@.filled + n > old(self)@.init ==> done == Err::<(), Error>(
                Error::FilledTooLarge,
            ) && final(self)@ == old(self)@,
    {
        match self.filled.checked_add(n) {
            Some(filled) => self.try_set_filled(filled),
            None => Err(Error::FilledTooLarge),
        }
    }

    /// Advance the filled buffer by `n` bytes, all of which must be initialized.
    #[inline]
    pub fn advance(&mut self, n: usize)
        requires
            old(self)@.wf(),
            old(self)@.filled + n <= old(self)@.init,
        ensures
            final(self)@ == old(self)@.advanced(n as nat),
            final(self)@.wf(),
    {
        self.advance_unchecked(n);
    }

    /// Take the first `n` unfilled bytes for initialized, without writing to
    /// them. The initialized mark moves up to them where it was behind, and not
    /// at all where it was not.
    #[inline]
    pub fn assume_init(&mut self, n: usize)
        requires
            old(self)@.wf(),
            old(self)@.filled + n <= old(self)@.capacity(),
        ensures
            final(self)@ == old(self)@.initialized_to(n as nat),
            final(self)@.wf(),
            final(self)@.init >= old(self)@.init,
    {
        let _capacity = self.buf.len();
        let new = self.filled + n;
        if new > self.init {
            self.init = new;
        }
    }

    /// Get a slice of the filled buffer.
    #[inline]
    pub fn filled(&self) -> (filled: &[u8])
        requires
            self@.wf(),
        ensures
            filled@ == self@.filled_bytes(),
    {
        let (filled, _) = self.buf.split_at(self.filled);
        assert(filled@ == self@.filled_bytes());
        filled
    }

    /// Get a slice of the unfilled buffer.
    #[inline]
    pub fn unfilled(&self) -> (unfilled: &[u8])
        requires
            self@.wf(),
        ensures
            unfilled@ == self@.unfilled_bytes(),
    {
        let (_, unfilled) = self.buf.split_at(self.filled);
        assert(unfilled@ == self@.unfilled_bytes());
        unfilled
    }

    /// Get a slice of the initialized buffer.
    #[inline]
    pub fn init(&self) -> (init: &[u8])
        requires
            self@.wf(),
        ensures
            init@ == self@.init_bytes(),
    {
        let (init, _) = self.buf.split_at(self.init);
        assert(init@ == self@.init_bytes());
        init
    }

    /// Get a slice of the uninitalized buffer.
    #[inline]
    pub fn uninit(&self) -> (uninit: &[u8])
        requires
            self@.wf(),
        ensures
            uninit@ == self@.uninit_bytes(),
    {
        let (_, uninit) = self.buf.split_at(self.init);
        assert(uninit@ == self@.uninit_bytes());
        uninit
    }

    /// Get a mutable slice of the filled buffer. What is written to it is in the
    /// buffer afterwards; the marks stay.
    #[inline]
    pub fn filled_mut(&mut self) -> (filled: &mut [u8])
        requires
            old(self)@.wf(),
        ensures
            filled@ == old(self)@.filled_bytes(),
            final(self)@ == (ReadBufView {
                bytes: final(filled)@ + old(self)@.unfilled_bytes(),
                ..old(self)@
            }),
            final(filled)@.len() == filled@.len() ==> final(self)@.wf(),
    {
        let (filled, _) = self.buf.split_at_mut(self.filled);
        assert(filled@ == old(self)@.filled_bytes());
        filled
    }

    /// Get a mutable slice of the unfilled buffer. What is written to it is in
    /// the buffer afterwards; the marks stay.
    #[inline]
    pub fn unfilled_mut(&mut self) -> (unfilled: &mut [u8])
        requires
            old(self)@.wf(),
        ensures
            unfilled@ == old(self)@.unfilled_bytes(),
            final(self)@ == (ReadBufView {
                bytes: old(self)@.filled_bytes() + final(unfilled)@,
                ..old(self)@
            }),
            final(unfilled)@.len() == unfilled@.len() ==> final(self)@.wf(),
    {
        let (_, unfilled) = self.buf.split_at_mut(self.filled);
        assert(unfilled@ == old(self)@.unfilled_bytes());
        unfilled
    }

    /// Get a mutable slice of the initialized buffer. What is written to it is in
    /// the buffer afterwards; the marks stay.
    #[inline]
    pub fn init_mut(&mut self) -> (init: &mut [u8])
        requires
            old(self)@.wf(),
        ensures
            init@ == old(self)@.init_bytes(),
            final(self)@ == (ReadBufView {
                bytes: final(init)@ + old(self)@.uninit_bytes(),
                ..old(self)@
            }),
            final(init)@.len() == init@.len() ==> final(self)@.wf(),
    {
        let (init, _) = self.buf.split_at_mut(self.init);
        assert(init@ == old(self)@.init_bytes());
        init
    }

    /// Get a mutable slice of the uninitalized buffer. What is written to it is
    /// in the buffer afterwards; the marks stay.
    #[inline]
    pub fn uninit_mut(&mut self) -> (uninit: &mut [u8])
        requires
            old(self)@.wf(),
        ensures
            uninit@ == old(self)@.uninit_bytes(),
            final(self)@ == (ReadBufView {
                bytes: old(self)@.init_bytes() + final(uninit)@,
                ..old(self)@
            }),
            final(uninit)@.len() == uninit@.len() ==> final(self)@.wf(),
    {
        let (_, uninit) = self.buf.split_at_mut(self.init);
        assert(uninit@ == old(self)@.uninit_bytes());
        uninit
    }

    /// Gives each byte from `from` on the value `byte`.
    fn fill_from(&mut self, from: usize, byte: u8)
        requires
            from <= old(self).buf@.len(),
        ensures
            final(self).buf@ == old(self).buf@.take(from as int) + Seq::new(
                (old(self).buf@.len() - from) as nat,
                |i: int| byte,
            ),
            final(self).filled == old(self).filled,
            final(self).init == old(self).init,
    {
        let capacity = self.buf.len();
        let mut at: usize = from;
        while at < capacity
            invariant
                from <= at <= capacity,
                capacity == self.buf@.len(),
                self.filled == old(self).filled,
                self.init == old(self).init,
                self.buf@.len() == old(self).buf@.len(),
                self.buf@.take(from as int) == old(self).buf@.take(from as int),
                forall|i: int| from <= i < at ==> self.buf@[i] == byte,
            decreases capacity - at,
        {
            self.buf[at] = byte;
            at = at + 1;
        }
        assert(self.buf@ =~= old(self).buf@.take(from as int) + Seq::new(
            (old(self).buf@.len() - from) as nat,
            |i: int| byte,
        ));
    }

    /// Initialize all uninitialized bytes with the provided value.
    ///
    /// This will update the initialized buffer length to span the entire
    /// internal buffer.
    ///
    /// # Returns
    ///
    /// Returns the now initialized slice. What is written to it is in the buffer
    /// afterwards.
    #[inline]
    pub fn initialize_uninit(&mut self, byte: u8) -> (initialized: &mut [u8])
        requires
            old(self)@.wf(),
        ensures
            initialized@ == Seq::new(
                (old(self)@.capacity() - old(self)@.init) as nat,
                |i: int| byte,
            ),
            final(self)@ == (ReadBufView {
                bytes: old(self)@.init_bytes() + final(initialized)@,
                ..old(self)@.initialized_from(old(self)@.init, byte)
            }),
            final(initialized)@.len() == initialized@.len() ==> final(self)@.wf()
                && final(self)@.init == final(self)@.capacity(),
    {
        let old_start = self.init;
        self.fill_from(old_start, byte);
        self.init = self.buf.len();
        assert(self.buf@.take(old_start as int) == old(self)@.init_bytes());
        let (_, initialized) = self.buf.split_at_mut(old_start);
        assert(initialized@ == Seq::new(
            (old(self)@.capacity() - old(self)@.init) as nat,
            |i: int| byte,
        ));
        initialized
    }

    /// Initialize all unfilled bytes with the provided value.
    ///
    /// This will update the initialized buffer length to span the entire
    /// internal buffer.
    ///
    /// # Note
    ///
    /// This will also reinitialize already initialized unfilled bytes.
    /// This method does not distinguish between already initialized
    /// bytes and those that are not yet initialized.
    ///
    /// # Returns
    ///
    /// Returns the now fully initialized unfilled slice. What is written to it is
    /// in the buffer afterwards.
    #[inline]
    pub fn initialize_unfilled(&mut self, byte: u8) -> (initialized: &mut [u8])
        requires
            old(self)@.wf(),
        ensures
            initialized@ == Seq::new(
                (old(self)@.capacity() - old(self)@.filled) as nat,
                |i: int| byte,
            ),
            final(self)@ == (ReadBufView {
                bytes: old(self)@.filled_bytes() + final(initialized)@,
                ..old(self)@.initialized_from(old(self)@.filled, byte)
            }),
            final(initialized)@.len() == initialized@.len() ==> final(self)@.wf()
                && final(self)@.init == final(self)@.capacity(),
    {
        let start = self.filled;
        self.fill_from(start, byte);
        self.init = self.buf.len();
        assert(self.buf@.take(start as int) == old(self)@.filled_bytes());
        let (_, initialized) = self.buf.split_at_mut(start);
        assert(initialized@ == Seq::new(
            (old(self)@.capacity() - old(self)@.filled) as nat,
            |i: int| byte,
        ));
        initialized
    }

    /// Try to push the contents of a slice into the buffer, updating the filled buffer length
    /// and potentially the initialized buffer length. Fails, and changes nothing,
    /// where the slice is longer than the unfilled buffer.
    #[inline]
    pub fn try_push_slice(&mut self, slice: &[u8]) -> (done: Result<(), Error>)
        requires
            old(self)@.wf(),
        ensures
            final(self)@.wf(),
            slice@.len() <= old(self)@.capacity() - old(self)@.filled ==> done == Ok::<(), Error>(
                (),
            ) && final(self)@ == old(self)@.pushed(slice@) && final(self)@.filled == old(
                self,
            )@.filled + slice@.len(),
            slice@.len() > old(self)@.capacity() - old(self)@.filled ==> done == Err::<(), Error>(
                Error::SliceTooLarge,
            ) && final(self)@ == old(self)@,
    {
        let len = slice.len();
        let start = self.filled;
        if len > self.buf.len() - start {
            return Err(Error::SliceTooLarge);
        }
        let mut i: usize = 0;
        while i < len
            invariant
                i <= len,
                len == slice@.len(),
                start == self.filled,
                start + len <= self.buf@.len() <= usize::MAX,
                self.buf@.len() == old(self).buf@.len(),
                self.filled == old(self).filled,
                self.init == old(self).init,
                self.buf@ == old(self).buf@.take(start as int) + slice@.take(i as int) + old(
                    self,
                ).buf@.skip(start + i),
            decreases len - i,
        {
            self.buf[start + i] = slice[i];
            i = i + 1;
        }
        assert(slice@.take(len as int) == slice@);
        let end = start + len;
        if self.init < end {
            self.init = end;
        }
        self.filled = end;
        Ok(())
    }

    /// Push the contents of a slice into the buffer, updating the filled buffer length
    /// and potentially the initialized buffer length. The slice must not be longer
    /// than the unfilled buffer.
    #[inline]
    pub fn push_slice(&mut self, slice: &[u8])
        requires
            old(self)@.wf(),
            slice@.len() <= old(self)@.capacity() - old(self)@.filled,
        ensures
            final(self)@ == old(self)@.pushed(slice@),
            final(self)@.wf(),
            final(self)@.filled == old(self)@.filled + slice@.len(),
    {
        let _ = self.try_push_slice(slice);
    }
}

impl<'a> From<&'a mut [u8]> for ReadBuf<'a> {
    /// The buffer over a region whose bytes are all initialized; see
    /// [`ReadBuf::new`].
    #[inline]
    fn from(value: &'a mut [u8]) -> (read_buf: Self)
        ensures
            read_buf@ == (ReadBufView { bytes: old(value)@, filled: 0, init: old(value)@.len() }),
            read_buf@.wf(),
    {
        ReadBuf::new(value)
    }
}

impl<'a> vstd::std_specs::convert::FromSpecImpl<&'a mut [u8]> for ReadBuf<'a> {
    /// The contract of `from` is stated on `from` itself, over the view of the
    /// buffer.
    open spec fn obeys_from_spec() -> bool {
        false
    }

    closed spec fn from_spec(value: &'a mut [u8]) -> Self {
        ReadBuf { buf: value, filled: 0, init: value@.len() as usize }
    }
}

} // verus!
