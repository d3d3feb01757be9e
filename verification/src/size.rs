//! A hint on how many bytes an action requires.

use crate::nonzero::{NonZero, NonZeroUsize};
use vstd::prelude::*;

verus! {

/// Represents a **nonzero** amount of bytes
/// that is required to perform some action.
///
/// An amount of zero bytes and an unknown amount are the same value,
/// [`Size::Unknown`]: nothing can be said of either.
#[derive(Debug, Clone, Copy, PartialEq, Eq, Hash)]
#[must_use]
pub enum Size {
    /// The amount of bytes is not known.
    ///
    /// In most environments this indicates that one should use whatever the
    /// minimum nonzero amount is.
    Unknown,
    /// The amount of bytes required is exactly known.
    Known(NonZeroUsize),
}

impl Size {
    /// The size that stands for `bytes`: unknown for zero, known for any other.
    pub open spec fn of(bytes: usize) -> Size {
        if bytes == 0 {
            Size::Unknown
        } else {
            Size::Known(NonZero::of(bytes))
        }
    }

    /// The amount of bytes that this size stands for, with zero for unknown.
    pub open spec fn bytes(self) -> nat {
        match self {
            Size::Unknown => 0,
            Size::Known(bytes) => bytes@ as nat,
        }
    }

    /// Whether this size is one that [`Size::new`] can give: a known size is not
    /// zero.
    pub open spec fn normal(self) -> bool {
        self matches Size::Known(bytes) ==> bytes@ != 0
    }

    /// Distinct amounts have distinct sizes, and each size is known by its amount.
    pub proof fn lemma_of_bytes(bytes: usize)
        ensures
            Size::of(bytes).bytes() == bytes,
            Size::of(bytes).normal(),
            Size::of(bytes) is Unknown <==> bytes == 0,
    {
        NonZero::lemma_of_view(bytes);
    }

    /// The minimum amount of **nonzero** bytes: one.
    #[inline]
    pub fn min() -> (size: Size)
        ensures
            size == Size::of(1),
            size.bytes() == 1,
    {
        Size::new(1)
    }

    /// The maximum amount of **nonzero** bytes: the largest `usize`.
    #[inline]
    pub fn max() -> (size: Size)
        ensures
            size == Size::of(usize::MAX),
            size.bytes() == usize::MAX,
    {
        Size::new(usize::MAX)
    }

    /// Create a new [`Size`].
    ///
    /// # Returns
    ///
    /// - `bytes == 0` becomes [`Size::Unknown`].
    /// - `bytes > 0` becomes [`Size::Known`].
    #[inline]
    pub fn new(bytes: usize) -> (size: Size)
        ensures
            size == Size::of(bytes),
            size.bytes() == bytes,
            size.normal(),
    {
        proof {
            Size::lemma_of_bytes(bytes);
        }
        match NonZero::new(bytes) {
            Some(bytes) => Size::Known(bytes),
            None => Size::Unknown,
        }
    }

    /// Gets the known amount, if it is known.
    #[inline]
    pub fn get(self) -> (bytes: Option<NonZeroUsize>)
        ensures
            bytes == match self {
                Size::Unknown => None,
                Size::Known(bytes) => Some(bytes),
            },
    {
        match self {
            Size::Unknown => None,
            Size::Known(bytes) => Some(bytes),
        }
    }

    /// Gets the known amount, or return the provided default.
    #[inline]
    #[must_use]
    pub fn get_or(self, default: NonZeroUsize) -> (bytes: NonZeroUsize)
        ensures
            bytes == match self {
                Size::Unknown => default,
                Size::Known(bytes) => bytes,
            },
    {
        match self {
            Size::Unknown => default,
            Size::Known(bytes) => bytes,
        }
    }

    /// Gets the known amount or returns a default of `1`.
    #[inline]
    #[must_use]
    pub fn get_or_one(self) -> (bytes: NonZeroUsize)
        ensures
            bytes == match self {
                Size::Unknown => NonZero::of(1usize),
                Size::Known(bytes) => bytes,
            },
    {
        self.get_or(crate::nonzero::one())
    }

    /// Gets the known amount, or return a default computed from
    /// a closure. The closure is called only where the amount is unknown.
    #[inline]
    #[must_use]
    pub fn get_or_else<F>(self, f: F) -> (bytes: NonZeroUsize) where F: FnOnce() -> NonZeroUsize
        requires
            self is Unknown ==> call_requires(f, ()),
        ensures
            match self {
                Size::Unknown => call_ensures(f, (), bytes),
                Size::Known(known) => bytes == known,
            },
    {
        match self {
            Size::Unknown => f(),
            Size::Known(bytes) => bytes,
        }
    }

    /// Returns whether the amount needed is known.
    #[inline]
    #[must_use]
    pub fn is_known(self) -> (known: bool)
        ensures
            known == (self is Known),
    {
        match self {
            Size::Unknown => false,
            Size::Known(_) => true,
        }
    }

    /// Returns whether the amount needed is unknown.
    #[inline]
    #[must_use]
    pub fn is_unknown(self) -> (unknown: bool)
        ensures
            unknown == (self is Unknown),
    {
        match self {
            Size::Unknown => true,
            Size::Known(_) => false,
        }
    }

    /// Maps the known needed amount by applying a closure to it. An unknown
    /// amount stays unknown, and so does one that the closure maps to zero.
    #[inline]
    pub fn map<F>(self, f: F) -> (size: Size) where F: FnOnce(NonZeroUsize) -> usize
        requires
            self matches Size::Known(bytes) ==> call_requires(f, (bytes,)),
        ensures
            match self {
                Size::Unknown => size == Size::Unknown,
                Size::Known(bytes) => exists|mapped: usize|
                    call_ensures(f, (bytes,), mapped) && size == Size::of(mapped),
            },
            size.normal(),
    {
        match self {
            Size::Unknown => Size::Unknown,
            Size::Known(bytes) => Size::new(f(bytes)),
        }
    }
}

impl Default for Size {
    /// The unknown size.
    #[inline]
    fn default() -> (size: Size)
        ensures
            size == Size::Unknown,
    {
        Size::Unknown
    }
}

} // verus!
