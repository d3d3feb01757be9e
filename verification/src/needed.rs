//! The amount of bytes that a reader or a buffer still needs.

use crate::nonzero::{NonZero, NonZeroUsize};
use vstd::prelude::*;

verus! {

/// Represents a **nonzero** amount of bytes
/// that is required to perform some action.
///
/// An amount of zero bytes and an unknown amount are the same value,
/// [`Needed::Unknown`]: nothing can be said of either.
#[derive(Debug, Clone, Copy, PartialEq, Eq, PartialOrd, Ord, Hash)]
#[must_use]
pub enum Needed {
    /// The amount of bytes required is not known.
    ///
    /// A buffer that is too small should grow by whatever its default growth
    /// is; a reader should read as much data as it can.
    Unknown,
    /// The amount of bytes required is exactly known.
    ///
    /// A buffer that is too small should grow by exactly this amount; a reader
    /// needs to read exactly this amount.
    Known(NonZeroUsize),
}

impl Needed {
    /// The amount that stands for `bytes`: unknown for zero, known for any other.
    pub open spec fn of(bytes: usize) -> Needed {
        if bytes == 0 {
            Needed::Unknown
        } else {
            Needed::Known(NonZero::of(bytes))
        }
    }

    /// The amount of bytes that this value stands for, with zero for unknown.
    pub open spec fn bytes(self) -> nat {
        match self {
            Needed::Unknown => 0,
            Needed::Known(bytes) => bytes@ as nat,
        }
    }

    /// Whether this value is one that [`Needed::new`] can give: a known amount is not
    /// zero.
    pub open spec fn normal(self) -> bool {
        self matches Needed::Known(bytes) ==> bytes@ != 0
    }

    /// Distinct amounts have distinct values, and each value is known by its amount.
    pub proof fn lemma_of_bytes(bytes: usize)
        ensures
            Needed::of(bytes).bytes() == bytes,
            Needed::of(bytes).normal(),
            Needed::of(bytes) is Unknown <==> bytes == 0,
    {
        NonZero::lemma_of_view(bytes);
    }

    /// Create a new [`Needed`].
    ///
    /// # Returns
    ///
    /// - `bytes_needed == 0` becomes [`Needed::Unknown`].
    /// - `bytes_needed > 0` becomes [`Needed::Known`].
    #[inline]
    pub fn new(bytes_needed: usize) -> (needed: Needed)
        ensures
            needed == Needed::of(bytes_needed),
            needed.bytes() == bytes_needed,
            needed.normal(),
    {
        proof {
            Needed::lemma_of_bytes(bytes_needed);
        }
        match NonZero::new(bytes_needed) {
            Some(bytes_needed) => Needed::Known(bytes_needed),
            None => Needed::Unknown,
        }
    }

    /// Gets the known amount, if it is known.
    #[inline]
    pub fn get(self) -> (bytes: Option<NonZeroUsize>)
        ensures
            bytes == match self {
                Needed::Unknown => None,
                Needed::Known(bytes) => Some(bytes),
            },
    {
        match self {
            Needed::Unknown => None,
            Needed::Known(bytes) => Some(bytes),
        }
    }

    /// Gets the known amount, or return the provided default.
    #[inline]
    #[must_use]
    pub fn get_or(self, default: NonZeroUsize) -> (bytes: NonZeroUsize)
        ensures
            bytes == match self {
                Needed::Unknown => default,
                Needed::Known(bytes) => bytes,
            },
    {
        match self {
            Needed::Unknown => default,
            Needed::Known(bytes) => bytes,
        }
    }

    /// Gets the known amount or returns a default of `1`.
    #[inline]
    #[must_use]
    pub fn get_or_one(self) -> (bytes: NonZeroUsize)
        ensures
            bytes == match self {
                Needed::Unknown => NonZero::of(1usize),
                Needed::Known(bytes) => bytes,
            },
    {
        self.get_or(crate::nonzero::one())
    }

    /// Gets the known amount, or return a default computed from
    /// a closure. The closure is called only where the amount is unknown.
    #[inline]
    #[must_use]
    pub fn get_or_else<F>(self, f: F) -> (bytes: NonZeroUsize) where F: FnOnce() -> NonZeroUsize
        requires
            self is Unknown ==> call_requires(f, ()),
        ensures
            match self {
                Needed::Unknown => call_ensures(f, (), bytes),
                Needed::Known(known) => bytes == known,
            },
    {
        match self {
            Needed::Unknown => f(),
            Needed::Known(bytes) => bytes,
        }
    }

    /// Returns whether the amount needed is known.
    #[inline]
    #[must_use]
    pub fn is_known(self) -> (known: bool)
        ensures
            known == (self is Known),
    {
        match self {
            Needed::Unknown => false,
            Needed::Known(_) => true,
        }
    }

    /// Returns whether the amount needed is unknown.
    #[inline]
    #[must_use]
    pub fn is_unknown(self) -> (unknown: bool)
        ensures
            unknown == (self is Unknown),
    {
        match self {
            Needed::Unknown => true,
            Needed::Known(_) => false,
        }
    }

    /// Maps the known needed amount by applying a closure to it. An unknown
    /// amount stays unknown, and so does one that the closure maps to zero.
    #[inline]
    pub fn map<F>(self, f: F) -> (needed: Needed) where F: FnOnce(NonZeroUsize) -> usize
        requires
            self matches Needed::Known(bytes) ==> call_requires(f, (bytes,)),
        ensures
            match self {
                Needed::Unknown => needed == Needed::Unknown,
                Needed::Known(bytes) => exists|mapped: usize|
                    call_ensures(f, (bytes,), mapped) && needed == Needed::of(mapped),
            },
            needed.normal(),
    {
        match self {
            Needed::Unknown => Needed::Unknown,
            Needed::Known(bytes) => Needed::new(f(bytes)),
        }
    }
}

impl Default for Needed {
    /// The unknown amount.
    #[inline]
    fn default() -> (needed: Needed)
        ensures
            needed == Needed::Unknown,
    {
        Needed::Unknown
    }
}

} // verus!
