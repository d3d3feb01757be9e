//! Integers that are known not to be zero.

use vstd::prelude::*;

verus! {

/// Integer types, of which one value is the zero.
pub trait Zeroable: Copy {
    /// Whether this value is the zero of its type.
    spec fn zero(self) -> bool;

    /// Returns whether this value is the zero of its type.
    fn is_zero(self) -> (zero: bool)
        ensures
            zero == self.zero(),
    ;
}

/// A value of the integer type `T` that is not zero.
///
/// The only way to a value of this type is [`NonZero::new`], which refuses zero;
/// [`NonZero::get`] therefore never returns it.
#[derive(Debug, PartialEq, Eq, Hash, PartialOrd, Ord)]
pub struct NonZero<T: Zeroable> {
    value: T,
}

impl<T: Zeroable> Clone for NonZero<T> {
    #[inline]
    fn clone(&self) -> (copy: Self)
        ensures
            copy == *self,
    {
        *self
    }
}

impl<T: Zeroable> Copy for NonZero<T> {

}

impl<T: Zeroable> View for NonZero<T> {
    type V = T;

    /// The integer that this value holds.
    closed spec fn view(&self) -> T {
        self.value
    }
}

impl<T: Zeroable> NonZero<T> {
    #[verifier::type_invariant]
    spec fn holds_no_zero(self) -> bool {
        !self.value.zero()
    }

    /// The value that holds `value`. It is one that the program can make only
    /// where `value` is not zero.
    pub closed spec fn of(value: T) -> Self {
        NonZero { value }
    }

    /// `of` and the view undo each other.
    pub broadcast proof fn lemma_of_view(value: T)
        ensures
            (#[trigger] Self::of(value))@ == value,
    {
    }

    /// A value is known by the integer that it holds.
    pub broadcast proof fn lemma_view_of(nonzero: Self)
        ensures
            Self::of(#[trigger] nonzero@) == nonzero,
    {
    }

    /// Creates a non-zero if the given value is not zero.
    #[inline]
    #[must_use]
    pub fn new(value: T) -> (nonzero: Option<Self>)
        ensures
            nonzero == (if value.zero() {
                None
            } else {
                Some(Self::of(value))
            }),
            nonzero matches Some(n) ==> n@ == value,
    {
        if value.is_zero() {
            None
        } else {
            Some(NonZero { value })
        }
    }

    /// Returns the contained value, which is not zero.
    #[inline]
    #[must_use]
    pub fn get(self) -> (value: T)
        ensures
            value == self@,
            !value.zero(),
            self == Self::of(value),
    {
        proof {
            use_type_invariant(&self);
        }
        self.value
    }
}

impl Zeroable for u8 {
    open spec fn zero(self) -> bool {
        self == 0
    }

    #[inline]
    fn is_zero(self) -> (zero: bool) {
        self == 0
    }
}

impl Zeroable for u16 {
    open spec fn zero(self) -> bool {
        self == 0
    }

    #[inline]
    fn is_zero(self) -> (zero: bool) {
        self == 0
    }
}

impl Zeroable for u32 {
    open spec fn zero(self) -> bool {
        self == 0
    }

    #[inline]
    fn is_zero(self) -> (zero: bool) {
        self == 0
    }
}

impl Zeroable for u64 {
    open spec fn zero(self) -> bool {
        self == 0
    }

    #[inline]
    fn is_zero(self) -> (zero: bool) {
        self == 0
    }
}

impl Zeroable for u128 {
    open spec fn zero(self) -> bool {
        self == 0
    }

    #[inline]
    fn is_zero(self) -> (zero: bool) {
        self == 0
    }
}

impl Zeroable for usize {
    open spec fn zero(self) -> bool {
        self == 0
    }

    #[inline]
    fn is_zero(self) -> (zero: bool) {
        self == 0
    }
}

impl Zeroable for i8 {
    open spec fn zero(self) -> bool {
        self == 0
    }

    #[inline]
    fn is_zero(self) -> (zero: bool) {
        self == 0
    }
}

impl Zeroable for i16 {
    open spec fn zero(self) -> bool {
        self == 0
    }

    #[inline]
    fn is_zero(self) -> (zero: bool) {
        self == 0
    }
}

impl Zeroable for i32 {
    open spec fn zero(self) -> bool {
        self == 0
    }

    #[inline]
    fn is_zero(self) -> (zero: bool) {
        self == 0
    }
}

impl Zeroable for i64 {
    open spec fn zero(self) -> bool {
        self == 0
    }

    #[inline]
    fn is_zero(self) -> (zero: bool) {
        self == 0
    }
}

impl Zeroable for i128 {
    open spec fn zero(self) -> bool {
        self == 0
    }

    #[inline]
    fn is_zero(self) -> (zero: bool) {
        self == 0
    }
}

impl Zeroable for isize {
    open spec fn zero(self) -> bool {
        self == 0
    }

    #[inline]
    fn is_zero(self) -> (zero: bool) {
        self == 0
    }
}

/// A non-zero `usize`.
pub type NonZeroUsize = NonZero<usize>;

/// The smallest non-zero `usize`, one.
#[inline]
#[must_use]
pub fn one() -> (one: NonZeroUsize)
    ensures
        one@ == 1,
        one == NonZero::of(1usize),
{
    match NonZero::new(1usize) {
        Some(one) => one,
        None => vstd::pervasive::unreached(),
    }
}

} // verus!
