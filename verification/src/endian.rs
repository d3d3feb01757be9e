//! Byte order as a runtime value and as marker types.

use vstd::prelude::*;

verus! {

/// The endianness, or byte order, of a stream of data.
///
/// The default value is the order of the machine that runs the program; see
/// [`Endian::native`].
#[derive(Debug, Clone, Copy, PartialEq, Eq, Structural, PartialOrd, Ord, Hash)]
pub enum Endian {
    /// Little endian byte order: the least significant byte comes first.
    Little,
    /// Big endian byte order: the most significant byte comes first.
    Big,
}

/// The order that `first`, the byte at the lowest address of a stored `1u16`, reveals.
pub open spec fn order_of_probe(first: u8) -> Endian {
    if first == 1 {
        Endian::Little
    } else {
        Endian::Big
    }
}

/// Calls `u16::to_ne_bytes`. The result holds the low byte and the high byte of
/// `x`, in the order in which the machine keeps them in memory; which of the two
/// orders that is depends on the machine, so the contract allows both.
#[verifier::external_body]
fn native_bytes(x: u16) -> (bytes: [u8; 2])
    ensures
        bytes@ == seq![(x % 256) as u8, (x / 256) as u8] || bytes@ == seq![
            (x / 256) as u8,
            (x % 256) as u8,
        ],
{
    x.to_ne_bytes()
}

/// Reads the byte order off the first byte of a `1u16` as the machine stores it.
pub fn order_from_probe(first: u8) -> (order: Endian)
    ensures
        order == order_of_probe(first),
{
    if first == 1 {
        Endian::Little
    } else {
        Endian::Big
    }
}

impl Endian {
    /// The byte order of the machine that runs the program.
    ///
    /// The answer is the machine's to give: it is found by looking at how a
    /// `1u16` lies in memory, and nothing more is promised of it here.
    pub fn native() -> (order: Endian) {
        let bytes = native_bytes(1);
        order_from_probe(bytes[0])
    }

    /// Returns whether this is little endian.
    #[inline]
    #[must_use]
    pub fn is_little(self) -> (little: bool)
        ensures
            little == (self == Endian::Little),
    {
        match self {
            Endian::Little => true,
            Endian::Big => false,
        }
    }

    /// Returns whether this is big endian.
    #[inline]
    #[must_use]
    pub fn is_big(self) -> (big: bool)
        ensures
            big == (self == Endian::Big),
    {
        match self {
            Endian::Little => false,
            Endian::Big => true,
        }
    }

    /// Returns whether `self` is the order `native`.
    #[inline]
    #[must_use]
    pub fn is_same(self, native: Endian) -> (same: bool)
        ensures
            same == (self == native),
    {
        match (self, native) {
            (Endian::Little, Endian::Little) => true,
            (Endian::Big, Endian::Big) => true,
            _ => false,
        }
    }

    /// Returns whether this is the byte order of the machine that runs the program:
    /// `self.is_same(Endian::native())`.
    #[inline]
    #[must_use]
    pub fn is_native(self) -> (native: bool) {
        self.is_same(Endian::native())
    }

    /// The other byte order.
    pub open spec fn inverse(self) -> Endian {
        match self {
            Endian::Little => Endian::Big,
            Endian::Big => Endian::Little,
        }
    }

    /// Get the inverse endianness.
    ///
    /// - [`Endian::Little`] becomes [`Endian::Big`].
    /// - [`Endian::Big`] becomes [`Endian::Little`].
    #[inline]
    #[must_use]
    pub fn to_inverse(self) -> (inverse: Endian)
        ensures
            inverse == self.inverse(),
            inverse != self,
            inverse.inverse() == self,
    {
        match self {
            Endian::Little => Endian::Big,
            Endian::Big => Endian::Little,
        }
    }
}

impl Default for Endian {
    /// The byte order of the machine that runs the program.
    #[inline]
    fn default() -> (order: Endian) {
        Endian::native()
    }
}

impl core::ops::Not for Endian {
    type Output = Endian;

    /// Get the inverse endianness; see [`Endian::to_inverse`].
    #[inline]
    fn not(self) -> (inverse: Endian) {
        self.to_inverse()
    }
}

impl vstd::std_specs::ops::NotSpecImpl for Endian {
    open spec fn obeys_not_spec() -> bool {
        true
    }

    open spec fn not_req(self) -> bool {
        true
    }

    open spec fn not_spec(self) -> Endian {
        self.inverse()
    }
}

impl core::ops::Not for &Endian {
    type Output = Endian;

    /// Get the inverse endianness; see [`Endian::to_inverse`].
    #[inline]
    fn not(self) -> (inverse: Endian) {
        self.to_inverse()
    }
}

impl vstd::std_specs::ops::NotSpecImpl for &Endian {
    open spec fn obeys_not_spec() -> bool {
        true
    }

    open spec fn not_req(self) -> bool {
        true
    }

    open spec fn not_spec(self) -> Endian {
        self.inverse()
    }
}

/// Trait for types that stand for a byte order.
pub trait ByteOrder: Copy {
    /// The byte order that this value stands for.
    spec fn order(&self) -> Endian;

    /// The byte order that this value stands for.
    fn endian(&self) -> (endian: Endian)
        ensures
            endian == self.order(),
    ;
}

impl ByteOrder for Endian {
    open spec fn order(&self) -> Endian {
        *self
    }

    #[inline]
    fn endian(&self) -> (endian: Endian) {
        *self
    }
}

/// Type for little endian byte order.
#[derive(Debug, Clone, Copy, PartialEq, Eq, Structural, PartialOrd, Ord, Hash)]
pub struct LittleEndian;

impl Default for LittleEndian {
    #[inline]
    fn default() -> (marker: LittleEndian) {
        LittleEndian
    }
}

impl ByteOrder for LittleEndian {
    open spec fn order(&self) -> Endian {
        Endian::Little
    }

    #[inline]
    fn endian(&self) -> (endian: Endian) {
        Endian::Little
    }
}

/// Type for big endian byte order.
#[derive(Debug, Clone, Copy, PartialEq, Eq, Structural, PartialOrd, Ord, Hash)]
pub struct BigEndian;

impl Default for BigEndian {
    #[inline]
    fn default() -> (marker: BigEndian) {
        BigEndian
    }
}

impl ByteOrder for BigEndian {
    open spec fn order(&self) -> Endian {
        Endian::Big
    }

    #[inline]
    fn endian(&self) -> (endian: Endian) {
        Endian::Big
    }
}

/// Type for the byte order of the machine that runs the program.
///
/// A value is made by [`NativeEndian::new`], which asks the machine once; from
/// then on it stands for that order, as any other value of a [`ByteOrder`] does.
#[derive(Debug, Clone, Copy, PartialEq, Eq, Structural, PartialOrd, Ord, Hash)]
pub struct NativeEndian {
    order: Endian,
}

impl NativeEndian {
    /// The marker that stands for `order`, which is the order that the machine
    /// gave.
    #[inline]
    fn holding(order: Endian) -> (marker: NativeEndian)
        ensures
            marker.order() == order,
    {
        NativeEndian { order }
    }

    /// The marker for the byte order of the machine that runs the program.
    ///
    /// Which order that is, is the machine's to say; see [`Endian::native`].
    #[inline]
    #[must_use]
    pub fn new() -> (marker: NativeEndian) {
        NativeEndian::holding(Endian::native())
    }
}

impl Default for NativeEndian {
    #[inline]
    fn default() -> (marker: NativeEndian) {
        NativeEndian::new()
    }
}

impl ByteOrder for NativeEndian {
    closed spec fn order(&self) -> Endian {
        self.order
    }

    #[inline]
    fn endian(&self) -> (endian: Endian) {
        self.order
    }
}

/// The little endian marker.
pub const LE: LittleEndian = LittleEndian;

/// The big endian marker.
pub const BE: BigEndian = BigEndian;

} // verus!
