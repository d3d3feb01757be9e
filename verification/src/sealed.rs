//! Closes the family of primitive types: only the types listed here can be
//! primitives, so that code which handles each of them handles them all.

use crate::nonzero::{NonZero, Zeroable};
use vstd::prelude::*;

verus! {

/// Marks the types that may take part in the primitive family. It has no
/// methods and no effect at run time.
pub trait Sealed {

}

impl<T: Sealed, const N: usize> Sealed for [T; N] {

}

impl<T: Sealed> Sealed for [T] {

}

impl<T: Sealed + ?Sized> Sealed for &T {

}

impl<T: Sealed + ?Sized> Sealed for &mut T {

}

impl<T: Sealed + Zeroable> Sealed for NonZero<T> {

}

impl Sealed for u8 {

}

impl Sealed for u16 {

}

impl Sealed for u32 {

}

impl Sealed for u64 {

}

impl Sealed for u128 {

}

impl Sealed for usize {

}

impl Sealed for i8 {

}

impl Sealed for i16 {

}

impl Sealed for i32 {

}

impl Sealed for i64 {

}

impl Sealed for i128 {

}

impl Sealed for isize {

}

impl Sealed for () {

}

impl Sealed for char {

}

impl Sealed for bool {

}

impl Sealed for str {

}

} // verus!
