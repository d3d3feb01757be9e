//! Decoding of the fixed-width primitives from streams of bytes, in a byte order
//! that every call names.
//!
//! A caller that holds a part of a stream learns from each attempt whether a
//! value was decoded, whether more bytes are needed, or whether the bytes are
//! corrupt. The modules are, from the leaves up:
//!
//! - [`endian`]: the byte order, as a value and as marker types;
//! - [`radix`]: what a run of bytes spells as a number, and back;
//! - [`nonzero`], [`primitive`], [`integer`]: the primitive types and their
//!   bytes;
//! - [`size`], [`needed`]: amounts of bytes that are known or not;
//! - [`decoder`], [`binary`]: the decoding protocol and the decoders of the
//!   primitives;
//! - [`buffer`]: buffers to read values from;
//! - [`read_buf`]: a buffer that is filled and initialized step by step.

pub mod binary;
pub mod buffer;
pub mod decoder;
pub mod endian;
pub mod integer;
pub mod needed;
pub mod nonzero;
pub mod primitive;
pub mod radix;
pub mod read_buf;
mod sealed;
pub mod size;

pub use decoder::Decoder;
pub use endian::Endian;
pub use size::Size;
