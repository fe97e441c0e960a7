//! Tunnelling of V8 value handles through a generic serialization pipeline.
//!
//! A handle that the engine owns cannot be turned into portable data, yet
//! documents that mix plain data with such handles should still pass through
//! the same generic encoders and decoders as everything else. The [`magic`]
//! module disguises a handle as a one-field struct with reserved names, whose
//! single field carries the handle as a pointer-width unsigned integer.

pub mod magic;
