//! The reserved-name convention and the values that travel under it.

pub mod error;
pub mod handle;
pub mod laws;
pub mod signal;
pub mod text;
pub mod value;
