//! Why a decode was refused.

use vstd::prelude::*;

verus! {

/// The ways in which an input can fail to be a tunnelled value.
#[derive(Clone, Copy, Debug, PartialEq, Eq, Structural)]
pub enum DecodeError {
    /// The input is not a struct, or its name, its number of fields or the
    /// name of its field is not the reserved one.
    ShapeMismatch,
    /// The struct has the reserved shape, but its field does not hold an
    /// unsigned integer of the platform's pointer width.
    TypeMismatch,
}

impl DecodeError {
    /// The text of [`DecodeError::description`].
    pub open spec fn description_text(self) -> Seq<char> {
        match self {
            DecodeError::ShapeMismatch => "invalid shape, expected an engine value"@,
            DecodeError::TypeMismatch => "invalid type, expected an engine value"@,
        }
    }

    /// A description for human readers.
    pub fn description(&self) -> (text: &'static str)
        ensures
            text@ == self.description_text(),
    {
        match self {
            DecodeError::ShapeMismatch => "invalid shape, expected an engine value",
            DecodeError::TypeMismatch => "invalid type, expected an engine value",
        }
    }
}

} // verus!
