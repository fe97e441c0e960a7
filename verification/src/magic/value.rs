//! The tunnel value: a borrowed engine handle and its codec.
//!
//! A [`Value`] passes through a generic pipeline as a struct named [`NAME`]
//! with the single field [`FIELD`], which holds the handle as an unsigned
//! integer of the platform's pointer width. A pipeline that knows the names
//! may take a shortcut; one that does not sees an ordinary one-field struct.

use crate::magic::error::DecodeError;
use crate::magic::handle::Local;
use crate::magic::signal::{Datum, DatumView, Field, FieldView, Primitive, Signal, SignalView};
use crate::magic::text::same_text;
use vstd::prelude::*;

verus! {

/// Name of the single field of the struct that stands for a tunnelled value.
pub const FIELD: &'static str = "$__v8_magic_value";

/// Name of the struct that stands for a tunnelled value.
pub const NAME: &'static str = "$__v8_magic_Value";

/// The fields that a decoder of tunnelled values asks the pipeline for, in
/// order.
pub const FIELDS: [&'static str; 1] = [FIELD];

/// What a decoder of tunnelled values tells the pipeline that it expects.
pub const EXPECTING: &'static str = "an engine value";

/// The primitive that carries the handle `addr` on this platform: an
/// unsigned integer exactly as wide as a pointer.
pub open spec fn pointer_payload(addr: usize) -> Primitive {
    if usize::BITS == 64 {
        Primitive::U64(addr as u64)
    } else {
        Primitive::U32(addr as u32)
    }
}

/// The handle that a primitive carries: the number it holds, if it is an
/// unsigned integer whose declared width is that of a pointer.
pub open spec fn payload_address(payload: Primitive) -> Option<usize> {
    if payload.unsigned_bits() == Some(usize::BITS) {
        Some(payload.unsigned_value().unwrap() as usize)
    } else {
        None
    }
}

/// The emission that stands for the handle `addr`.
pub open spec fn encoded(addr: usize) -> SignalView {
    SignalView {
        name: NAME@,
        fields: seq![FieldView { name: FIELD@, payload: pointer_payload(addr) }],
    }
}

/// Whether a struct has the reserved name and the reserved field as its
/// only one.
pub open spec fn has_tunnel_shape(signal: SignalView) -> bool {
    &&& signal.name == NAME@
    &&& signal.fields.len() == 1
    &&& signal.fields[0].name == FIELD@
}

/// What the payload of a struct of the reserved shape decodes to.
pub open spec fn decoded_payload(payload: Primitive) -> Result<usize, DecodeError> {
    match payload_address(payload) {
        Some(addr) => Ok(addr),
        None => Err(DecodeError::TypeMismatch),
    }
}

/// What an input decodes to: the handle it carries, or the reason why it
/// carries none.
pub open spec fn decoded(input: DatumView) -> Result<usize, DecodeError> {
    match input {
        DatumView::Primitive(_) => Err(DecodeError::ShapeMismatch),
        DatumView::Struct(signal) => if has_tunnel_shape(signal) {
            decoded_payload(signal.fields[0].payload)
        } else {
            Err(DecodeError::ShapeMismatch)
        },
    }
}

/// Tells a struct that stands for a tunnelled value from ordinary data.
///
/// A pipeline that knows the convention asks this of each struct it meets,
/// and hands the field's payload over as it is where the answer is yes.
pub fn is_tunnel(signal: &Signal<'_>) -> (yes: bool)
    ensures
        yes == has_tunnel_shape(signal@),
{
    same_text(signal.name, NAME) && signal.fields.len() == 1 && same_text(
        signal.fields[0].name,
        FIELD,
    )
}

/// A V8 value that passes through encoding and decoding untouched, so that
/// plain data and engine values can be mixed in structs, tuples and maps.
///
/// The value is borrowed from the scope `'s` and never owned: dropping a
/// `Value` leaves the engine's slot as it is.
#[derive(Debug)]
pub struct Value<'s> {
    pub v8_value: Local<'s>,
}

impl<'s> View for Value<'s> {
    type V = usize;

    /// The identity of the handle inside.
    open spec fn view(&self) -> usize {
        self.v8_value@
    }
}

impl<'s> From<Local<'s>> for Value<'s> {
    fn from(v8_value: Local<'s>) -> (value: Self) {
        Self { v8_value }
    }
}

impl<'s> vstd::std_specs::convert::FromSpecImpl<Local<'s>> for Value<'s> {
    open spec fn obeys_from_spec() -> bool {
        true
    }

    open spec fn from_spec(v8_value: Local<'s>) -> Self {
        Value { v8_value }
    }
}

impl<'s> From<Value<'s>> for Local<'s> {
    fn from(v: Value<'s>) -> (handle: Self) {
        v.v8_value
    }
}

impl<'s> vstd::std_specs::convert::FromSpecImpl<Value<'s>> for Local<'s> {
    open spec fn obeys_from_spec() -> bool {
        true
    }

    open spec fn from_spec(v: Value<'s>) -> Self {
        v.v8_value
    }
}

impl<'s> Value<'s> {
    /// The handle as the primitive that carries it.
    pub fn payload(&self) -> (payload: Primitive)
        ensures
            payload == pointer_payload(self@),
    {
        let addr = self.v8_value.as_raw();
        if usize::BITS == 64 {
            Primitive::U64(addr as u64)
        } else {
            Primitive::U32(addr as u32)
        }
    }

    /// Presents the value to a pipeline: a struct of the reserved name with
    /// exactly one field, of the reserved name, that holds the handle.
    pub fn serialize(&self) -> (signal: Signal<'static>)
        ensures
            signal@ == encoded(self@),
            signal@.name == NAME@,
            signal@.fields.len() == 1,
            signal@.fields[0].name == FIELD@,
            signal@.fields[0].payload == pointer_payload(self@),
    {
        let mut fields: Vec<Field<'static>> = Vec::new();
        fields.push(Field { name: FIELD, payload: self.payload() });
        let signal = Signal { name: NAME, fields };
        assert(signal@.fields =~= encoded(self@).fields);
        signal
    }

    /// Takes the value out of the payload that a pipeline hands over for a
    /// struct of the reserved shape.
    ///
    /// Only an unsigned integer of the platform's pointer width is taken;
    /// any other primitive, and an integer of any other width, is refused.
    /// That the integer names a live slot of the scope `'s` is the caller's
    /// word, as in [`Local::from_raw`].
    pub fn from_payload(payload: Primitive) -> (result: Result<Value<'s>, DecodeError>)
        ensures
            match result {
                Ok(value) => decoded_payload(payload) == Ok::<usize, DecodeError>(value@),
                Err(error) => decoded_payload(payload) == Err::<usize, DecodeError>(error),
            },
            result is Ok <==> payload.unsigned_bits() == Some(usize::BITS),
            result matches Ok(value) ==> payload.unsigned_value() == Some(value@ as nat),
            result matches Err(error) ==> error == DecodeError::TypeMismatch,
    {
        match payload {
            Primitive::U64(bits) => {
                if usize::BITS == 64 {
                    Ok(Value { v8_value: Local::from_raw(bits as usize) })
                } else {
                    Err(DecodeError::TypeMismatch)
                }
            },
            Primitive::U32(bits) => {
                if usize::BITS == 32 {
                    Ok(Value { v8_value: Local::from_raw(bits as usize) })
                } else {
                    Err(DecodeError::TypeMismatch)
                }
            },
            _ => Err(DecodeError::TypeMismatch),
        }
    }

    /// Recovers a value from what a pipeline delivers.
    ///
    /// The input must be a struct of the reserved name with the reserved
    /// field as its only one, else the shape is refused; the field's payload
    /// is then read as [`Value::from_payload`] reads it.
    pub fn deserialize(input: &Datum<'_>) -> (result: Result<Value<'s>, DecodeError>)
        ensures
            match result {
                Ok(value) => decoded(input@) == Ok::<usize, DecodeError>(value@),
                Err(error) => decoded(input@) == Err::<usize, DecodeError>(error),
            },
            result matches Err(DecodeError::ShapeMismatch) <==> !(input@ matches DatumView::Struct(
                signal,
            ) && has_tunnel_shape(signal)),
            result matches Err(DecodeError::TypeMismatch) <==> (input@ matches DatumView::Struct(
                signal,
            ) && has_tunnel_shape(signal) && signal.fields[0].payload.unsigned_bits() != Some(
                usize::BITS,
            )),
    {
        match input {
            Datum::Primitive(_) => Err(DecodeError::ShapeMismatch),
            Datum::Struct(signal) => {
                if is_tunnel(signal) {
                    Value::from_payload(signal.fields[0].payload)
                } else {
                    Err(DecodeError::ShapeMismatch)
                }
            },
        }
    }
}

} // verus!
