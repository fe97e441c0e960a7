//! What holds of the codec as a whole.
//!
//! The statements are over the identity of the handle in a [`Value`] and
//! over the views of what is emitted and delivered, as the contracts of
//! [`Value::serialize`] and [`Value::deserialize`] are: the first emits
//! [`encoded`] of the value, the second returns what [`decoded`] gives for
//! its input.

use crate::magic::error::DecodeError;
use crate::magic::signal::{DatumView, Primitive, SignalView};
use crate::magic::value::{
    decoded, decoded_payload, encoded, has_tunnel_shape, payload_address, pointer_payload, Value,
    FIELD, FIELDS, NAME,
};
use vstd::prelude::*;

verus! {

/// The payload for a value is an unsigned integer exactly as wide as a
/// pointer, and the number it holds is the handle's address: nothing of the
/// handle is lost and nothing is added.
pub proof fn lemma_payload_is_pointer_wide(value: Value)
    ensures
        pointer_payload(value@).unsigned_bits() == Some(usize::BITS),
        pointer_payload(value@).unsigned_value() == Some(value@ as nat),
        payload_address(pointer_payload(value@)) == Some(value@),
{
}

/// A payload is taken for a handle exactly when it is an unsigned integer
/// as wide as a pointer, and the handle is then the number it holds.
pub proof fn lemma_payload_taken_iff_pointer_wide(payload: Primitive)
    ensures
        payload_address(payload) is Some <==> payload.unsigned_bits() == Some(usize::BITS),
        payload_address(payload) matches Some(addr) ==> payload.unsigned_value() == Some(
            addr as nat,
        ),
{
}

/// The emission for a value is a struct of the reserved name with exactly
/// one field, of the reserved name.
pub proof fn lemma_encoded_shape(value: Value)
    ensures
        encoded(value@).name == NAME@,
        encoded(value@).fields.len() == 1,
        encoded(value@).fields[0].name == FIELD@,
        has_tunnel_shape(encoded(value@)),
{
}

/// A decoder asks the pipeline for the very fields that an encoder emits.
pub proof fn lemma_asks_for_what_is_emitted(value: Value)
    ensures
        FIELDS@.len() == encoded(value@).fields.len(),
        forall|i: int|
            0 <= i < FIELDS@.len() ==> FIELDS@[i]@ == #[trigger] encoded(value@).fields[i].name,
{
}

/// Decoding what encoding a value emitted succeeds, and gives a value of
/// the same identity.
pub proof fn lemma_round_trip(value: Value)
    ensures
        decoded(DatumView::Struct(encoded(value@))) == Ok::<usize, DecodeError>(value@),
{
    lemma_payload_is_pointer_wide(value);
}

/// The handle of a value that comes back from a round trip is the handle
/// that went in.
pub proof fn lemma_round_trip_same_handle(value: Value, back: Value)
    requires
        decoded(DatumView::Struct(encoded(value@))) == Ok::<usize, DecodeError>(back@),
    ensures
        back.v8_value == value.v8_value,
        back == value,
{
    lemma_round_trip(value);
    back.v8_value.lemma_same_address_same_handle(value.v8_value);
}

/// A struct that lacks the reserved name, or does not have the reserved
/// field as its only one, is refused for its shape whatever it holds.
pub proof fn lemma_foreign_shape_refused(signal: SignalView)
    requires
        signal.name != NAME@ || signal.fields.len() != 1 || signal.fields[0].name != FIELD@,
    ensures
        decoded(DatumView::Struct(signal)) == Err::<usize, DecodeError>(DecodeError::ShapeMismatch),
{
}

/// What is no struct at all is refused for its shape.
pub proof fn lemma_bare_primitive_refused(payload: Primitive)
    ensures
        decoded(DatumView::Primitive(payload)) == Err::<usize, DecodeError>(
            DecodeError::ShapeMismatch,
        ),
{
}

/// An unsigned integer whose declared width is not the platform's pointer
/// width is refused, whatever number it holds: no bits are dropped to make
/// it fit and none are made up.
pub proof fn lemma_width_rejection(signal: SignalView)
    requires
        has_tunnel_shape(signal),
        signal.fields[0].payload.unsigned_bits() is Some,
        signal.fields[0].payload.unsigned_bits() != Some(usize::BITS),
    ensures
        decoded_payload(signal.fields[0].payload) == Err::<usize, DecodeError>(
            DecodeError::TypeMismatch,
        ),
        decoded(DatumView::Struct(signal)) == Err::<usize, DecodeError>(
            DecodeError::TypeMismatch,
        ),
{
}

/// A second passage through the codec changes nothing: it emits what the
/// first emitted and gives back what the first gave back.
pub proof fn lemma_passthrough_idempotent(value: Value)
    ensures
        decoded(DatumView::Struct(encoded(value@))) is Ok,
        ({
            let once = decoded(DatumView::Struct(encoded(value@)));
            let again = decoded(DatumView::Struct(encoded(once->Ok_0)));
            &&& encoded(once->Ok_0) == encoded(value@)
            &&& again == once
        }),
{
    lemma_round_trip(value);
}

/// Every input that decodes is the emission of the handle it decodes to:
/// nothing else is taken for a tunnelled value.
pub proof fn lemma_decodes_only_emissions(input: DatumView)
    requires
        decoded(input) is Ok,
    ensures
        input == DatumView::Struct(encoded(decoded(input)->Ok_0)),
{
    let signal = input->Struct_0;
    let addr = decoded(input)->Ok_0;
    assert(pointer_payload(addr) == signal.fields[0].payload);
    assert(signal.fields =~= encoded(addr).fields);
}

} // verus!
