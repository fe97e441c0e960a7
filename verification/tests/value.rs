use serde_v8::magic::error::DecodeError;
use serde_v8::magic::handle::Local;
use serde_v8::magic::signal::{Datum, Field, Primitive, Signal};
use serde_v8::magic::value::{is_tunnel, Value, EXPECTING, FIELD, FIELDS, NAME};

fn pointer_sized(addr: usize) -> Primitive {
    if usize::BITS == 64 {
        Primitive::U64(addr as u64)
    } else {
        Primitive::U32(addr as u32)
    }
}

fn other_width(addr: u32) -> Primitive {
    if usize::BITS == 64 {
        Primitive::U32(addr)
    } else {
        Primitive::U64(addr as u64)
    }
}

fn one_field<'a>(name: &'a str, field: &'a str, payload: Primitive) -> Datum<'a> {
    Datum::Struct(Signal { name, fields: vec![Field { name: field, payload }] })
}

fn decode<'s>(input: &Datum<'_>) -> Result<Value<'s>, DecodeError> {
    Value::deserialize(input)
}

#[test]
fn reserved_names_are_fixed() {
    assert_eq!(NAME, "$__v8_magic_Value");
    assert_eq!(FIELD, "$__v8_magic_value");
    assert_ne!(NAME, FIELD);
    assert_eq!(FIELDS, ["$__v8_magic_value"]);
    assert_eq!(EXPECTING, "an engine value");
}

#[test]
fn decoder_asks_for_the_fields_that_are_emitted() {
    let signal = Value::from(Local::from_raw(8)).serialize();
    let emitted: Vec<&str> = signal.fields.iter().map(|field| field.name).collect();
    assert_eq!(emitted, FIELDS);
}

#[test]
fn handle_keeps_its_address() {
    let handle = Local::from_raw(0x7f00_1000);
    assert_eq!(handle.as_raw(), 0x7f00_1000);
    assert_eq!(handle, Local::from_raw(0x7f00_1000));
    assert_ne!(handle, Local::from_raw(0x7f00_1008));
}

#[test]
fn value_wraps_and_unwraps_a_handle() {
    let handle = Local::from_raw(4096);
    let value = Value::from(handle);
    assert_eq!(value.v8_value, handle);
    let back: Local = value.into();
    assert_eq!(back, handle);
    assert_eq!(back.as_raw(), 4096);
}

#[test]
fn payload_is_the_address_at_pointer_width() {
    let value = Value::from(Local::from_raw(0xdead_beef));
    assert_eq!(value.payload(), pointer_sized(0xdead_beef));
    if usize::BITS == 64 {
        assert_eq!(value.payload(), Primitive::U64(0xdead_beef));
    } else {
        assert_eq!(value.payload(), Primitive::U32(0xdead_beef));
    }
}

#[test]
fn serialize_emits_the_reserved_one_field_struct() {
    let value = Value::from(Local::from_raw(4096));
    let signal = value.serialize();
    assert_eq!(signal.name, "$__v8_magic_Value");
    assert_eq!(signal.fields.len(), 1);
    assert_eq!(signal.fields[0].name, "$__v8_magic_value");
    assert_eq!(signal.fields[0].payload, pointer_sized(4096));
    assert!(is_tunnel(&signal));
}

#[test]
fn serialize_leaves_the_value_as_it_was() {
    let handle = Local::from_raw(77);
    let value = Value::from(handle);
    let first = value.serialize();
    let second = value.serialize();
    assert_eq!(first.name, second.name);
    assert_eq!(first.fields[0].payload, second.fields[0].payload);
    assert_eq!(value.v8_value, handle);
}

#[test]
fn round_trip_returns_the_same_handle() {
    let handle = Local::from_raw(0x5555_0040);
    let signal = Value::from(handle).serialize();
    let decoded = decode(&Datum::Struct(signal)).unwrap();
    assert_eq!(decoded.v8_value, handle);
}

#[test]
fn round_trip_at_the_ends_of_the_address_range() {
    for addr in [0usize, 1, usize::MAX - 1, usize::MAX] {
        let handle = Local::from_raw(addr);
        let signal = Value::from(handle).serialize();
        let decoded = decode(&Datum::Struct(signal)).unwrap();
        assert_eq!(decoded.v8_value.as_raw(), addr);
    }
}

#[test]
fn second_passage_changes_nothing() {
    let handle = Local::from_raw(0x1234_5678);
    let first_signal = Value::from(handle).serialize();
    let first_payload = first_signal.fields[0].payload;
    let once = decode(&Datum::Struct(first_signal)).unwrap();
    let second_signal = once.serialize();
    assert_eq!(second_signal.name, NAME);
    assert_eq!(second_signal.fields.len(), 1);
    assert_eq!(second_signal.fields[0].name, FIELD);
    assert_eq!(second_signal.fields[0].payload, first_payload);
    let twice = decode(&Datum::Struct(second_signal)).unwrap();
    assert_eq!(twice.v8_value, once.v8_value);
    assert_eq!(twice.v8_value, handle);
}

#[test]
fn struct_without_the_reserved_name_is_refused() {
    let input = one_field("NotTheSentinel", "field", Primitive::U64(42));
    assert_eq!(decode(&input).unwrap_err(), DecodeError::ShapeMismatch);
    let input = one_field("NotTheSentinel", FIELD, pointer_sized(42));
    assert_eq!(decode(&input).unwrap_err(), DecodeError::ShapeMismatch);
}

#[test]
fn struct_without_the_reserved_field_is_refused() {
    let input = one_field(NAME, "field", pointer_sized(42));
    assert_eq!(decode(&input).unwrap_err(), DecodeError::ShapeMismatch);
    let input = one_field(NAME, NAME, pointer_sized(42));
    assert_eq!(decode(&input).unwrap_err(), DecodeError::ShapeMismatch);
}

#[test]
fn names_are_matched_exactly() {
    let input = one_field("$__v8_magic_value", FIELD, pointer_sized(42));
    assert_eq!(decode(&input).unwrap_err(), DecodeError::ShapeMismatch);
    let input = one_field("$__v8_magic_Value ", FIELD, pointer_sized(42));
    assert_eq!(decode(&input).unwrap_err(), DecodeError::ShapeMismatch);
    let input = one_field("$__v8_magic_Valu", FIELD, pointer_sized(42));
    assert_eq!(decode(&input).unwrap_err(), DecodeError::ShapeMismatch);
    let input = one_field("", "", pointer_sized(42));
    assert_eq!(decode(&input).unwrap_err(), DecodeError::ShapeMismatch);
}

#[test]
fn struct_with_another_number_of_fields_is_refused() {
    let none = Datum::Struct(Signal { name: NAME, fields: vec![] });
    assert_eq!(decode(&none).unwrap_err(), DecodeError::ShapeMismatch);
    let field = Field { name: FIELD, payload: pointer_sized(42) };
    let two = Datum::Struct(Signal { name: NAME, fields: vec![field, field] });
    assert_eq!(decode(&two).unwrap_err(), DecodeError::ShapeMismatch);
}

#[test]
fn bare_primitive_is_refused_for_its_shape() {
    let input = Datum::Primitive(pointer_sized(42));
    assert_eq!(decode(&input).unwrap_err(), DecodeError::ShapeMismatch);
    let input = Datum::Primitive(Primitive::Unit);
    assert_eq!(decode(&input).unwrap_err(), DecodeError::ShapeMismatch);
}

#[test]
fn shape_is_judged_before_the_payload() {
    let input = one_field("NotTheSentinel", FIELD, Primitive::Bool(true));
    assert_eq!(decode(&input).unwrap_err(), DecodeError::ShapeMismatch);
}

#[test]
fn integer_of_another_width_is_refused() {
    let input = one_field(NAME, FIELD, other_width(42));
    assert_eq!(decode(&input).unwrap_err(), DecodeError::TypeMismatch);
    let input = one_field(NAME, FIELD, Primitive::U8(42));
    assert_eq!(decode(&input).unwrap_err(), DecodeError::TypeMismatch);
    let input = one_field(NAME, FIELD, Primitive::U16(42));
    assert_eq!(decode(&input).unwrap_err(), DecodeError::TypeMismatch);
    let input = one_field(NAME, FIELD, Primitive::U128(42));
    assert_eq!(decode(&input).unwrap_err(), DecodeError::TypeMismatch);
}

#[test]
fn wider_integer_is_not_truncated() {
    if usize::BITS == 32 {
        let input = one_field(NAME, FIELD, Primitive::U64(0x1_0000_0040));
        assert_eq!(decode(&input).unwrap_err(), DecodeError::TypeMismatch);
    } else {
        let input = one_field(NAME, FIELD, Primitive::U64(0x1_0000_0040));
        assert_eq!(decode(&input).unwrap().v8_value.as_raw() as u64, 0x1_0000_0040);
        let input = one_field(NAME, FIELD, Primitive::U32(0x40));
        assert_eq!(decode(&input).unwrap_err(), DecodeError::TypeMismatch);
    }
}

#[test]
fn payload_that_is_no_unsigned_integer_is_refused() {
    for payload in [
        Primitive::Unit,
        Primitive::Bool(true),
        Primitive::Char('v'),
        Primitive::I8(42),
        Primitive::I16(42),
        Primitive::I32(42),
        Primitive::I64(42),
        Primitive::I128(42),
    ] {
        let input = one_field(NAME, FIELD, payload);
        assert_eq!(decode(&input).unwrap_err(), DecodeError::TypeMismatch);
        let direct: Result<Value, DecodeError> = Value::from_payload(payload);
        assert_eq!(direct.unwrap_err(), DecodeError::TypeMismatch);
    }
}

#[test]
fn from_payload_takes_the_pointer_width_only() {
    let taken: Value = Value::from_payload(pointer_sized(4096)).unwrap();
    assert_eq!(taken.v8_value.as_raw(), 4096);
    let refused: Result<Value, DecodeError> = Value::from_payload(other_width(4096));
    assert_eq!(refused.unwrap_err(), DecodeError::TypeMismatch);
}

#[test]
fn is_tunnel_tells_the_reserved_shape() {
    let yes = Signal { name: NAME, fields: vec![Field { name: FIELD, payload: Primitive::Unit }] };
    assert!(is_tunnel(&yes));
    let no = Signal { name: "Point", fields: vec![Field { name: "x", payload: Primitive::I32(1) }] };
    assert!(!is_tunnel(&no));
    let empty = Signal { name: NAME, fields: vec![] };
    assert!(!is_tunnel(&empty));
}

#[test]
fn descriptions_say_what_was_expected() {
    assert_eq!(
        DecodeError::ShapeMismatch.description(),
        "invalid shape, expected an engine value"
    );
    assert_eq!(
        DecodeError::TypeMismatch.description(),
        "invalid type, expected an engine value"
    );
    for error in [DecodeError::ShapeMismatch, DecodeError::TypeMismatch] {
        assert!(error.description().ends_with("expected an engine value"));
    }
}
