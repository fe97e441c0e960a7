//! What a generic pipeline carries: primitives, and structs made of named
//! fields that hold them.

use vstd::prelude::*;

verus! {

/// A primitive value of the pipeline's data model: the unit, a truth value,
/// a character, or an integer of a declared width and signedness.
#[derive(Clone, Copy, Debug, PartialEq, Eq, Structural)]
pub enum Primitive {
    Unit,
    Bool(bool),
    Char(char),
    I8(i8),
    I16(i16),
    I32(i32),
    I64(i64),
    I128(i128),
    U8(u8),
    U16(u16),
    U32(u32),
    U64(u64),
    U128(u128),
}

impl Primitive {
    /// The declared width in bits of an unsigned integer, `None` for every
    /// other primitive.
    pub open spec fn unsigned_bits(self) -> Option<u32> {
        match self {
            Primitive::U8(_) => Some(8u32),
            Primitive::U16(_) => Some(16u32),
            Primitive::U32(_) => Some(32u32),
            Primitive::U64(_) => Some(64u32),
            Primitive::U128(_) => Some(128u32),
            _ => None,
        }
    }

    /// The number that an unsigned integer holds, `None` for every other
    /// primitive.
    pub open spec fn unsigned_value(self) -> Option<nat> {
        match self {
            Primitive::U8(v) => Some(v as nat),
            Primitive::U16(v) => Some(v as nat),
            Primitive::U32(v) => Some(v as nat),
            Primitive::U64(v) => Some(v as nat),
            Primitive::U128(v) => Some(v as nat),
            _ => None,
        }
    }
}

/// One named field of a struct-shaped emission.
#[derive(Clone, Copy, Debug)]
pub struct Field<'a> {
    pub name: &'a str,
    pub payload: Primitive,
}

/// The mathematical content of a [`Field`].
pub struct FieldView {
    pub name: Seq<char>,
    pub payload: Primitive,
}

impl<'a> View for Field<'a> {
    type V = FieldView;

    open spec fn view(&self) -> FieldView {
        FieldView { name: self.name@, payload: self.payload }
    }
}

/// A struct-shaped emission: a type name and its fields in order.
#[derive(Debug)]
pub struct Signal<'a> {
    pub name: &'a str,
    pub fields: Vec<Field<'a>>,
}

/// The mathematical content of a [`Signal`].
pub struct SignalView {
    pub name: Seq<char>,
    pub fields: Seq<FieldView>,
}

impl<'a> View for Signal<'a> {
    type V = SignalView;

    open spec fn view(&self) -> SignalView {
        SignalView {
            name: self.name@,
            fields: Seq::new(self.fields@.len(), |i: int| self.fields@[i]@),
        }
    }
}

/// Anything a decoder may be handed: a bare primitive or a struct.
#[derive(Debug)]
pub enum Datum<'a> {
    Primitive(Primitive),
    Struct(Signal<'a>),
}

/// The mathematical content of a [`Datum`].
pub enum DatumView {
    Primitive(Primitive),
    Struct(SignalView),
}

impl<'a> View for Datum<'a> {
    type V = DatumView;

    open spec fn view(&self) -> DatumView {
        match self {
            Datum::Primitive(p) => DatumView::Primitive(*p),
            Datum::Struct(s) => DatumView::Struct(s@),
        }
    }
}

} // verus!
