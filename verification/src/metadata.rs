//! The parts of the type metadata that a composite is built from.

use vstd::prelude::*;
use crate::text::opt_text;

verus! {

/// The primitive types of the metadata.
#[derive(Clone, Copy, Debug, PartialEq, Eq, Structural)]
pub enum TypeDefPrimitive {
    Bool,
    Char,
    Str,
    U8,
    U16,
    U32,
    U64,
    U128,
    U256,
    I8,
    I16,
    I32,
    I64,
    I128,
    I256,
}

impl TypeDefPrimitive {
    /// An unsigned integer of 8, 16, 32, 64 or 128 bits.
    pub open spec fn is_compactable_uint(self) -> bool {
        self is U8 || self is U16 || self is U32 || self is U64 || self is U128
    }
}

/// The shape of a type's definition in the metadata.
#[derive(Clone, Copy, Debug, PartialEq, Eq, Structural)]
pub enum TypeDef {
    Composite,
    Variant,
    Sequence,
    Array,
    Tuple,
    Primitive(TypeDefPrimitive),
    Compact,
    BitSequence,
}

impl TypeDef {
    /// A primitive unsigned integer of 8, 16, 32, 64 or 128 bits.
    pub open spec fn is_compactable_uint(self) -> bool {
        self matches TypeDef::Primitive(p) && p.is_compactable_uint()
    }

    /// Whether the definition is a primitive unsigned integer of 8, 16, 32, 64
    /// or 128 bits.
    pub fn compactable_uint(&self) -> (yes: bool)
        ensures
            yes == self.is_compactable_uint(),
    {
        match self {
            TypeDef::Primitive(TypeDefPrimitive::U8) => true,
            TypeDef::Primitive(TypeDefPrimitive::U16) => true,
            TypeDef::Primitive(TypeDefPrimitive::U32) => true,
            TypeDef::Primitive(TypeDefPrimitive::U64) => true,
            TypeDef::Primitive(TypeDefPrimitive::U128) => true,
            _ => false,
        }
    }
}

/// What a [`Field`] stands for.
pub struct FieldView {
    pub name: Option<Seq<char>>,
    pub type_id: u32,
    pub ty_name: Option<Seq<char>>,
}

impl FieldView {
    /// The field's name; empty where it has none.
    pub open spec fn name_text(self) -> Seq<char> {
        match self.name {
            Some(name) => name,
            None => Seq::empty(),
        }
    }
}

/// One field of a type as the metadata describes it.
#[derive(Debug)]
pub struct Field {
    /// The field's name, where it has one.
    pub name: Option<String>,
    /// The id of the field's type in the type registry.
    pub type_id: u32,
    /// The name of the field's type as the source wrote it, where known.
    pub ty_name: Option<String>,
}

impl View for Field {
    type V = FieldView;

    open spec fn view(&self) -> FieldView {
        FieldView {
            name: opt_text(self.name),
            type_id: self.type_id,
            ty_name: opt_text(self.ty_name),
        }
    }
}

impl Field {
    /// A field of the given type.
    pub fn new(name: Option<String>, type_id: u32, ty_name: Option<String>) -> (field: Self)
        ensures
            field@ == (FieldView {
                name: opt_text(name),
                type_id,
                ty_name: opt_text(ty_name),
            }),
    {
        Field { name, type_id, ty_name }
    }
}

/// The views of a list of fields, in order.
pub open spec fn fields_view(fields: Seq<Field>) -> Seq<FieldView> {
    Seq::new(fields.len(), |i: int| fields[i]@)
}

} // verus!
