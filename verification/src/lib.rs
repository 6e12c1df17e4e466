//! Composite type definitions for generated client code.
//!
//! A composite is a set of fields, all named or all unnamed, that is emitted
//! either as a standalone `struct` or as one variant of an `enum`. The field
//! model is built from type metadata, and every declaration is rendered as
//! source text whose exact shape is given by the spec functions of the views.

pub mod composite;
pub mod derives;
pub mod error;
pub mod field_type;
pub mod fields;
pub mod laws;
pub mod metadata;
pub mod text;
pub mod type_def_params;
pub mod type_gen;
pub mod type_path;

pub use composite::{
    compact_as_derived, fields_lead, names_param, struct_def_view, struct_derives,
    trailing_semicolon, CompositeDef, CompositeDefKind, CompositeDefView, KindView,
};
pub use derives::{codec_compact_as, derive_tokens, GeneratedTypeDerives};
pub use error::{mixed_naming_message, CompositeDefError};
pub use field_type::{CompositeDefFieldType, FieldTypeView};
pub use fields::{
    field_type_of, has_named, has_unnamed, mixed_naming, named_field_tokens, named_fields_tokens,
    named_marker_tokens, named_view, normalized, unnamed_field_tokens, unnamed_fields_tokens,
    unnamed_marker_tokens, unnamed_view, CompositeDefFields, FieldsView,
};
pub use metadata::{fields_view, Field, FieldView, TypeDef, TypeDefPrimitive};
pub use text::{
    camel_case, contains_seq, join, occurs_at, opt_ref_text, opt_text, opt_tokens, strings_view,
};
pub use type_def_params::{param_names, TypeDefParameters, TypeDefParametersView};
pub use type_gen::{find_param, TypeEntryView, TypeGenerator, TypeGeneratorView};
pub use type_path::{params_view, TypeParameter, TypeParameterView, TypePath, TypePathView};
