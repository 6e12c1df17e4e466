//! A composite type and its declaration, as a `struct` or as an `enum` variant.

use vstd::prelude::*;
use vstd::string::StringExecFns;
use crate::derives::{codec_compact_as, derive_tokens, GeneratedTypeDerives};
use crate::fields::{CompositeDefFields, FieldsView};
use crate::text::{camel_case, opt_text, to_camel_case};
use crate::type_def_params::{TypeDefParameters, TypeDefParametersView};
use crate::type_gen::{TypeGenerator, TypeGeneratorView};
use crate::type_path::{params_view, TypeParameter, TypeParameterView};

verus! {

/// The name of a field's type, as the source wrote it, is the declared name
/// of one of the parameters.
pub open spec fn names_param(ty_name: Option<Seq<char>>, params: Seq<TypeParameterView>) -> bool {
    exists|i: int|
        0 <= i < params.len() && Some((#[trigger] params[i]).original_name) == ty_name
}

/// A `struct` of these fields derives `CompactAs`: it wraps exactly one
/// field, whose type is not one of the `struct`'s own parameters and is
/// registered with a definition as a primitive unsigned integer of 8, 16,
/// 32, 64 or 128 bits.
pub open spec fn compact_as_derived(
    fields: FieldsView,
    params: Seq<TypeParameterView>,
    type_gen: TypeGeneratorView,
) -> bool {
    &&& fields.field_types().len() == 1
    &&& !names_param(fields.field_types()[0].ty_name, params)
    &&& type_gen.types.contains_key(fields.field_types()[0].type_id)
    &&& type_gen.types[fields.field_types()[0].type_id].type_def.is_compactable_uint()
}

/// The derives of a `struct`: those of every generated type, and after them
/// `CompactAs` where the fields call for it.
pub open spec fn struct_derives(
    fields: FieldsView,
    params: Seq<TypeParameterView>,
    type_gen: TypeGeneratorView,
) -> Seq<Seq<char>> {
    if compact_as_derived(fields, params, type_gen) {
        type_gen.derives.push(codec_compact_as())
    } else {
        type_gen.derives
    }
}

/// What a [`CompositeDefKind`] stands for.
pub enum KindView {
    Struct {
        derives: Seq<Seq<char>>,
        type_params: TypeDefParametersView,
        field_visibility: Option<Seq<char>>,
    },
    EnumVariant,
}

/// What a [`CompositeDef`] stands for.
pub struct CompositeDefView {
    pub name: Seq<char>,
    pub kind: KindView,
    pub fields: FieldsView,
}

/// What stands between a name and its fields: a space before braces.
pub open spec fn fields_lead(fields: FieldsView) -> Seq<char> {
    if fields is Named {
        " "@
    } else {
        Seq::empty()
    }
}

/// What closes a `struct`: a semicolon, unless the fields stand in braces.
pub open spec fn trailing_semicolon(fields: FieldsView) -> Seq<char> {
    if fields is NoFields || fields is Unnamed {
        ";"@
    } else {
        Seq::empty()
    }
}

impl CompositeDefView {
    /// The declaration.
    ///
    /// A `struct` is its derives, then `pub struct`, the name, the type
    /// parameters and the fields with the marker for unused parameters,
    /// closed by a semicolon unless the fields are named. An `enum` variant
    /// is the name and the fields, with nothing else.
    pub open spec fn tokens(self) -> Seq<char> {
        match self.kind {
            KindView::Struct { derives, type_params, field_visibility } => derive_tokens(derives)
                + "pub struct "@ + self.name + type_params.tokens() + fields_lead(self.fields)
                + self.fields.struct_field_tokens(
                type_params.unused_phantom_data,
                field_visibility,
            ) + trailing_semicolon(self.fields),
            KindView::EnumVariant => self.name + fields_lead(self.fields)
                + self.fields.enum_variant_field_tokens(),
        }
    }
}

/// The definition of the `struct` with the given name: its derives are
/// decided by the fields, everything else is kept as it is given.
pub open spec fn struct_def_view(
    name: Seq<char>,
    type_params: TypeDefParametersView,
    fields: FieldsView,
    field_visibility: Option<Seq<char>>,
    type_gen: TypeGeneratorView,
) -> CompositeDefView {
    CompositeDefView {
        name,
        kind: KindView::Struct {
            derives: struct_derives(fields, type_params.params, type_gen),
            type_params,
            field_visibility,
        },
        fields,
    }
}

/// Which kind of composite type are we generating, either a standalone `struct` or an `enum`
/// variant.
#[derive(Debug)]
pub enum CompositeDefKind {
    /// Composite type comprising a Rust `struct`.
    Struct {
        derives: GeneratedTypeDerives,
        type_params: TypeDefParameters,
        field_visibility: Option<String>,
    },
    /// Comprises a variant of a Rust `enum`.
    EnumVariant,
}

impl View for CompositeDefKind {
    type V = KindView;

    open spec fn view(&self) -> KindView {
        match self {
            CompositeDefKind::Struct { derives, type_params, field_visibility } => {
                KindView::Struct {
                    derives: derives@,
                    type_params: type_params@,
                    field_visibility: opt_text(*field_visibility),
                }
            },
            CompositeDefKind::EnumVariant => KindView::EnumVariant,
        }
    }
}

/// Representation of a type which consists of a set of fields. Used to generate Rust code for
/// either a standalone `struct` definition, or an `enum` variant.
///
/// Fields can either be named or unnamed in either case.
#[derive(Debug)]
pub struct CompositeDef {
    /// The name of the `struct`, or the name of the `enum` variant.
    pub name: String,
    /// Generate either a standalone `struct` or an `enum` variant.
    pub kind: CompositeDefKind,
    /// The fields of the type, which are either all named or all unnamed.
    pub fields: CompositeDefFields,
}

impl View for CompositeDef {
    type V = CompositeDefView;

    open spec fn view(&self) -> CompositeDefView {
        CompositeDefView { name: self.name@, kind: self.kind@, fields: self.fields@ }
    }
}

/// Whether the name of a field's type is the declared name of a parameter.
fn names_type_param(ty_name: &Option<String>, params: &[TypeParameter]) -> (named: bool)
    ensures
        named == names_param(opt_text(*ty_name), params_view(params@)),
{
    match ty_name {
        Some(name) => {
            let mut i: usize = 0;
            while i < params.len()
                invariant
                    i <= params.len(),
                    opt_text(*ty_name) == Some(name@),
                    forall|k: int| 0 <= k < i ==> (#[trigger] params@[k])@.original_name != name@,
                decreases params.len() - i,
            {
                if params[i].original_name == *name {
                    assert(Some(params_view(params@)[i as int].original_name) == opt_text(
                        *ty_name,
                    ));
                    return true;
                }
                i += 1;
            }
            assert forall|k: int| 0 <= k < params@.len() implies Some(
                (#[trigger] params_view(params@)[k]).original_name,
            ) != opt_text(*ty_name) by {
                assert(params@[k]@.original_name != name@);
            }
            false
        },
        None => false,
    }
}

impl CompositeDef {
    /// Whether a `struct` of these fields derives `CompactAs`. That is so for
    /// any single field wrapper struct with a concrete unsigned int type.
    pub fn derives_compact_as(
        type_params: &TypeDefParameters,
        fields_def: &CompositeDefFields,
        type_gen: &TypeGenerator,
    ) -> (derived: bool)
        ensures
            derived == compact_as_derived(fields_def@, type_params@.params, type_gen@),
    {
        let fields = fields_def.field_types();
        if fields.len() == 1 {
            let field = fields[0];
            if !names_type_param(&field.ty_name, type_params.params()) {
                if let Some(ty) = type_gen.resolve_type_def(field.type_id) {
                    return ty.compactable_uint();
                }
            }
        }
        false
    }

    /// Construct a definition which will generate code for a standalone
    /// `struct` whose name is written as it is given.
    pub fn struct_def_with_name(
        name: String,
        type_params: TypeDefParameters,
        fields_def: CompositeDefFields,
        field_visibility: Option<String>,
        type_gen: &TypeGenerator,
    ) -> (def: Self)
        ensures
            def@ == struct_def_view(
                name@,
                type_params@,
                fields_def@,
                opt_text(field_visibility),
                type_gen@,
            ),
    {
        let mut derives = type_gen.derives().clone();
        if Self::derives_compact_as(&type_params, &fields_def, type_gen) {
            derives.push_codec_compact_as();
        }
        CompositeDef {
            name,
            kind: CompositeDefKind::Struct { derives, type_params, field_visibility },
            fields: fields_def,
        }
    }

    /// Construct a definition which will generate code for a standalone `struct`.
    ///
    /// The name of the `struct` is `ident` in camel case.
    pub fn struct_def(
        ident: &str,
        type_params: TypeDefParameters,
        fields_def: CompositeDefFields,
        field_visibility: Option<String>,
        type_gen: &TypeGenerator,
    ) -> (def: Self)
        ensures
            def@ == struct_def_view(
                camel_case(ident@),
                type_params@,
                fields_def@,
                opt_text(field_visibility),
                type_gen@,
            ),
    {
        let name = to_camel_case(ident);
        Self::struct_def_with_name(name, type_params, fields_def, field_visibility, type_gen)
    }

    /// Construct a definition which will generate code for an `enum` variant.
    pub fn enum_variant_def(ident: &str, fields: CompositeDefFields) -> (def: Self)
        ensures
            def@ == (CompositeDefView {
                name: ident@,
                kind: KindView::EnumVariant,
                fields: fields@,
            }),
    {
        CompositeDef { name: ident.to_owned(), kind: CompositeDefKind::EnumVariant, fields }
    }

    /// Appends the declaration to `tokens`.
    pub fn to_tokens(&self, tokens: &mut String)
        ensures
            final(tokens)@ == old(tokens)@ + self@.tokens(),
    {
        match &self.kind {
            CompositeDefKind::Struct { derives, type_params, field_visibility } => {
                let phantom_data = type_params.unused_params_phantom_data();
                let fields = self.fields.to_struct_field_tokens(
                    phantom_data,
                    field_visibility.as_ref(),
                );
                derives.to_tokens(tokens);
                tokens.append("pub struct ");
                tokens.append(self.name.as_str());
                type_params.to_tokens(tokens);
                if let CompositeDefFields::Named(_) = self.fields {
                    tokens.append(" ");
                    tokens.append(fields.as_str());
                } else {
                    tokens.append(fields.as_str());
                    tokens.append(";");
                }
            },
            CompositeDefKind::EnumVariant => {
                let fields = self.fields.to_enum_variant_field_tokens();
                tokens.append(self.name.as_str());
                if let CompositeDefFields::Named(_) = self.fields {
                    tokens.append(" ");
                }
                tokens.append(fields.as_str());
            },
        }
    }
}

} // verus!
