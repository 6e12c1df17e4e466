//! What holds of every composite, whatever its fields.

use vstd::prelude::*;
use crate::composite::{
    names_param, struct_def_view, struct_derives, CompositeDefView, KindView,
};
use crate::derives::codec_compact_as;
use crate::field_type::FieldTypeView;
use crate::fields::{
    field_type_of, has_named, has_unnamed, mixed_naming, named_field_tokens, named_fields_tokens,
    named_marker_tokens, normalized, unnamed_field_tokens, unnamed_fields_tokens,
    unnamed_marker_tokens, FieldsView,
};
use crate::metadata::{FieldView, TypeDef, TypeDefPrimitive};
use crate::text::{contains_seq, occurs_at, opt_tokens};
use crate::type_def_params::TypeDefParametersView;
use crate::type_gen::TypeGeneratorView;
use crate::type_path::TypeParameterView;

verus! {

/// A type without fields becomes `NoFields`. As a `struct` its field list is
/// the marker for unused type parameters alone, in parentheses, whatever the
/// visibility; without a marker it is empty.
pub proof fn lemma_no_fields(
    fields: Seq<FieldView>,
    params: Seq<TypeParameterView>,
    type_gen: TypeGeneratorView,
    phantom_data: Option<Seq<char>>,
    visibility: Option<Seq<char>>,
)
    requires
        fields.len() == 0,
    ensures
        !mixed_naming(fields),
        normalized(fields, params, type_gen) == FieldsView::NoFields,
        phantom_data matches Some(marker) ==> normalized(
            fields,
            params,
            type_gen,
        ).struct_field_tokens(phantom_data, visibility) == "("@ + marker + ")"@,
        phantom_data is None ==> normalized(fields, params, type_gen).struct_field_tokens(
            phantom_data,
            visibility,
        ).len() == 0,
{
}

/// Fields that all have a name become `Named`: one entry for each field, in
/// the order of the metadata, with the field's name and its resolved type.
pub proof fn lemma_all_named(
    fields: Seq<FieldView>,
    params: Seq<TypeParameterView>,
    type_gen: TypeGeneratorView,
)
    requires
        fields.len() > 0,
        forall|i: int| 0 <= i < fields.len() ==> (#[trigger] fields[i]).name is Some,
    ensures
        !mixed_naming(fields),
        normalized(fields, params, type_gen) matches FieldsView::Named(named) && {
            &&& named.len() == fields.len()
            &&& forall|i: int|
                0 <= i < fields.len() ==> {
                    &&& Some((#[trigger] named[i]).0) == fields[i].name
                    &&& named[i].1 == field_type_of(fields[i], params, type_gen)
                }
        },
{
    assert(fields[0].name is Some);
}

/// Fields that all lack a name become `Unnamed`: one entry for each field,
/// in the order of the metadata, with the field's resolved type.
pub proof fn lemma_all_unnamed(
    fields: Seq<FieldView>,
    params: Seq<TypeParameterView>,
    type_gen: TypeGeneratorView,
)
    requires
        fields.len() > 0,
        forall|i: int| 0 <= i < fields.len() ==> (#[trigger] fields[i]).name is None,
    ensures
        !mixed_naming(fields),
        normalized(fields, params, type_gen) matches FieldsView::Unnamed(unnamed) && {
            &&& unnamed.len() == fields.len()
            &&& forall|i: int|
                0 <= i < fields.len() ==> #[trigger] unnamed[i] == field_type_of(
                    fields[i],
                    params,
                    type_gen,
                )
        },
{
}

/// A list with a named field at `named` and an unnamed field at `unnamed` is
/// of mixed naming, which is what the construction of the fields refuses.
/// Every other list is empty, all named or all unnamed.
pub proof fn lemma_mixed_naming(fields: Seq<FieldView>, named: int, unnamed: int)
    ensures
        0 <= named < fields.len() && 0 <= unnamed < fields.len() && fields[named].name is Some
            && fields[unnamed].name is None ==> mixed_naming(fields),
        !mixed_naming(fields) ==> {
            ||| fields.len() == 0
            ||| forall|i: int| 0 <= i < fields.len() ==> (#[trigger] fields[i]).name is Some
            ||| forall|i: int| 0 <= i < fields.len() ==> (#[trigger] fields[i]).name is None
        },
{
    if !mixed_naming(fields) && fields.len() > 0 {
        if has_named(fields) {
            assert forall|i: int| 0 <= i < fields.len() implies (#[trigger] fields[i]).name
                is Some by {
                if fields[i].name is None {
                    assert(has_unnamed(fields));
                }
            }
        } else {
            assert forall|i: int| 0 <= i < fields.len() implies (#[trigger] fields[i]).name
                is None by {
                if fields[i].name is Some {
                    assert(has_named(fields));
                }
            }
        }
    }
}

/// When a `struct` derives `CompactAs`.
///
/// A `struct` with exactly one field, the name of whose type is not the
/// declared name of one of the `struct`'s own parameters and whose type is
/// registered as a primitive unsigned integer of 8, 16, 32, 64 or 128 bits,
/// has the derives of every generated type and `CompactAs` after them. A
/// `struct` with no field or with two or more, or whose single field has a
/// parameter as its type or a type of any other definition, has the derives
/// of every generated type and no more.
pub proof fn lemma_compact_as(
    name: Seq<char>,
    type_params: TypeDefParametersView,
    fields: FieldsView,
    field_visibility: Option<Seq<char>>,
    type_gen: TypeGeneratorView,
)
    ensures
        struct_def_view(name, type_params, fields, field_visibility, type_gen).kind
            matches KindView::Struct { derives, .. } && derives == struct_derives(
            fields,
            type_params.params,
            type_gen,
        ),
        ({
            &&& fields.field_types().len() == 1
            &&& !names_param(fields.field_types()[0].ty_name, type_params.params)
            &&& type_gen.types.contains_key(fields.field_types()[0].type_id)
            &&& type_gen.types[fields.field_types()[0].type_id].type_def.is_compactable_uint()
        }) ==> struct_derives(fields, type_params.params, type_gen) == type_gen.derives.push(
            codec_compact_as(),
        ),
        ({
            ||| fields.field_types().len() != 1
            ||| names_param(fields.field_types()[0].ty_name, type_params.params)
            ||| !type_gen.types.contains_key(fields.field_types()[0].type_id)
            ||| !type_gen.types[fields.field_types()[0].type_id].type_def.is_compactable_uint()
        }) ==> struct_derives(fields, type_params.params, type_gen) == type_gen.derives,
{
}

/// The definitions that count as a primitive unsigned integer of 8, 16, 32,
/// 64 or 128 bits are the five primitives of those widths and no others.
pub proof fn lemma_compactable_uint(type_def: TypeDef)
    ensures
        type_def.is_compactable_uint() <==> {
            ||| type_def == TypeDef::Primitive(TypeDefPrimitive::U8)
            ||| type_def == TypeDef::Primitive(TypeDefPrimitive::U16)
            ||| type_def == TypeDef::Primitive(TypeDefPrimitive::U32)
            ||| type_def == TypeDef::Primitive(TypeDefPrimitive::U64)
            ||| type_def == TypeDef::Primitive(TypeDefPrimitive::U128)
        },
{
}

/// A name that holds `Box<` anywhere, whatever stands before and after it,
/// contains the marker of a boxed field.
pub proof fn lemma_contains_box(before: Seq<char>, after: Seq<char>)
    ensures
        contains_seq(before + "Box<"@ + after, "Box<"@),
{
    let hay = before + "Box<"@ + after;
    assert(hay.subrange(before.len() as int, (before.len() + "Box<"@.len()) as int) == "Box<"@);
    assert(occurs_at(hay, "Box<"@, before.len() as int));
}

/// A field is boxed exactly when the name of its type, as the source wrote
/// it, contains `Box<`; its resolved path and id have no say in it. A boxed
/// field is written as its path inside `::std::boxed::Box<..>`, any other
/// field as its path alone.
pub proof fn lemma_boxed_field(field: FieldTypeView, other: FieldTypeView)
    ensures
        field.is_boxed() <==> (field.ty_name matches Some(name) && contains_seq(name, "Box<"@)),
        field.ty_name == other.ty_name ==> field.is_boxed() == other.is_boxed(),
        field.is_boxed() ==> field.tokens() == "::std::boxed::Box<"@ + field.type_path.path
            + ">"@,
        !field.is_boxed() ==> field.tokens() == field.type_path.path,
{
}

/// A compact field is written behind `#[codec(compact)]`, named or not and
/// with any visibility or none, as in a `struct` so in an `enum` variant;
/// any other field is written without it.
pub proof fn lemma_compact_field(
    name: Seq<char>,
    field: FieldTypeView,
    visibility: Option<Seq<char>>,
)
    ensures
        field.type_path.compact ==> {
            &&& named_field_tokens((name, field), visibility) == "#[codec(compact)]"@ + " "@
                + opt_tokens(visibility) + name + ": "@ + field.tokens() + ", "@
            &&& unnamed_field_tokens(field, visibility) == "#[codec(compact)]"@ + " "@
                + opt_tokens(visibility) + field.tokens() + ", "@
        },
        !field.type_path.compact ==> {
            &&& named_field_tokens((name, field), visibility) == opt_tokens(visibility) + name
                + ": "@ + field.tokens() + ", "@
            &&& unnamed_field_tokens(field, visibility) == opt_tokens(visibility)
                + field.tokens() + ", "@
        },
{
}

/// The named field at `at` is written between the fields before it and the
/// fields after it, and has no part in how those are written.
pub proof fn lemma_named_field_at(
    fields: Seq<(Seq<char>, FieldTypeView)>,
    visibility: Option<Seq<char>>,
    at: int,
)
    requires
        0 <= at < fields.len(),
    ensures
        named_fields_tokens(fields, visibility) == named_fields_tokens(
            fields.take(at),
            visibility,
        ) + named_field_tokens(fields[at], visibility) + named_fields_tokens(
            fields.skip(at + 1),
            visibility,
        ),
    decreases fields.len(),
{
    let front = fields.drop_last();
    if at == fields.len() - 1 {
        assert(fields.take(at) == front);
        assert(fields.skip(at + 1).len() == 0);
    } else {
        lemma_named_field_at(front, visibility, at);
        assert(front.take(at) == fields.take(at));
        assert(fields.skip(at + 1).drop_last() == front.skip(at + 1));
    }
}

/// The unnamed field at `at` is written between the fields before it and
/// the fields after it, and has no part in how those are written.
pub proof fn lemma_unnamed_field_at(
    fields: Seq<FieldTypeView>,
    visibility: Option<Seq<char>>,
    at: int,
)
    requires
        0 <= at < fields.len(),
    ensures
        unnamed_fields_tokens(fields, visibility) == unnamed_fields_tokens(
            fields.take(at),
            visibility,
        ) + unnamed_field_tokens(fields[at], visibility) + unnamed_fields_tokens(
            fields.skip(at + 1),
            visibility,
        ),
    decreases fields.len(),
{
    let front = fields.drop_last();
    if at == fields.len() - 1 {
        assert(fields.take(at) == front);
        assert(fields.skip(at + 1).len() == 0);
    } else {
        lemma_unnamed_field_at(front, visibility, at);
        assert(front.take(at) == fields.take(at));
        assert(fields.skip(at + 1).drop_last() == front.skip(at + 1));
    }
}

/// In a `struct` and in an `enum` variant alike, the named field at `at` is
/// written after the fields before it and before the fields after it, the
/// marker and the closing brace: what is written for the field is its own
/// text, and what is written for the others does not depend on it.
pub proof fn lemma_named_field_in_list(
    list: Seq<(Seq<char>, FieldTypeView)>,
    phantom_data: Option<Seq<char>>,
    visibility: Option<Seq<char>>,
    at: int,
)
    requires
        0 <= at < list.len(),
    ensures
        FieldsView::Named(list).struct_field_tokens(phantom_data, visibility) == "{ "@ + (
        named_fields_tokens(list.take(at), visibility) + named_field_tokens(list[at], visibility)
            + named_fields_tokens(list.skip(at + 1), visibility)) + named_marker_tokens(
            phantom_data,
            visibility,
        ) + "}"@,
        FieldsView::Named(list).enum_variant_field_tokens() == "{ "@ + (named_fields_tokens(
            list.take(at),
            None,
        ) + named_field_tokens(list[at], None) + named_fields_tokens(list.skip(at + 1), None))
            + "}"@,
{
    lemma_named_field_at(list, visibility, at);
    lemma_named_field_at(list, None, at);
}

/// In a `struct` and in an `enum` variant alike, the unnamed field at `at`
/// is written after the fields before it and before the fields after it,
/// the marker and the closing parenthesis: what is written for the field is
/// its own text, and what is written for the others does not depend on it.
pub proof fn lemma_unnamed_field_in_list(
    list: Seq<FieldTypeView>,
    phantom_data: Option<Seq<char>>,
    visibility: Option<Seq<char>>,
    at: int,
)
    requires
        0 <= at < list.len(),
    ensures
        FieldsView::Unnamed(list).struct_field_tokens(phantom_data, visibility) == "("@ + (
        unnamed_fields_tokens(list.take(at), visibility) + unnamed_field_tokens(
            list[at],
            visibility,
        ) + unnamed_fields_tokens(list.skip(at + 1), visibility)) + unnamed_marker_tokens(
            phantom_data,
            visibility,
        ) + ")"@,
        FieldsView::Unnamed(list).enum_variant_field_tokens() == "("@ + (unnamed_fields_tokens(
            list.take(at),
            None,
        ) + unnamed_field_tokens(list[at], None) + unnamed_fields_tokens(
            list.skip(at + 1),
            None,
        )) + ")"@,
{
    lemma_unnamed_field_at(list, visibility, at);
    lemma_unnamed_field_at(list, None, at);
}

/// The fields of an `enum` variant are written as those of a `struct` that
/// has neither a visibility nor a marker for unused type parameters.
pub proof fn lemma_variant_fields(fields: FieldsView)
    ensures
        fields.enum_variant_field_tokens() == fields.struct_field_tokens(None, None),
{
}

/// The declaration of a `struct` without fields or with unnamed fields ends
/// in a semicolon. That of a `struct` with named fields ends in the closing
/// brace of its fields, and so never in a semicolon.
pub proof fn lemma_trailing_semicolon(def: CompositeDefView)
    requires
        def.kind is Struct,
    ensures
        def.fields is NoFields || def.fields is Unnamed ==> def.tokens().len() > 0
            && def.tokens().last() == ';',
        def.fields is Named ==> def.tokens().len() > 0 && def.tokens().last() == '}',
{
    reveal_strlit(";");
    reveal_strlit("}");
}

} // verus!
