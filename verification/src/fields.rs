//! The fields of a composite: none, all named, or all unnamed.

use vstd::prelude::*;
use vstd::string::StringExecFns;
use crate::error::CompositeDefError;
use crate::field_type::{CompositeDefFieldType, FieldTypeView};
use crate::metadata::{fields_view, Field, FieldView};
use crate::text::{opt_ref_text, opt_text, opt_tokens, push_opt};
use crate::type_gen::{TypeGenerator, TypeGeneratorView};
use crate::type_path::{params_view, TypeParameter, TypeParameterView};

verus! {

/// One named field of a declaration: the attribute of a compact field, the
/// visibility, then `name: type` and a comma.
pub open spec fn named_field_tokens(
    field: (Seq<char>, FieldTypeView),
    visibility: Option<Seq<char>>,
) -> Seq<char> {
    opt_tokens(field.1.compact_attr()) + opt_tokens(visibility) + field.0 + ": "@
        + field.1.tokens() + ", "@
}

/// One unnamed field of a declaration: the attribute of a compact field, the
/// visibility, then the type and a comma.
pub open spec fn unnamed_field_tokens(
    field: FieldTypeView,
    visibility: Option<Seq<char>>,
) -> Seq<char> {
    opt_tokens(field.compact_attr()) + opt_tokens(visibility) + field.tokens() + ", "@
}

/// The named fields of a declaration, in order.
pub open spec fn named_fields_tokens(
    fields: Seq<(Seq<char>, FieldTypeView)>,
    visibility: Option<Seq<char>>,
) -> Seq<char>
    decreases fields.len(),
{
    if fields.len() == 0 {
        Seq::empty()
    } else {
        named_fields_tokens(fields.drop_last(), visibility) + named_field_tokens(
            fields.last(),
            visibility,
        )
    }
}

/// The unnamed fields of a declaration, in order.
pub open spec fn unnamed_fields_tokens(
    fields: Seq<FieldTypeView>,
    visibility: Option<Seq<char>>,
) -> Seq<char>
    decreases fields.len(),
{
    if fields.len() == 0 {
        Seq::empty()
    } else {
        unnamed_fields_tokens(fields.drop_last(), visibility) + unnamed_field_tokens(
            fields.last(),
            visibility,
        )
    }
}

/// The named field that keeps unused type parameters in use. It is skipped
/// by the codec. Without a marker type there is no such field.
pub open spec fn named_marker_tokens(
    phantom_data: Option<Seq<char>>,
    visibility: Option<Seq<char>>,
) -> Seq<char> {
    match phantom_data {
        Some(marker) => "#[codec(skip)] "@ + opt_tokens(visibility)
            + "__subxt_unused_type_params: "@ + marker + " "@,
        None => Seq::empty(),
    }
}

/// The unnamed field that keeps unused type parameters in use. It is skipped
/// by the codec. Without a marker type there is no such field.
pub open spec fn unnamed_marker_tokens(
    phantom_data: Option<Seq<char>>,
    visibility: Option<Seq<char>>,
) -> Seq<char> {
    match phantom_data {
        Some(marker) => "#[codec(skip)] "@ + opt_tokens(visibility) + marker,
        None => Seq::empty(),
    }
}

/// Some field of the list has a name.
pub open spec fn has_named(fields: Seq<FieldView>) -> bool {
    exists|i: int| 0 <= i < fields.len() && (#[trigger] fields[i]).name is Some
}

/// Some field of the list has no name.
pub open spec fn has_unnamed(fields: Seq<FieldView>) -> bool {
    exists|i: int| 0 <= i < fields.len() && (#[trigger] fields[i]).name is None
}

/// The list holds at least one named and at least one unnamed field.
pub open spec fn mixed_naming(fields: Seq<FieldView>) -> bool {
    has_named(fields) && has_unnamed(fields)
}

/// The field type that a field of the metadata becomes: its type id and the
/// name of its type are kept, and its type is resolved to a path.
pub open spec fn field_type_of(
    field: FieldView,
    params: Seq<TypeParameterView>,
    type_gen: TypeGeneratorView,
) -> FieldTypeView {
    FieldTypeView {
        type_id: field.type_id,
        type_path: type_gen.type_path(field.type_id, params),
        ty_name: field.ty_name,
    }
}

/// The composite fields for a list of fields that is not of mixed naming:
/// no fields for the empty list, named fields where the fields have names
/// and unnamed fields where they have none, each list in the order of the
/// metadata.
pub open spec fn normalized(
    fields: Seq<FieldView>,
    params: Seq<TypeParameterView>,
    type_gen: TypeGeneratorView,
) -> FieldsView {
    if fields.len() == 0 {
        FieldsView::NoFields
    } else if has_named(fields) {
        FieldsView::Named(
            Seq::new(
                fields.len(),
                |i: int| (fields[i].name_text(), field_type_of(fields[i], params, type_gen)),
            ),
        )
    } else {
        FieldsView::Unnamed(
            Seq::new(fields.len(), |i: int| field_type_of(fields[i], params, type_gen)),
        )
    }
}

/// What a [`CompositeDefFields`] stands for.
pub enum FieldsView {
    NoFields,
    Named(Seq<(Seq<char>, FieldTypeView)>),
    Unnamed(Seq<FieldTypeView>),
}

impl FieldsView {
    /// The types of the fields, in the order of the declaration.
    pub open spec fn field_types(self) -> Seq<FieldTypeView> {
        match self {
            FieldsView::NoFields => Seq::empty(),
            FieldsView::Named(fields) => Seq::new(fields.len(), |i: int| fields[i].1),
            FieldsView::Unnamed(fields) => fields,
        }
    }

    /// The field list of a `struct`.
    ///
    /// Without fields it is the marker type alone, in parentheses, or nothing
    /// where there is no marker. Named fields stand in braces and unnamed
    /// ones in parentheses, each list closed by the marker field if there is
    /// one.
    pub open spec fn struct_field_tokens(
        self,
        phantom_data: Option<Seq<char>>,
        visibility: Option<Seq<char>>,
    ) -> Seq<char> {
        match self {
            FieldsView::NoFields => match phantom_data {
                Some(marker) => "("@ + marker + ")"@,
                None => Seq::empty(),
            },
            FieldsView::Named(fields) => "{ "@ + named_fields_tokens(fields, visibility)
                + named_marker_tokens(phantom_data, visibility) + "}"@,
            FieldsView::Unnamed(fields) => "("@ + unnamed_fields_tokens(fields, visibility)
                + unnamed_marker_tokens(phantom_data, visibility) + ")"@,
        }
    }

    /// The field list of an `enum` variant: nothing without fields, named
    /// fields in braces, unnamed ones in parentheses. No field has a
    /// visibility and there is no marker field.
    pub open spec fn enum_variant_field_tokens(self) -> Seq<char> {
        match self {
            FieldsView::NoFields => Seq::empty(),
            FieldsView::Named(fields) => "{ "@ + named_fields_tokens(fields, None) + "}"@,
            FieldsView::Unnamed(fields) => "("@ + unnamed_fields_tokens(fields, None) + ")"@,
        }
    }
}

/// The views of a list of named fields, in order.
pub open spec fn named_view(fields: Seq<(String, CompositeDefFieldType)>) -> Seq<
    (Seq<char>, FieldTypeView),
> {
    Seq::new(fields.len(), |i: int| (fields[i].0@, fields[i].1@))
}

/// The views of a list of unnamed fields, in order.
pub open spec fn unnamed_view(fields: Seq<CompositeDefFieldType>) -> Seq<FieldTypeView> {
    Seq::new(fields.len(), |i: int| fields[i]@)
}

/// Encapsulates the composite fields, keeping the invariant that all fields are either named or
/// unnamed.
#[derive(Debug)]
pub enum CompositeDefFields {
    NoFields,
    Named(Vec<(String, CompositeDefFieldType)>),
    Unnamed(Vec<CompositeDefFieldType>),
}

impl View for CompositeDefFields {
    type V = FieldsView;

    open spec fn view(&self) -> FieldsView {
        match self {
            CompositeDefFields::NoFields => FieldsView::NoFields,
            CompositeDefFields::Named(fields) => FieldsView::Named(named_view(fields@)),
            CompositeDefFields::Unnamed(fields) => FieldsView::Unnamed(unnamed_view(fields@)),
        }
    }
}

/// Appends the attribute of a compact field and the space after it.
fn push_compact_attr(out: &mut String, field: &CompositeDefFieldType)
    ensures
        final(out)@ == old(out)@ + opt_tokens(field@.compact_attr()),
{
    let attr = field.compact_attr();
    push_opt(out, attr.as_ref());
}

/// Appends each named field, in order.
fn push_named_fields(
    out: &mut String,
    fields: &Vec<(String, CompositeDefFieldType)>,
    visibility: Option<&String>,
)
    ensures
        final(out)@ == old(out)@ + named_fields_tokens(
            named_view(fields@),
            opt_ref_text(visibility),
        ),
{
    let ghost all = named_view(fields@);
    let ghost vis = opt_ref_text(visibility);
    let mut i: usize = 0;
    while i < fields.len()
        invariant
            i <= fields.len(),
            all == named_view(fields@),
            vis == opt_ref_text(visibility),
            out@ == old(out)@ + named_fields_tokens(all.take(i as int), vis),
        decreases fields.len() - i,
    {
        let field = &fields[i];
        push_compact_attr(out, &field.1);
        push_opt(out, visibility);
        out.append(field.0.as_str());
        out.append(": ");
        field.1.to_tokens(out);
        out.append(", ");
        proof {
            assert(all.take(i + 1).drop_last() == all.take(i as int));
        }
        i += 1;
    }
    proof {
        assert(all.take(i as int) == all);
    }
}

/// Appends each unnamed field, in order.
fn push_unnamed_fields(
    out: &mut String,
    fields: &Vec<CompositeDefFieldType>,
    visibility: Option<&String>,
)
    ensures
        final(out)@ == old(out)@ + unnamed_fields_tokens(
            unnamed_view(fields@),
            opt_ref_text(visibility),
        ),
{
    let ghost all = unnamed_view(fields@);
    let ghost vis = opt_ref_text(visibility);
    let mut i: usize = 0;
    while i < fields.len()
        invariant
            i <= fields.len(),
            all == unnamed_view(fields@),
            vis == opt_ref_text(visibility),
            out@ == old(out)@ + unnamed_fields_tokens(all.take(i as int), vis),
        decreases fields.len() - i,
    {
        let field = &fields[i];
        push_compact_attr(out, field);
        push_opt(out, visibility);
        field.to_tokens(out);
        out.append(", ");
        proof {
            assert(all.take(i + 1).drop_last() == all.take(i as int));
        }
        i += 1;
    }
    proof {
        assert(all.take(i as int) == all);
    }
}

/// What one more field does to the naming of a list: the first `i + 1`
/// fields hold a named field where the first `i` do or the field at `i` is
/// named, and likewise for an unnamed field.
proof fn lemma_naming_step(fields: Seq<FieldView>, i: int)
    requires
        0 <= i < fields.len(),
    ensures
        has_named(fields.take(i + 1)) <==> has_named(fields.take(i)) || fields[i].name is Some,
        has_unnamed(fields.take(i + 1)) <==> has_unnamed(fields.take(i)) || fields[i].name
            is None,
{
    let before = fields.take(i);
    let after = fields.take(i + 1);
    assert(after[i] == fields[i]);
    assert forall|k: int| 0 <= k < i implies before[k] == after[k] by {}
    if has_named(before) {
        let k = choose|k: int| 0 <= k < before.len() && (#[trigger] before[k]).name is Some;
        assert(after[k].name is Some);
    }
    if has_unnamed(before) {
        let k = choose|k: int| 0 <= k < before.len() && (#[trigger] before[k]).name is None;
        assert(after[k].name is None);
    }
    if has_named(after) && fields[i].name is None {
        let k = choose|k: int| 0 <= k < after.len() && (#[trigger] after[k]).name is Some;
        assert(before[k].name is Some);
    }
    if has_unnamed(after) && fields[i].name is Some {
        let k = choose|k: int| 0 <= k < after.len() && (#[trigger] after[k]).name is None;
        assert(before[k].name is None);
    }
}

/// A copy of an optional string.
fn clone_opt(text: &Option<String>) -> (copy: Option<String>)
    ensures
        opt_text(copy) == opt_text(*text),
{
    match text {
        Some(t) => Some(t.clone()),
        None => None,
    }
}

impl CompositeDefFields {
    /// Construct a new set of composite fields from the supplied [`Field`]s.
    ///
    /// Each field's type is resolved with `type_gen` inside the declaration
    /// whose generic parameters are `parent_type_params`. Fields of mixed
    /// naming are refused, with an error that carries the type's `name`.
    pub fn from_scale_info_fields(
        name: &str,
        fields: &[Field],
        parent_type_params: &[TypeParameter],
        type_gen: &TypeGenerator,
    ) -> (result: Result<Self, CompositeDefError>)
        requires
            forall|i: int|
                0 <= i < fields@.len() ==> type_gen@.resolves(
                    (#[trigger] fields@[i]).type_id,
                    params_view(parent_type_params@),
                ),
        ensures
            result is Err <==> mixed_naming(fields_view(fields@)),
            result matches Ok(model) ==> model@ == normalized(
                fields_view(fields@),
                params_view(parent_type_params@),
                type_gen@,
            ),
            result matches Err(error) ==> error.name_view() == name@,
    {
        let ghost all = fields_view(fields@);
        let ghost params = params_view(parent_type_params@);
        if fields.len() == 0 {
            return Ok(CompositeDefFields::NoFields);
        }
        let mut named_fields: Vec<(String, CompositeDefFieldType)> = Vec::new();
        let mut unnamed_fields: Vec<CompositeDefFieldType> = Vec::new();

        let mut i: usize = 0;
        while i < fields.len()
            invariant
                i <= fields.len(),
                all == fields_view(fields@),
                params == params_view(parent_type_params@),
                forall|k: int|
                    0 <= k < fields@.len() ==> type_gen@.resolves(
                        (#[trigger] fields@[k]).type_id,
                        params,
                    ),
                named_fields@.len() > 0 <==> has_named(all.take(i as int)),
                unnamed_fields@.len() > 0 <==> has_unnamed(all.take(i as int)),
                !has_unnamed(all.take(i as int)) ==> {
                    &&& named_fields@.len() == i
                    &&& forall|k: int|
                        0 <= k < i ==> #[trigger] named_view(named_fields@)[k] == (
                            all[k].name_text(),
                            field_type_of(all[k], params, type_gen@),
                        )
                },
                !has_named(all.take(i as int)) ==> {
                    &&& unnamed_fields@.len() == i
                    &&& forall|k: int|
                        0 <= k < i ==> #[trigger] unnamed_view(unnamed_fields@)[k]
                            == field_type_of(all[k], params, type_gen@)
                },
            decreases fields.len() - i,
        {
            let field = &fields[i];
            let ghost named_before = named_view(named_fields@);
            let ghost unnamed_before = unnamed_view(unnamed_fields@);
            proof {
                lemma_naming_step(all, i as int);
            }
            let type_path = type_gen.resolve_type_path(field.type_id, parent_type_params);
            let field_type = CompositeDefFieldType::new(
                field.type_id,
                type_path,
                clone_opt(&field.ty_name),
            );
            match &field.name {
                Some(field_name) => {
                    named_fields.push((field_name.clone(), field_type));
                    assert(named_view(named_fields@) == named_before.push(
                        (all[i as int].name_text(), field_type_of(all[i as int], params, type_gen@)),
                    ));
                },
                None => {
                    unnamed_fields.push(field_type);
                    assert(unnamed_view(unnamed_fields@) == unnamed_before.push(
                        field_type_of(all[i as int], params, type_gen@),
                    ));
                },
            }
            i += 1;
        }
        proof {
            assert(all.take(i as int) == all);
        }

        if named_fields.len() > 0 && unnamed_fields.len() > 0 {
            return Err(CompositeDefError::MixedFieldNaming { name: name.to_owned() });
        }
        if named_fields.len() > 0 {
            proof {
                assert(named_view(named_fields@) =~= Seq::new(
                    all.len(),
                    |i: int| (all[i].name_text(), field_type_of(all[i], params, type_gen@)),
                ));
            }
            Ok(CompositeDefFields::Named(named_fields))
        } else {
            proof {
                assert(unnamed_view(unnamed_fields@) =~= Seq::new(
                    all.len(),
                    |i: int| field_type_of(all[i], params, type_gen@),
                ));
            }
            Ok(CompositeDefFields::Unnamed(unnamed_fields))
        }
    }

    /// Returns the set of composite fields.
    pub fn field_types(&self) -> (types: Vec<&CompositeDefFieldType>)
        ensures
            types@.len() == self@.field_types().len(),
            forall|i: int| 0 <= i < types@.len() ==> (#[trigger] types@[i])@ == self@.field_types()[i],
    {
        let mut types: Vec<&CompositeDefFieldType> = Vec::new();
        match self {
            CompositeDefFields::NoFields => {},
            CompositeDefFields::Named(named_fields) => {
                let mut i: usize = 0;
                while i < named_fields.len()
                    invariant
                        i <= named_fields.len(),
                        types@.len() == i,
                        forall|k: int| 0 <= k < i ==> (#[trigger] types@[k])@ == named_fields@[k].1@,
                    decreases named_fields.len() - i,
                {
                    types.push(&named_fields[i].1);
                    i += 1;
                }
            },
            CompositeDefFields::Unnamed(unnamed_fields) => {
                let mut i: usize = 0;
                while i < unnamed_fields.len()
                    invariant
                        i <= unnamed_fields.len(),
                        types@.len() == i,
                        forall|k: int| 0 <= k < i ==> (#[trigger] types@[k])@ == unnamed_fields@[k]@,
                    decreases unnamed_fields.len() - i,
                {
                    types.push(&unnamed_fields[i]);
                    i += 1;
                }
            },
        }
        types
    }

    /// Generate the code for fields which will compose a `struct`.
    pub fn to_struct_field_tokens(
        &self,
        phantom_data: Option<String>,
        visibility: Option<&String>,
    ) -> (tokens: String)
        ensures
            tokens@ == self@.struct_field_tokens(
                opt_text(phantom_data),
                opt_ref_text(visibility),
            ),
    {
        match self {
            CompositeDefFields::NoFields => {
                let mut out = String::new();
                if let Some(marker) = phantom_data {
                    out.append("(");
                    out.append(marker.as_str());
                    out.append(")");
                }
                out
            },
            CompositeDefFields::Named(fields) => {
                let mut out = String::new();
                out.append("{ ");
                push_named_fields(&mut out, fields, visibility);
                if let Some(marker) = phantom_data {
                    out.append("#[codec(skip)] ");
                    push_opt(&mut out, visibility);
                    out.append("__subxt_unused_type_params: ");
                    out.append(marker.as_str());
                    out.append(" ");
                }
                out.append("}");
                out
            },
            CompositeDefFields::Unnamed(fields) => {
                let mut out = String::new();
                out.append("(");
                push_unnamed_fields(&mut out, fields, visibility);
                if let Some(marker) = phantom_data {
                    out.append("#[codec(skip)] ");
                    push_opt(&mut out, visibility);
                    out.append(marker.as_str());
                }
                out.append(")");
                out
            },
        }
    }

    /// Generate the code for fields which will compose an `enum` variant.
    pub fn to_enum_variant_field_tokens(&self) -> (tokens: String)
        ensures
            tokens@ == self@.enum_variant_field_tokens(),
    {
        match self {
            CompositeDefFields::NoFields => String::new(),
            CompositeDefFields::Named(fields) => {
                let mut out = String::new();
                out.append("{ ");
                push_named_fields(&mut out, fields, None);
                out.append("}");
                out
            },
            CompositeDefFields::Unnamed(fields) => {
                let mut out = String::new();
                out.append("(");
                push_unnamed_fields(&mut out, fields, None);
                out.append(")");
                out
            },
        }
    }
}

} // verus!
