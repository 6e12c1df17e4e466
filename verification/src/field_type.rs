//! One field of a composite, with the hints that decide how it is encoded.

use vstd::prelude::*;
use vstd::string::StringExecFns;
use crate::text::{contains_seq, opt_text, str_contains};
use crate::type_path::{TypePath, TypePathView};

verus! {

/// What a [`CompositeDefFieldType`] stands for.
pub struct FieldTypeView {
    pub type_id: u32,
    pub type_path: TypePathView,
    pub ty_name: Option<Seq<char>>,
}

impl FieldTypeView {
    /// The field is boxed: the name of its type, as the source wrote it,
    /// contains `Box<`. A field without such a name is not boxed.
    pub open spec fn is_boxed(self) -> bool {
        self.ty_name matches Some(name) && contains_seq(name, "Box<"@)
    }

    /// The attribute that marks a compact-encoded field: present exactly when
    /// the resolved type is compact.
    pub open spec fn compact_attr(self) -> Option<Seq<char>> {
        if self.type_path.compact {
            Some("#[codec(compact)]"@)
        } else {
            None
        }
    }

    /// The field's type as it is written in a declaration: the resolved path,
    /// inside `::std::boxed::Box<..>` where the field is boxed.
    pub open spec fn tokens(self) -> Seq<char> {
        if self.is_boxed() {
            "::std::boxed::Box<"@ + self.type_path.path + ">"@
        } else {
            self.type_path.path
        }
    }
}

/// Represents a field of a composite type to be generated.
#[derive(Debug)]
pub struct CompositeDefFieldType {
    /// The id of the field's type in the type registry.
    pub type_id: u32,
    /// The resolved path of the field's type.
    pub type_path: TypePath,
    /// The name of the field's type as the source wrote it, where known.
    pub ty_name: Option<String>,
}

impl View for CompositeDefFieldType {
    type V = FieldTypeView;

    open spec fn view(&self) -> FieldTypeView {
        FieldTypeView {
            type_id: self.type_id,
            type_path: self.type_path@,
            ty_name: opt_text(self.ty_name),
        }
    }
}

impl CompositeDefFieldType {
    /// Construct a new [`CompositeDefFieldType`].
    pub fn new(type_id: u32, type_path: TypePath, ty_name: Option<String>) -> (field: Self)
        ensures
            field@ == (FieldTypeView {
                type_id,
                type_path: type_path@,
                ty_name: opt_text(ty_name),
            }),
    {
        CompositeDefFieldType { type_id, type_path, ty_name }
    }

    /// Returns `true` if the field is a [`::std::boxed::Box`].
    ///
    /// The metadata erases the box, so this goes by the name of the type as
    /// the source wrote it. Any name that contains `Box<` counts.
    pub fn is_boxed(&self) -> (boxed: bool)
        ensures
            boxed == self@.is_boxed(),
    {
        match &self.ty_name {
            Some(name) => str_contains(name.as_str(), "Box<"),
            None => false,
        }
    }

    /// Returns the `#[codec(compact)]` attribute if the type is compact.
    pub fn compact_attr(&self) -> (attr: Option<String>)
        ensures
            opt_text(attr) == self@.compact_attr(),
    {
        if self.type_path.is_compact() {
            Some("#[codec(compact)]".to_owned())
        } else {
            None
        }
    }

    /// Appends the field's type to `tokens`.
    pub fn to_tokens(&self, tokens: &mut String)
        ensures
            final(tokens)@ == old(tokens)@ + self@.tokens(),
    {
        if self.is_boxed() {
            tokens.append("::std::boxed::Box<");
            self.type_path.to_tokens(tokens);
            tokens.append(">");
        } else {
            self.type_path.to_tokens(tokens);
        }
    }
}

} // verus!
