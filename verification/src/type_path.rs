//! Resolved type paths and the generic parameters of a declaration.

use vstd::prelude::*;
use vstd::string::StringExecFns;

verus! {

/// What a [`TypePath`] stands for: the source text of the path, and whether
/// the type is a compact-encoded number.
pub struct TypePathView {
    pub path: Seq<char>,
    pub compact: bool,
}

/// The fully resolved path of a type, ready to be written into a declaration.
#[derive(Debug)]
pub struct TypePath {
    /// The path as source text, such as `::core::primitive::u32`.
    pub path: String,
    /// Whether values of the type are encoded in the compact form.
    pub compact: bool,
}

impl View for TypePath {
    type V = TypePathView;

    open spec fn view(&self) -> TypePathView {
        TypePathView { path: self.path@, compact: self.compact }
    }
}

impl Clone for TypePath {
    fn clone(&self) -> (copy: Self)
        ensures
            copy@ == self@,
    {
        TypePath { path: self.path.clone(), compact: self.compact }
    }
}

impl TypePath {
    /// A path with the given source text.
    pub fn new(path: String, compact: bool) -> (type_path: Self)
        ensures
            type_path@ == (TypePathView { path: path@, compact }),
    {
        TypePath { path, compact }
    }

    /// Whether the type is a compact-encoded number.
    pub fn is_compact(&self) -> (compact: bool)
        ensures
            compact == self@.compact,
    {
        self.compact
    }

    /// Appends the path to `tokens`.
    pub fn to_tokens(&self, tokens: &mut String)
        ensures
            final(tokens)@ == old(tokens)@ + self@.path,
    {
        tokens.append(self.path.as_str());
    }
}

/// What a [`TypeParameter`] stands for.
pub struct TypeParameterView {
    pub concrete_type_id: u32,
    pub original_name: Seq<char>,
    pub name: Seq<char>,
}

/// A generic type parameter of a declaration.
#[derive(Debug)]
pub struct TypeParameter {
    /// The type that the metadata has in the parameter's place.
    pub concrete_type_id: u32,
    /// The parameter's name as the metadata declares it.
    pub original_name: String,
    /// The parameter's name in the generated code.
    pub name: String,
}

impl View for TypeParameter {
    type V = TypeParameterView;

    open spec fn view(&self) -> TypeParameterView {
        TypeParameterView {
            concrete_type_id: self.concrete_type_id,
            original_name: self.original_name@,
            name: self.name@,
        }
    }
}

impl TypeParameter {
    /// A parameter with the given names.
    pub fn new(concrete_type_id: u32, original_name: String, name: String) -> (param: Self)
        ensures
            param@ == (TypeParameterView {
                concrete_type_id,
                original_name: original_name@,
                name: name@,
            }),
    {
        TypeParameter { concrete_type_id, original_name, name }
    }

    /// Appends the parameter's generated name to `tokens`.
    pub fn to_tokens(&self, tokens: &mut String)
        ensures
            final(tokens)@ == old(tokens)@ + self@.name,
    {
        tokens.append(self.name.as_str());
    }
}

/// The views of a list of parameters, in order.
pub open spec fn params_view(params: Seq<TypeParameter>) -> Seq<TypeParameterView> {
    Seq::new(params.len(), |i: int| params[i]@)
}

} // verus!
