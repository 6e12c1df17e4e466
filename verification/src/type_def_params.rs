//! The generic parameters of a type definition.

use vstd::prelude::*;
use vstd::string::StringExecFns;
use crate::text::{join, opt_text};
use crate::type_path::{params_view, TypeParameter, TypeParameterView};

verus! {

/// The generated names of a list of parameters, in order.
pub open spec fn param_names(params: Seq<TypeParameterView>) -> Seq<Seq<char>> {
    Seq::new(params.len(), |i: int| params[i].name)
}

/// What a [`TypeDefParameters`] stands for.
pub struct TypeDefParametersView {
    pub params: Seq<TypeParameterView>,
    pub unused_phantom_data: Option<Seq<char>>,
}

impl TypeDefParametersView {
    /// The parameter list of a declaration: nothing without parameters, else
    /// their generated names in angle brackets.
    pub open spec fn tokens(self) -> Seq<char> {
        if self.params.len() == 0 {
            Seq::empty()
        } else {
            "<"@ + join(param_names(self.params), ", "@) + ">"@
        }
    }
}

/// Represents the set of generic type parameters for generating a type definition e.g. the `T` in
/// `Foo<T>`, together with the marker type that stands for those of them that no field uses.
#[derive(Debug)]
pub struct TypeDefParameters {
    /// The parameters, in the order of the declaration.
    pub params: Vec<TypeParameter>,
    /// The type of the field that keeps the unused parameters in use, such as
    /// `::core::marker::PhantomData<T>`; `None` where every parameter is used.
    pub unused_phantom_data: Option<String>,
}

impl View for TypeDefParameters {
    type V = TypeDefParametersView;

    open spec fn view(&self) -> TypeDefParametersView {
        TypeDefParametersView {
            params: params_view(self.params@),
            unused_phantom_data: opt_text(self.unused_phantom_data),
        }
    }
}

impl TypeDefParameters {
    /// The given parameters, with the marker type for the unused ones.
    pub fn new(params: Vec<TypeParameter>, unused_phantom_data: Option<String>) -> (list: Self)
        ensures
            list@ == (TypeDefParametersView {
                params: params_view(params@),
                unused_phantom_data: opt_text(unused_phantom_data),
            }),
    {
        TypeDefParameters { params, unused_phantom_data }
    }

    /// Returns the set of type parameters.
    pub fn params(&self) -> (params: &[TypeParameter])
        ensures
            params_view(params@) == self@.params,
    {
        self.params.as_slice()
    }

    /// The marker type for the type params that no field uses.
    pub fn unused_params_phantom_data(&self) -> (marker: Option<String>)
        ensures
            opt_text(marker) == self@.unused_phantom_data,
    {
        match &self.unused_phantom_data {
            Some(marker) => Some(marker.clone()),
            None => None,
        }
    }

    /// Appends the parameter list to `tokens`.
    pub fn to_tokens(&self, tokens: &mut String)
        ensures
            final(tokens)@ == old(tokens)@ + self@.tokens(),
    {
        if self.params.len() > 0 {
            tokens.append("<");
            let ghost opened = tokens@;
            let ghost names = param_names(self@.params);
            let mut i: usize = 0;
            while i < self.params.len()
                invariant
                    i <= self.params.len(),
                    names == param_names(self@.params),
                    tokens@ == opened + join(names.take(i as int), ", "@),
                decreases self.params.len() - i,
            {
                if i > 0 {
                    tokens.append(", ");
                }
                self.params[i].to_tokens(tokens);
                proof {
                    assert(names.take(i + 1).drop_last() == names.take(i as int));
                }
                i += 1;
            }
            proof {
                assert(names.take(i as int) == names);
            }
            tokens.append(">");
        }
    }
}

} // verus!
