//! The registry of resolved types that the generator draws on.

use std::collections::HashMap;
use vstd::prelude::*;
use crate::derives::GeneratedTypeDerives;
use crate::metadata::TypeDef;
use crate::type_path::{params_view, TypeParameter, TypeParameterView, TypePath, TypePathView};

verus! {

broadcast use vstd::std_specs::hash::group_hash_axioms;

/// The first of `params` that stands in the place of the type `id`.
pub open spec fn find_param(params: Seq<TypeParameterView>, id: u32) -> Option<TypeParameterView>
    decreases params.len(),
{
    if params.len() == 0 {
        None
    } else if params[0].concrete_type_id == id {
        Some(params[0])
    } else {
        find_param(params.drop_first(), id)
    }
}

/// What the registry knows of one type.
pub struct TypeEntryView {
    pub type_path: TypePathView,
    pub type_def: TypeDef,
}

/// What a [`TypeGenerator`] stands for: the derives of every generated type,
/// and the registered types by their ids.
pub struct TypeGeneratorView {
    pub derives: Seq<Seq<char>>,
    pub types: Map<u32, TypeEntryView>,
}

impl TypeGeneratorView {
    /// The type `id` can be resolved inside a declaration with the generic
    /// parameters `params`: it is one of the parameters or it is registered.
    pub open spec fn resolves(self, id: u32, params: Seq<TypeParameterView>) -> bool {
        find_param(params, id) is Some || self.types.contains_key(id)
    }

    /// The path of the type `id` inside a declaration with the generic
    /// parameters `params`. A type that a parameter stands for is the
    /// parameter's generated name, and never compact; any other type has its
    /// registered path.
    pub open spec fn type_path(self, id: u32, params: Seq<TypeParameterView>) -> TypePathView {
        match find_param(params, id) {
            Some(param) => TypePathView { path: param.name, compact: false },
            None => self.types[id].type_path,
        }
    }
}

struct TypeEntry {
    type_path: TypePath,
    type_def: TypeDef,
}

impl View for TypeEntry {
    type V = TypeEntryView;

    closed spec fn view(&self) -> TypeEntryView {
        TypeEntryView { type_path: self.type_path@, type_def: self.type_def }
    }
}

/// Resolves the ids of the metadata's types to paths and definitions.
pub struct TypeGenerator {
    derives: GeneratedTypeDerives,
    types: HashMap<u32, TypeEntry>,
}

impl View for TypeGenerator {
    type V = TypeGeneratorView;

    closed spec fn view(&self) -> TypeGeneratorView {
        TypeGeneratorView {
            derives: self.derives@,
            types: Map::new(
                |id: u32| self.types@.contains_key(id),
                |id: u32| self.types@[id]@,
            ),
        }
    }
}

impl TypeGenerator {
    /// A generator without types, whose generated types all carry `derives`.
    pub fn new(derives: GeneratedTypeDerives) -> (type_gen: Self)
        ensures
            type_gen@ == (TypeGeneratorView { derives: derives@, types: Map::empty() }),
    {
        let type_gen = TypeGenerator { derives, types: HashMap::new() };
        assert(type_gen@.types =~= Map::empty());
        type_gen
    }

    /// Registers the type `id` with its path and definition. An earlier
    /// registration of the same id is replaced.
    pub fn insert_type(&mut self, id: u32, type_path: TypePath, type_def: TypeDef)
        ensures
            final(self)@ == (TypeGeneratorView {
                derives: old(self)@.derives,
                types: old(self)@.types.insert(
                    id,
                    TypeEntryView { type_path: type_path@, type_def },
                ),
            }),
    {
        let entry = TypeEntry { type_path, type_def };
        self.types.insert(id, entry);
        assert(self@.types =~= old(self)@.types.insert(id, entry@));
    }

    /// The derives of every generated type.
    pub fn derives(&self) -> (derives: &GeneratedTypeDerives)
        ensures
            derives@ == self@.derives,
    {
        &self.derives
    }

    /// Whether the type `id` is registered.
    pub fn contains_type(&self, id: u32) -> (known: bool)
        ensures
            known == self@.types.contains_key(id),
    {
        self.types.contains_key(&id)
    }

    /// The definition of the type `id`, if it is registered.
    pub fn resolve_type_def(&self, id: u32) -> (type_def: Option<TypeDef>)
        ensures
            match type_def {
                Some(def) => self@.types.contains_key(id) && def == self@.types[id].type_def,
                None => !self@.types.contains_key(id),
            },
    {
        match self.types.get(&id) {
            Some(entry) => Some(entry.type_def),
            None => None,
        }
    }

    /// Whether the type `id` can be resolved inside a declaration with the
    /// generic parameters `parent_type_params`.
    pub fn resolves(&self, id: u32, parent_type_params: &[TypeParameter]) -> (known: bool)
        ensures
            known == self@.resolves(id, params_view(parent_type_params@)),
    {
        match find_type_param(parent_type_params, id) {
            Some(_) => true,
            None => self.types.contains_key(&id),
        }
    }

    /// The path of the type `id` inside a declaration with the generic
    /// parameters `parent_type_params`.
    pub fn resolve_type_path(&self, id: u32, parent_type_params: &[TypeParameter]) -> (type_path:
        TypePath)
        requires
            self@.resolves(id, params_view(parent_type_params@)),
        ensures
            type_path@ == self@.type_path(id, params_view(parent_type_params@)),
    {
        match find_type_param(parent_type_params, id) {
            Some(param) => TypePath::new(param.name.clone(), false),
            None => self.types.get(&id).unwrap().type_path.clone(),
        }
    }
}

/// The first of `params` that stands in the place of the type `id`.
fn find_type_param(params: &[TypeParameter], id: u32) -> (found: Option<&TypeParameter>)
    ensures
        match found {
            Some(param) => find_param(params_view(params@), id) == Some(param@),
            None => find_param(params_view(params@), id) is None,
        },
{
    let ghost all = params_view(params@);
    let mut i: usize = 0;
    proof {
        assert(all.skip(0) == all);
    }
    while i < params.len()
        invariant
            i <= params.len(),
            all == params_view(params@),
            find_param(all, id) == find_param(all.skip(i as int), id),
        decreases params.len() - i,
    {
        proof {
            assert(all.skip(i as int).drop_first() == all.skip(i + 1));
        }
        if params[i].concrete_type_id == id {
            return Some(&params[i]);
        }
        i += 1;
    }
    None
}

} // verus!
