//! The derives that every generated type carries.

use vstd::prelude::*;
use vstd::string::StringExecFns;
use crate::text::{join, push_joined, strings_view};

verus! {

/// The `derive` attribute for a list of derives: nothing for an empty list,
/// else all of them in one attribute on a line of its own.
pub open spec fn derive_tokens(derives: Seq<Seq<char>>) -> Seq<char> {
    if derives.len() == 0 {
        Seq::empty()
    } else {
        "#[derive("@ + join(derives, ", "@) + ")]\n"@
    }
}

/// The derive that lets a wrapper of one integer be encoded in the compact
/// form of that integer.
pub open spec fn codec_compact_as() -> Seq<char> {
    "::subxt::codec::CompactAs"@
}

/// An ordered list of derives for a generated type. Its view is the list of
/// their paths.
#[derive(Debug)]
pub struct GeneratedTypeDerives {
    /// The paths of the derives, in the order in which they are written.
    pub derives: Vec<String>,
}

impl View for GeneratedTypeDerives {
    type V = Seq<Seq<char>>;

    open spec fn view(&self) -> Seq<Seq<char>> {
        strings_view(self.derives@)
    }
}

impl Clone for GeneratedTypeDerives {
    fn clone(&self) -> (copy: Self)
        ensures
            copy@ == self@,
    {
        let mut derives: Vec<String> = Vec::new();
        let mut i: usize = 0;
        while i < self.derives.len()
            invariant
                i <= self.derives.len(),
                derives@.len() == i,
                forall|k: int| 0 <= k < i ==> derives@[k]@ == self.derives@[k]@,
            decreases self.derives.len() - i,
        {
            derives.push(self.derives[i].clone());
            i += 1;
        }
        GeneratedTypeDerives { derives }
    }
}

impl GeneratedTypeDerives {
    /// The given derives, in their order.
    pub fn new(derives: Vec<String>) -> (list: Self)
        ensures
            list@ == strings_view(derives@),
    {
        GeneratedTypeDerives { derives }
    }

    /// Add `::subxt::codec::CompactAs` to the derives.
    pub fn push_codec_compact_as(&mut self)
        ensures
            final(self)@ == old(self)@.push(codec_compact_as()),
    {
        self.derives.push("::subxt::codec::CompactAs".to_owned());
    }

    /// Appends the `derive` attribute to `tokens`.
    pub fn to_tokens(&self, tokens: &mut String)
        ensures
            final(tokens)@ == old(tokens)@ + derive_tokens(self@),
    {
        if self.derives.len() > 0 {
            tokens.append("#[derive(");
            push_joined(tokens, &self.derives, ", ");
            tokens.append(")]\n");
        }
    }
}

} // verus!
