//! What can go wrong while a composite is built.

use vstd::prelude::*;
use vstd::string::StringExecFns;

verus! {

/// The diagnostic for a type whose fields are neither all named nor all
/// unnamed.
pub open spec fn mixed_naming_message(name: Seq<char>) -> Seq<char> {
    "'"@ + name + "': Fields should either be all named or all unnamed."@
}

/// The reason why no composite was built.
#[derive(Debug)]
pub enum CompositeDefError {
    /// Some fields of the type `name` are named and some are not.
    MixedFieldNaming { name: String },
}

impl CompositeDefError {
    /// The name of the type that the error is about.
    pub open spec fn name_view(&self) -> Seq<char> {
        match self {
            CompositeDefError::MixedFieldNaming { name } => name@,
        }
    }

    /// The diagnostic, which names the offending type.
    pub fn message(&self) -> (text: String)
        ensures
            text@ == mixed_naming_message(self.name_view()),
    {
        match self {
            CompositeDefError::MixedFieldNaming { name } => {
                let mut text = String::new();
                text.append("'");
                text.append(name.as_str());
                text.append("': Fields should either be all named or all unnamed.");
                text
            },
        }
    }
}

} // verus!
