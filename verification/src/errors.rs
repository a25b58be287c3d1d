//! The typed failures generation can surface. All are detected during the
//! validating phase or on first touch during emission, and abort the whole
//! run: no partial output is ever handed back.

use vstd::prelude::*;
use vstd::string::StringExecFns;

verus! {

/// A fatal generation failure.
#[derive(Debug, Clone, PartialEq, Eq)]
pub enum GenError {
    /// A type's or function's owning module has no entry in the namespace
    /// mapping table; carries the offending module id.
    MissingNamespaceMapping(String),
    /// A visibility override is neither `public` nor `private`; carries the
    /// offending value.
    InvalidVisibilityValue(String),
    /// A type variant reached a code path with no defined handling; carries
    /// the variant's name. Signals a defect in the emission predicates, not
    /// a user input error; the engine's predicates are total, so no path in
    /// this crate produces it.
    UnsupportedTypePattern(String),
}

impl GenError {
    /// A human-readable description of the failure, naming the offending
    /// identifier.
    pub fn message(&self) -> (r: String)
        ensures
            r@ == self.spec_message(),
    {
        proof {
            reveal_strlit("missing namespace mapping: ");
            reveal_strlit("visibility must be `public` or `private`, got: ");
            reveal_strlit("unsupported type pattern: ");
        }
        match self {
            GenError::MissingNamespaceMapping(id) => "missing namespace mapping: ".to_owned()
                .concat(id.as_str()),
            GenError::InvalidVisibilityValue(v) => {
                "visibility must be `public` or `private`, got: ".to_owned().concat(v.as_str())
            },
            GenError::UnsupportedTypePattern(v) => "unsupported type pattern: ".to_owned().concat(
                v.as_str(),
            ),
        }
    }

    /// The description: a fixed prefix per failure kind, then the offending
    /// identifier.
    pub open spec fn spec_message(&self) -> Seq<char> {
        match self {
            GenError::MissingNamespaceMapping(id) => "missing namespace mapping: "@ + id@,
            GenError::InvalidVisibilityValue(v) => "visibility must be `public` or `private`, got: "@
                + v@,
            GenError::UnsupportedTypePattern(v) => "unsupported type pattern: "@ + v@,
        }
    }
}

} // verus!
