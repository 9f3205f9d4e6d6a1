//! The errors of this crate.
use vstd::prelude::*;

verus! {

/// All of the errors for this crate.
#[derive(Debug)]
pub enum Error {
    /// A required field has no value
    UninitializedField(&'static str),
    /// A configuration that fails a rule other than the word lists' own
    ValidationError(String),
    /// The adjective list is empty
    AdjectivesEmpty,
    /// The noun list is empty
    NounsEmpty,
    /// The generator had nothing to draw from
    EmptyIterator,
}

impl From<String> for Error {
    fn from(s: String) -> (r: Error) {
        Error::ValidationError(s)
    }
}

impl vstd::std_specs::convert::FromSpecImpl<String> for Error {
    open spec fn obeys_from_spec() -> bool {
        true
    }

    open spec fn from_spec(s: String) -> Error {
        Error::ValidationError(s)
    }
}

} // verus!
