//! The two ways an operation of this library can fail.
use vstd::prelude::*;
use vstd::std_specs::convert::FromSpecImpl;

verus! {

/// Why a mutator or the rendering of the response headers failed.
#[derive(Debug)]
pub enum UnpolyError {
    /// A value could not be encoded as JSON.
    InvalidJson(serde_json::Error),
    /// An event payload was encoded, but not as a JSON object.
    EventIsNotSerializableAsObject,
}

impl From<serde_json::Error> for UnpolyError {
    fn from(e: serde_json::Error) -> (r: UnpolyError) {
        UnpolyError::InvalidJson(e)
    }
}

impl FromSpecImpl<serde_json::Error> for UnpolyError {
    open spec fn obeys_from_spec() -> bool {
        true
    }

    open spec fn from_spec(e: serde_json::Error) -> UnpolyError {
        UnpolyError::InvalidJson(e)
    }
}

} // verus!
