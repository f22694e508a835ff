//! Body of a successful announce response.

use vstd::prelude::*;

use crate::rest_api::{AsJson, AsJsonError, JsonError};
use crate::rest_api::json::{Json, JsonValue, empty_object};

verus! {

/// Body of a successful announce response; it carries nothing.
#[derive(Debug, Clone, Copy, PartialEq, Eq, Hash)]
pub struct AnnounceResponseBody;

impl View for AnnounceResponseBody {
    type V = ();

    open spec fn view(&self) -> () {
        ()
    }
}

impl AnnounceResponseBody {
    /// The empty body.
    pub fn new() -> (body: Self)
        ensures
            body == AnnounceResponseBody,
    {
        AnnounceResponseBody
    }
}

impl AsJson for AnnounceResponseBody {
    open spec fn json_valid(value: ()) -> bool {
        true
    }

    open spec fn json_written(value: ()) -> Result<JsonValue, JsonError> {
        Ok(JsonValue::Object(Seq::empty()))
    }

    /// Any document reads as the empty body.
    open spec fn json_read(json: JsonValue) -> Result<(), JsonError> {
        Ok(())
    }

    fn to_json(&self) -> (json: Result<Json, AsJsonError>) {
        Ok(empty_object())
    }

    fn from_json(json: &Json) -> (value: Result<Self, AsJsonError>) {
        Ok(AnnounceResponseBody)
    }
}

} // verus!
