//! The data model of the API.

use vstd::prelude::*;

use crate::codec::Response;
use crate::json::{Json, JsonValue};
use crate::text::same_text;
use errors::ParsingError;

pub mod chat;
pub mod create;
pub mod embeddings;
pub mod errors;
pub mod generate;
pub mod json_schema;
pub mod model;
pub mod version;

verus! {

/// Request format
#[derive(Debug, Clone, Copy, PartialEq, Eq, Structural)]
pub enum RequestFormat {
    /// JSON
    ///
    /// Currently the one and only format support by Ollama
    Json,
}

impl RequestFormat {
    /// The name of the format on the wire.
    pub open spec fn name(self) -> Seq<char> {
        match self {
            RequestFormat::Json => "json"@,
        }
    }

    /// The name of the format on the wire.
    pub fn as_str(&self) -> (r: &'static str)
        ensures
            r@ == self.name(),
    {
        match self {
            RequestFormat::Json => "json",
        }
    }

    /// The name of the format on the wire, as an owned string.
    pub fn to_string(&self) -> (r: String)
        ensures
            r@ == self.name(),
    {
        String::from_str(self.as_str())
    }

    /// The format as a JSON value, or `null` where there is none.
    pub open spec fn optional_json(format: Option<RequestFormat>) -> JsonValue {
        match format {
            Some(f) => JsonValue::Text(f.name()),
            None => JsonValue::Null,
        }
    }

    /// Encodes an optional format as a JSON value.
    pub fn optional_to_json(format: Option<RequestFormat>) -> (doc: Json)
        ensures
            doc.deep_view() == Self::optional_json(format),
    {
        match format {
            Some(f) => Json::text(f.as_str()),
            None => Json::Null,
        }
    }

    /// The format that `s` names. Only `json` names one.
    pub fn from_str(s: &str) -> (r: Result<Self, ParsingError>)
        ensures
            r == (if s@ == "json"@ {
                Ok::<Self, ParsingError>(RequestFormat::Json)
            } else {
                Err(ParsingError::InvalidStr)
            }),
    {
        if same_text(s, "json") {
            Ok(RequestFormat::Json)
        } else {
            Err(ParsingError::InvalidStr)
        }
    }
}

impl std::str::FromStr for RequestFormat {
    type Err = ParsingError;

    /// The format that `s` names. Only `json` names one.
    fn from_str(s: &str) -> (r: Result<Self, ParsingError>)
        ensures
            r == (if s@ == "json"@ {
                Ok::<Self, ParsingError>(RequestFormat::Json)
            } else {
                Err(ParsingError::InvalidStr)
            }),
    {
        RequestFormat::from_str(s)
    }
}

/// Status message
#[derive(Debug)]
pub struct Status {
    pub status: String,
}

/// The mathematical value of a [`Status`].
pub struct StatusView {
    pub status: Seq<char>,
}

impl DeepView for Status {
    type V = StatusView;

    open spec fn deep_view(&self) -> StatusView {
        StatusView { status: self.status@ }
    }
}

impl Response for Status {
    /// The plain status shape: an object with a string under `status`.
    open spec fn shape(doc: JsonValue) -> Option<StatusView> {
        match doc.text_at("status"@) {
            Some(status) => Some(StatusView { status }),
            None => None,
        }
    }

    /// A status message has one shape, the plain one, and every record of
    /// it is final.
    open spec fn terminal(value: StatusView) -> bool {
        true
    }

    fn from_json(doc: &Json) -> (r: Option<Self>) {
        match doc.text_at("status") {
            Some(status) => Some(Status { status }),
            None => None,
        }
    }

    fn is_terminal(&self) -> (b: bool) {
        true
    }

    fn duplicate(&self) -> (r: Self) {
        Status { status: self.status.clone() }
    }
}

} // verus!
