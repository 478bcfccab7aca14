//! The payload codec: from the bytes of one chunk to a typed response.

use vstd::prelude::*;

use crate::errors::{Error, ErrorKind};
use crate::json::{Json, JsonValue};

verus! {

/// A request of a streamed operation.
pub trait Request {
    /// The request's streaming flag. Absent means that the answer is
    /// streamed.
    spec fn flag(&self) -> Option<bool>;

    /// The request's streaming flag.
    fn stream(&self) -> (r: Option<bool>)
        ensures
            r == self.flag(),
    ;
}

/// A response of a streamed operation.
///
/// Each operation knows a small closed set of shapes that a JSON document
/// may have, tried in a fixed order, and one rule that tells which records
/// close the operation.
pub trait Response: DeepView + Sized {
    /// The value that a document denotes for the operation: that of the
    /// first of the operation's shapes that the document has, `None` where
    /// it has none of them.
    spec fn shape(doc: JsonValue) -> Option<<Self as DeepView>::V>;

    /// The terminal predicate: whether a value is the authoritative final
    /// record of its operation.
    spec fn terminal(value: <Self as DeepView>::V) -> bool;

    /// Reads a response out of a document.
    fn from_json(doc: &Json) -> (r: Option<Self>)
        ensures
            match r {
                Some(v) => Self::shape(doc.deep_view()) == Some(v.deep_view()),
                None => Self::shape(doc.deep_view()) is None,
            },
    ;

    /// Whether this record closes its operation.
    fn is_terminal(&self) -> (b: bool)
        ensures
            b == Self::terminal(self.deep_view()),
    ;

    /// A copy of this record.
    fn duplicate(&self) -> (r: Self)
        ensures
            r.deep_view() == self.deep_view(),
    ;
}

/// The value that the bytes of one chunk denote for an operation: they must
/// hold one JSON document, and the document one of the operation's shapes.
pub open spec fn decoded<T: Response>(bytes: Seq<u8>) -> Option<<T as DeepView>::V> {
    match crate::json::document(bytes) {
        Some(doc) => T::shape(doc),
        None => None,
    }
}

/// Reads a response out of a document, or fails with `JsonDecoding` where
/// the document has none of the operation's shapes.
pub fn decode_document<T: Response>(doc: &Json) -> (r: Result<T, Error>)
    ensures
        match r {
            Ok(v) => T::shape(doc.deep_view()) == Some(v.deep_view()),
            Err(e) => T::shape(doc.deep_view()) is None && e.kind() == ErrorKind::JsonDecoding,
        },
{
    match T::from_json(doc) {
        Some(v) => Ok(v),
        None => Err(
            Error::JsonDecoding(String::from_str("the document has no shape that the operation knows")),
        ),
    }
}

/// Decodes the bytes of one chunk, or of a whole body, as one response.
///
/// Fails with `JsonDecoding` where the bytes hold no JSON document or the
/// document has none of the operation's shapes. Nothing is skipped and
/// nothing is retried.
pub fn decode<T: Response>(bytes: &[u8]) -> (r: Result<T, Error>)
    ensures
        match r {
            Ok(v) => decoded::<T>(bytes@) == Some(v.deep_view()),
            Err(e) => decoded::<T>(bytes@) is None && e.kind() == ErrorKind::JsonDecoding,
        },
{
    match Json::parse(bytes) {
        Ok(doc) => decode_document(&doc),
        Err(e) => Err(e),
    }
}

} // verus!
