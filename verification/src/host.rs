//! The address of the server.

use vstd::prelude::*;

use crate::errors::{Error, ErrorKind};

verus! {

/// The URL that a string denotes, written in the normal form that `url`
/// gives it; `None` where `url` reads no absolute URL from the string.
pub uninterp spec fn url_of(input: Seq<char>) -> Option<Seq<char>>;

/// The URL that a reference denotes against a base, written in normal
/// form; `None` where `url` reads no URL from the two.
pub uninterp spec fn url_joined(base: Seq<char>, reference: Seq<char>) -> Option<Seq<char>>;

/// Calls `url::Url::parse` and hands the URL over as its text. The
/// contract gives the outcome a name; what `url` accepts and how it writes
/// a URL is not stated here.
#[verifier::external_body]
fn parse_url(input: &str) -> (r: Result<String, String>)
    ensures
        match r {
            Ok(text) => url_of(input@) == Some(text@),
            Err(_) => url_of(input@) is None,
        },
{
    match url::Url::parse(input) {
        Ok(parsed) => Ok(String::from(parsed)),
        Err(e) => Err(e.to_string()),
    }
}

/// Calls `url::Url::join` on the URL that `base` is the text of, and hands
/// the result over as its text. The contract gives the outcome a name.
#[verifier::external_body]
fn join_url(base: &str, reference: &str) -> (r: Result<String, String>)
    ensures
        match r {
            Ok(text) => url_joined(base@, reference@) == Some(text@),
            Err(_) => url_joined(base@, reference@) is None,
        },
{
    match url::Url::parse(base).and_then(|parsed| parsed.join(reference)) {
        Ok(joined) => Ok(String::from(joined)),
        Err(e) => Err(e.to_string()),
    }
}

/// Where the server listens unless told otherwise.
pub const DEFAULT_HOST: &'static str = "http://127.0.0.1:11434";

/// The address of a server: an absolute URL, held as its text in normal
/// form.
#[derive(Debug, Clone)]
pub struct Host {
    text: String,
}

impl Host {
    /// The text of the address.
    pub closed spec fn text(&self) -> Seq<char> {
        self.text@
    }

    /// Reads an address from a string.
    ///
    /// Fails with `UrlParsing` exactly where the string denotes no absolute
    /// URL.
    pub fn from_str(s: &str) -> (r: Result<Host, Error>)
        ensures
            match r {
                Ok(host) => url_of(s@) == Some(host.text()),
                Err(e) => url_of(s@) is None && e.kind() == ErrorKind::UrlParsing,
            },
    {
        match parse_url(s) {
            Ok(text) => Ok(Host { text }),
            Err(message) => Err(Error::UrlParsing(message)),
        }
    }

    /// The address at which the server listens unless told otherwise.
    pub fn localhost() -> (r: Result<Host, Error>)
        ensures
            match r {
                Ok(host) => url_of(DEFAULT_HOST@) == Some(host.text()),
                Err(e) => url_of(DEFAULT_HOST@) is None && e.kind() == ErrorKind::UrlParsing,
            },
    {
        Host::from_str(DEFAULT_HOST)
    }

    /// Get host info as a str reference
    pub fn as_str(&self) -> (r: &str)
        ensures
            r@ == self.text(),
    {
        self.text.as_str()
    }

    /// The URL of an endpoint of this server, from the endpoint's path.
    ///
    /// Fails with `UrlParsing` exactly where the address and the path make
    /// no URL.
    pub fn join(&self, path: &str) -> (r: Result<String, Error>)
        ensures
            match r {
                Ok(text) => url_joined(self.text(), path@) == Some(text@),
                Err(e) => url_joined(self.text(), path@) is None && e.kind()
                    == ErrorKind::UrlParsing,
            },
    {
        match join_url(self.text.as_str(), path) {
            Ok(text) => Ok(text),
            Err(message) => Err(Error::UrlParsing(message)),
        }
    }
}

} // verus!
