//! URIs by their parts.

use vstd::prelude::*;
use crate::text::{copy_text, text_view};

verus! {

/// The parts of a URI, and the URI as a whole in writing.
pub struct Uri {
    pub scheme: Option<String>,
    pub authority: Option<String>,
    pub host: Option<String>,
    pub path_and_query: Option<String>,
    pub text: String,
}

/// The parts of a URI, as mathematical values.
pub struct UriView {
    pub scheme: Option<Seq<char>>,
    pub authority: Option<Seq<char>>,
    pub host: Option<Seq<char>>,
    pub path_and_query: Option<Seq<char>>,
    pub text: Seq<char>,
}

impl Uri {
    /// The parts as mathematical values.
    pub open spec fn view(&self) -> UriView {
        UriView {
            scheme: text_view(self.scheme),
            authority: text_view(self.authority),
            host: text_view(self.host),
            path_and_query: text_view(self.path_and_query),
            text: self.text@,
        }
    }

    /// The same URI once more.
    pub fn copy(&self) -> (r: Self)
        ensures
            r@ == self@,
    {
        Uri {
            scheme: copy_text(&self.scheme),
            authority: copy_text(&self.authority),
            host: copy_text(&self.host),
            path_and_query: copy_text(&self.path_and_query),
            text: self.text.clone(),
        }
    }
}

/// The URI that a text is to the parser of `http`, or the message of its error.
pub uninterp spec fn uri_from_text(text: Seq<char>) -> Result<UriView, Seq<char>>;

/// The URI that `http` builds of a scheme, an authority and a path with a query,
/// or the message of its error.
pub uninterp spec fn uri_from_parts(
    scheme: Seq<char>,
    authority: Seq<char>,
    path_and_query: Seq<char>,
) -> Result<UriView, Seq<char>>;

/// Calls `str::parse::<http::Uri>` and takes the parts of the result. What comes
/// out depends on the text alone.
#[verifier::external_body]
pub(crate) fn parse_uri(text: &str) -> (r: Result<Uri, String>)
    ensures
        match r {
            Ok(uri) => uri_from_text(text@) == Ok::<UriView, Seq<char>>(uri@),
            Err(message) => uri_from_text(text@) == Err::<UriView, Seq<char>>(message@),
        },
{
    text.parse::<http::Uri>().map_err(|e| e.to_string()).map(|uri| Uri {
        scheme: uri.scheme_str().map(|s| s.to_string()),
        authority: uri.authority().map(|a| a.to_string()),
        host: uri.host().map(|h| h.to_string()),
        path_and_query: uri.path_and_query().map(|p| p.to_string()),
        text: uri.to_string(),
    })
}

/// Calls `http::uri::Builder` with a scheme, an authority and a path with a
/// query, and takes the parts of the result. What comes out depends on the three
/// texts alone.
#[verifier::external_body]
pub(crate) fn build_uri(scheme: &str, authority: &str, path_and_query: &str) -> (r: Result<
    Uri,
    String,
>)
    ensures
        match r {
            Ok(uri) => uri_from_parts(scheme@, authority@, path_and_query@) == Ok::<
                UriView,
                Seq<char>,
            >(uri@),
            Err(message) => uri_from_parts(scheme@, authority@, path_and_query@) == Err::<
                UriView,
                Seq<char>,
            >(message@),
        },
{
    http::Uri::builder()
        .scheme(scheme)
        .authority(authority)
        .path_and_query(path_and_query)
        .build()
        .map(|uri| Uri {
            scheme: uri.scheme_str().map(|s| s.to_string()),
            authority: uri.authority().map(|a| a.to_string()),
            host: uri.host().map(|h| h.to_string()),
            path_and_query: uri.path_and_query().map(|p| p.to_string()),
            text: uri.to_string(),
        })
        .map_err(|e| e.to_string())
}

/// A copy of a URI has each of its parts.
pub proof fn law_copy_of_a_uri(uri: &Uri, copied: Uri)
    requires
        call_ensures(Uri::copy, (uri,), copied),
    ensures
        copied.scheme is Some <==> uri.scheme is Some,
        copied.scheme matches Some(scheme) ==> scheme@ == uri.scheme->0@,
        copied.authority matches Some(authority) ==> authority@ == uri.authority->0@,
        copied.host matches Some(host) ==> host@ == uri.host->0@,
        copied.path_and_query matches Some(path) ==> path@ == uri.path_and_query->0@,
        copied.authority is Some <==> uri.authority is Some,
        copied.host is Some <==> uri.host is Some,
        copied.path_and_query is Some <==> uri.path_and_query is Some,
        copied.text@ == uri.text@,
{
    assert(copied@.scheme == uri@.scheme);
    assert(copied@.authority == uri@.authority);
    assert(copied@.host == uri@.host);
    assert(copied@.path_and_query == uri@.path_and_query);
}

} // verus!
