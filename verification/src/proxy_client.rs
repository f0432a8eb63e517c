//! Where a request goes that is handed on to the proxy itself.

use vstd::prelude::*;
use crate::text::followed_by;
use crate::uri::{build_uri, uri_from_parts, Uri, UriView};

verus! {

/// Why a request cannot be handed on.
pub enum ProxyError {
    NoScheme(String),
    NoHost(String),
    Other(String),
}

/// Why a request cannot be handed on, as mathematical values.
pub enum ProxyErrorView {
    NoScheme(Seq<char>),
    NoHost(Seq<char>),
    Other(Seq<char>),
}

impl ProxyError {
    /// The error as mathematical values.
    pub open spec fn view(&self) -> ProxyErrorView {
        match self {
            ProxyError::NoScheme(uri) => ProxyErrorView::NoScheme(uri@),
            ProxyError::NoHost(uri) => ProxyErrorView::NoHost(uri@),
            ProxyError::Other(message) => ProxyErrorView::Other(message@),
        }
    }

    /// What the error says.
    pub fn message(&self) -> (r: String)
        ensures
            r@ == match self@ {
                ProxyErrorView::NoScheme(uri) => "proxy uri missing scheme: "@ + uri,
                ProxyErrorView::NoHost(uri) => "proxy uri missing host: "@ + uri,
                ProxyErrorView::Other(message) => "other error: "@ + message,
            },
    {
        match self {
            ProxyError::NoScheme(uri) => followed_by("proxy uri missing scheme: ", uri.as_str()),
            ProxyError::NoHost(uri) => followed_by("proxy uri missing host: ", uri.as_str()),
            ProxyError::Other(message) => followed_by("other error: ", message.as_str()),
        }
    }
}

/// The URI to connect to for a request to `dst` by way of `proxy`: the scheme and
/// the authority of the proxy, the path of the request.
pub open spec fn proxied(dst: UriView, proxy: UriView) -> Result<UriView, ProxyErrorView> {
    match proxy.scheme {
        None => Err(ProxyErrorView::NoScheme(proxy.text)),
        Some(scheme) => match proxy.authority {
            None => Err(ProxyErrorView::NoHost(proxy.text)),
            Some(authority) => match uri_from_parts(scheme, authority, dst.path_and_query->0) {
                Ok(uri) => Ok(uri),
                Err(message) => Err(ProxyErrorView::Other(message)),
            },
        },
    }
}

/// The URI to connect to for a request to `dst` by way of `proxy`.
pub fn proxy_dst(dst: &Uri, proxy: &Uri) -> (r: Result<Uri, ProxyError>)
    requires
        dst.path_and_query is Some,
    ensures
        match r {
            Ok(uri) => proxied(dst@, proxy@) == Ok::<UriView, ProxyErrorView>(uri@),
            Err(e) => proxied(dst@, proxy@) == Err::<UriView, ProxyErrorView>(e@),
        },
{
    let scheme = match &proxy.scheme {
        Some(scheme) => scheme,
        None => {
            return Err(ProxyError::NoScheme(proxy.text.clone()));
        },
    };
    let authority = match &proxy.authority {
        Some(authority) => authority,
        None => {
            return Err(ProxyError::NoHost(proxy.text.clone()));
        },
    };
    let path = dst.path_and_query.as_ref().unwrap();
    match build_uri(scheme.as_str(), authority.as_str(), path.as_str()) {
        Ok(uri) => Ok(uri),
        Err(message) => Err(ProxyError::Other(message)),
    }
}

/// A request by way of a proxy goes to the scheme and the authority of the proxy with the path
/// of the request, whatever host the request names. A proxy without a scheme or without an
/// authority is complained of by its whole text, and what makes no URI by the reason.
pub proof fn law_by_way_of_the_proxy(
    dst: &Uri,
    other: &Uri,
    proxy: &Uri,
    r: Result<Uri, ProxyError>,
    s: Result<Uri, ProxyError>,
    scheme: Seq<char>,
    authority: Seq<char>,
    path: String,
)
    requires
        call_ensures(proxy_dst, (dst, proxy), r),
        call_ensures(proxy_dst, (other, proxy), s),
        dst.path_and_query == Some(path),
        other.path_and_query == dst.path_and_query,
    ensures
        proxy@.scheme == Some(scheme) && proxy@.authority == Some(authority) ==> {
            &&& r matches Ok(uri) ==> uri_from_parts(scheme, authority, path@) == Ok::<
                UriView,
                Seq<char>,
            >(uri@)
            &&& r is Ok <==> uri_from_parts(scheme, authority, path@) is Ok
            &&& r matches Err(e) ==> (e matches ProxyError::Other(said) && uri_from_parts(
                scheme,
                authority,
                path@,
            ) == Err::<UriView, Seq<char>>(said@))
        },
        proxy.scheme is None ==> (r matches Err(ProxyError::NoScheme(said)) && said@
            == proxy.text@),
        proxy.scheme is Some && proxy.authority is None ==> (r matches Err(ProxyError::NoHost(
            said,
        )) && said@ == proxy.text@),
        r is Ok <==> s is Ok,
        r matches Ok(uri) ==> (s matches Ok(same) && uri@ == same@),
{
}

} // verus!
