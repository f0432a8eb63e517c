use octoproxy::proxy_client::{proxy_dst, ProxyError};
use octoproxy::text::{blank, followed_by, decimal_text, pad_right, parse_unsigned};
use octoproxy::uri::Uri;

fn uri(scheme: Option<&str>, authority: Option<&str>, path: &str, text: &str) -> Uri {
    Uri {
        scheme: scheme.map(|s| s.to_owned()),
        authority: authority.map(|s| s.to_owned()),
        host: authority.map(|s| s.to_owned()),
        path_and_query: Some(path.to_owned()),
        text: text.to_owned(),
    }
}

#[test]
fn a_request_goes_to_the_proxy_with_its_own_path() {
    let dst = uri(
        Some("https"),
        Some("example.com"),
        "/a/b?c=d",
        "https://example.com/a/b?c=d",
    );
    let proxy = uri(
        Some("http"),
        Some("127.0.0.1:1229"),
        "/",
        "http://127.0.0.1:1229/",
    );
    let got = proxy_dst(&dst, &proxy).ok().unwrap();
    assert_eq!(got.text, "http://127.0.0.1:1229/a/b?c=d");
    assert_eq!(got.scheme.as_deref(), Some("http"));
    assert_eq!(got.authority.as_deref(), Some("127.0.0.1:1229"));
    assert_eq!(got.host.as_deref(), Some("127.0.0.1"));
    assert_eq!(got.path_and_query.as_deref(), Some("/a/b?c=d"));
}

#[test]
fn a_proxy_needs_a_scheme_and_a_host() {
    let dst = uri(Some("http"), Some("a"), "/", "http://a/");
    let e = proxy_dst(&dst, &uri(None, Some("p:1"), "/", "p:1"))
        .err()
        .unwrap();
    assert!(matches!(e, ProxyError::NoScheme(_)));
    assert_eq!(e.message(), "proxy uri missing scheme: p:1");
    let e = proxy_dst(&dst, &uri(Some("http"), None, "/", "/"))
        .err()
        .unwrap();
    assert!(matches!(e, ProxyError::NoHost(_)));
    assert_eq!(e.message(), "proxy uri missing host: /");
    let e = proxy_dst(&dst, &uri(Some("http"), Some("not a host"), "/", "x"))
        .err()
        .unwrap();
    assert!(matches!(e, ProxyError::Other(_)));
    assert!(e.message().starts_with("other error: "));
}

#[test]
fn numbers_and_columns() {
    assert_eq!(decimal_text(0), "0");
    assert_eq!(decimal_text(10), "10");
    assert_eq!(
        decimal_text(u128::MAX),
        "340282366920938463463374607431768211455"
    );
    assert_eq!(pad_right("ab", 4), "ab  ");
    assert_eq!(pad_right("abcdef", 4), "abcdef");
    assert_eq!(pad_right("ö", 3), "ö  ");
    assert_eq!(blank(3), "   ");
    assert_eq!(followed_by("a", "b"), "ab");
    assert_eq!(parse_unsigned("65535", 65535), Some(65535));
    assert_eq!(parse_unsigned("65536", 65535), None);
    assert_eq!(parse_unsigned("007", 9), Some(7));
    assert_eq!(parse_unsigned("+", 9), None);
    assert_eq!(parse_unsigned("", 9), None);
    assert_eq!(parse_unsigned("1a", 99), None);
}
