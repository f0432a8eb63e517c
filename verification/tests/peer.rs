use octoproxy::addr::SocketAddr;
use octoproxy::client::peer::{HostPortIndex, PeerBackendRule, PeerInfo, DEFAULT_PORT};
use octoproxy::client::rules::{HostRuleSection, HostRules};
use octoproxy::proxy::{tunnel_target, ConnectHeadBuf};

fn eg_addr() -> SocketAddr {
    SocketAddr::V4 {
        ip: 0x7f00_0001,
        port: 8080,
    }
}

#[test]
fn test_new_peer_info() {
    let p = PeerInfo::new("example.com:8080".to_owned(), eg_addr());
    assert_eq!(p.get_hostname(), "example.com");
    assert_eq!(p.get_valid_host().as_str(), "example.com:8080");
    assert_eq!(p.get_port_str(), "8080");

    let p = PeerInfo::new("example.com".to_owned(), eg_addr());
    assert_eq!(p.get_hostname(), "example.com");
    assert_eq!(p.get_valid_host().as_str(), "example.com:80");
    assert_eq!(p.get_port_str(), "80");
}

#[test]
fn test_new_peer_info_rule() {
    let mut peer = PeerInfo::new("example.com:8080".to_owned(), eg_addr());
    peer.set_rule(HostRules::NoRule);
    assert_eq!(peer.get_host_by_rule().as_str(), "example.com:8080");

    peer.set_rule(HostRules::GotRule(HostRuleSection {
        rewrite: Some("hello.com".to_owned()),
        backend: None,
        direct: false,
    }));
    assert_eq!(
        peer.get_host_by_rule().as_str(),
        "hello.com:8080",
        "rewrittend rule"
    );

    let mut peer = PeerInfo::new("example.com:8080".to_owned(), eg_addr());
    peer.set_rule(HostRules::GotRule(HostRuleSection {
        rewrite: None,
        backend: Some("local1".to_owned()),
        direct: false,
    }));
    assert!(
        matches!(
            peer.get_backend_name_by_rule(),
            PeerBackendRule::GotBackend("local1"),
        ),
        "routed backend rule"
    );

    let mut peer = PeerInfo::new("example.com:8080".to_owned(), eg_addr());
    peer.set_rule(HostRules::GotRule(HostRuleSection {
        rewrite: None,
        backend: None,
        direct: false,
    }));

    assert!(
        matches!(peer.get_backend_name_by_rule(), PeerBackendRule::NoRule,),
        "no rules"
    );

    let mut peer = PeerInfo::new("example.com:8080".to_owned(), eg_addr());
    peer.set_rule(HostRules::GotRule(HostRuleSection {
        rewrite: None,
        backend: None,
        direct: true,
    }));

    assert!(
        matches!(peer.get_backend_name_by_rule(), PeerBackendRule::Direct,),
        "rules for direct"
    );

    let mut peer = PeerInfo::new("example.com:8080".to_owned(), eg_addr());
    peer.set_rule(HostRules::GotRule(HostRuleSection {
        rewrite: None,
        backend: Some("local1".to_owned()),
        direct: true,
    }));

    assert!(
        matches!(peer.get_backend_name_by_rule(), PeerBackendRule::Direct,),
        "direct ignores backend"
    );
}

#[test]
fn the_last_colon_counts() {
    assert_eq!(HostPortIndex::new("[::1]:443"), HostPortIndex::NonDafault(5));
    assert_eq!(HostPortIndex::new("nothing"), HostPortIndex::Default);
    let p = PeerInfo::new("[::1]:443".to_owned(), eg_addr());
    assert_eq!(p.get_hostname(), "[::1]");
    assert_eq!(p.get_port_str(), "443");
    assert_eq!(DEFAULT_PORT, "80");
}

#[test]
fn rewriting_keeps_the_port_of_a_host() {
    for (host, want) in [
        ("a.example:8443", "b.example:8443"),
        ("a.example", "b.example:80"),
        ("a.example:", "b.example:"),
    ] {
        let mut peer = PeerInfo::new(host.to_owned(), eg_addr());
        peer.set_rule(HostRules::GotRule(HostRuleSection {
            rewrite: Some("b.example".to_owned()),
            backend: None,
            direct: false,
        }));
        assert_eq!(peer.get_host_by_rule().as_str(), want);
        assert_eq!(peer.get_addr(), eg_addr());
        assert_eq!(peer.get_host(), host);
    }
}

#[test]
fn hosts_beyond_ascii_are_cut_at_the_colon() {
    let p = PeerInfo::new("höst:81".to_owned(), eg_addr());
    assert_eq!(p.get_hostname(), "höst");
    assert_eq!(p.get_port_str(), "81");
    let p = PeerInfo::new("höst".to_owned(), eg_addr());
    assert_eq!(p.get_valid_host().as_str(), "höst:80");
}

#[test]
fn a_head_is_framed_by_its_length() {
    let head = ConnectHeadBuf::new("a:80");
    assert_eq!(head.as_ref(), &[0, 4, b'a', b':', b'8', b'0']);
    assert_eq!(head.as_str(), "a:80");

    let long = "x".repeat(300);
    let head = ConnectHeadBuf::new(&long);
    assert_eq!(&head.as_ref()[..2], &[1, 44]);
    assert_eq!(tunnel_target(&head.as_ref()[2..]), Ok(long.as_str()));
}

#[test]
fn a_head_that_is_no_text_is_refused() {
    assert!(tunnel_target(&[0xff, 0xfe]).is_err());
    assert_eq!(tunnel_target(b"example.com:443"), Ok("example.com:443"));
}
