use octoproxy::addr::SocketAddr;
use octoproxy::client::peer::PeerInfo;
use octoproxy::client::rules::{default_is_not_direct, HostRuleSection, HostRuler, HostRules};

fn text_field(table: &toml::value::Table, key: &str) -> Option<String> {
    table
        .get(key)
        .and_then(|v| v.as_str())
        .map(|s| s.to_string())
}

fn section(value: &toml::Value) -> HostRuleSection {
    let table = value.as_table().unwrap();
    HostRuleSection {
        rewrite: text_field(table, "rewrite"),
        backend: text_field(table, "backend"),
        direct: table
            .get("direct")
            .and_then(|v| v.as_bool())
            .unwrap_or(default_is_not_direct()),
    }
}

fn build_config_reader(s: &str) -> Result<Vec<(String, HostRuleSection)>, toml::de::Error> {
    let table: toml::value::Table = s.parse()?;
    Ok(table
        .iter()
        .map(|(name, value)| (name.clone(), section(value)))
        .collect())
}

#[test]
fn test_new_host_ruler() {
    let host_ruler_file = r#"
["example.com"]
rewrite = "hello.com"
backend = "local1"

[hello]
rewrite = "127.0.0.1"

[world]

        "#;
    let host_ruler = HostRuler::new(build_config_reader(host_ruler_file).unwrap());
    assert!(host_ruler.is_some(), "parse normal config");

    let host_ruler_file = r#"

        "#;
    let host_ruler = HostRuler::new(build_config_reader(host_ruler_file).unwrap());
    assert!(host_ruler.is_none(), "parse empty config");

    let host_ruler_file = r#"
[hello]

[world]
        "#;
    let host_ruler = HostRuler::new(build_config_reader(host_ruler_file).unwrap());
    assert!(host_ruler.is_none(), "parse empty sections config");

    let host_ruler_file = r#"
[hello]
direct = true

[world]
        "#;
    let host_ruler = HostRuler::new(build_config_reader(host_ruler_file).unwrap());
    assert!(host_ruler.is_some(), "parse direct sections config");

    let host_ruler_file = r#"
aaaaaaaaaaaaaaaaa
        "#;
    let host_ruler = build_config_reader(host_ruler_file).map(HostRuler::new);
    assert!(host_ruler.is_err(), "parse invalid config");

    let host_ruler_file = r#"
[hello]
[hello]
        "#;
    let host_ruler = build_config_reader(host_ruler_file).map(HostRuler::new);
    assert!(host_ruler.is_err(), "parse dup sections config")
}

fn eg_addr() -> SocketAddr {
    SocketAddr::V4 {
        ip: 0x7f00_0001,
        port: 8080,
    }
}

#[test]
fn test_new_host_ruler_find_rule() {
    let host_ruler_file = r#"
["example.com"]
rewrite = "hello.com"
backend = "local1"

[hello]
rewrite = "127.0.0.1"

[world]

[fedora.local10]
direct = true

[fedora.local101]
direct = false

        "#;
    let host_ruler = HostRuler::new(build_config_reader(host_ruler_file).unwrap());
    let host_ruler = host_ruler.unwrap();

    let mut peer = PeerInfo::new("example.com:8080".to_owned(), eg_addr());
    assert!(matches!(peer.get_rule(), HostRules::Unknown));
    host_ruler.find_rule(&mut peer);
    assert!(matches!(
        peer.get_rule(),
        HostRules::GotRule(HostRuleSection {
            rewrite: Some(_),
            backend: Some(_),
            direct: _,
        })
    ));

    let mut peer = PeerInfo::new("hello:8080".to_owned(), eg_addr());
    assert!(matches!(peer.get_rule(), HostRules::Unknown));
    host_ruler.find_rule(&mut peer);
    assert!(matches!(
        peer.get_rule(),
        HostRules::GotRule(HostRuleSection {
            rewrite: Some(_),
            backend: None,
            direct: _,
        })
    ));

    let mut peer = PeerInfo::new("google.com:8080".to_owned(), eg_addr());
    assert!(matches!(peer.get_rule(), HostRules::Unknown));
    host_ruler.find_rule(&mut peer);
    assert!(matches!(peer.get_rule(), HostRules::NoRule));
}
