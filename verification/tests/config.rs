use octoproxy::addr::SocketAddr;
use octoproxy::config::{choose_listen_address, parse_log_level_str, parse_socket_address, LogLevel};

#[test]
fn test_parse_socket_address() {
    let res = parse_socket_address("localhost:8081");
    assert!(res.is_err());

    let res = parse_socket_address("127.0.0.1:8081");
    assert!(res.is_ok());

    let res = parse_socket_address("8081");
    assert!(res.is_ok());
}

#[test]
fn addresses_are_read_in_full() {
    let local = |port| SocketAddr::V4 {
        ip: 0x7f00_0001,
        port,
    };
    assert_eq!(parse_socket_address("8081"), Ok(local(8081)));
    assert_eq!(parse_socket_address("+80"), Ok(local(80)));
    assert_eq!(parse_socket_address("127.0.0.1:8081"), Ok(local(8081)));
    assert_eq!(
        parse_socket_address("10.0.0.7:1"),
        Ok(SocketAddr::V4 {
            ip: 0x0a00_0007,
            port: 1
        })
    );
    assert_eq!(
        parse_socket_address("[::1]:443"),
        Ok(SocketAddr::V6 {
            ip: 1,
            port: 443,
            flowinfo: 0,
            scope_id: 0
        })
    );
    for text in ["", "65536", "-1", "80 ", "1.2.3.4", "1.2.3.4:"] {
        let e = parse_socket_address(text).unwrap_err();
        assert_eq!(
            e.message(),
            "cannot parse listen address into socket address"
        );
    }
    assert_eq!(choose_listen_address(Some(local(5)), "6"), Ok(local(5)));
    assert_eq!(choose_listen_address(None, "6"), Ok(local(6)));
    assert!(choose_listen_address(None, "x").is_err());
    assert_eq!(local(8081).port(), 8081);
}

#[test]
fn test_parse_log_level_str() {
    let res = parse_log_level_str("INFO", None);
    assert_eq!(res, LogLevel::Info);

    let res = parse_log_level_str("DEBUG", None);
    assert_eq!(res, LogLevel::Debug);

    let res = parse_log_level_str("", Some("INFO".to_owned()));
    assert_ne!(res, LogLevel::Debug);
    assert_eq!(res, LogLevel::Info);
}

#[test]
fn log_levels_by_name_and_by_number() {
    for (text, level) in [
        ("error", LogLevel::Error),
        ("Warn", LogLevel::Warn),
        ("info", LogLevel::Info),
        ("deBUG", LogLevel::Debug),
        ("TRACE", LogLevel::Trace),
        ("1", LogLevel::Error),
        ("2", LogLevel::Warn),
        ("3", LogLevel::Info),
        ("4", LogLevel::Debug),
        ("5", LogLevel::Trace),
        ("6", LogLevel::Error),
        ("loud", LogLevel::Error),
    ] {
        assert_eq!(parse_log_level_str(text, None), level, "{}", text);
        assert_eq!(
            parse_log_level_str("trace", Some(text.to_owned())),
            level,
            "{}",
            text
        );
    }
}
