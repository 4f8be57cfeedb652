use farfalle::protocol::{parse_forwarded_for_protocol, Protocol};

#[test]
fn forwarded_proto_is_read() {
    assert_eq!(
        parse_forwarded_for_protocol("for=192.0.2.60;proto=https;by=203.0.113.43"),
        Some("https".to_string())
    );
}

#[test]
fn forwarded_proto_is_case_insensitive_and_trimmed() {
    assert_eq!(
        parse_forwarded_for_protocol(" Proto = \"http\" ; for=x"),
        Some("http".to_string())
    );
}

#[test]
fn forwarded_only_first_element_counts() {
    assert_eq!(parse_forwarded_for_protocol("for=a, proto=https"), None);
    assert_eq!(parse_forwarded_for_protocol("for=a;by=b"), None);
    assert_eq!(parse_forwarded_for_protocol(""), None);
    assert_eq!(parse_forwarded_for_protocol("protocol=https;proto=wss,proto=x"), Some("wss".to_string()));
}

#[test]
fn protocol_falls_back_in_order() {
    assert_eq!(Protocol::from_parts(Some("proto=https"), Some("http"), Some("ftp")).0, "https");
    assert_eq!(Protocol::from_parts(Some("for=a"), Some("http"), Some("ftp")).0, "http");
    assert_eq!(Protocol::from_parts(None, None, Some("ftp")).0, "ftp");
    assert_eq!(Protocol::from_parts(None, None, None).0, "http");
}
