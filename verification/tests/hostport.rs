use tls_meter::hostport::extract_host_port;

#[test]
fn test_extract_host_port() {
    assert_eq!(
        extract_host_port("https://speed.cloudflare.com"),
        Some(("speed.cloudflare.com".to_string(), 443))
    );
    assert_eq!(
        extract_host_port("https://example.com:8443/path"),
        Some(("example.com".to_string(), 8443))
    );
    assert_eq!(
        extract_host_port("http://example.com"),
        Some(("example.com".to_string(), 80))
    );
}

#[test]
fn test_explicit_port_is_exact() {
    assert_eq!(
        extract_host_port("http://example.com:8080"),
        Some(("example.com".to_string(), 8080))
    );
    assert_eq!(
        extract_host_port("https://example.com:1/x?y=z"),
        Some(("example.com".to_string(), 1))
    );
    assert_eq!(
        extract_host_port("foo://example.com:1456"),
        Some(("example.com".to_string(), 1456))
    );
}

#[test]
fn test_default_ports_by_scheme() {
    assert_eq!(
        extract_host_port("https://a.b.c"),
        Some(("a.b.c".to_string(), 443))
    );
    assert_eq!(
        extract_host_port("http://a.b.c"),
        Some(("a.b.c".to_string(), 80))
    );
    assert_eq!(
        extract_host_port("wss://socket.example.com"),
        Some(("socket.example.com".to_string(), 443))
    );
    assert_eq!(
        extract_host_port("ws://socket.example.com"),
        Some(("socket.example.com".to_string(), 80))
    );
    // a scheme without a known default falls back to 443
    assert_eq!(
        extract_host_port("foo://example.com"),
        Some(("example.com".to_string(), 443))
    );
}

#[test]
fn test_zero_port_or_empty_host_absent() {
    // an explicit zero port parses, but is no usable target
    assert_eq!(extract_host_port("https://example.com:0"), None);
    assert_eq!(extract_host_port("foo://example.com:0/path"), None);
    // a non-special scheme can parse with an empty host; that is no target
    assert_eq!(extract_host_port("foo:///path"), None);
    assert_eq!(extract_host_port("foo://:8080/path"), None);
}

#[test]
fn test_malformed_or_hostless_absent() {
    assert_eq!(extract_host_port("not a url"), None);
    assert_eq!(extract_host_port(""), None);
    assert_eq!(extract_host_port("http://"), None);
    assert_eq!(extract_host_port("mailto:user@example.com"), None);
    assert_eq!(extract_host_port("data:text/plain,hello"), None);
}
