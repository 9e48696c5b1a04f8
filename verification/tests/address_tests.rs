use socket_sandbox::address::is_valid_websocket_ip;

#[test]
fn accepts_plain_hosts_and_ips() {
    assert!(is_valid_websocket_ip("ws://localhost"));
    assert!(is_valid_websocket_ip("wss://example.com"));
    assert!(is_valid_websocket_ip("ws://127.0.0.1"));
    assert!(is_valid_websocket_ip("ws://echo.test"));
    assert!(is_valid_websocket_ip("ws://a"));
    assert!(is_valid_websocket_ip("wss://sub-domain.example-site.org"));
}

#[test]
fn accepts_ports_of_one_to_five_digits() {
    assert!(is_valid_websocket_ip("ws://127.0.0.1:8080"));
    assert!(is_valid_websocket_ip("ws://localhost:1"));
    assert!(is_valid_websocket_ip("ws://localhost:65535"));
    assert!(is_valid_websocket_ip("wss://example.com:443"));
}

#[test]
fn rejects_missing_or_malformed_ports() {
    assert!(!is_valid_websocket_ip("ws://localhost:"));
    assert!(!is_valid_websocket_ip("ws://localhost:123456"));
    assert!(!is_valid_websocket_ip("ws://localhost:12a"));
    assert!(!is_valid_websocket_ip("ws://localhost:-1"));
}

#[test]
fn accepts_paths_of_word_characters_slashes_and_hyphens() {
    assert!(is_valid_websocket_ip("ws://example.com/"));
    assert!(is_valid_websocket_ip("ws://example.com/chat"));
    assert!(is_valid_websocket_ip("ws://example.com:8080/chat/room-1_a"));
    assert!(is_valid_websocket_ip("ws://example.com//double"));
}

#[test]
fn rejects_other_path_characters() {
    assert!(!is_valid_websocket_ip("ws://example.com/page.html"));
    assert!(!is_valid_websocket_ip("ws://example.com/chat?x=1"));
    assert!(!is_valid_websocket_ip("ws://example.com/a b"));
    assert!(!is_valid_websocket_ip("ws://example.com/p#frag"));
}

#[test]
fn rejects_wrong_or_missing_schemes() {
    assert!(!is_valid_websocket_ip(""));
    assert!(!is_valid_websocket_ip("ws://"));
    assert!(!is_valid_websocket_ip("wss://"));
    assert!(!is_valid_websocket_ip("http://example.com"));
    assert!(!is_valid_websocket_ip("Ws://example.com"));
    assert!(!is_valid_websocket_ip("ws:/example.com"));
    assert!(!is_valid_websocket_ip("example.com"));
    assert!(!is_valid_websocket_ip("ws//example.com"));
}

#[test]
fn rejects_hosts_with_foreign_characters() {
    assert!(!is_valid_websocket_ip("ws://host name"));
    assert!(!is_valid_websocket_ip("ws://:8080"));
    assert!(!is_valid_websocket_ip("ws://h\u{e9}llo"));
    assert!(!is_valid_websocket_ip("ws://host_name"));
}
