use lavalink_node::handshake::{
    handshake_request, ConnectError, HandshakeRequest, HeaderField, CLIENT_NAME, CLIENT_VERSION,
};
use lavalink_node::model::UserId;

const ADDRESS: &str = "ws://localhost:2333/v4/websocket";
const KEY: &str = "dGhlIHNhbXBsZSBub25jZQ==";

fn pairs(request: &HandshakeRequest) -> Vec<(String, String)> {
    let mut list = Vec::new();
    for header in &request.headers {
        list.push((header.name.clone(), header.value.clone()));
    }
    list
}

fn pair(name: &str, value: &str) -> (String, String) {
    (name.to_string(), value.to_string())
}

#[test]
fn request_of_a_first_connection() {
    let request =
        handshake_request(ADDRESS, "youshallnotpass", UserId(551759974905151548), "", KEY).unwrap();
    assert_eq!(request.method, "GET");
    assert_eq!(request.uri, ADDRESS);
    assert_eq!(
        pairs(&request),
        vec![
            pair("Host", ADDRESS),
            pair("Connection", "Upgrade"),
            pair("Upgrade", "websocket"),
            pair("Sec-WebSocket-Version", "13"),
            pair("Sec-WebSocket-Key", KEY),
            pair("Authorization", "youshallnotpass"),
            pair("User-Id", "551759974905151548"),
            pair("Session-Id", ""),
            pair("Client-Name", "lavalink_node/0.1.0"),
        ]
    );
}

#[test]
fn request_that_resumes_a_session() {
    let request = handshake_request(ADDRESS, "pw", UserId(1), "abc123", KEY).unwrap();
    assert_eq!(pairs(&request)[7], pair("Session-Id", "abc123"));
    assert_eq!(pairs(&request)[6], pair("User-Id", "1"));
}

#[test]
fn client_name_is_name_slash_version() {
    let request = handshake_request(ADDRESS, "pw", UserId(0), "", KEY).unwrap();
    assert_eq!(pairs(&request)[8].1, format!("{}/{}", CLIENT_NAME, CLIENT_VERSION));
    assert_eq!(pairs(&request)[6], pair("User-Id", "0"));
}

#[test]
fn values_beyond_ascii_and_tabs_are_accepted() {
    let request = handshake_request(ADDRESS, "p\u{e4}ss\tword ~", UserId(1), "s", KEY).unwrap();
    assert_eq!(pairs(&request)[5], pair("Authorization", "p\u{e4}ss\tword ~"));
}

#[test]
fn password_with_a_control_character_is_refused() {
    for password in ["pass\nword", "pass\rword", "\u{0}", "pass\u{7f}", "\u{1f}"] {
        assert_eq!(
            handshake_request(ADDRESS, password, UserId(1), "", KEY).unwrap_err(),
            ConnectError::HeaderEncoding(HeaderField::Authorization)
        );
    }
}

#[test]
fn session_with_a_control_character_is_refused() {
    assert_eq!(
        handshake_request(ADDRESS, "pw", UserId(1), "abc\n123", KEY).unwrap_err(),
        ConnectError::HeaderEncoding(HeaderField::SessionId)
    );
}

#[test]
fn key_with_a_control_character_is_refused() {
    assert_eq!(
        handshake_request(ADDRESS, "pw", UserId(1), "", "bad\nkey").unwrap_err(),
        ConnectError::HeaderEncoding(HeaderField::WebSocketKey)
    );
}

#[test]
fn address_with_a_control_character_is_refused_as_a_header() {
    assert_eq!(
        handshake_request("ws://localhost\n:2333", "pw", UserId(1), "", KEY).unwrap_err(),
        ConnectError::HeaderEncoding(HeaderField::Host)
    );
}

#[test]
fn address_that_is_no_uri_is_refused() {
    for address in ["ws://local host:2333/", "", "ws://localhost:2333/a b"] {
        assert_eq!(
            handshake_request(address, "pw", UserId(1), "", KEY).unwrap_err(),
            ConnectError::InvalidAddress
        );
    }
}

#[test]
fn faults_come_in_order() {
    assert_eq!(
        handshake_request("bad\naddress", "bad\npw", UserId(1), "bad\nsession", "bad\nkey")
            .unwrap_err(),
        ConnectError::HeaderEncoding(HeaderField::Host)
    );
    assert_eq!(
        handshake_request("not a uri", "bad\npw", UserId(1), "bad\nsession", "bad\nkey")
            .unwrap_err(),
        ConnectError::HeaderEncoding(HeaderField::WebSocketKey)
    );
    assert_eq!(
        handshake_request("not a uri", "bad\npw", UserId(1), "bad\nsession", KEY).unwrap_err(),
        ConnectError::InvalidAddress
    );
    assert_eq!(
        handshake_request(ADDRESS, "bad\npw", UserId(1), "bad\nsession", KEY).unwrap_err(),
        ConnectError::HeaderEncoding(HeaderField::Authorization)
    );
}

#[test]
fn every_header_of_a_request_is_accepted_as_a_header() {
    let request = handshake_request(ADDRESS, "p\u{e4}ss\tword", UserId(u64::MAX), "abc123", KEY)
        .unwrap();
    let mut builder = http::Request::builder()
        .method(request.method.as_str())
        .uri(request.uri.as_str());
    for header in &request.headers {
        assert!(http::header::HeaderName::from_bytes(header.name.as_bytes()).is_ok());
        assert!(http::header::HeaderValue::from_str(&header.value).is_ok());
        builder = builder.header(header.name.as_str(), header.value.as_str());
    }
    let built = builder.body(()).unwrap();
    assert_eq!(built.method(), http::Method::GET);
    assert_eq!(built.headers().len(), 9);
    assert_eq!(built.headers().get("user-id").unwrap(), "18446744073709551615");
    assert_eq!(built.headers().get("client-name").unwrap(), "lavalink_node/0.1.0");
    assert_eq!(built.uri().to_string(), ADDRESS);
}

#[test]
fn what_the_library_refuses_the_header_type_refuses() {
    let texts = ["", "plain", "tab\there", "line\nbreak", "\u{7f}", "\u{80}", "\u{1f}", " ", "~"];
    for text in texts {
        let accepted = handshake_request(ADDRESS, text, UserId(1), "", KEY).is_ok();
        assert_eq!(accepted, http::header::HeaderValue::from_str(text).is_ok());
    }
}

#[test]
fn what_the_library_refuses_as_an_address_is_no_uri() {
    let texts = ["ws://localhost:2333", "localhost:2333", "/v4/websocket", "a b", "", "ws://[::1]:2333/x"];
    for text in texts {
        let accepted = handshake_request(text, "pw", UserId(1), "", KEY).is_ok();
        assert_eq!(accepted, text.parse::<http::Uri>().is_ok());
    }
}
