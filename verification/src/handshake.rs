//! The upgrade request that opens a node's connection: its address, its
//! headers, and the faults that stop it before anything is sent.

use vstd::prelude::*;
use vstd::string::*;
use crate::decimal::{decimal_text, is_digit, lemma_decimal_round_trip, to_decimal};
use crate::model::UserId;

verus! {

/// `http::header::HeaderValue`, the value of a header that `http` accepted.
#[verifier::external_type_specification]
#[verifier::external_body]
pub struct ExHeaderValue(http::header::HeaderValue);

/// `http::header::InvalidHeaderValue`, the error of a text that no header
/// may hold.
#[verifier::external_type_specification]
#[verifier::external_body]
pub struct ExInvalidHeaderValue(http::header::InvalidHeaderValue);

/// `http::Uri`, a URI that `http` accepted.
#[verifier::external_type_specification]
#[verifier::external_body]
pub struct ExUri(http::Uri);

/// `http::uri::InvalidUri`, the error of a text that is no URI.
#[verifier::external_type_specification]
#[verifier::external_body]
pub struct ExInvalidUri(http::uri::InvalidUri);

/// The name that the node gives for itself in the `Client-Name` header.
pub const CLIENT_NAME: &'static str = "lavalink_node";

/// The version that the node gives for itself in the `Client-Name` header.
pub const CLIENT_VERSION: &'static str = "0.1.0";

/// Whether `c` may stand in the value of a header: a tab, or any character
/// but the other ASCII control characters.
pub open spec fn header_char_ok(c: char) -> bool {
    c == '\t' || (c as u32 >= 32 && c as u32 != 127)
}

/// Whether `text` may be the value of a header.
pub open spec fn header_text_ok(text: Seq<char>) -> bool {
    forall|i: int| 0 <= i < text.len() ==> header_char_ok(#[trigger] text[i])
}

/// Whether `http` reads `text` as a URI.
pub uninterp spec fn uri_accepted(text: Seq<char>) -> bool;

/// Whether `c` is a character of padded base 64.
pub open spec fn base64_char(c: char) -> bool {
    ('A' <= c && c <= 'Z') || ('a' <= c && c <= 'z') || ('0' <= c && c <= '9') || c == '+' || c
        == '/' || c == '='
}

/// Whether `key` has the form of a `Sec-WebSocket-Key`: sixteen bytes in
/// padded base 64.
pub open spec fn websocket_key(key: Seq<char>) -> bool {
    key.len() == 24 && forall|i: int| 0 <= i < key.len() ==> base64_char(#[trigger] key[i])
}

/// `http::header::HeaderValue::from_str`: accepts a text exactly when each of
/// its bytes is a tab or is at least 32 and not 127. Every byte of a
/// character beyond ASCII is above 127, so this is a condition on characters.
pub assume_specification[ http::header::HeaderValue::from_str ](text: &str) -> (r: Result<
    http::header::HeaderValue,
    http::header::InvalidHeaderValue,
>)
    ensures
        r is Ok <==> header_text_ok(text@),
;

/// `str::parse` at `http::Uri`: reads a text as a URI. Whether it succeeds
/// depends on the text alone; `uri_accepted` names that.
#[verifier::external_body]
fn parse_uri(text: &str) -> (r: Result<http::Uri, http::uri::InvalidUri>)
    ensures
        r is Ok <==> uri_accepted(text@),
{
    text.parse::<http::Uri>()
}

/// `tungstenite::handshake::client::generate_key`: sixteen random bytes in
/// padded base 64. Each call gives another key.
#[verifier::external_body]
pub(crate) fn generate_key() -> (key: String)
    ensures
        websocket_key(key@),
{
    async_tungstenite::tungstenite::handshake::client::generate_key()
}

/// The headers of the request whose value comes from outside, and may be
/// refused.
#[derive(Clone, Copy, PartialEq, Eq, Structural, Debug, Hash)]
pub enum HeaderField {
    Host,
    WebSocketKey,
    Authorization,
    SessionId,
}

/// What the transport reports of a handshake that did not succeed.
#[derive(Clone, Copy, PartialEq, Eq, Structural, Debug, Hash)]
pub enum HandshakeFailure {
    /// The server could not be reached.
    Network,
    /// The server answered and refused the upgrade.
    Rejected,
}

/// Why a node did not connect.
#[derive(Clone, Copy, PartialEq, Eq, Structural, Debug, Hash)]
pub enum ConnectError {
    /// The value for this header holds a character that no header may hold.
    HeaderEncoding(HeaderField),
    /// The node's address is no URI.
    InvalidAddress,
    /// The server could not be reached.
    Network,
    /// The server answered and refused the upgrade.
    Rejected,
}

/// One header of the request.
#[derive(Clone, Debug, PartialEq, Eq, Hash)]
pub struct Header {
    pub name: String,
    pub value: String,
}

/// A header as a plain value.
pub ghost struct HeaderView {
    pub name: Seq<char>,
    pub value: Seq<char>,
}

impl View for Header {
    type V = HeaderView;

    open spec fn view(&self) -> HeaderView {
        HeaderView { name: self.name@, value: self.value@ }
    }
}

/// The upgrade request, ready to be sent.
#[derive(Clone, Debug, PartialEq, Eq, Hash)]
pub struct HandshakeRequest {
    pub method: String,
    pub uri: String,
    pub headers: Vec<Header>,
}

/// A request as a plain value.
pub ghost struct HandshakeRequestView {
    pub method: Seq<char>,
    pub uri: Seq<char>,
    pub headers: Seq<HeaderView>,
}

/// The views of a sequence of headers.
pub open spec fn header_views(headers: Seq<Header>) -> Seq<HeaderView> {
    headers.map_values(|header: Header| header@)
}

impl View for HandshakeRequest {
    type V = HandshakeRequestView;

    open spec fn view(&self) -> HandshakeRequestView {
        HandshakeRequestView {
            method: self.method@,
            uri: self.uri@,
            headers: header_views(self.headers@),
        }
    }
}

/// The value of the `Client-Name` header: name, a slash, version.
pub open spec fn client_tag() -> Seq<char> {
    CLIENT_NAME@ + "/"@ + CLIENT_VERSION@
}

/// The headers of the upgrade request, in the order in which they are set:
/// those of the WebSocket upgrade, then the four that identify the node to
/// the server.
pub open spec fn handshake_headers(
    address: Seq<char>,
    password: Seq<char>,
    user_id: UserId,
    session_id: Seq<char>,
    key: Seq<char>,
) -> Seq<HeaderView> {
    seq![
        HeaderView { name: "Host"@, value: address },
        HeaderView { name: "Connection"@, value: "Upgrade"@ },
        HeaderView { name: "Upgrade"@, value: "websocket"@ },
        HeaderView { name: "Sec-WebSocket-Version"@, value: "13"@ },
        HeaderView { name: "Sec-WebSocket-Key"@, value: key },
        HeaderView { name: "Authorization"@, value: password },
        HeaderView { name: "User-Id"@, value: decimal_text(user_id.0 as nat) },
        HeaderView { name: "Session-Id"@, value: session_id },
        HeaderView { name: "Client-Name"@, value: client_tag() },
    ]
}

/// What stops the request before it is sent, if anything does: the first of
/// these that holds, in this order.
pub open spec fn handshake_fault(
    address: Seq<char>,
    password: Seq<char>,
    session_id: Seq<char>,
    key: Seq<char>,
) -> Option<ConnectError> {
    if !header_text_ok(address) {
        Some(ConnectError::HeaderEncoding(HeaderField::Host))
    } else if !header_text_ok(key) {
        Some(ConnectError::HeaderEncoding(HeaderField::WebSocketKey))
    } else if !uri_accepted(address) {
        Some(ConnectError::InvalidAddress)
    } else if !header_text_ok(password) {
        Some(ConnectError::HeaderEncoding(HeaderField::Authorization))
    } else if !header_text_ok(session_id) {
        Some(ConnectError::HeaderEncoding(HeaderField::SessionId))
    } else {
        None
    }
}

/// The upgrade request of a node, or the fault that stops it.
pub open spec fn handshake_outcome(
    address: Seq<char>,
    password: Seq<char>,
    user_id: UserId,
    session_id: Seq<char>,
    key: Seq<char>,
) -> Result<HandshakeRequestView, ConnectError> {
    match handshake_fault(address, password, session_id, key) {
        Some(fault) => Err(fault),
        None => Ok(
            HandshakeRequestView {
                method: "GET"@,
                uri: address,
                headers: handshake_headers(address, password, user_id, session_id, key),
            },
        ),
    }
}

/// The view of a request or of the fault in its place.
pub open spec fn handshake_view(r: Result<HandshakeRequest, ConnectError>) -> Result<
    HandshakeRequestView,
    ConnectError,
> {
    match r {
        Ok(request) => Ok(request@),
        Err(fault) => Err(fault),
    }
}

/// A key of sixteen bytes in base 64 is a legal header value.
pub proof fn lemma_key_is_header_text(key: Seq<char>)
    requires
        websocket_key(key),
    ensures
        header_text_ok(key),
{
    assert forall|i: int| 0 <= i < key.len() implies header_char_ok(#[trigger] key[i]) by {
        assert(base64_char(key[i]));
    }
}

/// Every value in a request that was not refused may stand in a header: the
/// values that come from outside because they were tested, the others
/// because they are digits or fixed words.
pub proof fn lemma_request_values_legal(
    address: Seq<char>,
    password: Seq<char>,
    user_id: UserId,
    session_id: Seq<char>,
    key: Seq<char>,
)
    requires
        handshake_fault(address, password, session_id, key) is None,
    ensures
        forall|i: int|
            0 <= i < handshake_headers(address, password, user_id, session_id, key).len()
                ==> header_text_ok(
                (#[trigger] handshake_headers(address, password, user_id, session_id, key)[i]).value,
            ),
{
    let user = decimal_text(user_id.0 as nat);
    assert(header_text_ok(user)) by {
        lemma_decimal_round_trip(user_id.0 as nat);
        assert forall|i: int| 0 <= i < user.len() implies header_char_ok(#[trigger] user[i]) by {
            assert(is_digit(user[i]));
        }
    }
    assert(header_text_ok("Upgrade"@)) by {
        reveal_strlit("Upgrade");
        let text = "Upgrade"@;
        assert forall|i: int| 0 <= i < text.len() implies header_char_ok(#[trigger] text[i]) by {
            lemma_word_char(text, i);
        }
    }
    assert(header_text_ok("websocket"@)) by {
        reveal_strlit("websocket");
        let text = "websocket"@;
        assert forall|i: int| 0 <= i < text.len() implies header_char_ok(#[trigger] text[i]) by {
            lemma_word_char(text, i);
        }
    }
    assert(header_text_ok("13"@)) by {
        reveal_strlit("13");
        let text = "13"@;
        assert forall|i: int| 0 <= i < text.len() implies header_char_ok(#[trigger] text[i]) by {
            lemma_word_char(text, i);
        }
    }
    assert(header_text_ok(client_tag())) by {
        reveal_strlit("lavalink_node");
        reveal_strlit("/");
        reveal_strlit("0.1.0");
        let text = client_tag();
        assert(text.len() == 19);
        assert forall|i: int| 0 <= i < text.len() implies header_char_ok(#[trigger] text[i]) by {
            lemma_word_char(text, i);
        }
    }
}

/// Picks out the character at `i`, for a text of up to twenty characters.
proof fn lemma_word_char(text: Seq<char>, i: int)
    requires
        0 <= i < text.len() <= 20,
    ensures
        i == 0 || i == 1 || i == 2 || i == 3 || i == 4 || i == 5 || i == 6 || i == 7 || i == 8 || i
            == 9 || i == 10 || i == 11 || i == 12 || i == 13 || i == 14 || i == 15 || i == 16 || i
            == 17 || i == 18 || i == 19,
{
}

fn check_header(text: &str, field: HeaderField) -> (r: Result<(), ConnectError>)
    ensures
        r == if header_text_ok(text@) {
            Ok::<(), ConnectError>(())
        } else {
            Err::<(), ConnectError>(ConnectError::HeaderEncoding(field))
        },
{
    match http::header::HeaderValue::from_str(text) {
        Ok(_) => Ok(()),
        Err(_) => Err(ConnectError::HeaderEncoding(field)),
    }
}

fn header(name: &str, value: &str) -> (header: Header)
    ensures
        header@ == (HeaderView { name: name@, value: value@ }),
{
    Header { name: name.to_owned(), value: value.to_owned() }
}

/// Builds the upgrade request for the node at `address`, with the WebSocket
/// key `key`. The request is a `GET` of the address with the headers of
/// `handshake_headers`; it is refused where the address is no URI or where
/// a value that comes from outside cannot stand in a header.
pub fn handshake_request(
    address: &str,
    password: &str,
    user_id: UserId,
    session_id: &str,
    key: &str,
) -> (r: Result<HandshakeRequest, ConnectError>)
    ensures
        handshake_view(r) == handshake_outcome(address@, password@, user_id, session_id@, key@),
{
    match check_header(address, HeaderField::Host) {
        Err(fault) => {
            return Err(fault);
        },
        Ok(_) => {},
    }
    match check_header(key, HeaderField::WebSocketKey) {
        Err(fault) => {
            return Err(fault);
        },
        Ok(_) => {},
    }
    match parse_uri(address) {
        Err(_) => {
            return Err(ConnectError::InvalidAddress);
        },
        Ok(_) => {},
    }
    match check_header(password, HeaderField::Authorization) {
        Err(fault) => {
            return Err(fault);
        },
        Ok(_) => {},
    }
    match check_header(session_id, HeaderField::SessionId) {
        Err(fault) => {
            return Err(fault);
        },
        Ok(_) => {},
    }
    let user = to_decimal(user_id.0);
    let mut tag = CLIENT_NAME.to_owned();
    tag.append("/");
    tag.append(CLIENT_VERSION);
    let mut headers: Vec<Header> = Vec::new();
    headers.push(header("Host", address));
    headers.push(header("Connection", "Upgrade"));
    headers.push(header("Upgrade", "websocket"));
    headers.push(header("Sec-WebSocket-Version", "13"));
    headers.push(header("Sec-WebSocket-Key", key));
    headers.push(header("Authorization", password));
    headers.push(header("User-Id", user.as_str()));
    headers.push(header("Session-Id", session_id));
    headers.push(header("Client-Name", tag.as_str()));
    assert(header_views(headers@) =~= handshake_headers(
        address@,
        password@,
        user_id,
        session_id@,
        key@,
    ));
    Ok(HandshakeRequest { method: "GET".to_owned(), uri: address.to_owned(), headers })
}

} // verus!
