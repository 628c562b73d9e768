//! Where the signaling server is, and how its rooms are addressed.

use crate::random::random_letter_index;
use vstd::prelude::*;

verus! {

/// `String::push_str` appends the characters of the slice.
pub assume_specification[ String::push_str ](text: &mut String, other: &str)
    ensures
        final(text)@ == old(text)@ + other@,
;

/// `String::push` appends the character.
pub assume_specification[ String::push ](text: &mut String, c: char)
    ensures
        final(text)@ == old(text)@.push(c),
;

/// The code point of the letter A.
pub const FIRST_LETTER: u8 = 65;

/// Number of letters in a join code.
pub const JOIN_CODE_LEN: usize = 5;

/// The host name of the signaling server.
pub fn server_host() -> (host: &'static str)
    ensures
        host@ == "localhost"@,
{
    "localhost"
}

/// The port of the signaling server, in decimal.
pub fn server_port() -> (port: &'static str)
    ensures
        port@ == "3536"@,
{
    "3536"
}

/// Whether the signaling server is reached over TLS.
pub fn server_secure() -> (secure: bool)
    ensures
        !secure,
{
    false
}

/// The scheme of the server's WebSocket address.
pub fn server_ws_proto() -> (proto: &'static str)
    ensures
        proto@ == "ws"@,
{
    if server_secure() {
        "wss"
    } else {
        "ws"
    }
}

/// The scheme of the server's HTTP address.
pub fn server_http_proto() -> (proto: &'static str)
    ensures
        proto@ == "http"@,
{
    if server_secure() {
        "https"
    } else {
        "http"
    }
}

/// The address of the server behind a scheme: scheme, host and port.
pub open spec fn spec_server_url(proto: Seq<char>) -> Seq<char> {
    proto + "://"@ + "localhost"@ + ":"@ + "3536"@
}

/// The WebSocket address of the room `code`. A host asks for the room to
/// be created.
pub open spec fn spec_room_url(code: Seq<char>, host: bool) -> Seq<char> {
    spec_server_url("ws"@) + "/"@ + code + if host {
        "?create"@
    } else {
        Seq::<char>::empty()
    }
}

/// The HTTP address of the request `action` about the room `code`.
pub open spec fn spec_request_url(action: Seq<char>, code: Seq<char>) -> Seq<char> {
    spec_server_url("http"@) + "/"@ + action + "/"@ + code
}

/// The address of the server behind the scheme `proto`.
fn server_url(proto: &str) -> (url: String)
    ensures
        url@ == spec_server_url(proto@),
{
    let mut url = String::new();
    url.push_str(proto);
    url.push_str("://");
    url.push_str(server_host());
    url.push_str(":");
    url.push_str(server_port());
    url
}

/// The WebSocket address under which the room `code` is joined, or created
/// by its host.
pub fn room_url(code: &str, host: bool) -> (url: String)
    ensures
        url@ == spec_room_url(code@, host),
{
    let mut url = server_url(server_ws_proto());
    url.push_str("/");
    url.push_str(code);
    if host {
        url.push_str("?create");
    }
    assert(url@ =~= spec_room_url(code@, host));
    url
}

/// The address that tells whether the room `code` exists and can be joined.
pub fn room_exists_url(code: &str) -> (url: String)
    ensures
        url@ == spec_request_url("room_exists"@, code@),
{
    let mut url = server_url(server_http_proto());
    url.push_str("/");
    url.push_str("room_exists");
    url.push_str("/");
    url.push_str(code);
    url
}

/// The address that marks the room `code` as started.
pub fn mark_started_url(code: &str) -> (url: String)
    ensures
        url@ == spec_request_url("mark_started"@, code@),
{
    let mut url = server_url(server_http_proto());
    url.push_str("/");
    url.push_str("mark_started");
    url.push_str("/");
    url.push_str(code);
    url
}

/// Whether `c` is a capital letter of the Latin alphabet.
pub open spec fn spec_is_capital(c: char) -> bool {
    'A' <= c <= 'Z'
}

/// The letter of the alphabet with the given index.
fn letter(index: u8) -> (c: char)
    requires
        index < 26,
    ensures
        c as int == 'A' as int + index,
        spec_is_capital(c),
{
    (FIRST_LETTER + index) as char
}

/// A join code: five letters from A to Z, each drawn at random.
pub fn generate_join_code() -> (code: String)
    ensures
        code@.len() == JOIN_CODE_LEN,
        forall|i: int| 0 <= i < code@.len() ==> spec_is_capital(#[trigger] code@[i]),
{
    let mut code = String::new();
    let mut i: usize = 0;
    while i < JOIN_CODE_LEN
        invariant
            i <= JOIN_CODE_LEN,
            code@.len() == i,
            forall|j: int| 0 <= j < code@.len() ==> spec_is_capital(#[trigger] code@[j]),
        decreases JOIN_CODE_LEN - i,
    {
        code.push(letter(random_letter_index()));
        i = i + 1;
    }
    code
}

} // verus!
