use vstd::prelude::*;

verus! {

use vstd::utf8::encode_utf8;
use vstd::utf8::is_ascii_chars;
use vstd::utf8::is_ascii_chars_encode_utf8;
use crate::greeting_text;
use crate::http::fallback_response;
use crate::http::greeting_response;
use crate::http::is_root_route;
use crate::http::response_of;
use crate::json::body_bytes_of;
use crate::json::is_plain_byte;
use crate::json::lemma_escape_bytes_plain;

/// The greeting body, written out: the serialized message is byte for byte
/// the UTF-8 form of `{"content":"Hello from Rust!"}`.
pub proof fn lemma_greeting_body_bytes()
    ensures
        body_bytes_of(greeting_text()) == encode_utf8("{\"content\":\"Hello from Rust!\"}"@),
        body_bytes_of(greeting_text()).len() == 30,
{
    reveal_strlit("{\"content\":\"");
    reveal_strlit("Hello from Rust!");
    reveal_strlit("\"}");
    reveal_strlit("{\"content\":\"Hello from Rust!\"}");
    let p = "{\"content\":\""@;
    let g = "Hello from Rust!"@;
    let q = "\"}"@;
    let whole = "{\"content\":\"Hello from Rust!\"}"@;
    assert(is_ascii_chars(p));
    assert(is_ascii_chars(g));
    assert(is_ascii_chars(q));
    assert(is_ascii_chars(whole));
    is_ascii_chars_encode_utf8(p);
    is_ascii_chars_encode_utf8(g);
    is_ascii_chars_encode_utf8(q);
    is_ascii_chars_encode_utf8(whole);
    assert(forall|i: int| 0 <= i < encode_utf8(g).len() ==> is_plain_byte(#[trigger] encode_utf8(g)[i]));
    lemma_escape_bytes_plain(encode_utf8(g));
    assert(whole =~= p + g + q);
    assert(body_bytes_of(greeting_text()) =~= encode_utf8(whole));
}

/// Fixed response: every request that matches the one route is answered
/// with status 200, media type `application/json`, and exactly the greeting
/// body — whatever else the request carried, and however often it is sent.
pub proof fn lemma_fixed_response(method: Seq<char>, path: Seq<char>)
    requires
        is_root_route(method, path),
    ensures
        response_of(method, path) == greeting_response(),
        response_of(method, path).status == 200,
        response_of(method, path).body == encode_utf8("{\"content\":\"Hello from Rust!\"}"@),
{
    lemma_greeting_body_bytes();
}

/// Route isolation: a request on any other path, or with any other method,
/// is never answered with the greeting — it gets the default not-found
/// response, whose body is not the greeting body.
pub proof fn lemma_route_isolation(method: Seq<char>, path: Seq<char>)
    requires
        !is_root_route(method, path),
    ensures
        response_of(method, path) == fallback_response(),
        response_of(method, path).status != 200,
        response_of(method, path).body != greeting_response().body,
{
    lemma_greeting_body_bytes();
}

/// Statelessness: any two requests that match the route get one and the
/// same response, so concurrent or interleaved greetings cannot differ —
/// the response depends on no state outside the request.
pub proof fn lemma_statelessness(
    method1: Seq<char>,
    path1: Seq<char>,
    method2: Seq<char>,
    path2: Seq<char>,
)
    requires
        is_root_route(method1, path1),
        is_root_route(method2, path2),
    ensures
        response_of(method1, path1) == response_of(method2, path2),
{
}

/// Idempotence: repeating the very same request, any number of times and in
/// any order, always draws the byte-identical response.
pub proof fn lemma_idempotence(
    method1: Seq<char>,
    path1: Seq<char>,
    method2: Seq<char>,
    path2: Seq<char>,
)
    requires
        method1 == method2,
        path1 == path2,
    ensures
        response_of(method1, path1) == response_of(method2, path2),
        response_of(method1, path1).body == response_of(method2, path2).body,
{
}

} // verus!
