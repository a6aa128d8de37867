use vstd::prelude::*;

verus! {

use vstd::string::StrSliceExecFns;
use crate::greeting_text;
use crate::json::body_bytes_of;
use crate::json::json_body;
use crate::message::Message;

/// Where the route table sends a request.
#[derive(PartialEq, Eq, Structural, Clone, Copy, Debug)]
pub enum RouteDecision {
    /// The request matched `GET /`: the greeting handler answers.
    Root,
    /// No route matched: the listener's default not-found answer stands.
    NoMatch,
}

/// The route table holds exactly one entry: the method `GET` on the path `/`.
pub open spec fn is_root_route(method: Seq<char>, path: Seq<char>) -> bool {
    method == "GET"@ && path == "/"@
}

/// Where a request with the given method and path is routed.
pub open spec fn spec_route(method: Seq<char>, path: Seq<char>) -> RouteDecision {
    if is_root_route(method, path) {
        RouteDecision::Root
    } else {
        RouteDecision::NoMatch
    }
}

/// An HTTP response as the service decides it: status code, media type of
/// the body, and the body bytes. The listener writes it to the wire as is.
pub struct Response {
    pub status: u16,
    pub content_type: String,
    pub body: Vec<u8>,
}

/// The mathematical image of a [`Response`].
#[verifier::ext_equal]
pub ghost struct ResponseModel {
    pub status: int,
    pub content_type: Seq<char>,
    pub body: Seq<u8>,
}

impl View for Response {
    type V = ResponseModel;

    open spec fn view(&self) -> ResponseModel {
        ResponseModel {
            status: self.status as int,
            content_type: self.content_type@,
            body: self.body@,
        }
    }
}

/// The one successful response the service ever sends: status 200, media
/// type `application/json`, and the greeting message as its JSON body.
pub open spec fn greeting_response() -> ResponseModel {
    ResponseModel {
        status: 200,
        content_type: "application/json"@,
        body: body_bytes_of(greeting_text()),
    }
}

/// The answer to every request no route matches: a plain not-found status
/// with nothing in the body, as an HTTP framework sends by default.
pub open spec fn fallback_response() -> ResponseModel {
    ResponseModel { status: 404, content_type: Seq::empty(), body: Seq::empty() }
}

/// The response the service gives to any request, as a function of the
/// request's method and path alone.
pub open spec fn response_of(method: Seq<char>, path: Seq<char>) -> ResponseModel {
    if is_root_route(method, path) {
        greeting_response()
    } else {
        fallback_response()
    }
}

/// Character-by-character string equality.
fn str_eq(a: &str, b: &str) -> (r: bool)
    ensures
        r == (a@ == b@),
{
    let an = a.unicode_len();
    let bn = b.unicode_len();
    if an != bn {
        return false;
    }
    let mut i: usize = 0;
    while i < an
        invariant
            an == a@.len(),
            an == b@.len(),
            i <= an,
            forall|j: int| 0 <= j < i ==> a@[j] == b@[j],
        decreases an - i,
    {
        if a.get_char(i) != b.get_char(i) {
            return false;
        }
        i = i + 1;
    }
    assert(a@ =~= b@);
    true
}

/// Routes a request: the greeting handler for `GET /`, the default
/// not-found answer for everything else.
pub fn route(method: &str, path: &str) -> (d: RouteDecision)
    ensures
        d == spec_route(method@, path@),
{
    if str_eq(method, "GET") && str_eq(path, "/") {
        RouteDecision::Root
    } else {
        RouteDecision::NoMatch
    }
}

/// The handler for `GET /`: builds a fresh greeting message and serializes
/// it. It touches nothing outside its own frame and cannot fail.
pub fn handle_root() -> (r: Response)
    ensures
        r@ == greeting_response(),
{
    let m = Message::greeting();
    let body = json_body(m.content.as_str());
    let r = Response {
        status: 200,
        content_type: "application/json".to_owned(),
        body,
    };
    assert(r@ =~= greeting_response());
    r
}

/// Answers one request: the fixed greeting for `GET /`, the default
/// not-found response for any other method or path.
pub fn handle_request(method: &str, path: &str) -> (r: Response)
    ensures
        r@ == response_of(method@, path@),
{
    match route(method, path) {
        RouteDecision::Root => handle_root(),
        RouteDecision::NoMatch => {
            let r = Response { status: 404, content_type: String::new(), body: Vec::new() };
            assert(r@ =~= fallback_response());
            r
        },
    }
}

} // verus!
