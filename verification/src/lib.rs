//! A minimal HTTP greeter service, modelled and verified.
//!
//! The library holds everything the service decides or computes: the fixed
//! greeting message, its JSON encoding, the route table, and the response
//! for every request. The network listener around it only moves bytes.

use vstd::prelude::*;

mod http;
mod json;
mod laws;
mod message;

pub use http::Response;
pub use http::ResponseModel;
pub use http::RouteDecision;
pub use http::fallback_response;
pub use http::greeting_response;
pub use http::handle_request;
pub use http::handle_root;
pub use http::is_root_route;
pub use http::response_of;
pub use http::route;
pub use http::spec_route;
pub use json::body_bytes_of;
pub use json::json_body;
pub use laws::lemma_fixed_response;
pub use laws::lemma_greeting_body_bytes;
pub use laws::lemma_idempotence;
pub use laws::lemma_route_isolation;
pub use laws::lemma_statelessness;
pub use message::Message;

verus! {

/// The fixed greeting text carried by every successful response.
pub open spec fn greeting_text() -> Seq<char> {
    "Hello from Rust!"@
}

} // verus!
