use vstd::prelude::*;

verus! {

use crate::greeting_text;

/// The one data shape of the service: a message with a single text field.
///
/// A fresh value is built for every request, serialized, and dropped; it is
/// never stored or shared.
pub struct Message {
    pub content: String,
}

impl Message {
    /// Builds the fixed greeting message.
    pub fn greeting() -> (m: Message)
        ensures
            m.content@ == greeting_text(),
    {
        Message { content: "Hello from Rust!".to_owned() }
    }
}

} // verus!
