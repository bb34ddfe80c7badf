//! The chat-completions endpoint surface. Transport is supplied by a
//! caller-side client; this type only groups the pure operations.

use vstd::prelude::*;

verus! {

/// Handle grouping the chat-completion operations. It carries no state of
/// its own; the HTTP transport lives entirely with the caller.
#[derive(Debug, Clone, Copy, PartialEq)]
pub struct Chat {
}

impl Chat {
    pub fn new() -> (r: Chat)
        ensures
            r == (Chat {  }),
    {
        Chat {  }
    }

    /// Whether a request asking for these stream settings may be sent on the
    /// unary completion path; a streaming request must use the stream path.
    pub fn accepts_request(&self, stream: Option<bool>) -> (r: bool)
        ensures
            r == (stream != Some(true)),
    {
        match stream {
            Some(b) => !b,
            None => true,
        }
    }
}

} // verus!
