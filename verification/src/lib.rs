//! Merge decoder for chat-completion responses that may carry
//! content-filtering extension fields alongside the base schema.
//!
//! A response document is decoded once into a Merged Record that exposes
//! the base fields and the extension fields side by side, and a Merged
//! Record serializes back to the same flattened wire shape.

pub mod catalog;
pub mod codec;
pub mod chat;
pub mod errors;
pub mod json;
pub mod laws;
pub mod types;

use vstd::prelude::*;
use crate::chat::Chat;

verus! {

/// Extension surface for transport clients that can serve the
/// chat-completions endpoint.
pub trait ClientExt {
    fn chat(&self) -> Chat;
}

} // verus!
