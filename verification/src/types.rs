//! The data model: base-schema types, content-filtering extension types,
//! and the Merged Record that unifies them.

pub mod chat;
pub mod content_filtering;
pub mod merged;
