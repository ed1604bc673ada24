//! A one-shot cache of an upstream search document, with case-insensitive
//! substring search over its `results` array.

pub mod cache;
pub mod front;
pub mod json;
pub mod query;
pub mod refresh;
pub mod text;
