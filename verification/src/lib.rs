//! Core terms of a dependently typed language and their encoding as
//! symbolic expressions, with decoding that resolves variables to de Bruijn
//! indices and names to references.
pub mod context;
pub mod forms;
pub mod literal;
pub mod primop;
pub mod roundtrip;
pub mod sexpr;
pub mod term;
pub mod uses;

pub use vstd::hash_map::StringHashMap;
