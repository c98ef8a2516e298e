//! Card catalog core: identifier parsing, payload validation, canonicalization
//! caches, full-card assembly and the card-creation unit of work.

pub mod assoc;
pub mod cache;
pub mod errors;
pub mod identifier;
pub mod laws;
pub mod models;
pub mod payload;
pub mod reader;
pub mod writer;
