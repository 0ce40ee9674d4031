//! A minimal HTTP/1.1 request pipeline: line-oriented request parsing,
//! a fixed routing table, and response serialization, all verified.
//!
//! The library is pure computation over strings and numbers. A caller
//! (an ordinary async binary) reads lines from a socket, hands them to
//! [`route::handle_lines`], carries out the returned plan (possibly
//! touching the file system), and writes the rendered response back.

pub mod error;
pub mod laws;
pub mod numerals;
pub mod parse;
pub mod render;
pub mod route;
pub mod text;

pub use error::HttpError;
