//! A backtracking parser-combinator engine over in-memory token streams.
//!
//! A grammar is an expression tree of small parsers; running it is a single
//! recursive descent driven by a [`stream::Stream`] cursor.
pub mod analyzer;
pub mod combinator;
pub mod determinism;
pub mod diagnostics;
pub mod error;
pub mod laws;
pub mod parser;
pub mod primitive;
pub mod progress;
pub mod repetition;
pub mod stream;
