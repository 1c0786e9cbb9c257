//! Error values for a streaming XML tokenizer.
//!
//! Two tiers of errors are defined here: [`StreamError`] for lexical
//! failures inside a single construct (a name, a quoted literal, a
//! reference), and [`Error`] for token-level failures reported to the
//! tokenizer's caller, optionally chaining one `StreamError` as cause.
//! Both carry an [`ErrorPos`] (1-based row and column) and render to a
//! single-line human-readable diagnostic whose exact text is part of
//! each `display` method's contract.

pub mod error;
pub mod position;
pub mod stream;
pub mod text;
pub mod token;

pub use error::Error;
pub use position::ErrorPos;
pub use stream::StreamError;
pub use token::TokenType;
