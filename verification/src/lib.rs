//! Terminal text styling with ANSI escape sequences.
//!
//! Styled regions may be nested: when an inner region ends, the output
//! re-asserts the enclosing region's style rather than falling back to the
//! terminal default. A [`context::ColorContext`] tracks the active styles as
//! a stack that always holds at least the sentinel default entry, and
//! [`style::apply`] wraps content in a code, closes it with the universal
//! reset, and appends the enclosing code from the stack.

pub mod codes;
pub mod colorspace;
pub mod context;
pub mod laws;
pub mod style;
pub mod types;

pub use context::ColorContext;
pub use types::Colours;
