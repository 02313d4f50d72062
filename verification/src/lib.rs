//! Verified core of a window inspector: the rules that turn a window handle
//! typed on the command line, and the raw answers of the operating system's
//! windowing queries, into the lines that the tool prints.
//!
//! Nothing here talks to the operating system. The caller performs each query
//! and hands the raw answer back as plain values.

pub mod decimal;
pub mod driver;
pub mod handle;
pub mod query;
pub mod rect;
pub mod std_text;
pub mod title;
