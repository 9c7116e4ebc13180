//! Choosing between a named file and a standard stream.
//!
//! Command-line tools often read from a file when a file name is given and
//! from standard input otherwise, or write to a file when a name is given and
//! to standard output otherwise. The selectors here make that choice once,
//! from an optional path, so that the caller never branches on it again.
//!
//! The exit helper decides, for a computation that may have failed, whether a
//! program goes on with a value or stops with a one-line diagnostic.
pub mod exit;
pub mod select;

pub use exit::{diagnose_option, diagnose_result, failure_line};
pub use select::{Input, Output};
