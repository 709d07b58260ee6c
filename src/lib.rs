//! Converts borrowed text into typed values, with errors that carry the context in which a
//! nested conversion failed.
pub mod lending_parse;
pub mod parse_error;
mod sealed;

pub use lending_parse::{ExtParseStr, LendingFromStr};
pub use parse_error::{add_err_context, add_err_multi_context, try_parse_context, unwrap_parse, ParseError};
