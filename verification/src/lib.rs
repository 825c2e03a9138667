//! Verified core of the LiteParse Ruby bindings: option parsing, the parser
//! configuration that the bindings build from keyword arguments, the
//! read-only configuration report, and the records that a parse returns.

pub mod cli;
pub mod config;
pub mod formats;
pub mod headers;
pub mod records;
pub mod report;
pub mod text;
