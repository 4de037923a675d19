//! Extraction of fenced code blocks from free-form text.
//!
//! A fence is a run of three backticks. A block opens at a fence, may name a
//! language and a destination path on its header, and closes at the next
//! fence after the header. Everything here works on character offsets into a
//! buffer of `char`s that is never modified.

pub mod chars;
pub mod block;
pub mod scan;
pub mod parser;
pub mod laws;

pub use block::{ExtractedBlock, Failure, Outcome, ScanError};
pub use parser::CodeParser;
