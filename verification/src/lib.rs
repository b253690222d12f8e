//! A verified core for a small word-count utility.
//!
//! The library counts words and lines in text sources, selects the reported
//! quantity by a mode flag, renders the single-source and multi-source
//! summaries, and formats the error lines for sources that fail to resolve.
//! Reading files, standard input and the command line is left to the
//! surrounding binary.

pub mod count;
pub mod report;
pub mod resolve;
