//! Splits one generated text into per-file segments keyed by file stem, and
//! decides, file by file, how each segment is merged into its file.

pub mod extract;
pub mod locate;
pub mod merge;
pub mod pattern;
pub mod prompt;
