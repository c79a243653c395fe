//! Line, word, byte and character counts of text files: the argument parser,
//! the counting engine and the decisions of the report.

pub mod config;
pub mod render;
pub mod report;
pub mod text;

pub use config::Config;
pub use config::ParseError;
pub use report::Counts;
pub use text::count_bytes;
pub use text::count_chars;
pub use text::count_lines;
pub use text::count_words;
