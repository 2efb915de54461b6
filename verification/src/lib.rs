//! Counting lines, words, characters and bytes of text or binary input.
//!
//! The crate is the verified core of a `wc`-style tool. [`classify`] decides
//! whether a byte buffer is UTF-8 text or opaque binary data, [`accumulate`]
//! scans the classified input once and produces its [`FileStats`], and
//! [`FileStats::add`] sums such records into a total. [`CommandOptions::build`]
//! turns command-line arguments into the selection of counters to show, and
//! [`summarize_files`] and [`summarize_stream`] render the lines that a run
//! prints.
//!
//! What each function computes is stated over the mathematical model in
//! [`model`]: a line for every newline unit, a word for every maximal run of
//! units that are not spaces.

pub mod decode;
pub mod model;
pub mod options;
pub mod report;
pub mod scan;
pub mod stats;
pub mod unit;

pub use decode::{classify, classify_read, ReadResult};
pub use options::CommandOptions;
pub use report::{decimal_text, format_row, summarize_files, summarize_stream};
pub use scan::{accumulate, get_stats, get_stats_bin};
pub use stats::{combine, FileStats};
pub use unit::{Unit, UnitClass};
