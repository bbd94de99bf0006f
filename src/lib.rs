//! A line-oriented literal text search: match evaluation, highlighting,
//! per-file scanning with counting, and the traversal decisions that drive a
//! walk over files and directories.

pub mod flags;
pub mod highlight;
pub mod matcher;
pub mod records;
pub mod scan;
pub mod text;
pub mod walk;

pub use flags::Flags;
pub use highlight::highlight;
pub use matcher::{is_match, match_compared};
pub use records::{
    decimal_string, format_count_record, format_diagnostic, format_line_record,
    format_total_record,
};
pub use scan::FileScan;
pub use text::{chars_of, contains_seq, occurs_at};
pub use walk::{add_counts, plan, PathKind, Visit, Walk};
