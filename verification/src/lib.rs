//! Sums a numeric byte-size field out of web-server access logs.
//!
//! A log line contributes its captured size when it matches a configurable
//! size pattern (a regular expression with one numeric capture group); all
//! other lines contribute zero. Per-file sums are added into one grand
//! total, which is independent of the order in which files are processed.

mod parse;
mod pattern;
mod report;
mod scan;

pub use parse::all_digits;
pub use parse::digits_val;
pub use parse::parse_decimal;
pub use parse::parse_size;
pub use pattern::captured_group;
pub use pattern::extract_size_from_line;
pub use pattern::extracted_size;
pub use pattern::has_size;
pub use pattern::lemma_extracted_size_bounds;
pub use pattern::lemma_line_without_size_contributes_zero;
pub use pattern::regex_compiles;
pub use pattern::SizePattern;
pub use report::gb_display_parts;
pub use report::gb_hundredths;
pub use report::should_print_usage;
pub use report::usage_message;
pub use report::worker_count;
pub use scan::compute_total;
pub use scan::file_total;
pub use scan::grand_total;
pub use scan::lemma_file_total_counts_only_matching_lines;
pub use scan::lemma_no_matching_lines_total_zero;
pub use scan::lemma_total_is_sum_of_file_totals;
pub use scan::lemma_total_order_independent;
pub use scan::lines_of;
pub use scan::matching_lines;
pub use scan::sum_i64;
pub use scan::sum_of_lines;
pub use scan::total_of;
