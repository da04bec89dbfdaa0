use log_size::compute_total;
use log_size::extract_size_from_line;
use log_size::gb_display_parts;
use log_size::parse_size;
use log_size::should_print_usage;
use log_size::sum_of_lines;
use log_size::total_of;
use log_size::usage_message;
use log_size::worker_count;
use log_size::SizePattern;

const IMAGE_PATTERN: &str = r#""GET /[^"]*\.(?:jpeg|jpg|png) HTTP/1.1" 200 (\d+)"#;
const GENERIC_PATTERN: &str = r#"HTTP/1.1" 200 (\d+)"#;

fn image_pattern() -> SizePattern {
    SizePattern::new(IMAGE_PATTERN).expect("image pattern compiles")
}

fn generic_pattern() -> SizePattern {
    SizePattern::new(GENERIC_PATTERN).expect("generic pattern compiles")
}

#[test]
fn image_pattern_excludes_non_image_lines() {
    let lines = vec![
        "\"GET /a.jpg HTTP/1.1\" 200 1500".to_string(),
        "\"GET /b.html HTTP/1.1\" 200 3000".to_string(),
    ];
    assert_eq!(sum_of_lines(&lines, &image_pattern()), Some(1500));
}

#[test]
fn generic_pattern_counts_all_200_lines() {
    let lines = vec![
        "\"GET /a.jpg HTTP/1.1\" 200 1500".to_string(),
        "\"GET /b.html HTTP/1.1\" 200 3000".to_string(),
    ];
    assert_eq!(sum_of_lines(&lines, &generic_pattern()), Some(4500));
}

#[test]
fn extract_size_from_single_line() {
    let p = generic_pattern();
    assert_eq!(
        extract_size_from_line("\"GET /x.gif HTTP/1.1\" 200 77", &p),
        77
    );
    assert_eq!(extract_size_from_line("no status here", &p), 0);
}

#[test]
fn non_matching_and_non_numeric_lines_contribute_zero() {
    let lines = vec![
        "\"GET /a.png HTTP/1.1\" 200 250".to_string(),
        "completely unrelated text".to_string(),
        "\"GET /c.png HTTP/1.1\" 404 999".to_string(),
        "\"GET /d.png HTTP/1.1\" 200 9999999999999999999999999".to_string(),
        "\"GET /e.jpeg HTTP/1.1\" 200 750".to_string(),
    ];
    assert_eq!(sum_of_lines(&lines, &image_pattern()), Some(1000));
}

#[test]
fn capture_that_is_not_a_number_contributes_zero() {
    let p = SizePattern::new("size=([a-z]+)").expect("pattern compiles");
    assert_eq!(extract_size_from_line("size=abc", &p), 0);
    assert_eq!(sum_of_lines(&vec!["size=abc".to_string()], &p), Some(0));
}

#[test]
fn empty_directory_totals_zero() {
    let files: Vec<Vec<String>> = vec![];
    assert_eq!(compute_total(&files, &image_pattern()), Some(0));
}

#[test]
fn zero_matching_lines_across_files_total_zero() {
    let files = vec![
        vec!["\"GET /a.html HTTP/1.1\" 200 3000".to_string()],
        vec!["nothing to see".to_string(), "\"GET /b.css HTTP/1.1\" 200 10\n".to_string()],
        vec![],
    ];
    assert_eq!(compute_total(&files, &image_pattern()), Some(0));
}

#[test]
fn grand_total_is_exact_sum_across_files() {
    let files = vec![
        vec![
            "\"GET /a.jpg HTTP/1.1\" 200 100".to_string(),
            "\"GET /b.png HTTP/1.1\" 200 200".to_string(),
        ],
        vec!["\"GET /c.jpeg HTTP/1.1\" 200 300".to_string()],
        vec!["irrelevant".to_string()],
    ];
    assert_eq!(compute_total(&files, &image_pattern()), Some(600));
}

#[test]
fn per_file_sum_reports_overflow() {
    let big = "\"GET /a.jpg HTTP/1.1\" 200 9223372036854775807".to_string();
    let lines = vec![big.clone(), big];
    assert_eq!(sum_of_lines(&lines, &image_pattern()), None);
}

#[test]
fn invalid_pattern_is_rejected() {
    assert!(SizePattern::new("(unclosed").is_none());
}

#[test]
fn pattern_text_round_trips() {
    let p = image_pattern();
    assert_eq!(p.pattern_text(), IMAGE_PATTERN);
}

#[test]
fn parse_size_accepts_digit_runs_that_fit() {
    assert_eq!(parse_size(&b"0".to_vec()), Some(0));
    assert_eq!(parse_size(&b"4500".to_vec()), Some(4500));
    assert_eq!(parse_size(&b"000123".to_vec()), Some(123));
    assert_eq!(parse_size(&b"9223372036854775807".to_vec()), Some(i64::MAX));
}

#[test]
fn parse_size_rejects_everything_else() {
    assert_eq!(parse_size(&b"".to_vec()), None);
    assert_eq!(parse_size(&b"12a3".to_vec()), None);
    assert_eq!(parse_size(&b"-5".to_vec()), None);
    assert_eq!(parse_size(&b"9223372036854775808".to_vec()), None);
    assert_eq!(parse_size(&b"99999999999999999999".to_vec()), None);
}

#[test]
fn total_of_adds_per_file_sums() {
    assert_eq!(total_of(&vec![]), Some(0));
    assert_eq!(total_of(&vec![1500, 3000, 0]), Some(4500));
    assert_eq!(total_of(&vec![i64::MAX, 1]), None);
}

#[test]
fn missing_argument_prints_usage_only() {
    assert!(should_print_usage(1));
    assert!(should_print_usage(0));
    assert!(!should_print_usage(2));
    assert_eq!(usage_message(), "Usage: log_size_rust <path-to-log-directory>");
}

#[test]
fn worker_count_is_bounded_by_six() {
    assert_eq!(worker_count(0), 0);
    assert_eq!(worker_count(3), 3);
    assert_eq!(worker_count(6), 6);
    assert_eq!(worker_count(100), 6);
}

#[test]
fn gigabyte_parts_round_half_up() {
    assert_eq!(gb_display_parts(0), (0, 0));
    assert_eq!(gb_display_parts(4500), (0, 0));
    assert_eq!(gb_display_parts(4_999_999), (0, 0));
    assert_eq!(gb_display_parts(5_000_000), (0, 1));
    assert_eq!(gb_display_parts(1_234_567_890), (1, 23));
    assert_eq!(gb_display_parts(4_500_000_000), (4, 50));
}
