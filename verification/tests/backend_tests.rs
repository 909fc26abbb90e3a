use peakmem::parse::{bytes_eq, is_decimal, parse_u64};
use peakmem::report::{report_sample_kb, BackendError};
use peakmem::statm::{pages_to_kilobytes, statm_sample_kb};

#[test]
fn parse_u64_reads_decimal_numbers() {
    assert_eq!(parse_u64(b"0"), Some(0));
    assert_eq!(parse_u64(b"100"), Some(100));
    assert_eq!(parse_u64(b"18446744073709551615"), Some(u64::MAX));
    assert_eq!(parse_u64(b"18446744073709551616"), None);
    assert_eq!(parse_u64(b""), None);
    assert_eq!(parse_u64(b"12a"), None);
    assert_eq!(parse_u64(b"-3"), None);
}

#[test]
fn byte_helpers_compare_and_classify() {
    assert!(bytes_eq(b"abc", b"abc"));
    assert!(!bytes_eq(b"abc", b"abd"));
    assert!(!bytes_eq(b"abc", b"ab"));
    assert!(is_decimal(b"007"));
    assert!(!is_decimal(b""));
    assert!(!is_decimal(b"7k"));
}

#[test]
fn page_conversion_truncates_to_kilobytes() {
    assert_eq!(pages_to_kilobytes(10, 4096), Some(40));
    assert_eq!(pages_to_kilobytes(567, 4096), Some(2322));
    assert_eq!(pages_to_kilobytes(0, 4096), Some(0));
    assert_eq!(pages_to_kilobytes(u64::MAX, 2), None);
}

#[test]
fn statm_line_uses_second_field() {
    assert_eq!(statm_sample_kb(b"1234 567 89 0 0 0 0", 4096), Some(2322));
    assert_eq!(statm_sample_kb(b"  1234   567  ", 4096), Some(2322));
    assert_eq!(statm_sample_kb(b"1234", 4096), None);
    assert_eq!(statm_sample_kb(b"", 4096), None);
    assert_eq!(statm_sample_kb(b"1234 x7 9", 4096), None);
}

#[test]
fn report_sums_matching_rows() {
    let text = b"exe 100k\nlibfoo.so 50k\nrandomfile 9999k\n[anon] 25k";
    assert_eq!(report_sample_kb(text, b"exe"), Ok(175));
}

#[test]
fn report_skips_unmatched_rows_whatever_their_size_field() {
    let text = b"randomfile junk\nexe 10k";
    assert_eq!(report_sample_kb(text, b"exe"), Ok(10));
}

#[test]
fn report_accepts_sizes_without_unit_letter() {
    let text = b"exe 100\nlibc.so 5K";
    assert_eq!(report_sample_kb(text, b"exe"), Ok(105));
}

#[test]
fn report_empty_text_sums_to_zero() {
    assert_eq!(report_sample_kb(b"", b"exe"), Ok(0));
    assert_eq!(report_sample_kb(b"\n\n", b"exe"), Ok(0));
}

#[test]
fn report_malformed_matching_row_is_a_hard_failure() {
    let text = b"exe abc";
    assert_eq!(report_sample_kb(text, b"exe"), Err(BackendError::MalformedSizeField));
    let text2 = b"[anon]";
    assert_eq!(report_sample_kb(text2, b"exe"), Err(BackendError::MalformedSizeField));
}

#[test]
fn report_too_large_size_is_an_overflow() {
    let text = b"exe 18446744073709551616k";
    assert_eq!(report_sample_kb(text, b"exe"), Err(BackendError::SizeOverflow));
    let text2 = b"exe 18446744073709551615k\nlibc.so 1k";
    assert_eq!(report_sample_kb(text2, b"exe"), Err(BackendError::SizeOverflow));
}
