//! Kernel-statistics measurement backend.
//!
//! The kernel exposes a per-process statistics line whose fields are sizes
//! in memory pages; the second field is the resident-set size. A sample is
//! that page count times the system page size in bytes, divided by 1000 to
//! give kilobytes. A missing or malformed field, a page count that does
//! not fit, or an overflowing product all degrade to "no contribution for
//! this sample": the polling loop goes on.

use vstd::prelude::*;

use crate::parse::{all_digits, dec_val, field_two, parse_u64, skip_spaces_at, token_end_at};

verus! {

/// The sample a statistics line yields: resident pages times page size,
/// truncated to kilobytes; `None` when the line cannot contribute.
pub open spec fn spec_statm_kb(line: Seq<u8>, page_size: u64) -> Option<u64> {
    match field_two(line) {
        None => None,
        Some(f) => if f.len() > 0 && all_digits(f) && dec_val(f) <= u64::MAX && dec_val(f)
            * page_size <= u64::MAX {
            Some(((dec_val(f) * page_size) / 1000) as u64)
        } else {
            None
        },
    }
}

/// Convert a resident page count to kilobytes: pages times page size in
/// bytes, divided by 1000 with truncation; `None` when the product does
/// not fit in a `u64`.
pub fn pages_to_kilobytes(pages: u64, page_size: u64) -> (r: Option<u64>)
    ensures
        pages * page_size <= u64::MAX ==> r == Some(((pages * page_size) / 1000) as u64),
        pages * page_size > u64::MAX ==> r is None,
{
    match pages.checked_mul(page_size) {
        Some(bytes) => Some(bytes / 1000),
        None => None,
    }
}

/// Reduce one statistics line to a kilobyte sample: take the second
/// whitespace-separated field as the resident page count and convert it.
pub fn statm_sample_kb(line: &[u8], page_size: u64) -> (r: Option<u64>)
    ensures
        r == spec_statm_kb(line@, page_size),
{
    let a0 = skip_spaces_at(line, 0);
    let e0 = token_end_at(line, a0);
    let a1 = skip_spaces_at(line, e0);
    let e1 = token_end_at(line, a1);
    if a1 >= line.len() {
        return None;
    }
    let f = vstd::slice::slice_subrange(line, a1, e1);
    match parse_u64(f) {
        Some(pages) => pages_to_kilobytes(pages, page_size),
        None => None,
    }
}

} // verus!
