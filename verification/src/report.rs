//! Memory-map report measurement backend.
//!
//! A memory-map report is tabular text, one mapping per line: a descriptor
//! field followed by a size field in kilobytes with a trailing unit letter.
//! The sample is the sum of the sizes of the rows whose descriptor matches
//! the profiled executable's own name, the anonymous-mapping marker, or a
//! shared-library name. Rows that do not match are skipped; a matching row
//! whose size is not numeric is a hard failure, as is a sum that does not
//! fit in a `u64` — a silently wrong peak would be worse than a crash.

use vstd::prelude::*;
use vstd::string::StringSliceAdditionalSpecFns;

use crate::parse::{
    all_digits, bytes_eq, dec_val, field_one, field_two, is_decimal, parse_u64, skip_spaces_at,
    token_end_at,
};

verus! {

/// Why a report could not be reduced to a sample.
#[derive(Clone, Copy, Debug, PartialEq, Eq, Structural)]
pub enum BackendError {
    /// A row that matches the descriptor filter has no numeric size field.
    MalformedSizeField,
    /// The summed sizes do not fit in a `u64` of kilobytes.
    SizeOverflow,
}

/// ASCII letter, as used for the size field's trailing unit.
pub open spec fn is_letter(b: u8) -> bool {
    (65 <= b <= 90) || (97 <= b <= 122)
}

/// The size field with a trailing unit letter stripped, if one is there.
pub open spec fn strip_unit(f: Seq<u8>) -> Seq<u8> {
    if f.len() > 0 && is_letter(f.last()) {
        f.drop_last()
    } else {
        f
    }
}

/// The descriptor of an anonymous mapping.
pub open spec fn anon_descriptor() -> Seq<u8> {
    "[anon]".spec_bytes()
}

/// The prefix that marks a shared-library mapping.
pub open spec fn lib_prefix() -> Seq<u8> {
    "lib".spec_bytes()
}

/// Whether a row's descriptor counts toward the sample: the executable's
/// own name, an anonymous mapping, or a shared-library name.
pub open spec fn descriptor_matches(d: Seq<u8>, exe: Seq<u8>) -> bool {
    d == exe || d == anon_descriptor() || (d.len() >= lib_prefix().len() && d.subrange(
        0,
        lib_prefix().len() as int,
    ) == lib_prefix())
}

/// The kilobytes one row contributes: zero for a blank row or one whose
/// descriptor does not match; an error for a matching row whose size field
/// is missing, not numeric, or too large for a `u64`.
pub open spec fn spec_row_kb(line: Seq<u8>, exe: Seq<u8>) -> Result<u64, BackendError> {
    match field_one(line) {
        None => Ok(0),
        Some(d) => if !descriptor_matches(d, exe) {
            Ok(0)
        } else {
            match field_two(line) {
                None => Err(BackendError::MalformedSizeField),
                Some(f) => {
                    let digits = strip_unit(f);
                    if digits.len() > 0 && all_digits(digits) {
                        if dec_val(digits) <= u64::MAX {
                            Ok(dec_val(digits) as u64)
                        } else {
                            Err(BackendError::SizeOverflow)
                        }
                    } else {
                        Err(BackendError::MalformedSizeField)
                    }
                },
            }
        },
    }
}

/// The first index at or after `i` that holds a line break, or the length
/// of the text.
pub open spec fn line_end(s: Seq<u8>, i: int) -> int
    decreases s.len() - i,
{
    if 0 <= i < s.len() && s[i] != 10 {
        line_end(s, i + 1)
    } else {
        i
    }
}

/// The sum of the matching rows from position `i` on, given the kilobytes
/// `acc` already summed; rows are read in order and the first failure ends
/// the scan.
pub open spec fn spec_scan(s: Seq<u8>, exe: Seq<u8>, i: int, acc: u64) -> Result<
    u64,
    BackendError,
>
    decreases s.len() + 1 - i,
    via spec_scan_decreases
{
    if i >= s.len() || i < 0 {
        Ok(acc)
    } else {
        let e = line_end(s, i);
        match spec_row_kb(s.subrange(i, e), exe) {
            Err(err) => Err(err),
            Ok(v) => if acc + v > u64::MAX {
                Err(BackendError::SizeOverflow)
            } else {
                spec_scan(s, exe, e + 1, (acc + v) as u64)
            },
        }
    }
}

#[via_fn]
proof fn spec_scan_decreases(s: Seq<u8>, exe: Seq<u8>, i: int, acc: u64) {
    if 0 <= i < s.len() {
        lemma_line_end_range(s, i);
    }
}

/// The sample a whole report yields for the given executable name.
pub open spec fn spec_report_kb(s: Seq<u8>, exe: Seq<u8>) -> Result<u64, BackendError> {
    spec_scan(s, exe, 0, 0)
}

proof fn lemma_line_end_range(s: Seq<u8>, i: int)
    requires
        0 <= i <= s.len(),
    ensures
        i <= line_end(s, i) <= s.len(),
    decreases s.len() - i,
{
    if i < s.len() && s[i] != 10 {
        lemma_line_end_range(s, i + 1);
    }
}

fn find_line_end(s: &[u8], i: usize) -> (r: usize)
    requires
        i <= s@.len(),
    ensures
        r == line_end(s@, i as int),
        i <= r <= s@.len(),
{
    let mut j: usize = i;
    while j < s.len() && s[j] != 10
        invariant
            i <= j <= s@.len(),
            line_end(s@, i as int) == line_end(s@, j as int),
        decreases s@.len() - j,
    {
        j = j + 1;
    }
    j
}

fn is_letter_byte(b: u8) -> (r: bool)
    ensures
        r == is_letter(b),
{
    (b >= 65 && b <= 90) || (b >= 97 && b <= 122)
}

/// Whether a row's descriptor counts toward the sample.
fn descriptor_matches_bytes(d: &[u8], exe: &[u8]) -> (r: bool)
    ensures
        r == descriptor_matches(d@, exe@),
{
    if bytes_eq(d, exe) {
        return true;
    }
    let anon = "[anon]".as_bytes();
    if bytes_eq(d, anon) {
        return true;
    }
    let lib = "lib".as_bytes();
    if d.len() >= lib.len() {
        let head = vstd::slice::slice_subrange(d, 0, lib.len());
        bytes_eq(head, lib)
    } else {
        false
    }
}

/// The kilobytes one row contributes.
fn row_kb(line: &[u8], exe: &[u8]) -> (r: Result<u64, BackendError>)
    ensures
        r == spec_row_kb(line@, exe@),
{
    let a0 = skip_spaces_at(line, 0);
    let e0 = token_end_at(line, a0);
    if a0 >= line.len() {
        return Ok(0);
    }
    let d = vstd::slice::slice_subrange(line, a0, e0);
    if !descriptor_matches_bytes(d, exe) {
        return Ok(0);
    }
    let a1 = skip_spaces_at(line, e0);
    let e1 = token_end_at(line, a1);
    if a1 >= line.len() {
        return Err(BackendError::MalformedSizeField);
    }
    let f = vstd::slice::slice_subrange(line, a1, e1);
    let digits = if f.len() > 0 && is_letter_byte(f[f.len() - 1]) {
        proof {
            assert(f@.drop_last() =~= f@.subrange(0, f@.len() - 1));
        }
        vstd::slice::slice_subrange(f, 0, f.len() - 1)
    } else {
        f
    };
    if !is_decimal(digits) {
        return Err(BackendError::MalformedSizeField);
    }
    match parse_u64(digits) {
        Some(v) => Ok(v),
        None => Err(BackendError::SizeOverflow),
    }
}

/// Reduce a memory-map report to a kilobyte sample: sum the size fields of
/// the rows whose descriptor matches the executable's name, an anonymous
/// mapping, or a shared-library name, reading the rows in order.
pub fn report_sample_kb(text: &[u8], exe: &[u8]) -> (r: Result<u64, BackendError>)
    ensures
        r == spec_report_kb(text@, exe@),
{
    let mut i: usize = 0;
    let mut acc: u64 = 0;
    while i < text.len()
        invariant
            i <= text@.len(),
            spec_report_kb(text@, exe@) == spec_scan(text@, exe@, i as int, acc),
        decreases text@.len() - i,
    {
        let e = find_line_end(text, i);
        let line = vstd::slice::slice_subrange(text, i, e);
        match row_kb(line, exe) {
            Err(err) => {
                return Err(err);
            },
            Ok(v) => match acc.checked_add(v) {
                None => {
                    return Err(BackendError::SizeOverflow);
                },
                Some(n) => {
                    acc = n;
                },
            },
        }
        if e < text.len() {
            i = e + 1;
        } else {
            proof {
                assert(spec_scan(text@, exe@, e + 1, acc) == spec_scan(text@, exe@, e as int, acc));
            }
            i = e;
        }
    }
    Ok(acc)
}

} // verus!
