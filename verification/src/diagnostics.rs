//! The texts of outside errors, paths and durations, as error messages show them.
//!
//! These texts come from `Display` and `Debug` of outside types. What an I/O error
//! says depends on the operating system, a path may not be valid UTF-8, and the
//! debug form of a duration is the standard library's own, so nothing is promised
//! of them here; the messages that include them state where they stand.
use crate::text::{decimal, push_char, push_decimal, push_str};
use std::path::PathBuf;
use std::time::Duration;
use vstd::prelude::*;

verus! {

/// `io::Error` as `Display` writes it.
#[verifier::external_body]
pub(crate) fn io_error_text(error: &std::io::Error) -> String {
    error.to_string()
}

/// `rusqlite::Error` as `Display` writes it.
#[verifier::external_body]
pub(crate) fn sql_error_text(error: &rusqlite::Error) -> String {
    error.to_string()
}

/// `ytd_rs::error::YtDlpError` as `Display` writes it.
#[verifier::external_body]
pub(crate) fn yt_dlp_error_text(error: &ytd_rs::error::YtDlpError) -> String {
    error.to_string()
}

/// `Path::display` of a path, as text.
#[verifier::external_body]
pub(crate) fn path_display_text(path: &PathBuf) -> String {
    path.display().to_string()
}

/// `Duration` as `Debug` writes it.
#[verifier::external_body]
pub(crate) fn duration_debug_text(duration: &Duration) -> String {
    format!("{duration:?}")
}

/// An integer in decimal, with a minus sign when negative.
pub open spec fn signed_decimal(n: int) -> Seq<char> {
    if n < 0 {
        seq!['-'] + decimal((-n) as nat)
    } else {
        decimal(n as nat)
    }
}

/// An optional exit code as `Debug` writes it: `Some(3)` or `None`.
pub open spec fn exit_code_debug(code: Option<i32>) -> Seq<char> {
    match code {
        Some(n) => "Some("@ + signed_decimal(n as int) + ")"@,
        None => "None"@,
    }
}

/// Appends an integer in decimal.
pub fn push_signed(s: &mut String, n: i64)
    ensures
        final(s)@ == old(s)@ + signed_decimal(n as int),
{
    if n < 0 {
        push_char(s, '-');
        let magnitude: u64 = if n == i64::MIN {
            9223372036854775808u64
        } else {
            (0i64 - n) as u64
        };
        push_decimal(s, magnitude);
        assert(old(s)@ + signed_decimal(n as int) =~= old(s)@.push('-') + decimal(magnitude as nat));
    } else {
        push_decimal(s, n as u64);
    }
}

/// Appends an optional exit code as `Debug` writes it.
pub fn push_exit_code(s: &mut String, code: Option<i32>)
    ensures
        final(s)@ == old(s)@ + exit_code_debug(code),
{
    match code {
        Some(n) => {
            push_str(s, "Some(");
            push_signed(s, n as i64);
            push_str(s, ")");
            assert(old(s)@ + exit_code_debug(code) =~= old(s)@ + "Some("@ + signed_decimal(n as int) + ")"@);
        },
        None => {
            push_str(s, "None");
        },
    }
}

/// Whether `s` ends with `p`.
pub open spec fn ends_with(s: Seq<char>, p: Seq<char>) -> bool {
    p.len() <= s.len() && s.subrange(s.len() - p.len(), s.len() as int) =~= p
}

} // verus!
