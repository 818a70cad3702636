//! Tracing of input events to a log file, switched on by
//! `LAZYGITRS_INPUT_TRACE`: which file it goes to and how a line reads.

use vstd::prelude::*;
use crate::text::{append_chars, decimal, decimal_of, eq_ignore_ascii_case, str_is, to_chars};

verus! {

/// Name of the trace file in the temporary directory.
pub const TRACE_FILE_NAME: &'static str = "lazygitrs-input-trace.log";

/// Where input tracing writes.
#[derive(Debug, Clone, PartialEq, Eq)]
pub enum TraceTarget {
    /// The file of this name in the system's temporary directory.
    TempFile(String),
    /// The given path.
    Path(String),
}

/// Where a value of `LAZYGITRS_INPUT_TRACE` sends the trace: nowhere when
/// unset, empty or `0`; the default file for `1` or `true` in any letter
/// case; else the path given.
pub open spec fn trace_target_spec(value: Option<Seq<char>>) -> Option<(bool, Seq<char>)> {
    match value {
        None => None,
        Some(v) => if v.len() == 0 || v == "0"@ {
            None
        } else if v == "1"@ || eq_ignore_ascii_case(v, "true"@) {
            Some((true, TRACE_FILE_NAME@))
        } else {
            Some((false, v))
        },
    }
}

impl TraceTarget {
    /// `(true, name)` for a file in the temporary directory, `(false, path)`
    /// for a path.
    pub open spec fn model(&self) -> (bool, Seq<char>) {
        match self {
            TraceTarget::TempFile(n) => (true, n@),
            TraceTarget::Path(p) => (false, p@),
        }
    }
}

/// Where a value of `LAZYGITRS_INPUT_TRACE` sends the trace.
pub fn target_from_env(value: Option<&str>) -> (r: Option<TraceTarget>)
    ensures
        match r {
            Some(t) => trace_target_spec(crate::pager::languages::opt_view(value)) == Some(t.model()),
            None => trace_target_spec(crate::pager::languages::opt_view(value)) is None,
        },
{
    match value {
        None => None,
        Some(v) => {
            let chars = to_chars(v);
            if chars.len() == 0 || str_is(v, "0") {
                None
            } else {
                let t = to_chars("true");
                if str_is(v, "1") || crate::text::eq_ignore_ascii_case_of(&chars, &t) {
                    Some(TraceTarget::TempFile(String::from_str(TRACE_FILE_NAME)))
                } else {
                    Some(TraceTarget::Path(String::from_str(v)))
                }
            }
        },
    }
}

/// `n` in decimal, padded with zeros to three digits.
pub open spec fn pad3(n: nat) -> Seq<char> {
    if n < 10 {
        "00"@ + decimal(n)
    } else if n < 100 {
        "0"@ + decimal(n)
    } else {
        decimal(n)
    }
}

/// One trace line: `[+<secs>.<millis, three digits>] <category>: <message>`.
pub open spec fn trace_line_spec(secs: nat, millis: nat, category: Seq<char>, message: Seq<char>) -> Seq<
    char,
> {
    "[+"@ + decimal(secs) + "."@ + pad3(millis) + "] "@ + category + ": "@ + message
}

fn push_str(s: &mut String, t: &str)
    ensures
        final(s)@ == old(s)@ + t@,
{
    let v = to_chars(t);
    append_chars(s, &v);
}

/// One line of the trace, for an event `secs` seconds and `millis`
/// milliseconds after tracing started.
pub fn trace_line(secs: usize, millis: usize, category: &str, message: &str) -> (r: String)
    requires
        millis < 1000,
    ensures
        r@ == trace_line_spec(secs as nat, millis as nat, category@, message@),
{
    let mut r = String::from_str("[+");
    let s = decimal_of(secs);
    append_chars(&mut r, &s);
    push_str(&mut r, ".");
    if millis < 10 {
        push_str(&mut r, "00");
    } else if millis < 100 {
        push_str(&mut r, "0");
    }
    let m = decimal_of(millis);
    append_chars(&mut r, &m);
    push_str(&mut r, "] ");
    push_str(&mut r, category);
    push_str(&mut r, ": ");
    push_str(&mut r, message);
    assert(r@ =~= trace_line_spec(secs as nat, millis as nat, category@, message@));
    r
}

} // verus!
