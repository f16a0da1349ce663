//! Diagnostics: the elapsed-time stamp in front of every log line.

use vstd::prelude::*;

use crate::text::{push_char, push_zero_padded, zero_padded};

verus! {

/// `hh:mm:ss.mmm` for an elapsed time (hours grow past two digits as needed).
pub open spec fn log_stamp(secs: u64, millis: u32) -> Seq<char> {
    zero_padded((secs / 3600) as nat, 2) + seq![':'] + zero_padded(((secs % 3600) / 60) as nat, 2)
        + seq![':'] + zero_padded((secs % 60) as nat, 2) + seq!['.'] + zero_padded(millis as nat, 3)
}

/// Formats the time elapsed since start-up (whole seconds and the
/// milliseconds past them) for a log line.
pub fn format_log_stamp(secs: u64, millis: u32) -> (r: String)
    ensures
        r@ == log_stamp(secs, millis),
{
    let mut out = String::new();
    push_zero_padded(&mut out, secs / 3600, 2);
    push_char(&mut out, ':');
    push_zero_padded(&mut out, (secs % 3600) / 60, 2);
    push_char(&mut out, ':');
    push_zero_padded(&mut out, secs % 60, 2);
    push_char(&mut out, '.');
    push_zero_padded(&mut out, millis as u64, 3);
    out
}

} // verus!
