//! Pipeline trace lines and the pruning of old log files.
use vstd::prelude::*;
use vstd::string::*;

use crate::text::{chars_of, decimal, pad_left, push_padded, str_eq};

verus! {

/// The trace timestamp `HH:MM:SS.mmm` (UTC time of day) of `total_ms`
/// milliseconds since the Unix epoch.
pub open spec fn timestamp_text(total_ms: u128) -> Seq<char> {
    pad_left(decimal(((total_ms / 3_600_000) % 24) as nat), 2, '0') + ":"@
        + pad_left(decimal(((total_ms / 60_000) % 60) as nat), 2, '0') + ":"@
        + pad_left(decimal(((total_ms / 1_000) % 60) as nat), 2, '0') + "."@
        + pad_left(decimal((total_ms % 1_000) as nat), 3, '0')
}

/// A trace line: `[timestamp] [pipeline] [stage] message`, with the
/// pipeline right-aligned in 10 characters and the stage in 12.
pub open spec fn trace_line_text(total_ms: u128, pipeline: Seq<char>, stage: Seq<char>, msg: Seq<char>) -> Seq<char> {
    "["@ + timestamp_text(total_ms) + "] ["@ + pad_left(pipeline, 10, ' ') + "] ["@ + pad_left(stage, 12, ' ')
        + "] "@ + msg
}

fn push_number(s: &mut String, n: u64, width: usize)
    ensures
        final(s)@ == old(s)@ + pad_left(decimal(n as nat), width as nat, '0'),
{
    let mut digits = String::new();
    crate::text::push_decimal(&mut digits, n);
    assert(digits@ == decimal(n as nat));
    push_padded(s, digits.as_str(), width, '0');
}

/// Formats a trace line for `total_ms` milliseconds since the Unix epoch.
pub fn format_trace_line(total_ms: u128, pipeline: &str, stage: &str, msg: &str) -> (line: String)
    ensures
        line@ == trace_line_text(total_ms, pipeline@, stage@, msg@),
{
    let hours = ((total_ms / 3_600_000) % 24) as u64;
    let mins = ((total_ms / 60_000) % 60) as u64;
    let secs = ((total_ms / 1_000) % 60) as u64;
    let ms = (total_ms % 1_000) as u64;
    let mut line = "[".to_string();
    push_number(&mut line, hours, 2);
    line.append(":");
    push_number(&mut line, mins, 2);
    line.append(":");
    push_number(&mut line, secs, 2);
    line.append(".");
    push_number(&mut line, ms, 3);
    line.append("] [");
    push_padded(&mut line, pipeline, 10, ' ');
    line.append("] [");
    push_padded(&mut line, stage, 12, ' ');
    line.append("] ");
    line.append(msg);
    line
}

/// Log files older than this many seconds are deleted at startup.
pub const LOG_MAX_AGE_SECS: u64 = 86400;

/// Whether a file found at startup is an old log to delete: a `.log` file
/// other than the trace log, last modified (`modified_secs` after the
/// epoch, none for earlier) more than a day before `now_secs`.
pub open spec fn should_prune_spec(name: Seq<char>, modified_secs: Option<u64>, now_secs: u64) -> bool {
    let cutoff: int = if now_secs >= LOG_MAX_AGE_SECS { now_secs - LOG_MAX_AGE_SECS } else { 0 };
    let m: int = match modified_secs {
        Some(s) => s as int,
        None => 0,
    };
    &&& ".log"@.is_suffix_of(name)
    &&& name != "pipeline_trace.log"@
    &&& m < cutoff
}

/// Decides whether a file found at startup is an old log to delete.
pub fn should_prune(name: &str, modified_secs: Option<u64>, now_secs: u64) -> (b: bool)
    ensures
        b == should_prune_spec(name@, modified_secs, now_secs),
{
    let v = chars_of(name);
    let suffix = chars_of(".log");
    let is_log = if v.len() >= suffix.len() {
        let off = v.len() - suffix.len();
        let mut k: usize = 0;
        let mut same = true;
        while k < suffix.len()
            invariant
                off == v.len() - suffix.len(),
                v.len() >= suffix.len(),
                k <= suffix.len(),
                same == (forall|j: int| 0 <= j < k ==> v@[off + j] == suffix@[j]),
            decreases suffix.len() - k,
        {
            if v[off + k] != suffix[k] {
                same = false;
            }
            k += 1;
        }
        proof {
            if same {
                assert(suffix@ =~= v@.subrange(off as int, v@.len() as int));
            } else {
                let j = choose|j: int| 0 <= j < suffix@.len() && v@[off + j] != suffix@[j];
                assert(v@.subrange(off as int, v@.len() as int)[j] != suffix@[j]);
            }
        }
        same
    } else {
        false
    };
    let cutoff = now_secs.saturating_sub(LOG_MAX_AGE_SECS);
    let m = match modified_secs {
        Some(s) => s,
        None => 0,
    };
    is_log && !str_eq(name, "pipeline_trace.log") && m < cutoff
}

} // verus!
