use vstd::prelude::*;
use vstd::string::StringExecFns;

verus! {

/// A log line as the device's trace channel frames it: the level between
/// brackets, then the message, then a newline.
pub open spec fn spec_log_line(level: Seq<char>, msg: Seq<char>) -> Seq<char> {
    seq!['['] + level + seq![']'] + msg + seq!['\n']
}

fn log(level: &str, msg: &str) -> (r: String)
    ensures
        r@ == spec_log_line(level@, msg@),
{
    let mut out = String::new();
    out.append("[");
    out.append(level);
    out.append("]");
    out.append(msg);
    out.append("\n");
    proof {
        reveal_strlit("[");
        reveal_strlit("]");
        reveal_strlit("\n");
        assert(out@ =~= spec_log_line(level@, msg@));
    }
    out
}

/// Frames `s` as a trace-level log line for the host channel to emit.
pub fn trace(s: &str) -> (r: String)
    ensures
        r@ == spec_log_line("TRACE"@, s@),
{
    log("TRACE", s)
}

/// Frames `s` as a debug-level log line for the host channel to emit.
pub fn debug(s: &str) -> (r: String)
    ensures
        r@ == spec_log_line("DEBUG"@, s@),
{
    log("DEBUG", s)
}

/// Frames `s` as an info-level log line for the host channel to emit.
pub fn info(s: &str) -> (r: String)
    ensures
        r@ == spec_log_line("INFO"@, s@),
{
    log("INFO", s)
}

/// Frames `s` as a warning-level log line for the host channel to emit.
pub fn warn(s: &str) -> (r: String)
    ensures
        r@ == spec_log_line("WARN"@, s@),
{
    log("WARN", s)
}

/// Frames `s` as an error-level log line for the host channel to emit.
#[allow(unused)]
fn error(s: &str) -> (r: String)
    ensures
        r@ == spec_log_line("ERROR"@, s@),
{
    log("ERROR", s)
}

} // verus!
