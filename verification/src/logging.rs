use vstd::prelude::*;

use vstd::string::StringExecFns;

verus! {

/// One line of the diagnostic log: the timestamp in brackets, a colon,
/// then the message, ended by a newline.
pub open spec fn spec_log_line(timestamp: Seq<char>, message: Seq<char>) -> Seq<char> {
    "["@ + timestamp + "]: "@ + message + "\n"@
}

/// Builds the log line for a diagnostic message. The caller supplies the
/// timestamp text and appends the line to the log file.
pub fn log_line(timestamp: &str, message: &str) -> (r: String)
    ensures
        r@ == spec_log_line(timestamp@, message@),
{
    let mut s = String::from_str("[");
    s.append(timestamp);
    s.append("]: ");
    s.append(message);
    s.append("\n");
    s
}

} // verus!
