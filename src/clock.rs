use vstd::prelude::*;

verus! {

/// The strftime pattern of the timestamps in the logs.
pub open spec fn timestamp_pattern() -> Seq<char> {
    "%Y-%m-%d %H:%M:%S"@
}

/// Relies on chrono::Local::now and chrono::DateTime::format: the local time
/// now, rendered with `pattern`. Nothing is promised of the text, which
/// depends on the clock; the pattern is fixed to one whose rendering cannot
/// fail, as an invalid pattern panics when rendered.
#[verifier::external_body]
pub(crate) fn local_time_text(pattern: &str) -> (r: String)
    requires
        pattern@ == timestamp_pattern(),
{
    chrono::Local::now().format(pattern).to_string()
}

/// The timestamp of a log record: the local time now.
pub fn timestamp() -> String {
    local_time_text("%Y-%m-%d %H:%M:%S")
}

} // verus!
