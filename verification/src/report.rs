//! The line that reports a finished call.
use vstd::prelude::*;

verus! {

/// The text that `Debug` formatting gives for a `std::time::Duration` of
/// `secs` whole seconds and `subsec_nanos` nanoseconds.
pub uninterp spec fn duration_text(secs: u64, subsec_nanos: u32) -> Seq<char>;

/// Formats a duration as `std::time::Duration`'s `Debug` impl does. The
/// text depends on the two numbers alone; `Duration::new` accepts every
/// pair whose nanoseconds stay below one second.
#[verifier::external_body]
fn format_duration(secs: u64, subsec_nanos: u32) -> (r: String)
    requires
        subsec_nanos < 1_000_000_000,
    ensures
        r@ == duration_text(secs, subsec_nanos),
{
    format!("{:?}", std::time::Duration::new(secs, subsec_nanos))
}

/// The report of a call to `function` that took `elapsed`.
pub open spec fn report_spec(function: Seq<char>, elapsed: Seq<char>) -> Seq<char> {
    "Function '"@ + function + "' executed in "@ + elapsed
}

/// Renders the report of a call to `function`, given the elapsed time as
/// text.
pub fn report_line(function: &str, elapsed: &str) -> (r: String)
    ensures
        r@ == report_spec(function@, elapsed@),
{
    let mut r = String::from_str("Function '");
    r.append(function);
    r.append("' executed in ");
    r.append(elapsed);
    r
}

/// Renders the report of a call to `function` that took `secs` seconds and
/// `subsec_nanos` nanoseconds.
pub fn timing_report(function: &str, secs: u64, subsec_nanos: u32) -> (r: String)
    requires
        subsec_nanos < 1_000_000_000,
    ensures
        r@ == report_spec(function@, duration_text(secs, subsec_nanos)),
{
    let elapsed = format_duration(secs, subsec_nanos);
    report_line(function, elapsed.as_str())
}

} // verus!
