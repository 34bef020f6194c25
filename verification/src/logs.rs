//! Names used when a project's container log is streamed to the interface.

use vstd::prelude::*;

verus! {

broadcast use vstd::string::group_string_axioms;

/// The event that carries the log lines of project `id`: `log:{id}`.
pub fn event_name(id: &str) -> (r: String)
    ensures
        r@ == "log:"@ + id@,
{
    String::from_str("log:").concat(id)
}

/// How many past lines are sent before following the log live.
pub const TAIL_LINES: &'static str = "200";

} // verus!
