//! Progress lines of long operations, sent to the interface on one channel.

use vstd::prelude::*;

verus! {

broadcast use vstd::string::group_string_axioms;

/// The event that carries progress lines.
pub const EVENT: &'static str = "op-log";

/// The mark (the control character SOH) of a "live" line, which the interface
/// rewrites in place instead of stacking.
pub const PROGRESS_PREFIX: char = '\u{1}';

/// A live progress line: the mark, then the text.
pub fn live_line(msg: &str) -> (r: String)
    ensures
        r@ == seq!['\u{1}'] + msg@,
{
    let mut r = String::new();
    crate::text::push_char(&mut r, PROGRESS_PREFIX);
    r.concat(msg)
}

} // verus!
