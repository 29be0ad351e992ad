//! Text pieces shared by the user-facing messages.

use vstd::prelude::*;

verus! {

/// The warning mark that opens every warning message.
pub open spec fn warn_mark() -> Seq<char> {
    "\u{26a0}\u{fe0f} "@
}

/// The warning mark as an owned string.
pub fn warn_text() -> (s: String)
    ensures
        s@ == warn_mark(),
{
    String::from_str("\u{26a0}\u{fe0f} ")
}

/// The character views of a sequence of owned strings.
pub open spec fn views(v: Seq<String>) -> Seq<Seq<char>> {
    v.map_values(|s: String| s@)
}

/// Appends one character to a string.
/// `String::push`: the string afterwards is the old one followed by `c`.
#[verifier::external_body]
pub(crate) fn push_char(s: &mut String, c: char)
    ensures
        final(s)@ == old(s)@.push(c),
{
    s.push(c)
}

} // verus!
