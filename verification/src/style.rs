//! Bold text for terminal menus, through the `colored` crate.

use vstd::prelude::*;
use colored::Colorize;
use crate::text::find_from;

verus! {

/// The escape sequence that turns bold on: `ESC [ 1 m`.
pub open spec fn bold_on() -> Seq<char> {
    seq!['\u{1b}', '[', '1', 'm']
}

/// The escape sequence that resets all styles: `ESC [ 0 m`.
pub open spec fn style_reset() -> Seq<char> {
    seq!['\u{1b}', '[', '0', 'm']
}

/// Length of the part of `s` before its first reset sequence.
pub open spec fn reset_free_len(s: Seq<char>) -> nat {
    find_from(s, style_reset(), 0)
}

/// `shown` is `s` displayed in bold: the bold sequence, then `s` (with the
/// bold sequence repeated after each reset sequence inside it), then a reset.
/// What is stated: the opening sequence, the text up to the first inner
/// reset, and the whole result where `s` holds no reset.
pub open spec fn bolded(s: Seq<char>, shown: Seq<char>) -> bool {
    let k = reset_free_len(s);
    &&& 4 + k <= shown.len()
    &&& shown.take(4) == bold_on()
    &&& shown.subrange(4, 4 + k as int) == s.take(k as int)
    &&& (k == s.len() ==> shown == bold_on() + s + style_reset())
}

/// `colored::Colorize::bold` on `s`, displayed as a `String`.
///
/// Whether `colored` emits escape sequences depends on the environment
/// (`CLICOLOR`, `NO_COLOR`, `CLICOLOR_FORCE`, a manual override, and whether
/// standard output is a terminal); so the contract only states that the
/// result is `s` unchanged or `s` in bold as [`bolded`] describes, and not
/// which of the two comes out.
#[verifier::external_body]
pub(crate) fn bold_text(s: &str) -> (shown: String)
    ensures
        shown@ == s@ || bolded(s@, shown@),
{
    s.bold().to_string()
}

} // verus!
