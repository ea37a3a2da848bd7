//! Removal of terminal control sequences.

use vstd::prelude::*;

verus! {

/// What the replacement below makes of a text.
pub uninterp spec fn ansi_stripped(s: Seq<char>) -> Seq<char>;

/// Relies on regex::Regex::replace_all with the pattern
/// `\x1b\[[0-9;]*[a-zA-Z]|\x1b\].*?\x07|\r`, which compiles: removes every
/// CSI sequence, every OSC sequence ended by BEL, and every carriage return.
/// The result depends on the text alone, and an empty text stays empty.
#[verifier::external_body]
pub(crate) fn strip_ansi_codes(s: &str) -> (r: String)
    ensures
        r@ == ansi_stripped(s@),
        s@.len() == 0 ==> r@.len() == 0,
{
    let re = regex::Regex::new(r"\x1b\[[0-9;]*[a-zA-Z]|\x1b\].*?\x07|\r").unwrap();
    re.replace_all(s, "").to_string()
}

} // verus!
