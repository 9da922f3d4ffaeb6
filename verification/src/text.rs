//! Blank-label detection for option validation.

use vstd::prelude::*;

verus! {

/// The characters of `s` with leading and trailing whitespace removed, as
/// `str::trim` computes it.
pub uninterp spec fn trimmed(s: Seq<char>) -> Seq<char>;

/// Relies on `str::trim`: removes leading and trailing whitespace; the
/// result depends on the characters alone.
#[verifier::external_body]
fn trim_str<'a>(s: &'a str) -> (r: &'a str)
    ensures
        r@ == trimmed(s@),
{
    s.trim()
}

/// True exactly when `s` is empty after trimming surrounding whitespace.
pub open spec fn spec_blank(s: Seq<char>) -> bool {
    trimmed(s).len() == 0
}

/// Decides whether a label is blank after trimming.
pub fn is_blank(s: &str) -> (r: bool)
    ensures
        r == spec_blank(s@),
{
    trim_str(s).is_empty()
}

} // verus!
