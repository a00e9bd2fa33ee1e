//! Unicode case, as the standard library knows it.

use vstd::prelude::*;
use vstd::string::StrSliceExecFns;

verus! {

/// Whether `c` has the Unicode property `Uppercase`.
pub uninterp spec fn is_uppercase_char(c: char) -> bool;

/// The uppercase form of `s` under Unicode's case mapping, which does not
/// depend on a locale.
pub uninterp spec fn uppercase_text(s: Seq<char>) -> Seq<char>;

/// The lowercase form of `s` under Unicode's case mapping, which does not
/// depend on a locale.
pub uninterp spec fn lowercase_text(s: Seq<char>) -> Seq<char>;

/// `str::to_lowercase` of the standard library. Its result is a function of
/// the text alone and is known here only by name.
#[verifier::external_body]
pub(crate) fn to_lowercase(s: &str) -> (r: String)
    ensures
        r@ == lowercase_text(s@),
{
    s.to_lowercase()
}

/// `char::is_uppercase` of the standard library. Its result is a function of
/// the character alone and is known here only by name.
#[verifier::external_body]
fn char_is_uppercase(c: char) -> (r: bool)
    ensures
        r == is_uppercase_char(c),
{
    c.is_uppercase()
}

/// `str::to_uppercase` of the standard library. Its result is a function of
/// the text alone and is known here only by name.
#[verifier::external_body]
pub(crate) fn to_uppercase(s: &str) -> (r: String)
    ensures
        r@ == uppercase_text(s@),
{
    s.to_uppercase()
}

/// Whether `s` starts with an uppercase letter. The empty text does not.
pub open spec fn starts_with_uppercase(s: Seq<char>) -> bool {
    s.len() > 0 && is_uppercase_char(s[0])
}

/// Whether `s` starts with an uppercase letter.
pub fn starts_uppercase(s: &str) -> (r: bool)
    ensures
        r == starts_with_uppercase(s@),
{
    if s.is_empty() {
        false
    } else {
        char_is_uppercase(s.get_char(0))
    }
}

} // verus!
