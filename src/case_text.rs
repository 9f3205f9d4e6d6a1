//! Letter case of text. The Unicode case mappings come from std; the
//! library names their results and builds on those names.
use vstd::prelude::*;

verus! {

/// The characters of `str::to_lowercase` applied to a text.
pub uninterp spec fn lower_of(s: Seq<char>) -> Seq<char>;

/// The characters of `str::to_uppercase` applied to a text.
pub uninterp spec fn upper_of(s: Seq<char>) -> Seq<char>;

/// The characters that `char::to_uppercase` yields for one character.
pub uninterp spec fn char_upper_of(c: char) -> Seq<char>;

/// Relies on `str::to_lowercase`: its result depends on the text alone.
#[verifier::external_body]
pub(crate) fn lowercase(s: &str) -> (r: String)
    ensures
        r@ == lower_of(s@),
{
    s.to_lowercase()
}

/// Relies on `str::to_uppercase`: its result depends on the text alone.
#[verifier::external_body]
pub(crate) fn uppercase(s: &str) -> (r: String)
    ensures
        r@ == upper_of(s@),
{
    s.to_uppercase()
}

/// Relies on `char::to_uppercase`: the characters it yields depend on the
/// character alone; they are collected into a string.
#[verifier::external_body]
pub(crate) fn uppercase_char(c: char) -> (r: String)
    ensures
        r@ == char_upper_of(c),
{
    c.to_uppercase().collect()
}

/// A word with its first character upper-cased and the rest lower-cased;
/// the empty word stays empty.
pub open spec fn capitalized(w: Seq<char>) -> Seq<char> {
    if w.len() == 0 {
        Seq::empty()
    } else {
        char_upper_of(w[0]) + lower_of(w.drop_first())
    }
}

/// Capitalizes one word.
pub fn capitalize(w: &str) -> (r: String)
    ensures
        r@ == capitalized(w@),
{
    let n = w.unicode_len();
    if n == 0 {
        String::new()
    } else {
        let first = uppercase_char(w.get_char(0));
        let rest = lowercase(w.substring_char(1, n));
        assert(w@.subrange(1, n as int) =~= w@.drop_first());
        first.concat(rest.as_str())
    }
}

} // verus!
