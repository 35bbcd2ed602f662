//! The case of letters.

use vstd::prelude::*;

verus! {

/// The lowercase mapping of a character, as `char::to_lowercase` gives it: one character or more.
pub uninterp spec fn lowercase(c: char) -> Seq<char>;

/// Calls `char::to_lowercase` of the standard library, and collects what it yields.
///
/// The mapping is the one of Unicode. What it does is stated on ASCII, where a capital letter
/// becomes the small one and everything else stays; beyond ASCII it is named.
#[verifier::external_body]
fn char_to_lowercase(c: char) -> (lower: String)
    ensures
        lower@ == lowercase(c),
        'A' <= c <= 'Z' ==> lower@ == seq![(c as int - 'A' as int + 'a' as int) as char],
        c < '\u{80}' && !('A' <= c <= 'Z') ==> lower@ == seq![c],
{
    c.to_lowercase().to_string()
}

/// A text with its first character in lower case.
pub open spec fn lower_cased_first(text: Seq<char>) -> Seq<char> {
    lowercase(text[0]) + text.skip(1)
}

/// Whether the first character of a text is an ASCII one.
pub open spec fn starts_in_ascii(text: Seq<char>) -> bool {
    text.len() > 0 && text[0] < '\u{80}'
}

/// A text that starts in ASCII, with its first character in lower case: a capital letter becomes
/// the small one, and everything else stays.
pub open spec fn ascii_lower_cased_first(text: Seq<char>) -> Seq<char>
    recommends
        starts_in_ascii(text),
{
    if 'A' <= text[0] <= 'Z' {
        seq![(text[0] as int - 'A' as int + 'a' as int) as char] + text.skip(1)
    } else {
        text
    }
}

/// Puts `first` in place of the first character of `text`.
pub fn replace_first(text: &str, first: &str) -> (replaced: String)
    requires
        text@.len() > 0,
    ensures
        replaced@ == first@ + text@.skip(1),
{
    let mut replaced = String::new();
    replaced.append(first);
    replaced.append(text.substring_char(1, text.unicode_len()));
    assert(text@.subrange(1, text@.len() as int) =~= text@.skip(1));
    assert(replaced@ =~= first@ + text@.skip(1));
    replaced
}

/// Puts the first character of `text` in lower case.
pub fn lower_case_first(text: &str) -> (lower: String)
    requires
        text@.len() > 0,
    ensures
        lower@ == lower_cased_first(text@),
        starts_in_ascii(text@) ==> lower@ == ascii_lower_cased_first(text@),
{
    let first = char_to_lowercase(text.get_char(0));
    let lower = replace_first(text, first.as_str());
    assert(starts_in_ascii(text@) ==> lower@ =~= ascii_lower_cased_first(text@));
    lower
}

} // verus!
