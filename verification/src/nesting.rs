//! Delimiters in text: parentheses, brackets and braces.

use crate::tokens::separated;
use crate::tokens::spaced;
use crate::tokens::Beside;
use vstd::prelude::*;

verus! {

/// The delimiters that are open at some place in a text.
pub enum Nesting {
    /// No delimiter is open.
    Outside,
    /// The given delimiter is open, within what is open around it.
    Within(char, Box<Nesting>),
}

/// A parenthesis is open, within `outer`.
pub open spec fn in_parens(outer: Nesting) -> Nesting {
    Nesting::Within('(', Box::new(outer))
}

/// A brace is open, within `outer`.
pub open spec fn in_braces(outer: Nesting) -> Nesting {
    Nesting::Within('{', Box::new(outer))
}

/// Whether a character opens or closes something.
pub open spec fn is_delimiter(c: char) -> bool {
    c == '(' || c == ')' || c == '[' || c == ']' || c == '{' || c == '}'
}

/// What is open after one more delimiter; none where it closes what is not the innermost.
pub open spec fn after_delimiter(nesting: Nesting, c: char) -> Option<Nesting> {
    if c == '(' || c == '[' || c == '{' {
        Some(Nesting::Within(c, Box::new(nesting)))
    } else {
        match nesting {
            Nesting::Outside => None,
            Nesting::Within(open, outer) => if (open == '(' && c == ')') || (open == '[' && c
                == ']') || (open == '{' && c == '}') {
                Some(*outer)
            } else {
                None
            },
        }
    }
}

/// What is open after one more character; none stays none.
pub open spec fn after_char(nesting: Option<Nesting>, c: char) -> Option<Nesting> {
    if !is_delimiter(c) {
        nesting
    } else {
        match nesting {
            Some(inner) => after_delimiter(inner, c),
            None => None,
        }
    }
}

/// What is open at the end of a text, where `nesting` is open at its character `from`.
pub open spec fn after_rest(nesting: Option<Nesting>, text: Seq<char>, from: int) -> Option<Nesting>
    decreases text.len() - from,
{
    if from < 0 || from >= text.len() {
        nesting
    } else {
        after_rest(after_char(nesting, text[from]), text, from + 1)
    }
}

/// What is open after a text.
#[verifier::opaque]
pub open spec fn after_text(nesting: Nesting, text: Seq<char>) -> Option<Nesting> {
    after_rest(Some(nesting), text, 0)
}

/// Whether a text closes what it opens, in the right order, and nothing else.
pub open spec fn is_balanced(text: Seq<char>) -> bool {
    forall|nesting: Nesting| #[trigger] after_text(nesting, text) == Some(nesting)
}

/// What is open after eight more characters.
pub open spec fn after_eight(nesting: Option<Nesting>, text: Seq<char>, from: int) -> Option<
    Nesting,
> {
    let nesting = after_char(after_char(nesting, text[from]), text[from + 1]);
    let nesting = after_char(after_char(nesting, text[from + 2]), text[from + 3]);
    let nesting = after_char(after_char(nesting, text[from + 4]), text[from + 5]);
    after_char(after_char(nesting, text[from + 6]), text[from + 7])
}

/// The same as `after_rest`, in strides of eight characters as long as there are so many. On a
/// literal it takes few steps to unfold.
pub open spec fn after_rest_in_strides(
    nesting: Option<Nesting>,
    text: Seq<char>,
    from: int,
) -> Option<Nesting>
    decreases text.len() - from,
{
    if from < 0 || from + 8 > text.len() {
        after_rest(nesting, text, from)
    } else {
        after_rest_in_strides(after_eight(nesting, text, from), text, from + 8)
    }
}

proof fn lemma_strides(nesting: Option<Nesting>, text: Seq<char>, from: int)
    ensures
        after_rest_in_strides(nesting, text, from) == after_rest(nesting, text, from),
    decreases text.len() - from,
{
    if 0 <= from && from + 8 <= text.len() {
        lemma_strides(after_eight(nesting, text, from), text, from + 8);
        reveal_with_fuel(after_rest, 9);
    }
}

/// A text is gone through from its first character.
pub proof fn lemma_after_text(nesting: Nesting, text: Seq<char>)
    ensures
        after_text(nesting, text) == after_rest_in_strides(Some(nesting), text, 0),
{
    reveal(after_text);
    lemma_strides(Some(nesting), text, 0);
}

/// Whether a text holds no delimiter.
pub open spec fn is_plain(text: Seq<char>) -> bool {
    forall|i: int| 0 <= i < text.len() ==> !is_delimiter(#[trigger] text[i])
}

/// Tests that a text holds no delimiter.
pub fn holds_no_delimiter(text: &str) -> (plain: bool)
    ensures
        plain == is_plain(text@),
{
    let len = text.unicode_len();
    let mut i: usize = 0;
    while i < len
        invariant
            i <= len,
            len == text@.len(),
            forall|j: int| 0 <= j < i ==> !is_delimiter(#[trigger] text@[j]),
        decreases len - i,
    {
        let c = text.get_char(i);
        if c == '(' || c == ')' || c == '[' || c == ']' || c == '{' || c == '}' {
            assert(is_delimiter(text@[i as int]));
            return false;
        }
        i += 1;
    }
    true
}

proof fn lemma_after_plain_rest(nesting: Option<Nesting>, text: Seq<char>, from: int)
    requires
        is_plain(text),
    ensures
        after_rest(nesting, text, from) == nesting,
    decreases text.len() - from,
{
    if 0 <= from < text.len() {
        lemma_after_plain_rest(nesting, text, from + 1);
    }
}

/// A text without delimiters is balanced.
pub proof fn lemma_plain_is_balanced(text: Seq<char>)
    requires
        is_plain(text),
    ensures
        is_balanced(text),
{
    reveal(after_text);
    assert forall|nesting: Nesting| #[trigger] after_text(nesting, text) == Some(nesting) by {
        lemma_after_plain_rest(Some(nesting), text, 0);
    }
}

/// Where something was closed that was not open, nothing mends it.
proof fn lemma_after_rest_of_none(text: Seq<char>, from: int)
    ensures
        after_rest(None, text, from) is None,
    decreases text.len() - from,
{
    if 0 <= from < text.len() {
        lemma_after_rest_of_none(text, from + 1);
    }
}

/// The characters before the one to start from do not matter.
proof fn lemma_after_rest_suffix(nesting: Option<Nesting>, a: Seq<char>, b: Seq<char>, from: int)
    requires
        0 <= from <= b.len(),
    ensures
        after_rest(nesting, a + b, a.len() + from) == after_rest(nesting, b, from),
    decreases b.len() - from,
{
    if from < b.len() {
        lemma_after_rest_suffix(after_char(nesting, b[from]), a, b, from + 1);
    }
}

/// The rest of a text in two halves, where `from` is in the first one.
proof fn lemma_after_rest_add(nesting: Option<Nesting>, a: Seq<char>, b: Seq<char>, from: int)
    requires
        0 <= from <= a.len(),
    ensures
        after_rest(nesting, a + b, from) == after_rest(after_rest(nesting, a, from), b, 0),
    decreases a.len() - from,
{
    if from < a.len() {
        lemma_after_rest_add(after_char(nesting, a[from]), a, b, from + 1);
    } else {
        lemma_after_rest_suffix(nesting, a, b, 0);
    }
}

/// A text in two halves.
pub proof fn lemma_after_add(nesting: Nesting, a: Seq<char>, b: Seq<char>)
    ensures
        after_text(nesting, a + b) == match after_text(nesting, a) {
            Some(inner) => after_text(inner, b),
            None => None,
        },
{
    reveal(after_text);
    lemma_after_rest_add(Some(nesting), a, b, 0);
    lemma_after_rest_of_none(b, 0);
}

/// Two pieces next to each other.
pub broadcast proof fn lemma_after_beside(nesting: Nesting, a: Seq<char>, b: Seq<char>)
    ensures
        #[trigger] after_text(nesting, a.beside(b)) == match after_text(nesting, a) {
            Some(inner) => after_text(inner, b),
            None => None,
        },
{
    reveal(after_text);
    if a.len() > 0 && b.len() > 0 {
        lemma_after_add(nesting, a + seq![' '], b);
        lemma_after_add(nesting, a, seq![' ']);
        reveal_with_fuel(after_rest, 2);
    }
}

/// Two balanced texts, one after the other.
pub proof fn lemma_balanced_add(a: Seq<char>, b: Seq<char>)
    requires
        is_balanced(a),
        is_balanced(b),
    ensures
        is_balanced(a + b),
{
    assert forall|nesting: Nesting| #[trigger] after_text(nesting, a + b) == Some(nesting) by {
        lemma_after_add(nesting, a, b);
    }
}

/// Balanced pieces next to each other.
pub proof fn lemma_balanced_spaced(pieces: Seq<Seq<char>>)
    requires
        forall|i: int| 0 <= i < pieces.len() ==> is_balanced(#[trigger] pieces[i]),
    ensures
        is_balanced(spaced(pieces)),
    decreases pieces.len(),
{
    broadcast use lemma_after_beside;

    reveal(after_text);
    if pieces.len() > 0 {
        lemma_balanced_spaced(pieces.drop_last());
        assert(is_balanced(pieces[pieces.len() - 1]));
    }
}

/// Balanced pieces with a balanced separator between them.
pub proof fn lemma_balanced_separated(pieces: Seq<Seq<char>>, separator: Seq<char>)
    requires
        forall|i: int| 0 <= i < pieces.len() ==> is_balanced(#[trigger] pieces[i]),
        is_balanced(separator),
    ensures
        is_balanced(separated(pieces, separator)),
    decreases pieces.len(),
{
    broadcast use lemma_after_beside;

    reveal(after_text);
    if pieces.len() == 1 {
        assert(is_balanced(pieces[0]));
    } else if pieces.len() > 1 {
        lemma_balanced_separated(pieces.drop_last(), separator);
        assert(is_balanced(pieces[pieces.len() - 1]));
    }
}

/// A text is without delimiters exactly where it holds none of the six.
pub proof fn law_plain_text(text: Seq<char>)
    ensures
        is_plain(text) <==> !text.contains('(') && !text.contains(')') && !text.contains('[')
            && !text.contains(']') && !text.contains('{') && !text.contains('}'),
{
    if !is_plain(text) {
        let i: int = choose|i: int| 0 <= i < text.len() && is_delimiter(#[trigger] text[i]);
        assert(text.contains(text[i]));
    }
}

/// What is opened is closed by its own kind of delimiter, and by no other; nothing is closed where
/// nothing is open.
pub proof fn law_delimiters_match(nesting: Nesting, open: char, close: char)
    requires
        open == '(' || open == '[' || open == '{',
        close == ')' || close == ']' || close == '}',
    ensures
        after_text(nesting, seq![open, close]) == if (open == '(' && close == ')') || (open == '['
            && close == ']') || (open == '{' && close == '}') {
            Some(nesting)
        } else {
            None
        },
        after_text(nesting, seq![open]) is Some,
        after_text(nesting, seq![open]) != Some(nesting),
        after_text(Nesting::Outside, seq![close]) is None,
{
    reveal(after_text);
    reveal_with_fuel(after_rest, 3);
    assert(decreases_to!(Nesting::Within(open, Box::new(nesting)) => nesting));
}

} // verus!
