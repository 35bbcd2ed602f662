//! The text of generated code, and the boundary to the `quote` crate that holds it.
//!
//! A `quote::Tokens` value is a piece of text in which neighbouring words are separated by
//! one blank. The specification of every generated item is an expression over [`Beside`],
//! which sets two pieces of text next to each other in that way.

use quote::Ident;
use quote::ToTokens;
use quote::Tokens;
use vstd::prelude::*;

verus! {

/// Pieces of text that can be set next to each other.
pub trait Beside: Sized {
    /// `self`, one blank, and `next`; a piece that is empty takes the blank away with it.
    spec fn beside(self, next: Seq<char>) -> Seq<char>;
}

impl Beside for Seq<char> {
    open spec fn beside(self, next: Seq<char>) -> Seq<char> {
        if self.len() == 0 {
            next
        } else if next.len() == 0 {
            self
        } else {
            self + seq![' '] + next
        }
    }
}

/// All pieces set next to each other, in order.
pub open spec fn spaced(pieces: Seq<Seq<char>>) -> Seq<char>
    decreases pieces.len(),
{
    if pieces.len() == 0 {
        Seq::empty()
    } else {
        spaced(pieces.drop_last()).beside(pieces.last())
    }
}

/// All pieces set next to each other, in order, with `separator` between any two of them.
pub open spec fn separated(pieces: Seq<Seq<char>>, separator: Seq<char>) -> Seq<char>
    decreases pieces.len(),
{
    if pieces.len() == 0 {
        Seq::empty()
    } else if pieces.len() == 1 {
        pieces[0]
    } else {
        separated(pieces.drop_last(), separator).beside(separator).beside(pieces.last())
    }
}

/// `beside` is associative.
pub broadcast proof fn lemma_beside_associative(a: Seq<char>, b: Seq<char>, c: Seq<char>)
    ensures
        #[trigger] a.beside(b.beside(c)) == a.beside(b).beside(c),
{
    if a.len() > 0 && b.len() > 0 && c.len() > 0 {
        assert(a + seq![' '] + (b + seq![' '] + c) =~= a + seq![' '] + b + seq![' '] + c);
    }
}

/// The empty text changes nothing on the right either.
pub broadcast proof fn lemma_beside_nothing(a: Seq<char>)
    ensures
        #[trigger] a.beside(Seq::empty()) == a,
{
    if a.len() == 0 {
        assert(a =~= Seq::empty());
    }
}

/// One more piece at the end.
pub broadcast proof fn lemma_spaced_push(pieces: Seq<Seq<char>>, piece: Seq<char>)
    ensures
        #[trigger] spaced(pieces.push(piece)) == spaced(pieces).beside(piece),
{
    assert(pieces.push(piece).drop_last() =~= pieces);
}

/// One more piece at the end, after a separator unless it is the only piece.
pub broadcast proof fn lemma_separated_push(
    pieces: Seq<Seq<char>>,
    piece: Seq<char>,
    separator: Seq<char>,
)
    ensures
        #[trigger] separated(pieces.push(piece), separator) == if pieces.len() == 0 {
            piece
        } else {
            separated(pieces, separator).beside(separator).beside(piece)
        },
{
    assert(pieces.push(piece).drop_last() =~= pieces);
}

/// Two runs of pieces, one after the other.
pub proof fn lemma_spaced_add(left: Seq<Seq<char>>, right: Seq<Seq<char>>)
    ensures
        spaced(left + right) == spaced(left).beside(spaced(right)),
    decreases right.len(),
{
    broadcast use lemma_beside_associative, lemma_beside_nothing;

    if right.len() == 0 {
        assert(left + right =~= left);
    } else {
        lemma_spaced_add(left, right.drop_last());
        assert((left + right).drop_last() =~= left + right.drop_last());
    }
}

/// A `quote::Tokens`: generated code, held as text.
#[verifier::external_type_specification]
#[verifier::external_body]
pub struct ExTokens(Tokens);

/// The text that `tokens` holds, as `Tokens::as_str` shows it.
pub uninterp spec fn tokens_text(tokens: Tokens) -> Seq<char>;

/// The text of each of several pieces of code.
pub open spec fn texts(pieces: Seq<Tokens>) -> Seq<Seq<char>> {
    pieces.map_values(|piece: Tokens| tokens_text(piece))
}

/// `quote::Tokens::new` holds no text.
pub assume_specification[ Tokens::new ]() -> (tokens: Tokens)
    ensures
        tokens_text(tokens) == Seq::<char>::empty(),
;

/// A clone of a `quote::Tokens` holds the same text.
pub assume_specification[ <Tokens as Clone>::clone ](tokens: &Tokens) -> (copy: Tokens)
    ensures
        tokens_text(copy) == tokens_text(*tokens),
;

/// Calls `quote::Tokens::append`, which puts `words` at the end of the text, after one blank
/// where both the text and `words` hold something.
#[verifier::external_body]
pub(crate) fn append(tokens: &mut Tokens, words: &str)
    ensures
        tokens_text(*final(tokens)) == tokens_text(*old(tokens)).beside(words@),
{
    tokens.append(words);
}

/// Calls `to_tokens` of `quote::Ident`, on an identifier made by `quote::Ident::new`: the name
/// goes to the end of the text as it is, without quotes around it.
#[verifier::external_body]
pub(crate) fn append_ident(tokens: &mut Tokens, name: &str)
    ensures
        tokens_text(*final(tokens)) == tokens_text(*old(tokens)).beside(name@),
{
    Ident::new(name).to_tokens(tokens);
}

/// Calls `to_tokens` of `quote::Tokens`, which puts the text of `inner` at the end of the text
/// of `tokens`.
#[verifier::external_body]
pub(crate) fn append_tokens(tokens: &mut Tokens, inner: &Tokens)
    ensures
        tokens_text(*final(tokens)) == tokens_text(*old(tokens)).beside(tokens_text(*inner)),
{
    inner.to_tokens(tokens);
}

/// Calls `quote::Tokens::append_all` on an `Option`, which puts the text of the one item at the
/// end of the text, or nothing where there is no item.
#[verifier::external_body]
pub(crate) fn append_all(tokens: &mut Tokens, inner: Option<Tokens>)
    ensures
        match inner {
            Some(inner) => tokens_text(*final(tokens)) == tokens_text(*old(tokens)).beside(
                tokens_text(inner),
            ),
            None => tokens_text(*final(tokens)) == tokens_text(*old(tokens)),
        },
{
    tokens.append_all(inner);
}

/// Appends each of the pieces.
pub(crate) fn append_each(tokens: &mut Tokens, pieces: &Vec<Tokens>)
    ensures
        tokens_text(*final(tokens)) == tokens_text(*old(tokens)).beside(spaced(texts(pieces@))),
{
    broadcast use lemma_beside_nothing;

    let ghost before = tokens_text(*tokens);
    let mut i: usize = 0;
    while i < pieces.len()
        invariant
            i <= pieces.len(),
            tokens_text(*tokens) == before.beside(spaced(texts(pieces@.take(i as int)))),
        decreases pieces.len() - i,
    {
        broadcast use lemma_beside_associative, lemma_spaced_push;

        proof {
            assert(texts(pieces@.take(i + 1)) =~= texts(pieces@.take(i as int)).push(
                tokens_text(pieces@[i as int]),
            ));
        }
        append_tokens(tokens, &pieces[i]);
        i += 1;
    }
    assert(pieces@.take(pieces@.len() as int) =~= pieces@);
}

} // verus!
