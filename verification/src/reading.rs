//! What can be read off generated code without knowing how it was written.

use crate::decimal::decimal;
use crate::tokens::{At, Delimiter, Tok};
use vstd::prelude::*;

verus! {

/// Whether `piece` occurs in the code, token by token: at the top, or between brackets at any
/// depth.
#[verifier::opaque]
pub open spec fn within(code: Seq<Tok>, piece: Seq<Tok>) -> bool
    decreases code,
{
    ||| exists|i: int, j: int|
        0 <= i <= j <= code.len() && #[trigger] code.subrange(i, j) == piece
    ||| exists|i: int|
        0 <= i < code.len() && (#[trigger] code[i]) is Group && within(code[i]->inner, piece)
}

pub(crate) broadcast proof fn lemma_within_itself(code: Seq<Tok>)
    ensures
        #[trigger] within(code, code),
{
    reveal(within);
    assert(code.subrange(0, code.len() as int) =~= code);
}

pub(crate) broadcast proof fn lemma_within_sum(a: Seq<Tok>, b: Seq<Tok>, piece: Seq<Tok>)
    ensures
        within(a, piece) || within(b, piece) ==> #[trigger] within(a + b, piece),
{
    reveal(within);
    let n = a.len() as int;
    if within(a, piece) {
        if exists|i: int, j: int| 0 <= i <= j <= a.len() && #[trigger] a.subrange(i, j) == piece {
            let (i, j) = choose|i: int, j: int|
                0 <= i <= j <= a.len() && #[trigger] a.subrange(i, j) == piece;
            assert((a + b).subrange(i, j) =~= a.subrange(i, j));
        } else {
            let i = choose|i: int|
                0 <= i < a.len() && (#[trigger] a[i]) is Group && within(a[i]->inner, piece);
            assert((a + b)[i] == a[i]);
        }
    }
    if within(b, piece) {
        if exists|i: int, j: int| 0 <= i <= j <= b.len() && #[trigger] b.subrange(i, j) == piece {
            let (i, j) = choose|i: int, j: int|
                0 <= i <= j <= b.len() && #[trigger] b.subrange(i, j) == piece;
            assert((a + b).subrange(n + i, n + j) =~= b.subrange(i, j));
        } else {
            let i = choose|i: int|
                0 <= i < b.len() && (#[trigger] b[i]) is Group && within(b[i]->inner, piece);
            assert((a + b)[n + i] == b[i]);
        }
    }
}

pub(crate) broadcast proof fn lemma_within_group(
    at: At,
    delimiter: Delimiter,
    inner: Seq<Tok>,
    piece: Seq<Tok>,
)
    ensures
        within(inner, piece) ==> #[trigger] within(at.group(delimiter, inner), piece),
{
    reveal(within);
    let code = at.group(delimiter, inner);
    assert(code[0] is Group && code[0]->inner == inner);
}

pub(crate) broadcast group group_within {
    lemma_within_itself,
    lemma_within_sum,
    lemma_within_group,
}

/// The numbers in a piece of code, from the first to the last, at whatever depth they stand.
pub open spec fn numbers(code: Seq<Tok>) -> Seq<Seq<char>>
    decreases code,
{
    if code.len() == 0 {
        seq![]
    } else {
        numbers(code.drop_last()) + (match code.last() {
            Tok::Literal { text, .. } => seq![text],
            Tok::Group { inner, .. } => numbers(inner),
            _ => seq![],
        })
    }
}

pub(crate) broadcast proof fn lemma_numbers_of_sum(a: Seq<Tok>, b: Seq<Tok>)
    ensures
        #[trigger] numbers(a + b) == numbers(a) + numbers(b),
    decreases b.len(),
{
    if b.len() == 0 {
        assert(a + b =~= a);
        assert(numbers(a) + numbers(b) =~= numbers(a));
    } else {
        assert((a + b).drop_last() =~= a + b.drop_last());
        assert((a + b).last() == b.last());
        lemma_numbers_of_sum(a, b.drop_last());
        assert(numbers(a + b) =~= numbers(a) + numbers(b));
    }
}

proof fn lemma_numbers_of_token(token: Tok)
    ensures
        numbers(seq![token]) == (match token {
            Tok::Literal { text, .. } => seq![text],
            Tok::Group { inner, .. } => numbers(inner),
            _ => seq![],
        }),
{
    assert(seq![token].drop_last() =~= Seq::<Tok>::empty());
    assert(seq![token].last() == token);
    assert(numbers(Seq::<Tok>::empty()) =~= seq![]);
    assert(numbers(seq![token]) =~= (match token {
        Tok::Literal { text, .. } => seq![text],
        Tok::Group { inner, .. } => numbers(inner),
        _ => seq![],
    }));
}

pub(crate) broadcast proof fn lemma_no_number_in_word(at: At, text: Seq<char>)
    ensures
        (#[trigger] numbers(at.word(text))) == Seq::<Seq<char>>::empty(),
{
    lemma_numbers_of_token(at.word(text)[0]);
}

pub(crate) broadcast proof fn lemma_no_number_in_operator(at: At, ch: char)
    ensures
        (#[trigger] numbers(at.op(ch))) == Seq::<Seq<char>>::empty(),
{
    lemma_numbers_of_token(at.op(ch)[0]);
}

pub(crate) broadcast proof fn lemma_no_number_in_operators(at: At, first: char, second: char)
    ensures
        (#[trigger] numbers(at.op2(first, second))) == Seq::<Seq<char>>::empty(),
{
    let code = at.op2(first, second);
    lemma_numbers_of_token(code[0]);
    assert(code.drop_last() =~= seq![code[0]]);
    assert(numbers(code) =~= seq![]);
}

pub(crate) broadcast proof fn lemma_no_number_in_string(at: At, value: Seq<char>)
    ensures
        (#[trigger] numbers(at.string(value))) == Seq::<Seq<char>>::empty(),
{
    lemma_numbers_of_token(at.string(value)[0]);
}

pub(crate) broadcast proof fn lemma_number_is_read(at: At, n: nat)
    ensures
        (#[trigger] numbers(at.integer(n))) == seq![decimal(n)],
{
    lemma_numbers_of_token(at.integer(n)[0]);
}

pub(crate) broadcast proof fn lemma_numbers_of_group(
    at: At,
    delimiter: Delimiter,
    inner: Seq<Tok>,
)
    ensures
        (#[trigger] numbers(at.group(delimiter, inner))) == numbers(inner),
{
    lemma_numbers_of_token(at.group(delimiter, inner)[0]);
}

pub(crate) broadcast proof fn lemma_no_more_numbers(a: Seq<Seq<char>>)
    ensures
        #[trigger] (a + Seq::<Seq<char>>::empty()) == a,
{
    assert(a + Seq::<Seq<char>>::empty() =~= a);
}

pub(crate) broadcast proof fn lemma_no_numbers_before(a: Seq<Seq<char>>)
    ensures
        #[trigger] (Seq::<Seq<char>>::empty() + a) == a,
{
    assert(Seq::<Seq<char>>::empty() + a =~= a);
}

pub(crate) broadcast group group_numbers {
    lemma_numbers_of_sum,
    lemma_no_number_in_word,
    lemma_no_number_in_operator,
    lemma_no_number_in_operators,
    lemma_no_number_in_string,
    lemma_number_is_read,
    lemma_numbers_of_group,
    lemma_no_more_numbers,
    lemma_no_numbers_before,
}

/// Pieces of code, one behind the other.
pub open spec fn joined(pieces: Seq<Seq<Tok>>) -> Seq<Tok>
    decreases pieces.len(),
{
    if pieces.len() == 0 {
        seq![]
    } else {
        pieces[0] + joined(pieces.skip(1))
    }
}

pub(crate) proof fn lemma_joined_push(pieces: Seq<Seq<Tok>>, last: Seq<Tok>)
    ensures
        joined(pieces.push(last)) == joined(pieces) + last,
    decreases pieces.len(),
{
    if pieces.len() == 0 {
        assert(pieces.push(last).skip(1) =~= Seq::empty());
        assert(joined(pieces.push(last).skip(1)) =~= seq![]);
        assert(joined(pieces.push(last)) =~= last);
        assert(joined(pieces) + last =~= last);
    } else {
        lemma_joined_push(pieces.skip(1), last);
        assert(pieces.push(last).skip(1) =~= pieces.skip(1).push(last));
        assert(joined(pieces.push(last)) =~= joined(pieces) + last);
    }
}

} // verus!
