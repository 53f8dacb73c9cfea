//! Reading a token stream by position, and the shape of a parse result.
use vstd::prelude::*;
use crate::lang::ast::Span;
use crate::lang::parser::token::{Lexeme, Token, TokenKind};

verus! {

/// What a parser gives back when it starts at one position of a token
/// stream: the value and the position behind it, or the position at which
/// the parse failed.
pub type Parsed<T> = Result<(T, usize), usize>;

/// The same in the grammar, where positions are natural numbers.
pub type Model<V> = Result<(V, nat), nat>;

/// Whether the token at `pos` exists and has the kind `kind`.
pub open spec fn has_kind(tokens: Seq<(Lexeme, Span)>, pos: nat, kind: TokenKind) -> bool {
    pos < tokens.len() && tokens[pos as int].0.kind == kind
}

/// The text of the token at `pos` where that token has the kind `kind`.
pub open spec fn text_of(tokens: Seq<(Lexeme, Span)>, pos: nat, kind: TokenKind) -> Option<
    Seq<char>,
> {
    if has_kind(tokens, pos, kind) {
        Some(tokens[pos as int].0.text)
    } else {
        None
    }
}

/// The span from the start of the token at `from` to the end of the last
/// token before `to`.
pub open spec fn span_of(tokens: Seq<(Lexeme, Span)>, from: nat, to: nat) -> Span {
    Span { start: tokens[from as int].1.start, end: tokens[to - 1].1.end }
}

/// A parse that a grammar rule builds on counts only where it consumed a
/// token and stayed inside the stream; anything else is a failure at `pos`.
pub open spec fn forward<V>(r: Model<V>, pos: nat, len: nat) -> Model<V> {
    match r {
        Ok((v, p)) => if pos < p <= len {
            r
        } else {
            Err(pos)
        },
        Err(e) => r,
    }
}

/// Whether an executable parse result is the result that the grammar gives.
pub open spec fn agrees<T: DeepView>(res: Parsed<T>, model: Model<T::V>) -> bool {
    match res {
        Ok((v, p)) => model == Ok::<(T::V, nat), nat>((v.deep_view(), p as nat)),
        Err(e) => model == Err::<(T::V, nat), nat>(e as nat),
    }
}

/// Whether a result of a parse that started at `pos` consumed a token and
/// stayed inside a stream of `len` tokens.
pub open spec fn advances<T>(res: Parsed<T>, pos: usize, len: nat) -> bool {
    match res {
        Ok((_, p)) => pos < p <= len,
        Err(e) => pos <= e && (pos <= len ==> e <= len),
    }
}

/// The later of two failure positions.
pub open spec fn furthest(a: nat, b: nat) -> nat {
    if a >= b {
        a
    } else {
        b
    }
}

pub fn at_kind(tokens: &Vec<(Token, Span)>, pos: usize, kind: TokenKind) -> (r: bool)
    ensures
        r == has_kind(tokens.deep_view(), pos as nat, kind),
        r ==> pos < usize::MAX,
{
    pos < tokens.len() && tokens[pos].0.kind() == kind
}

pub fn take_text(tokens: &Vec<(Token, Span)>, pos: usize, kind: TokenKind) -> (r: Option<String>)
    ensures
        r.deep_view() == text_of(tokens.deep_view(), pos as nat, kind),
        r is Some ==> pos < usize::MAX,
{
    if pos < tokens.len() && tokens[pos].0.kind() == kind {
        Some(tokens[pos].0.text())
    } else {
        None
    }
}

/// In a stream whose tokens follow one another, a token starts before it
/// ends, no later token starts or ends before it, and none ends behind
/// the end of the stream.
pub proof fn in_order(tokens: Seq<(Lexeme, Span)>, i: int, j: int)
    requires
        well_formed(tokens),
        0 <= i <= j < tokens.len(),
    ensures
        tokens[i].1.start < tokens[i].1.end,
        tokens[i].1.start <= tokens[j].1.start,
        tokens[i].1.end <= tokens[j].1.end,
        i < j ==> tokens[i].1.end <= tokens[j].1.start,
        tokens[j].1.end <= stream_end(tokens),
{
    reveal(well_formed);
    let last = tokens.len() - 1;
    assert(tokens[j].1.start < tokens[j].1.end);
    if j < last {
        assert(tokens[j].1.end <= tokens[last].1.start);
        assert(tokens[last].1.start < tokens[last].1.end);
    }
    if i < j {
        assert(tokens[i].1.end <= tokens[j].1.start);
    }
}

/// The span of a run of tokens of a stream whose tokens follow one
/// another is a range of the text that the stream covers.
pub proof fn span_of_within(tokens: Seq<(Lexeme, Span)>, from: nat, to: nat)
    requires
        well_formed(tokens),
        from < to <= tokens.len(),
    ensures
        span_of(tokens, from, to).within(stream_end(tokens)),
{
    in_order(tokens, from as int, to - 1);
}

pub fn span_between(tokens: &Vec<(Token, Span)>, from: usize, to: usize) -> (r: Span)
    requires
        from < to <= tokens@.len(),
    ensures
        r == span_of(tokens.deep_view(), from as nat, to as nat),
        well_formed(tokens.deep_view()) ==> r.within(stream_end(tokens.deep_view())),
{
    proof {
        if well_formed(tokens.deep_view()) {
            span_of_within(tokens.deep_view(), from as nat, to as nat);
        }
    }
    Span { start: tokens[from].1.start, end: tokens[to - 1].1.end }
}

/// Whether the tokens follow one another in the source and each covers at
/// least one byte.
#[verifier::opaque]
pub open spec fn well_formed(tokens: Seq<(Lexeme, Span)>) -> bool {
    &&& forall|i: int| 0 <= i < tokens.len() ==> (#[trigger] tokens[i]).1.start < tokens[i].1.end
    &&& forall|i: int, j: int|
        0 <= i < j < tokens.len() ==> (#[trigger] tokens[i]).1.end <= (#[trigger] tokens[j]).1.start
}

/// The end of the last token, or 0 for an empty stream.
pub open spec fn stream_end(tokens: Seq<(Lexeme, Span)>) -> nat {
    if tokens.len() == 0 {
        0
    } else {
        tokens.last().1.end as nat
    }
}

/// The end of a comma-separated list at `pos`: a comma, where the list has
/// items, may stand before the closing token. Gives the position behind the
/// closing token, or the position at which it is missing.
pub open spec fn spec_list_end(
    tokens: Seq<(Lexeme, Span)>,
    pos: nat,
    has_items: bool,
    close: TokenKind,
) -> Result<nat, nat> {
    let p = if has_items && has_kind(tokens, pos, TokenKind::Comma) {
        pos + 1
    } else {
        pos
    };
    if has_kind(tokens, p, close) {
        Ok((p + 1) as nat)
    } else {
        Err(p as nat)
    }
}

pub fn list_end(tokens: &Vec<(Token, Span)>, pos: usize, has_items: bool, close: TokenKind) -> (r:
    Result<usize, usize>)
    requires
        pos <= tokens@.len(),
    ensures
        match r {
            Ok(p) => spec_list_end(tokens.deep_view(), pos as nat, has_items, close) == Ok::<nat, nat>(
                p as nat,
            ) && pos < p <= tokens@.len(),
            Err(e) => spec_list_end(tokens.deep_view(), pos as nat, has_items, close) == Err::<nat, nat>(
                e as nat,
            ) && pos <= e <= tokens@.len(),
        },
{
    let p = if has_items && at_kind(tokens, pos, TokenKind::Comma) {
        pos + 1
    } else {
        pos
    };
    if at_kind(tokens, p, close) {
        Ok(p + 1)
    } else {
        Err(p)
    }
}

pub fn later(a: usize, b: usize) -> (r: usize)
    ensures
        r == furthest(a as nat, b as nat),
{
    if a >= b {
        a
    } else {
        b
    }
}

} // verus!
