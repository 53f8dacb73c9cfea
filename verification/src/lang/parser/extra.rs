//! Comments and empty lines, which the grammar does not see.
use vstd::prelude::*;
use crate::list::{no_items, push_item};
use crate::lang::ast::Span;
use crate::lang::parser::stream::well_formed;
use crate::lang::parser::token::{Lexeme, Token, TokenKind};
use crate::lang::parser::lexer::token_of;

verus! {

/// Where the comments and the empty lines of a module are.
#[derive(Debug, Default, PartialEq, Eq)]
pub struct ModuleExtra {
    pub module_comments: Vec<Span>,
    pub doc_comments: Vec<Span>,
    pub comments: Vec<Span>,
    pub empty_lines: Vec<usize>,
}

pub struct ModuleExtraView {
    pub module_comments: Seq<Span>,
    pub doc_comments: Seq<Span>,
    pub comments: Seq<Span>,
    pub empty_lines: Seq<usize>,
}

impl DeepView for ModuleExtra {
    type V = ModuleExtraView;

    open spec fn deep_view(&self) -> ModuleExtraView {
        ModuleExtraView {
            module_comments: self.module_comments@,
            doc_comments: self.doc_comments@,
            comments: self.comments@,
            empty_lines: self.empty_lines@,
        }
    }
}

impl ModuleExtra {
    pub fn new() -> (r: ModuleExtra)
        ensures
            r.deep_view() == (ModuleExtraView {
                module_comments: Seq::empty(),
                doc_comments: Seq::empty(),
                comments: Seq::empty(),
                empty_lines: Seq::empty(),
            }),
    {
        ModuleExtra {
            module_comments: Vec::new(),
            doc_comments: Vec::new(),
            comments: Vec::new(),
            empty_lines: Vec::new(),
        }
    }
}

/// The tokens of `tokens` whose kind is trivia, where `trivia` holds, and
/// those whose kind is not, where it does not: in their order.
pub open spec fn selected(tokens: Seq<(Lexeme, Span)>, trivia: bool) -> Seq<(Lexeme, Span)>
    decreases tokens.len(),
{
    if tokens.len() == 0 {
        Seq::empty()
    } else if tokens.last().0.kind.is_trivia() == trivia {
        selected(tokens.drop_last(), trivia).push(tokens.last())
    } else {
        selected(tokens.drop_last(), trivia)
    }
}

/// The spans of the tokens of `tokens` that have the kind `kind`, in their
/// order.
pub open spec fn spans_of(tokens: Seq<(Lexeme, Span)>, kind: TokenKind) -> Seq<Span>
    decreases tokens.len(),
{
    if tokens.len() == 0 {
        Seq::empty()
    } else if tokens.last().0.kind == kind {
        spans_of(tokens.drop_last(), kind).push(tokens.last().1)
    } else {
        spans_of(tokens.drop_last(), kind)
    }
}

/// The byte offsets at which the tokens of `tokens` that have the kind
/// `kind` start, in their order.
pub open spec fn starts_of(tokens: Seq<(Lexeme, Span)>, kind: TokenKind) -> Seq<usize>
    decreases tokens.len(),
{
    if tokens.len() == 0 {
        Seq::empty()
    } else if tokens.last().0.kind == kind {
        starts_of(tokens.drop_last(), kind).push(tokens.last().1.start)
    } else {
        starts_of(tokens.drop_last(), kind)
    }
}

/// Where the comments and the empty lines among `tokens` are.
pub open spec fn extra_of(tokens: Seq<(Lexeme, Span)>) -> ModuleExtraView {
    ModuleExtraView {
        module_comments: spans_of(tokens, TokenKind::ModuleComment),
        doc_comments: spans_of(tokens, TokenKind::DocComment),
        comments: spans_of(tokens, TokenKind::Comment),
        empty_lines: starts_of(tokens, TokenKind::EmptyLine),
    }
}

/// Each selected token is one of the tokens, of the kind asked for.
pub proof fn selected_is_token(tokens: Seq<(Lexeme, Span)>, trivia: bool, k: int) -> (i: int)
    requires
        0 <= k < selected(tokens, trivia).len(),
    ensures
        0 <= i < tokens.len(),
        tokens[i] == selected(tokens, trivia)[k],
        tokens[i].0.kind.is_trivia() == trivia,
    decreases tokens.len(),
{
    let rest = selected(tokens.drop_last(), trivia);
    if tokens.last().0.kind.is_trivia() == trivia && k == rest.len() {
        tokens.len() - 1
    } else {
        selected_is_token(tokens.drop_last(), trivia, k)
    }
}

/// Each span of the kind `kind` is that of one of the tokens, of that kind.
pub proof fn span_is_token(tokens: Seq<(Lexeme, Span)>, kind: TokenKind, k: int) -> (i: int)
    requires
        0 <= k < spans_of(tokens, kind).len(),
    ensures
        0 <= i < tokens.len(),
        tokens[i].1 == spans_of(tokens, kind)[k],
        tokens[i].0.kind == kind,
    decreases tokens.len(),
{
    let rest = spans_of(tokens.drop_last(), kind);
    if tokens.last().0.kind == kind && k == rest.len() {
        tokens.len() - 1
    } else {
        span_is_token(tokens.drop_last(), kind, k)
    }
}

/// Each offset of the kind `kind` is the start of one of the tokens, of
/// that kind.
pub proof fn start_is_token(tokens: Seq<(Lexeme, Span)>, kind: TokenKind, k: int) -> (i: int)
    requires
        0 <= k < starts_of(tokens, kind).len(),
    ensures
        0 <= i < tokens.len(),
        tokens[i].1.start == starts_of(tokens, kind)[k],
        tokens[i].0.kind == kind,
    decreases tokens.len(),
{
    let rest = starts_of(tokens.drop_last(), kind);
    if tokens.last().0.kind == kind && k == rest.len() {
        tokens.len() - 1
    } else {
        start_is_token(tokens.drop_last(), kind, k)
    }
}

/// Tokens that follow one another in the source still do so when some of
/// them are taken out.
pub proof fn selected_well_formed(tokens: Seq<(Lexeme, Span)>, trivia: bool)
    requires
        well_formed(tokens),
    ensures
        well_formed(selected(tokens, trivia)),
    decreases tokens.len(),
{
    reveal(well_formed);
    if tokens.len() > 0 {
        let front = tokens.drop_last();
        assert forall|i: int| 0 <= i < front.len() implies (#[trigger] front[i]).1.start
            < front[i].1.end by {
            assert(front[i] == tokens[i]);
        }
        assert forall|i: int, j: int| 0 <= i < j < front.len() implies (#[trigger] front[i]).1.end
            <= (#[trigger] front[j]).1.start by {
            assert(front[i] == tokens[i]);
            assert(front[j] == tokens[j]);
        }
        selected_well_formed(front, trivia);
        let rest = selected(front, trivia);
        let all = selected(tokens, trivia);
        assert forall|i: int| 0 <= i < all.len() implies (#[trigger] all[i]).1.start
            < all[i].1.end by {
            if i < rest.len() {
                assert(all[i] == rest[i]);
            } else {
                assert(all[i] == tokens[tokens.len() - 1]);
            }
        }
        assert forall|i: int, j: int| 0 <= i < j < all.len() implies (#[trigger] all[i]).1.end <= (
        #[trigger] all[j]).1.start by {
            assert(all[i] == rest[i]);
            if j < rest.len() {
                assert(all[j] == rest[j]);
            } else {
                let a = selected_is_token(front, trivia, i);
                assert(front[a] == tokens[a]);
                assert(all[j] == tokens[tokens.len() - 1]);
            }
        }
    }
}

/// The comments of one kind stand in the order of the source: each ends
/// before the next one starts.
pub proof fn spans_in_order(tokens: Seq<(Lexeme, Span)>, kind: TokenKind)
    requires
        well_formed(tokens),
    ensures
        forall|i: int, j: int|
            0 <= i < j < spans_of(tokens, kind).len() ==> (#[trigger] spans_of(tokens, kind)[i]).end
                <= (#[trigger] spans_of(tokens, kind)[j]).start,
    decreases tokens.len(),
{
    reveal(well_formed);
    if tokens.len() > 0 {
        let front = tokens.drop_last();
        assert forall|i: int| 0 <= i < front.len() implies (#[trigger] front[i]).1.start
            < front[i].1.end by {
            assert(front[i] == tokens[i]);
        }
        assert forall|i: int, j: int| 0 <= i < j < front.len() implies (#[trigger] front[i]).1.end
            <= (#[trigger] front[j]).1.start by {
            assert(front[i] == tokens[i]);
            assert(front[j] == tokens[j]);
        }
        spans_in_order(front, kind);
        let rest = spans_of(front, kind);
        let all = spans_of(tokens, kind);
        assert forall|i: int, j: int| 0 <= i < j < all.len() implies (#[trigger] all[i]).end <= (
        #[trigger] all[j]).start by {
            assert(all[i] == rest[i]);
            if j < rest.len() {
                assert(all[j] == rest[j]);
            } else {
                let a = span_is_token(front, kind, i);
                assert(front[a] == tokens[a]);
                assert(all[j] == tokens[tokens.len() - 1].1);
            }
        }
    }
}

/// Whether the two spans share no byte.
pub open spec fn apart(a: Span, b: Span) -> bool {
    a.end <= b.start || b.end <= a.start
}

/// No comment overlaps a token that the grammar sees, and no empty line
/// starts inside one.
pub proof fn trivia_apart_from_code(tokens: Seq<(Lexeme, Span)>)
    requires
        well_formed(tokens),
    ensures
        forall|k: int, c: int|
            #![trigger spans_of(tokens, TokenKind::Comment)[k], selected(tokens, false)[c]]
            0 <= k < spans_of(tokens, TokenKind::Comment).len() && 0 <= c < selected(
                tokens,
                false,
            ).len() ==> apart(
                spans_of(tokens, TokenKind::Comment)[k],
                selected(tokens, false)[c].1,
            ),
        forall|k: int, c: int|
            #![trigger spans_of(tokens, TokenKind::DocComment)[k], selected(tokens, false)[c]]
            0 <= k < spans_of(tokens, TokenKind::DocComment).len() && 0 <= c < selected(
                tokens,
                false,
            ).len() ==> apart(
                spans_of(tokens, TokenKind::DocComment)[k],
                selected(tokens, false)[c].1,
            ),
        forall|k: int, c: int|
            #![trigger spans_of(tokens, TokenKind::ModuleComment)[k], selected(tokens, false)[c]]
            0 <= k < spans_of(tokens, TokenKind::ModuleComment).len() && 0 <= c < selected(
                tokens,
                false,
            ).len() ==> apart(
                spans_of(tokens, TokenKind::ModuleComment)[k],
                selected(tokens, false)[c].1,
            ),
        forall|k: int, c: int|
            #![trigger starts_of(tokens, TokenKind::EmptyLine)[k], selected(tokens, false)[c]]
            0 <= k < starts_of(tokens, TokenKind::EmptyLine).len() && 0 <= c < selected(
                tokens,
                false,
            ).len() ==> !(selected(tokens, false)[c].1.start <= starts_of(
                tokens,
                TokenKind::EmptyLine,
            )[k] < selected(tokens, false)[c].1.end),
{
    reveal(well_formed);
    assert forall|k: int, c: int|
        #![trigger spans_of(tokens, TokenKind::Comment)[k], selected(tokens, false)[c]]
        0 <= k < spans_of(tokens, TokenKind::Comment).len() && 0 <= c < selected(
            tokens,
            false,
        ).len() implies apart(
        spans_of(tokens, TokenKind::Comment)[k],
        selected(tokens, false)[c].1,
    ) by {
        let i = span_is_token(tokens, TokenKind::Comment, k);
        let j = selected_is_token(tokens, false, c);
        assert(i != j);
    }
    assert forall|k: int, c: int|
        #![trigger spans_of(tokens, TokenKind::DocComment)[k], selected(tokens, false)[c]]
        0 <= k < spans_of(tokens, TokenKind::DocComment).len() && 0 <= c < selected(
            tokens,
            false,
        ).len() implies apart(
        spans_of(tokens, TokenKind::DocComment)[k],
        selected(tokens, false)[c].1,
    ) by {
        let i = span_is_token(tokens, TokenKind::DocComment, k);
        let j = selected_is_token(tokens, false, c);
        assert(i != j);
    }
    assert forall|k: int, c: int|
        #![trigger spans_of(tokens, TokenKind::ModuleComment)[k], selected(tokens, false)[c]]
        0 <= k < spans_of(tokens, TokenKind::ModuleComment).len() && 0 <= c < selected(
            tokens,
            false,
        ).len() implies apart(
        spans_of(tokens, TokenKind::ModuleComment)[k],
        selected(tokens, false)[c].1,
    ) by {
        let i = span_is_token(tokens, TokenKind::ModuleComment, k);
        let j = selected_is_token(tokens, false, c);
        assert(i != j);
    }
    assert forall|k: int, c: int|
        #![trigger starts_of(tokens, TokenKind::EmptyLine)[k], selected(tokens, false)[c]]
        0 <= k < starts_of(tokens, TokenKind::EmptyLine).len() && 0 <= c < selected(
            tokens,
            false,
        ).len() implies !(selected(tokens, false)[c].1.start <= starts_of(
        tokens,
        TokenKind::EmptyLine,
    )[k] < selected(tokens, false)[c].1.end) by {
        let i = start_is_token(tokens, TokenKind::EmptyLine, k);
        let j = selected_is_token(tokens, false, c);
        assert(i != j);
    }
}

/// Parts the tokens: those that the grammar sees, in their order, and the
/// places of the comments and empty lines.
pub fn split(tokens: &Vec<(Token, Span)>) -> (r: (Vec<(Token, Span)>, ModuleExtra))
    ensures
        r.0.deep_view() == selected(tokens.deep_view(), false),
        r.1.deep_view() == extra_of(tokens.deep_view()),
{
    let mut code: Vec<(Token, Span)> = no_items();
    let mut extra = ModuleExtra::new();
    let ghost all = tokens.deep_view();
    let mut i: usize = 0;
    assert(all.take(0) =~= Seq::empty());
    while i < tokens.len()
        invariant
            i <= tokens@.len(),
            all == tokens.deep_view(),
            all.len() == tokens@.len(),
            code.deep_view() == selected(all.take(i as int), false),
            extra.deep_view() == extra_of(all.take(i as int)),
        decreases tokens@.len() - i,
    {
        let kind = tokens[i].0.kind();
        let span = tokens[i].1;
        proof {
            assert(all.take(i + 1).drop_last() =~= all.take(i as int));
            assert(all.take(i + 1).last() == all[i as int]);
            assert(all[i as int] == tokens@[i as int].deep_view());
        }
        if kind == TokenKind::ModuleComment {
            extra.module_comments.push(span);
        } else if kind == TokenKind::DocComment {
            extra.doc_comments.push(span);
        } else if kind == TokenKind::Comment {
            extra.comments.push(span);
        } else if kind == TokenKind::EmptyLine {
            extra.empty_lines.push(span.start);
        } else {
            push_item(&mut code, (token_of(kind, tokens[i].0.text()), span));
        }
        i += 1;
    }
    assert(all.take(i as int) =~= all);
    (code, extra)
}

} // verus!
