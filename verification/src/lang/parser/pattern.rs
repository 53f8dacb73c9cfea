//! The grammar of patterns.
use vstd::prelude::*;
use crate::list::{no_items, push_item};
use crate::lang::ast::{CallArg, CallArgView, Pattern, PatternView, Span};
use crate::lang::parser::stream::{
    Model,
    Parsed,
    advances,
    agrees,
    at_kind,
    forward,
    has_kind,
    span_between,
    span_of,
    stream_end,
    take_text,
    text_of,
    well_formed,
};
use crate::lang::parser::token::{Lexeme, Token, TokenKind};

verus! {

/// The arguments of a constructor pattern, whether `..` closes them, and
/// whether they stand between braces.
pub struct PatternArgs {
    pub arguments: Vec<CallArg<Pattern>>,
    pub with_spread: bool,
    pub is_record: bool,
}

pub struct PatternArgsView {
    pub arguments: Seq<CallArgView<PatternView>>,
    pub with_spread: bool,
    pub is_record: bool,
}

impl DeepView for PatternArgs {
    type V = PatternArgsView;

    open spec fn deep_view(&self) -> PatternArgsView {
        PatternArgsView {
            arguments: self.arguments.deep_view(),
            with_spread: self.with_spread,
            is_record: self.is_record,
        }
    }
}

/// A pattern that starts at `pos`: a base pattern, which `as name` may follow
/// to bind the whole match.
pub open spec fn spec_pattern(tokens: Seq<(Lexeme, Span)>, pos: nat) -> Model<PatternView>
    decreases tokens.len() - pos, 3nat,
{
    match spec_pattern_base(tokens, pos) {
        Ok((pattern, p1)) => match text_of(tokens, p1 + 1, TokenKind::Name) {
            Some(name) if has_kind(tokens, p1, TokenKind::As) => Ok(
                (
                    PatternView::Assign {
                        name,
                        location: span_of(tokens, pos, p1 + 2),
                        pattern: Box::new(pattern),
                    },
                    p1 + 2,
                ),
            ),
            _ => Ok((pattern, p1)),
        },
        Err(e) => Err(e),
    }
}

/// A pattern without a binding: a variable; a constructor, which a module
/// name and a dot may precede; a discard; a string or an integer; or a list.
pub open spec fn spec_pattern_base(tokens: Seq<(Lexeme, Span)>, pos: nat) -> Model<PatternView>
    decreases tokens.len() - pos, 2nat,
{
    if pos >= tokens.len() {
        Err(pos)
    } else {
        let location = tokens[pos as int].1;
        let text = tokens[pos as int].0.text;
        match tokens[pos as int].0.kind {
            TokenKind::Name => {
                let variable = Ok((PatternView::Var { location, name: text }, pos + 1));
                if has_kind(tokens, pos + 1, TokenKind::Dot) {
                    match spec_constructor_pattern(tokens, pos + 2, Some(text), pos) {
                        Ok(r) => Ok(r),
                        Err(_) => variable,
                    }
                } else {
                    variable
                }
            },
            TokenKind::UpName => spec_constructor_pattern(tokens, pos, None, pos),
            TokenKind::DiscardName => Ok(
                (PatternView::Discard { name: text, location }, pos + 1),
            ),
            TokenKind::String => Ok(
                (PatternView::String { location, value: text }, pos + 1),
            ),
            TokenKind::Int => Ok((PatternView::Int { location, value: text }, pos + 1)),
            TokenKind::LeftSquare => spec_list_pattern(tokens, pos),
            _ => Err(pos),
        }
    }
}

/// A constructor name at `pos` with the arguments that follow it. The
/// pattern's span starts with the token at `start`.
pub open spec fn spec_constructor_pattern(
    tokens: Seq<(Lexeme, Span)>,
    pos: nat,
    module: Option<Seq<char>>,
    start: nat,
) -> Model<PatternView>
    decreases tokens.len() - pos, 1nat,
{
    match text_of(tokens, pos, TokenKind::UpName) {
        Some(name) => {
            let (args, p1) = spec_constructor_pattern_args(tokens, pos + 1);
            Ok(
                (
                    PatternView::Constructor {
                        is_record: args.is_record,
                        location: span_of(tokens, start, p1),
                        name,
                        arguments: args.arguments,
                        module,
                        with_spread: args.with_spread,
                    },
                    p1,
                ),
            )
        },
        None => Err(pos),
    }
}

/// The arguments of a constructor pattern where they follow at `pos`,
/// between braces or else between parentheses; no arguments, with nothing
/// consumed, where neither follows.
pub open spec fn spec_constructor_pattern_args(tokens: Seq<(Lexeme, Span)>, pos: nat) -> (
    PatternArgsView,
    nat,
)
    decreases tokens.len() - pos, 8nat,
{
    match forward(
        spec_pattern_args(tokens, pos, TokenKind::LeftBrace, TokenKind::RightBrace),
        pos,
        tokens.len(),
    ) {
        Ok(((arguments, with_spread), p)) => (
            PatternArgsView { arguments, with_spread, is_record: true },
            p,
        ),
        Err(_) => match forward(
            spec_pattern_args(tokens, pos, TokenKind::LeftParen, TokenKind::RightParen),
            pos,
            tokens.len(),
        ) {
            Ok(((arguments, with_spread), p)) => (
                PatternArgsView { arguments, with_spread, is_record: false },
                p,
            ),
            Err(_) => (
                PatternArgsView { arguments: Seq::empty(), with_spread: false, is_record: false },
                pos,
            ),
        },
    }
}

/// Argument patterns between `open` and `close`: separated by commas, the
/// last of which a comma may follow; then `..`, which a comma may follow,
/// may stand for the arguments that are left out. Between braces an argument
/// may carry a label.
pub open spec fn spec_pattern_args(
    tokens: Seq<(Lexeme, Span)>,
    pos: nat,
    open: TokenKind,
    close: TokenKind,
) -> Model<(Seq<CallArgView<PatternView>>, bool)>
    decreases tokens.len() - pos, 7nat,
{
    if !has_kind(tokens, pos, open) {
        Err(pos)
    } else {
        let (items, p) = spec_pattern_arg_list(
            tokens,
            pos + 1,
            open == TokenKind::LeftBrace,
            Seq::empty(),
        );
        let p1 = if items.len() > 0 && has_kind(tokens, p, TokenKind::Comma) {
            p + 1
        } else {
            p
        };
        let with_spread = has_kind(tokens, p1, TokenKind::DotDot);
        let p2 = if !with_spread {
            p1
        } else if has_kind(tokens, p1 + 1, TokenKind::Comma) {
            p1 + 2
        } else {
            p1 + 1
        };
        if has_kind(tokens, p2, close) {
            Ok(((items, with_spread), p2 + 1))
        } else {
            Err(p2)
        }
    }
}

/// The argument patterns of a comma-separated list that goes on at `pos`,
/// behind those in `done`. A comma that no argument follows is not consumed.
pub open spec fn spec_pattern_arg_list(
    tokens: Seq<(Lexeme, Span)>,
    pos: nat,
    labelled: bool,
    done: Seq<CallArgView<PatternView>>,
) -> (Seq<CallArgView<PatternView>>, nat)
    decreases tokens.len() - pos, 6nat,
{
    let start = if done.len() == 0 {
        pos
    } else {
        pos + 1
    };
    if pos >= tokens.len() || (done.len() > 0 && !has_kind(tokens, pos, TokenKind::Comma)) {
        (done, pos)
    } else {
        match forward(spec_pattern_arg(tokens, start, labelled), pos, tokens.len()) {
            Ok((item, p)) => spec_pattern_arg_list(tokens, p, labelled, done.push(item)),
            Err(_) => (done, pos),
        }
    }
}

/// The label that an argument without one takes from its pattern: the name
/// of a variable.
pub open spec fn implied_label(pattern: PatternView) -> Option<Seq<char>> {
    match pattern {
        PatternView::Var { name, .. } => Some(name),
        _ => None,
    }
}

/// One argument of a constructor pattern. Where labels are allowed,
/// `label: pattern` is tried first; a pattern alone takes the label that it
/// implies. Where they are not, the argument is a pattern without a label.
pub open spec fn spec_pattern_arg(tokens: Seq<(Lexeme, Span)>, pos: nat, labelled: bool) -> Model<
    CallArgView<PatternView>,
>
    decreases tokens.len() - pos, 4nat,
{
    let with_label = match text_of(tokens, pos, TokenKind::Name) {
        Some(label) if labelled && has_kind(tokens, pos + 1, TokenKind::Colon) => match forward(
            spec_pattern(tokens, pos + 2),
            pos,
            tokens.len(),
        ) {
            Ok((value, p)) => Some(
                (CallArgView { label: Some(label), location: span_of(tokens, pos, p), value }, p),
            ),
            Err(_) => None,
        },
        _ => None,
    };
    match with_label {
        Some(r) => Ok(r),
        None => match spec_pattern(tokens, pos) {
            Ok((value, p)) => Ok(
                (
                    CallArgView {
                        label: if labelled {
                            implied_label(value)
                        } else {
                            None
                        },
                        location: span_of(tokens, pos, p),
                        value,
                    },
                    p,
                ),
            ),
            Err(e) => Err(e),
        },
    }
}

/// The patterns of a comma-separated list that goes on at `pos`, behind
/// those in `done`. A comma that no pattern follows is not consumed.
pub open spec fn spec_pattern_list(
    tokens: Seq<(Lexeme, Span)>,
    pos: nat,
    done: Seq<PatternView>,
) -> (Seq<PatternView>, nat)
    decreases tokens.len() - pos, 6nat,
{
    let start = if done.len() == 0 {
        pos
    } else {
        pos + 1
    };
    if pos >= tokens.len() || (done.len() > 0 && !has_kind(tokens, pos, TokenKind::Comma)) {
        (done, pos)
    } else {
        match forward(spec_pattern(tokens, start), pos, tokens.len()) {
            Ok((item, p)) => spec_pattern_list(tokens, p, done.push(item)),
            Err(_) => (done, pos),
        }
    }
}

/// The discard that stands for the tail of a list pattern that ends in `..`
/// alone: it covers the last byte of the list.
pub open spec fn implicit_tail(location: Span) -> PatternView {
    PatternView::Discard {
        name: "_"@,
        location: Span { start: (location.end - 1) as usize, end: location.end },
    }
}

/// What follows the elements of a list pattern at `pos`: nothing; a comma;
/// a comma and `..`; or a comma, `..` and the pattern of the tail. Gives
/// whether `..` was there, the pattern of the tail, and the position behind.
pub open spec fn spec_list_tail(tokens: Seq<(Lexeme, Span)>, pos: nat) -> (
    bool,
    Option<PatternView>,
    nat,
)
    decreases tokens.len() - pos, 5nat,
{
    if !has_kind(tokens, pos, TokenKind::Comma) {
        (false, None, pos)
    } else if !has_kind(tokens, pos + 1, TokenKind::DotDot) {
        (false, None, pos + 1)
    } else {
        match forward(spec_pattern(tokens, pos + 2), pos, tokens.len()) {
            Ok((tail, p)) => (true, Some(tail), p),
            Err(_) => (true, None, pos + 2),
        }
    }
}

/// A list pattern `[p, p, ..tail]` whose `[` stands at `pos`.
pub open spec fn spec_list_pattern(tokens: Seq<(Lexeme, Span)>, pos: nat) -> Model<PatternView>
    decreases tokens.len() - pos, 1nat,
{
    if !has_kind(tokens, pos, TokenKind::LeftSquare) {
        Err(pos)
    } else {
        let (elements, p) = spec_pattern_list(tokens, pos + 1, Seq::empty());
        if !(pos < p <= tokens.len()) {
            Err(pos)
        } else {
            let (spread, tail, p1) = spec_list_tail(tokens, p);
            if !has_kind(tokens, p1, TokenKind::RightSquare) {
                Err(p1)
            } else {
                let location = span_of(tokens, pos, p1 + 1);
                Ok(
                    (
                        PatternView::List {
                            location,
                            elements,
                            tail: match tail {
                                Some(t) => Some(Box::new(t)),
                                None => if spread {
                                    Some(Box::new(implicit_tail(location)))
                                } else {
                                    None
                                },
                            },
                        },
                        p1 + 1,
                    ),
                )
            }
        }
    }
}

/// Whether every span in each of the arguments is a range of a text of
/// `len` bytes.
pub open spec fn pattern_args_within(items: Seq<CallArgView<PatternView>>, len: nat) -> bool {
    forall|i: int|
        0 <= i < items.len() ==> (#[trigger] items[i]).location.within(len)
            && items[i].value.spans_within(len)
}

/// Whether every span in each of the patterns is a range of a text of
/// `len` bytes.
pub open spec fn patterns_within(items: Seq<PatternView>, len: nat) -> bool {
    forall|i: int| 0 <= i < items.len() ==> (#[trigger] items[i]).spans_within(len)
}

pub fn pattern_parser(tokens: &Vec<(Token, Span)>, pos: usize) -> (res: Parsed<Pattern>)
    requires
        well_formed(tokens.deep_view()),
    ensures
        agrees(res, spec_pattern(tokens.deep_view(), pos as nat)),
        advances(res, pos, tokens@.len()),
        match res {
            Ok((p, _)) => p.deep_view().spans_within(stream_end(tokens.deep_view())),
            Err(_) => true,
        },
    decreases tokens@.len() - pos, 3nat,
{
    let (pattern, p1) = match pattern_base(tokens, pos) {
        Ok(r) => r,
        Err(e) => { return Err(e); },
    };
    if at_kind(tokens, p1, TokenKind::As) {
        match take_text(tokens, p1 + 1, TokenKind::Name) {
            Some(name) => {
                return Ok(
                    (
                        Pattern::Assign {
                            name,
                            location: span_between(tokens, pos, p1 + 2),
                            pattern: Box::new(pattern),
                        },
                        p1 + 2,
                    ),
                );
            },
            None => {},
        }
    }
    Ok((pattern, p1))
}

fn pattern_base(tokens: &Vec<(Token, Span)>, pos: usize) -> (res: Parsed<Pattern>)
    requires
        well_formed(tokens.deep_view()),
    ensures
        agrees(res, spec_pattern_base(tokens.deep_view(), pos as nat)),
        advances(res, pos, tokens@.len()),
        match res {
            Ok((p, _)) => p.deep_view().spans_within(stream_end(tokens.deep_view())),
            Err(_) => true,
        },
    decreases tokens@.len() - pos, 2nat,
{
    if pos >= tokens.len() {
        return Err(pos);
    }
    let location = span_between(tokens, pos, pos + 1);
    match &tokens[pos].0 {
        Token::Name { name } => {
            if at_kind(tokens, pos + 1, TokenKind::Dot) {
                match constructor_pattern(tokens, pos + 2, Some(name.clone()), pos) {
                    Ok(r) => { return Ok(r); },
                    Err(_) => {},
                }
            }
            Ok((Pattern::Var { location, name: name.clone() }, pos + 1))
        },
        Token::UpName { .. } => constructor_pattern(tokens, pos, None, pos),
        Token::DiscardName { name } => Ok(
            (Pattern::Discard { name: name.clone(), location }, pos + 1),
        ),
        Token::String { value } => Ok((Pattern::String { location, value: value.clone() }, pos + 1)),
        Token::Int { value } => Ok((Pattern::Int { location, value: value.clone() }, pos + 1)),
        Token::LeftSquare => list_pattern(tokens, pos),
        _ => Err(pos),
    }
}

fn constructor_pattern(
    tokens: &Vec<(Token, Span)>,
    pos: usize,
    module: Option<String>,
    start: usize,
) -> (res: Parsed<Pattern>)
    requires
        well_formed(tokens.deep_view()),
        start <= pos,
    ensures
        agrees(
            res,
            spec_constructor_pattern(tokens.deep_view(), pos as nat, module.deep_view(), start as nat),
        ),
        advances(res, pos, tokens@.len()),
        match res {
            Ok((p, _)) => p.deep_view().spans_within(stream_end(tokens.deep_view())),
            Err(_) => true,
        },
    decreases tokens@.len() - pos, 1nat,
{
    match take_text(tokens, pos, TokenKind::UpName) {
        Some(name) => {
            let (args, p1) = constructor_pattern_args(tokens, pos + 1);
            Ok(
                (
                    Pattern::constructor(
                        args.is_record,
                        span_between(tokens, start, p1),
                        name,
                        args.arguments,
                        module,
                        args.with_spread,
                    ),
                    p1,
                ),
            )
        },
        None => Err(pos),
    }
}

fn constructor_pattern_args(tokens: &Vec<(Token, Span)>, pos: usize) -> (res: (PatternArgs, usize))
    requires
        well_formed(tokens.deep_view()),
        pos <= tokens@.len(),
    ensures
        (res.0.deep_view(), res.1 as nat) == spec_constructor_pattern_args(tokens.deep_view(), pos as nat),
        pos <= res.1 <= tokens@.len(),
        pattern_args_within(res.0.deep_view().arguments, stream_end(tokens.deep_view())),
    decreases tokens@.len() - pos, 8nat,
{
    match pattern_args(tokens, pos, TokenKind::LeftBrace, TokenKind::RightBrace) {
        Ok(((arguments, with_spread), p)) => {
            return (PatternArgs { arguments, with_spread, is_record: true }, p);
        },
        Err(_) => {},
    }
    match pattern_args(tokens, pos, TokenKind::LeftParen, TokenKind::RightParen) {
        Ok(((arguments, with_spread), p)) => (
            PatternArgs { arguments, with_spread, is_record: false },
            p,
        ),
        Err(_) => (
            PatternArgs { arguments: no_items(), with_spread: false, is_record: false },
            pos,
        ),
    }
}

fn pattern_args(tokens: &Vec<(Token, Span)>, pos: usize, open: TokenKind, close: TokenKind) -> (res:
    Parsed<(Vec<CallArg<Pattern>>, bool)>)
    requires
        well_formed(tokens.deep_view()),
        pos <= tokens@.len(),
    ensures
        agrees(res, spec_pattern_args(tokens.deep_view(), pos as nat, open, close)),
        advances(res, pos, tokens@.len()),
        match res {
            Ok(((items, _), _)) => pattern_args_within(
                items.deep_view(),
                stream_end(tokens.deep_view()),
            ),
            Err(_) => true,
        },
    decreases tokens@.len() - pos, 7nat,
{
    if !at_kind(tokens, pos, open) {
        return Err(pos);
    }
    let labelled = open == TokenKind::LeftBrace;
    let mut items: Vec<CallArg<Pattern>> = no_items();
    let mut p: usize = pos + 1;
    loop
        invariant
            well_formed(tokens.deep_view()),
            pos < p <= tokens@.len(),
            spec_pattern_arg_list(tokens.deep_view(), (pos + 1) as nat, labelled, Seq::empty())
                == spec_pattern_arg_list(tokens.deep_view(), p as nat, labelled, items.deep_view()),
            pattern_args_within(items.deep_view(), stream_end(tokens.deep_view())),
        ensures
            pos < p <= tokens@.len(),
            pattern_args_within(items.deep_view(), stream_end(tokens.deep_view())),
            spec_pattern_arg_list(tokens.deep_view(), (pos + 1) as nat, labelled, Seq::empty()) == (
                items.deep_view(),
                p as nat,
            ),
        decreases tokens@.len() - p,
    {
        if p >= tokens.len() || (items.len() > 0 && !at_kind(tokens, p, TokenKind::Comma)) {
            break;
        }
        let start = if items.len() == 0 {
            p
        } else {
            p + 1
        };
        match pattern_arg(tokens, start, labelled) {
            Ok((item, p2)) => {
                push_item(&mut items, item);
                p = p2;
            },
            Err(_) => {
                break;
            },
        }
    }
    let p1 = if items.len() > 0 && at_kind(tokens, p, TokenKind::Comma) {
        p + 1
    } else {
        p
    };
    let with_spread = at_kind(tokens, p1, TokenKind::DotDot);
    let p2 = if !with_spread {
        p1
    } else if at_kind(tokens, p1 + 1, TokenKind::Comma) {
        p1 + 2
    } else {
        p1 + 1
    };
    if at_kind(tokens, p2, close) {
        Ok(((items, with_spread), p2 + 1))
    } else {
        Err(p2)
    }
}

fn pattern_arg(tokens: &Vec<(Token, Span)>, pos: usize, labelled: bool) -> (res: Parsed<
    CallArg<Pattern>,
>)
    requires
        well_formed(tokens.deep_view()),
        pos <= tokens@.len(),
    ensures
        agrees(res, spec_pattern_arg(tokens.deep_view(), pos as nat, labelled)),
        advances(res, pos, tokens@.len()),
        match res {
            Ok((arg, _)) => arg.deep_view().location.within(stream_end(tokens.deep_view()))
                && arg.deep_view().value.spans_within(stream_end(tokens.deep_view())),
            Err(_) => true,
        },
    decreases tokens@.len() - pos, 4nat,
{
    if labelled {
        match take_text(tokens, pos, TokenKind::Name) {
            Some(label) => {
                if at_kind(tokens, pos + 1, TokenKind::Colon) {
                    match pattern_parser(tokens, pos + 2) {
                        Ok((value, p)) => {
                            return Ok(
                                (
                                    CallArg {
                                        label: Some(label),
                                        location: span_between(tokens, pos, p),
                                        value,
                                    },
                                    p,
                                ),
                            );
                        },
                        Err(_) => {},
                    }
                }
            },
            None => {},
        }
    }
    match pattern_parser(tokens, pos) {
        Ok((value, p)) => {
            let label = if labelled {
                match &value {
                    Pattern::Var { name, .. } => Some(name.clone()),
                    _ => None,
                }
            } else {
                None
            };
            Ok((CallArg { label, location: span_between(tokens, pos, p), value }, p))
        },
        Err(e) => Err(e),
    }
}

fn list_tail(tokens: &Vec<(Token, Span)>, pos: usize) -> (res: (bool, Option<Pattern>, usize))
    requires
        well_formed(tokens.deep_view()),
        pos <= tokens@.len(),
    ensures
        (res.0, res.1.deep_view(), res.2 as nat) == spec_list_tail(tokens.deep_view(), pos as nat),
        pos <= res.2 <= tokens@.len(),
        match res.1 {
            Some(p) => p.deep_view().spans_within(stream_end(tokens.deep_view())),
            None => true,
        },
    decreases tokens@.len() - pos, 5nat,
{
    if !at_kind(tokens, pos, TokenKind::Comma) {
        (false, None, pos)
    } else if !at_kind(tokens, pos + 1, TokenKind::DotDot) {
        (false, None, pos + 1)
    } else {
        match pattern_parser(tokens, pos + 2) {
            Ok((tail, p)) => (true, Some(tail), p),
            Err(_) => (true, None, pos + 2),
        }
    }
}

fn list_pattern(tokens: &Vec<(Token, Span)>, pos: usize) -> (res: Parsed<Pattern>)
    requires
        well_formed(tokens.deep_view()),
    ensures
        agrees(res, spec_list_pattern(tokens.deep_view(), pos as nat)),
        advances(res, pos, tokens@.len()),
        match res {
            Ok((p, _)) => p.deep_view().spans_within(stream_end(tokens.deep_view())),
            Err(_) => true,
        },
    decreases tokens@.len() - pos, 1nat,
{
    if !at_kind(tokens, pos, TokenKind::LeftSquare) {
        return Err(pos);
    }
    let mut elements: Vec<Pattern> = no_items();
    let mut p: usize = pos + 1;
    loop
        invariant
            well_formed(tokens.deep_view()),
            pos < p <= tokens@.len(),
            spec_pattern_list(tokens.deep_view(), (pos + 1) as nat, Seq::empty()) == spec_pattern_list(
                tokens.deep_view(),
                p as nat,
                elements.deep_view(),
            ),
            patterns_within(elements.deep_view(), stream_end(tokens.deep_view())),
        ensures
            pos < p <= tokens@.len(),
            patterns_within(elements.deep_view(), stream_end(tokens.deep_view())),
            spec_pattern_list(tokens.deep_view(), (pos + 1) as nat, Seq::empty()) == (
                elements.deep_view(),
                p as nat,
            ),
        decreases tokens@.len() - p,
    {
        if p >= tokens.len() || (elements.len() > 0 && !at_kind(tokens, p, TokenKind::Comma)) {
            break;
        }
        let start = if elements.len() == 0 {
            p
        } else {
            p + 1
        };
        match pattern_parser(tokens, start) {
            Ok((item, p2)) => {
                push_item(&mut elements, item);
                p = p2;
            },
            Err(_) => {
                break;
            },
        }
    }
    let (spread, tail, p1) = list_tail(tokens, p);
    if !at_kind(tokens, p1, TokenKind::RightSquare) {
        return Err(p1);
    }
    let location = span_between(tokens, pos, p1 + 1);
    proof {
        reveal(well_formed);
    }
    let tail = match tail {
        Some(t) => Some(t),
        None => if spread {
            Some(
                Pattern::Discard {
                    name: "_".to_owned(),
                    location: Span { start: location.end - 1, end: location.end },
                },
            )
        } else {
            None
        },
    };
    assert(match tail {
        Some(t) => t.deep_view().spans_within(stream_end(tokens.deep_view())),
        None => true,
    });
    Ok((Pattern::list(location, elements, tail), p1 + 1))
}

} // verus!
