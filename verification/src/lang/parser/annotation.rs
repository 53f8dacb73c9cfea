//! The grammar of type annotations.
use vstd::prelude::*;
use crate::list::{no_items, push_item};
use crate::lang::ast::{Annotation, AnnotationView, Span};
use crate::lang::parser::stream::{
    Model,
    Parsed,
    advances,
    agrees,
    at_kind,
    forward,
    has_kind,
    span_between,
    span_of,
    stream_end,
    well_formed,
    take_text,
    text_of,
};
use crate::lang::parser::token::{Lexeme, Token, TokenKind};

verus! {

/// A type annotation that starts at `pos`: a hole `_name`; a function type
/// `fn(T, ..) -> T`; a constructor `Name`, `Name(T, ..)`, `module.Name` or
/// `module.Name(T, ..)`; or a type variable `name`.
pub open spec fn spec_type(tokens: Seq<(Lexeme, Span)>, pos: nat) -> Model<AnnotationView>
    decreases tokens.len() - pos, 0nat,
{
    if pos >= tokens.len() {
        Err(pos)
    } else {
        let next = pos + 1;
        let text = tokens[pos as int].0.text;
        match tokens[pos as int].0.kind {
            TokenKind::DiscardName => Ok(
                (AnnotationView::Hole { location: tokens[pos as int].1, name: text }, next),
            ),
            TokenKind::Fn => match forward(spec_type_args(tokens, next), pos, tokens.len()) {
                Ok((arguments, p1)) => if !has_kind(tokens, p1, TokenKind::RArrow) {
                    Err(p1)
                } else {
                    match forward(spec_type(tokens, p1 + 1), p1, tokens.len()) {
                        Ok((ret, p2)) => Ok(
                            (
                                AnnotationView::Fn {
                                    location: span_of(tokens, pos, p2),
                                    arguments,
                                    ret: Box::new(ret),
                                },
                                p2,
                            ),
                        ),
                        Err(e) => Err(e),
                    }
                },
                Err(e) => Err(e),
            },
            TokenKind::UpName => {
                let (arguments, p1) = spec_opt_type_args(tokens, next);
                Ok(
                    (
                        AnnotationView::Constructor {
                            location: span_of(tokens, pos, p1),
                            module: None,
                            name: text,
                            arguments,
                        },
                        p1,
                    ),
                )
            },
            TokenKind::Name => match text_of(tokens, pos + 2, TokenKind::UpName) {
                Some(constructor) if has_kind(tokens, next, TokenKind::Dot) => {
                    let (arguments, p1) = spec_opt_type_args(tokens, pos + 3);
                    Ok(
                        (
                            AnnotationView::Constructor {
                                location: span_of(tokens, pos, p1),
                                module: Some(text),
                                name: constructor,
                                arguments,
                            },
                            p1,
                        ),
                    )
                },
                _ => Ok((AnnotationView::Var { location: tokens[pos as int].1, name: text }, next)),
            },
            _ => Err(pos),
        }
    }
}

/// The parenthesised arguments of a type where they follow at `pos`, and no
/// arguments, with nothing consumed, where they do not.
pub open spec fn spec_opt_type_args(tokens: Seq<(Lexeme, Span)>, pos: nat) -> (
    Seq<AnnotationView>,
    nat,
)
    decreases tokens.len() - pos, 3nat,
{
    match forward(spec_type_args(tokens, pos), pos, tokens.len()) {
        Ok((arguments, p)) => (arguments, p),
        Err(_) => (Seq::empty(), pos),
    }
}

/// `( T, T, .. )` at `pos`: annotations separated by commas, the last of
/// which a comma may follow, between parentheses.
pub open spec fn spec_type_args(tokens: Seq<(Lexeme, Span)>, pos: nat) -> Model<
    Seq<AnnotationView>,
>
    decreases tokens.len() - pos, 2nat,
{
    if !has_kind(tokens, pos, TokenKind::LeftParen) {
        Err(pos)
    } else {
        let (items, p) = spec_type_list(tokens, pos + 1, Seq::empty());
        let p1 = if items.len() > 0 && has_kind(tokens, p, TokenKind::Comma) {
            p + 1
        } else {
            p
        };
        if has_kind(tokens, p1, TokenKind::RightParen) {
            Ok((items, p1 + 1))
        } else {
            Err(p1)
        }
    }
}

/// The annotations of a comma-separated list that goes on at `pos`, behind
/// those in `done`. A comma that no annotation follows is not consumed.
pub open spec fn spec_type_list(
    tokens: Seq<(Lexeme, Span)>,
    pos: nat,
    done: Seq<AnnotationView>,
) -> (Seq<AnnotationView>, nat)
    decreases tokens.len() - pos, 1nat,
{
    let start = if done.len() == 0 {
        pos
    } else {
        pos + 1
    };
    if pos >= tokens.len() || (done.len() > 0 && !has_kind(tokens, pos, TokenKind::Comma)) {
        (done, pos)
    } else {
        match forward(spec_type(tokens, start), pos, tokens.len()) {
            Ok((item, p)) => spec_type_list(tokens, p, done.push(item)),
            Err(_) => (done, pos),
        }
    }
}

/// An annotation behind the token `intro` where both follow at `pos`, and
/// none, with nothing consumed, where they do not.
pub open spec fn spec_opt_annotation(tokens: Seq<(Lexeme, Span)>, pos: nat, intro: TokenKind) -> (
    Option<AnnotationView>,
    nat,
) {
    if has_kind(tokens, pos, intro) {
        match forward(spec_type(tokens, pos + 1), pos, tokens.len()) {
            Ok((annotation, p)) => (Some(annotation), p),
            Err(_) => (None, pos),
        }
    } else {
        (None, pos)
    }
}

/// Whether every span in each of the annotations is a range of a text of
/// `len` bytes.
pub open spec fn annotations_within(items: Seq<AnnotationView>, len: nat) -> bool {
    forall|i: int| 0 <= i < items.len() ==> (#[trigger] items[i]).spans_within(len)
}

/// Whether the annotation was read from the tokens from `pos` up to `end`
/// of a stream whose tokens follow one another: it covers just these
/// tokens, and every span in it is a range of the text that the stream
/// covers.
pub open spec fn placed(a: AnnotationView, tokens: Seq<(Lexeme, Span)>, pos: nat, end: nat) -> bool {
    a.spans_within(stream_end(tokens)) && a.location() == span_of(tokens, pos, end)
}

pub fn opt_annotation(tokens: &Vec<(Token, Span)>, pos: usize, intro: TokenKind) -> (res: (
    Option<Annotation>,
    usize,
))
    requires
        pos <= tokens@.len(),
    ensures
        (res.0.deep_view(), res.1 as nat) == spec_opt_annotation(tokens.deep_view(), pos as nat, intro),
        pos <= res.1 <= tokens@.len(),
        well_formed(tokens.deep_view()) ==> match res.0 {
            Some(a) => placed(a.deep_view(), tokens.deep_view(), (pos + 1) as nat, res.1 as nat),
            None => true,
        },
{
    if at_kind(tokens, pos, intro) {
        match type_parser(tokens, pos + 1) {
            Ok((annotation, p)) => (Some(annotation), p),
            Err(_) => (None, pos),
        }
    } else {
        (None, pos)
    }
}

pub fn type_parser(tokens: &Vec<(Token, Span)>, pos: usize) -> (res: Parsed<Annotation>)
    ensures
        agrees(res, spec_type(tokens.deep_view(), pos as nat)),
        advances(res, pos, tokens@.len()),
        well_formed(tokens.deep_view()) ==> match res {
            Ok((a, end)) => placed(a.deep_view(), tokens.deep_view(), pos as nat, end as nat),
            Err(_) => true,
        },
    decreases tokens@.len() - pos, 0nat,
{
    if pos >= tokens.len() {
        return Err(pos);
    }
    let next = pos + 1;
    let here = span_between(tokens, pos, next);
    match &tokens[pos].0 {
        Token::DiscardName { name } => Ok(
            (Annotation::Hole { location: here, name: name.clone() }, next),
        ),
        Token::Fn => {
            let (arguments, p1) = match type_args(tokens, next) {
                Ok(r) => r,
                Err(e) => { return Err(e); },
            };
            if !at_kind(tokens, p1, TokenKind::RArrow) {
                return Err(p1);
            }
            match type_parser(tokens, p1 + 1) {
                Ok((ret, p2)) => Ok(
                    (Annotation::function(span_between(tokens, pos, p2), arguments, ret), p2),
                ),
                Err(e) => Err(e),
            }
        },
        Token::UpName { name } => {
            let (arguments, p1) = opt_type_args(tokens, next);
            Ok(
                (
                    Annotation::constructor(
                        span_between(tokens, pos, p1),
                        None,
                        name.clone(),
                        arguments,
                    ),
                    p1,
                ),
            )
        },
        Token::Name { name } => {
            if at_kind(tokens, next, TokenKind::Dot) {
                match take_text(tokens, pos + 2, TokenKind::UpName) {
                    Some(constructor) => {
                        let (arguments, p1) = opt_type_args(tokens, pos + 3);
                        return Ok(
                            (
                                Annotation::constructor(
                                    span_between(tokens, pos, p1),
                                    Some(name.clone()),
                                    constructor,
                                    arguments,
                                ),
                                p1,
                            ),
                        );
                    },
                    None => {},
                }
            }
            Ok((Annotation::Var { location: here, name: name.clone() }, next))
        },
        _ => Err(pos),
    }
}

fn opt_type_args(tokens: &Vec<(Token, Span)>, pos: usize) -> (res: (Vec<Annotation>, usize))
    requires
        pos <= tokens@.len(),
    ensures
        (res.0.deep_view(), res.1 as nat) == spec_opt_type_args(tokens.deep_view(), pos as nat),
        pos <= res.1 <= tokens@.len(),
        well_formed(tokens.deep_view()) ==> annotations_within(
            res.0.deep_view(),
            stream_end(tokens.deep_view()),
        ),
    decreases tokens@.len() - pos, 3nat,
{
    match type_args(tokens, pos) {
        Ok((arguments, p)) => (arguments, p),
        Err(_) => (no_items(), pos),
    }
}

fn type_args(tokens: &Vec<(Token, Span)>, pos: usize) -> (res: Parsed<Vec<Annotation>>)
    requires
        pos <= tokens@.len(),
    ensures
        agrees(res, spec_type_args(tokens.deep_view(), pos as nat)),
        advances(res, pos, tokens@.len()),
        well_formed(tokens.deep_view()) ==> match res {
            Ok((items, _)) => annotations_within(items.deep_view(), stream_end(tokens.deep_view())),
            Err(_) => true,
        },
    decreases tokens@.len() - pos, 2nat,
{
    if !at_kind(tokens, pos, TokenKind::LeftParen) {
        return Err(pos);
    }
    let mut items: Vec<Annotation> = no_items();
    let mut p: usize = pos + 1;
    loop
        invariant
            pos < p <= tokens@.len(),
            spec_type_list(tokens.deep_view(), (pos + 1) as nat, Seq::empty()) == spec_type_list(
                tokens.deep_view(),
                p as nat,
                items.deep_view(),
            ),
            well_formed(tokens.deep_view()) ==> annotations_within(
                items.deep_view(),
                stream_end(tokens.deep_view()),
            ),
        ensures
            pos < p <= tokens@.len(),
            well_formed(tokens.deep_view()) ==> annotations_within(
                items.deep_view(),
                stream_end(tokens.deep_view()),
            ),
            spec_type_list(tokens.deep_view(), (pos + 1) as nat, Seq::empty()) == (items.deep_view(), p as nat),
        decreases tokens@.len() - p,
    {
        if p >= tokens.len() || (items.len() > 0 && !at_kind(tokens, p, TokenKind::Comma)) {
            break;
        }
        let start = if items.len() == 0 {
            p
        } else {
            p + 1
        };
        match type_parser(tokens, start) {
            Ok((item, p2)) => {
                push_item(&mut items, item);
                p = p2;
            },
            Err(_) => {
                break;
            },
        }
    }
    let p1 = if items.len() > 0 && at_kind(tokens, p, TokenKind::Comma) {
        p + 1
    } else {
        p
    };
    if at_kind(tokens, p1, TokenKind::RightParen) {
        Ok((items, p1 + 1))
    } else {
        Err(p1)
    }
}

} // verus!
