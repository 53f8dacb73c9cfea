//! The grammar of the parameters of functions.
use vstd::prelude::*;
use crate::list::{no_items, push_item};
use crate::lang::ast::{Arg, ArgName, ArgNameView, ArgView, Span};
use crate::lang::parser::annotation::{opt_annotation, spec_opt_annotation};
use crate::lang::parser::stream::{
    Model,
    Parsed,
    advances,
    agrees,
    at_kind,
    forward,
    has_kind,
    list_end,
    span_between,
    span_of,
    stream_end,
    well_formed,
    spec_list_end,
    take_text,
    text_of,
};
use crate::lang::parser::token::{Lexeme, Token, TokenKind};

verus! {

/// The name of a parameter at `pos`. Where labels are allowed the forms are
/// tried in this order: `label _name`, `_name`, `label name`, `name`. Where
/// they are not, the forms are `_name` and `name`.
pub open spec fn spec_param_name(tokens: Seq<(Lexeme, Span)>, pos: nat, labels: bool) -> Model<
    ArgNameView,
> {
    let here = tokens[pos as int].1;
    let both = span_of(tokens, pos, pos + 2);
    match (
        text_of(tokens, pos, TokenKind::Name),
        text_of(tokens, pos, TokenKind::DiscardName),
        text_of(tokens, pos + 1, TokenKind::Name),
        text_of(tokens, pos + 1, TokenKind::DiscardName),
    ) {
        (Some(label), _, _, Some(name)) if labels => Ok(
            (ArgNameView::LabeledDiscard { label, name, location: both }, pos + 2),
        ),
        (_, Some(name), _, _) => Ok((ArgNameView::Discard { name, location: here }, pos + 1)),
        (Some(label), _, Some(name), _) if labels => Ok(
            (ArgNameView::NamedLabeled { name, label, location: both }, pos + 2),
        ),
        (Some(name), _, _, _) => Ok((ArgNameView::Named { name, location: here }, pos + 1)),
        _ => Err(pos),
    }
}

/// A parameter at `pos`: its name, which `: type` may follow.
pub open spec fn spec_param(tokens: Seq<(Lexeme, Span)>, pos: nat, labels: bool) -> Model<ArgView> {
    match spec_param_name(tokens, pos, labels) {
        Ok((arg_name, p)) => {
            let (annotation, p1) = spec_opt_annotation(tokens, p, TokenKind::Colon);
            Ok((ArgView { arg_name, location: span_of(tokens, pos, p1), annotation }, p1))
        },
        Err(e) => Err(e),
    }
}

/// The parameters of a comma-separated list that goes on at `pos`, behind
/// those in `done`. A comma that no parameter follows is not consumed.
pub open spec fn spec_param_list(
    tokens: Seq<(Lexeme, Span)>,
    pos: nat,
    labels: bool,
    done: Seq<ArgView>,
) -> (Seq<ArgView>, nat)
    decreases tokens.len() - pos,
{
    let start = if done.len() == 0 {
        pos
    } else {
        pos + 1
    };
    if pos >= tokens.len() || (done.len() > 0 && !has_kind(tokens, pos, TokenKind::Comma)) {
        (done, pos)
    } else {
        match forward(spec_param(tokens, start, labels), pos, tokens.len()) {
            Ok((item, p)) => spec_param_list(tokens, p, labels, done.push(item)),
            Err(_) => (done, pos),
        }
    }
}

/// `( param, param, .. )` at `pos`: parameters separated by commas, the last
/// of which a comma may follow, between parentheses.
pub open spec fn spec_params(tokens: Seq<(Lexeme, Span)>, pos: nat, labels: bool) -> Model<
    Seq<ArgView>,
> {
    if !has_kind(tokens, pos, TokenKind::LeftParen) {
        Err(pos)
    } else {
        let (items, p) = spec_param_list(tokens, pos + 1, labels, Seq::empty());
        match spec_list_end(tokens, p, items.len() > 0, TokenKind::RightParen) {
            Ok(p1) => Ok((items, p1)),
            Err(e) => Err(e),
        }
    }
}

/// Whether every span in each of the parameters is a range of a text of
/// `len` bytes.
pub open spec fn params_within(items: Seq<ArgView>, len: nat) -> bool {
    forall|i: int| 0 <= i < items.len() ==> (#[trigger] items[i]).spans_within(len)
}

fn param_name(tokens: &Vec<(Token, Span)>, pos: usize, labels: bool) -> (res: Parsed<ArgName>)
    ensures
        agrees(res, spec_param_name(tokens.deep_view(), pos as nat, labels)),
        advances(res, pos, tokens@.len()),
        well_formed(tokens.deep_view()) ==> match res {
            Ok((name, _)) => name.deep_view().location().within(stream_end(tokens.deep_view())),
            Err(_) => true,
        },
{
    match take_text(tokens, pos, TokenKind::DiscardName) {
        Some(name) => {
            return Ok(
                (ArgName::Discard { name, location: span_between(tokens, pos, pos + 1) }, pos + 1),
            );
        },
        None => {},
    }
    match take_text(tokens, pos, TokenKind::Name) {
        Some(first) => {
            if labels {
                match take_text(tokens, pos + 1, TokenKind::DiscardName) {
                    Some(name) => {
                        return Ok(
                            (
                                ArgName::LabeledDiscard {
                                    label: first,
                                    name,
                                    location: span_between(tokens, pos, pos + 2),
                                },
                                pos + 2,
                            ),
                        );
                    },
                    None => {},
                }
                match take_text(tokens, pos + 1, TokenKind::Name) {
                    Some(name) => {
                        return Ok(
                            (
                                ArgName::NamedLabeled {
                                    name,
                                    label: first,
                                    location: span_between(tokens, pos, pos + 2),
                                },
                                pos + 2,
                            ),
                        );
                    },
                    None => {},
                }
            }
            Ok((ArgName::Named { name: first, location: span_between(tokens, pos, pos + 1) }, pos + 1))
        },
        None => Err(pos),
    }
}

fn param(tokens: &Vec<(Token, Span)>, pos: usize, labels: bool) -> (res: Parsed<Arg>)
    ensures
        agrees(res, spec_param(tokens.deep_view(), pos as nat, labels)),
        advances(res, pos, tokens@.len()),
        well_formed(tokens.deep_view()) ==> match res {
            Ok((arg, _)) => arg.deep_view().spans_within(stream_end(tokens.deep_view())),
            Err(_) => true,
        },
{
    match param_name(tokens, pos, labels) {
        Ok((arg_name, p)) => {
            let (annotation, p1) = opt_annotation(tokens, p, TokenKind::Colon);
            Ok((Arg { arg_name, location: span_between(tokens, pos, p1), annotation, tipo: () }, p1))
        },
        Err(e) => Err(e),
    }
}

/// A parameter of a named function.
pub fn fn_param_parser(tokens: &Vec<(Token, Span)>, pos: usize) -> (res: Parsed<Arg>)
    ensures
        agrees(res, spec_param(tokens.deep_view(), pos as nat, true)),
        advances(res, pos, tokens@.len()),
        well_formed(tokens.deep_view()) ==> match res {
            Ok((arg, _)) => arg.deep_view().spans_within(stream_end(tokens.deep_view())),
            Err(_) => true,
        },
{
    param(tokens, pos, true)
}

/// A parameter of an anonymous function, which takes no label.
pub fn anon_fn_param_parser(tokens: &Vec<(Token, Span)>, pos: usize) -> (res: Parsed<Arg>)
    ensures
        agrees(res, spec_param(tokens.deep_view(), pos as nat, false)),
        advances(res, pos, tokens@.len()),
        well_formed(tokens.deep_view()) ==> match res {
            Ok((arg, _)) => arg.deep_view().spans_within(stream_end(tokens.deep_view())),
            Err(_) => true,
        },
{
    param(tokens, pos, false)
}

/// The parenthesised parameters of a function.
pub fn params(tokens: &Vec<(Token, Span)>, pos: usize, labels: bool) -> (res: Parsed<Vec<Arg>>)
    ensures
        agrees(res, spec_params(tokens.deep_view(), pos as nat, labels)),
        advances(res, pos, tokens@.len()),
        well_formed(tokens.deep_view()) ==> match res {
            Ok((items, _)) => params_within(items.deep_view(), stream_end(tokens.deep_view())),
            Err(_) => true,
        },
{
    if !at_kind(tokens, pos, TokenKind::LeftParen) {
        return Err(pos);
    }
    let mut items: Vec<Arg> = no_items();
    let mut p: usize = pos + 1;
    loop
        invariant
            pos < p <= tokens@.len(),
            spec_param_list(tokens.deep_view(), (pos + 1) as nat, labels, Seq::empty()) == spec_param_list(
                tokens.deep_view(),
                p as nat,
                labels,
                items.deep_view(),
            ),
            well_formed(tokens.deep_view()) ==> params_within(
                items.deep_view(),
                stream_end(tokens.deep_view()),
            ),
        ensures
            pos < p <= tokens@.len(),
            well_formed(tokens.deep_view()) ==> params_within(
                items.deep_view(),
                stream_end(tokens.deep_view()),
            ),
            spec_param_list(tokens.deep_view(), (pos + 1) as nat, labels, Seq::empty()) == (
                items.deep_view(),
                p as nat,
            ),
        decreases tokens@.len() - p,
    {
        if p >= tokens.len() || (items.len() > 0 && !at_kind(tokens, p, TokenKind::Comma)) {
            break;
        }
        let start = if items.len() == 0 {
            p
        } else {
            p + 1
        };
        match param(tokens, start, labels) {
            Ok((item, p2)) => {
                push_item(&mut items, item);
                p = p2;
            },
            Err(_) => {
                break;
            },
        }
    }
    match list_end(tokens, p, items.len() > 0, TokenKind::RightParen) {
        Ok(p1) => Ok((items, p1)),
        Err(e) => Err(e),
    }
}

} // verus!
