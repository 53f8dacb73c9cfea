//! The grammar of expressions.
use vstd::prelude::*;
use crate::list::{no_items, push_item};
use crate::lang::ast::{
    Arg,
    ArgName,
    ArgNameView,
    ArgView,
    CallArg,
    CallArgView,
    NonEmpty,
    NonEmptyView,
    Pattern,
    PatternView,
    Span,
    span_union,
};
use crate::lang::expr::{
    annotation_within,
    args_within,
    branch_within,
    branches_within,
    call_args_within,
    clause_within,
    clauses_within,
    exprs_within,
    update_args_within,
    AssignmentKind,
    BinOp,
    Clause,
    ClauseView,
    ExprView,
    IfBranch,
    IfBranchView,
    RecordUpdateArgView,
    RecordUpdateSpread,
    RecordUpdateSpreadView,
    TodoKind,
    UntypedExpr,
    UntypedRecordUpdateArg,
};
use crate::lang::ast::{Annotation, AnnotationView};
use crate::lang::parser::annotation::{opt_annotation, spec_opt_annotation};
use crate::lang::parser::argument::{params, spec_params};
use crate::lang::parser::pattern::{
    pattern_parser,
    patterns_within,
    spec_pattern,
    spec_pattern_list,
};
use crate::lang::parser::stream::{
    Model,
    Parsed,
    advances,
    agrees,
    at_kind,
    forward,
    has_kind,
    span_between,
    in_order,
    span_of,
    stream_end,
    take_text,
    text_of,
    well_formed,
};
use crate::lang::parser::token::{Lexeme, Token, TokenKind};
use crate::text::{decimal, push_decimal};

verus! {

/// A pattern, the annotation behind it, and the expression bound to it.
pub struct Binding {
    pub pattern: Pattern,
    pub annotation: Option<Annotation>,
    pub value: UntypedExpr,
}

pub struct BindingView {
    pub pattern: PatternView,
    pub annotation: Option<AnnotationView>,
    pub value: ExprView,
}

impl DeepView for Binding {
    type V = BindingView;

    open spec fn deep_view(&self) -> BindingView {
        BindingView {
            pattern: self.pattern.deep_view(),
            annotation: self.annotation.deep_view(),
            value: self.value.deep_view(),
        }
    }
}

// ------------------------------------------------------------------ sequences
/// The expressions of a block or of a function's body, from `pos` on. A
/// `try` takes all that follows it as its continuation; other expressions
/// follow one another in a sequence.
pub open spec fn spec_expr_seq(tokens: Seq<(Lexeme, Span)>, pos: nat) -> Model<ExprView>
    decreases tokens.len() - pos, 40nat,
{
    if has_kind(tokens, pos, TokenKind::Try) {
        spec_try(tokens, pos)
    } else {
        match forward(spec_expr(tokens, pos), pos, tokens.len()) {
            Ok((first, p)) => Ok(spec_seq_rest(tokens, p, first)),
            Err(e) => Err(e),
        }
    }
}

/// The sequence that `done` starts, with the expressions that follow at
/// `pos`, as far as they can be read.
pub open spec fn spec_seq_rest(tokens: Seq<(Lexeme, Span)>, pos: nat, done: ExprView) -> (
    ExprView,
    nat,
)
    decreases tokens.len() - pos, 41nat,
{
    let item = if has_kind(tokens, pos, TokenKind::Try) {
        spec_try(tokens, pos)
    } else {
        spec_expr(tokens, pos)
    };
    match forward(item, pos, tokens.len()) {
        Ok((next, p)) => spec_seq_rest(tokens, p, done.append_in_sequence(next)),
        Err(_) => (done, pos),
    }
}

/// `pattern [: type] intro value` at `pos`, where `intro` is `=` or `is`.
pub open spec fn spec_binding(tokens: Seq<(Lexeme, Span)>, pos: nat, intro: TokenKind) -> Model<
    BindingView,
>
    decreases tokens.len() - pos, 38nat,
{
    match forward(spec_pattern(tokens, pos), pos, tokens.len()) {
        Ok((pattern, p1)) => {
            let (annotation, p2) = spec_opt_annotation(tokens, p1, TokenKind::Colon);
            if !has_kind(tokens, p2, intro) {
                Err(p2)
            } else {
                match forward(spec_expr(tokens, p2 + 1), p2, tokens.len()) {
                    Ok((value, p3)) => Ok((BindingView { pattern, annotation, value }, p3)),
                    Err(e) => Err(e),
                }
            }
        },
        Err(e) => Err(e),
    }
}

/// `try pattern [: type] = value` at `pos`, and the expressions behind it,
/// which are its continuation.
pub open spec fn spec_try(tokens: Seq<(Lexeme, Span)>, pos: nat) -> Model<ExprView>
    decreases tokens.len() - pos, 39nat,
{
    if !has_kind(tokens, pos, TokenKind::Try) {
        Err(pos)
    } else {
        match forward(spec_binding(tokens, pos + 1, TokenKind::Equal), pos, tokens.len()) {
            Ok((binding, p1)) => match forward(spec_expr_seq(tokens, p1), p1, tokens.len()) {
                Ok((then_, p2)) => Ok(
                    (
                        ExprView::Try {
                            location: span_of(tokens, pos, p2),
                            value: Box::new(binding.value),
                            pattern: binding.pattern,
                            then_: Box::new(then_),
                            annotation: binding.annotation,
                        },
                        p2,
                    ),
                ),
                Err(e) => Err(e),
            },
            Err(e) => Err(e),
        }
    }
}

// ------------------------------------------------------------------ operators
/// An expression at `pos`: operands of `|>`, which binds weakest.
pub open spec fn spec_expr(tokens: Seq<(Lexeme, Span)>, pos: nat) -> Model<ExprView>
    decreases tokens.len() - pos, 30nat,
{
    match forward(spec_binary(tokens, pos, 3), pos, tokens.len()) {
        Ok((first, p)) => Ok(spec_pipe_rest(tokens, p, first)),
        Err(e) => Err(e),
    }
}

/// The pipeline that `done` starts, with the stages that follow at `pos`.
pub open spec fn spec_pipe_rest(tokens: Seq<(Lexeme, Span)>, pos: nat, done: ExprView) -> (
    ExprView,
    nat,
)
    decreases tokens.len() - pos, 31nat,
{
    if !has_kind(tokens, pos, TokenKind::Pipe) {
        (done, pos)
    } else {
        match forward(spec_binary(tokens, pos + 1, 3), pos, tokens.len()) {
            Ok((next, p)) => spec_pipe_rest(tokens, p, done.pipe_into(next)),
            Err(_) => (done, pos),
        }
    }
}

/// The binary operator that the token at `pos` writes, where it is one of
/// the level `level`: 0 for `* / %`, 1 for `+ -`, 2 for comparisons, 3 for
/// `&& ||`.
pub open spec fn operator_at(tokens: Seq<(Lexeme, Span)>, pos: nat, level: nat) -> Option<BinOp> {
    if pos >= tokens.len() {
        None
    } else {
        let kind = tokens[pos as int].0.kind;
        if level == 0 {
            if kind == TokenKind::Star {
                Some(BinOp::MultInt)
            } else if kind == TokenKind::Slash {
                Some(BinOp::DivInt)
            } else if kind == TokenKind::Percent {
                Some(BinOp::ModInt)
            } else {
                None
            }
        } else if level == 1 {
            if kind == TokenKind::Plus {
                Some(BinOp::AddInt)
            } else if kind == TokenKind::Minus {
                Some(BinOp::SubInt)
            } else {
                None
            }
        } else if level == 2 {
            if kind == TokenKind::EqualEqual {
                Some(BinOp::Eq)
            } else if kind == TokenKind::NotEqual {
                Some(BinOp::NotEq)
            } else if kind == TokenKind::Less {
                Some(BinOp::LtInt)
            } else if kind == TokenKind::Greater {
                Some(BinOp::GtInt)
            } else if kind == TokenKind::LessEqual {
                Some(BinOp::LtEqInt)
            } else if kind == TokenKind::GreaterEqual {
                Some(BinOp::GtEqInt)
            } else {
                None
            }
        } else if level == 3 {
            if kind == TokenKind::AmperAmper {
                Some(BinOp::And)
            } else if kind == TokenKind::VbarVbar {
                Some(BinOp::Or)
            } else {
                None
            }
        } else {
            None
        }
    }
}

/// An operand of the operators of the level `level`: an expression of the
/// next stronger level, and for level 0 a unary expression.
pub open spec fn spec_operand(tokens: Seq<(Lexeme, Span)>, pos: nat, level: nat) -> Model<ExprView>
    decreases tokens.len() - pos, 9 + 2 * level,
{
    if level == 0 {
        spec_unary(tokens, pos)
    } else {
        spec_binary(tokens, pos, (level - 1) as nat)
    }
}

/// Operands joined by the operators of the level `level`, which associate
/// to the left.
pub open spec fn spec_binary(tokens: Seq<(Lexeme, Span)>, pos: nat, level: nat) -> Model<ExprView>
    decreases tokens.len() - pos, 10 + 2 * level,
{
    match forward(spec_operand(tokens, pos, level), pos, tokens.len()) {
        Ok((first, p)) => Ok(spec_binary_rest(tokens, p, level, first)),
        Err(e) => Err(e),
    }
}

/// The operation of `name` on `left` and `right`, which covers both.
pub open spec fn binary_operation(name: BinOp, left: ExprView, right: ExprView) -> ExprView {
    ExprView::BinOp {
        location: span_union(left.location(), right.location()),
        name,
        left: Box::new(left),
        right: Box::new(right),
    }
}

/// The chain of operations of the level `level` that `done` starts, with
/// the operators and operands that follow at `pos`.
pub open spec fn spec_binary_rest(
    tokens: Seq<(Lexeme, Span)>,
    pos: nat,
    level: nat,
    done: ExprView,
) -> (ExprView, nat)
    decreases tokens.len() - pos, 50nat,
{
    match operator_at(tokens, pos, level) {
        Some(name) => match forward(spec_operand(tokens, pos + 1, level), pos, tokens.len()) {
            Ok((right, p)) => spec_binary_rest(
                tokens,
                p,
                level,
                binary_operation(name, done, right),
            ),
            Err(_) => (done, pos),
        },
        None => (done, pos),
    }
}

/// A chained expression, which any number of `!` may precede.
pub open spec fn spec_unary(tokens: Seq<(Lexeme, Span)>, pos: nat) -> Model<ExprView>
    decreases tokens.len() - pos, 8nat,
{
    if has_kind(tokens, pos, TokenKind::Bang) {
        match spec_unary(tokens, pos + 1) {
            Ok((value, p)) => Ok(
                (
                    ExprView::Negate {
                        location: span_union(tokens[pos as int].1, value.location()),
                        value: Box::new(value),
                    },
                    p,
                ),
            ),
            Err(e) => Err(e),
        }
    } else {
        spec_chained(tokens, pos)
    }
}

// --------------------------------------------------------------------- chains
/// An atom with the calls, field accesses and record updates behind it.
pub open spec fn spec_chained(tokens: Seq<(Lexeme, Span)>, pos: nat) -> Model<ExprView>
    decreases tokens.len() - pos, 7nat,
{
    match forward(spec_unit(tokens, pos), pos, tokens.len()) {
        Ok((unit, p)) => Ok(spec_chain_rest(tokens, p, unit)),
        Err(e) => Err(e),
    }
}

/// The name behind a dot at `pos`: that of a field or of a constructor.
pub open spec fn field_at(tokens: Seq<(Lexeme, Span)>, pos: nat) -> Option<Seq<char>> {
    match text_of(tokens, pos, TokenKind::Name) {
        Some(name) => Some(name),
        None => text_of(tokens, pos, TokenKind::UpName),
    }
}

/// The expression that `done` starts, with the suffixes that follow at
/// `pos`: `.field`, `{ ..base, label: value }` and `(arguments)`.
pub open spec fn spec_chain_rest(tokens: Seq<(Lexeme, Span)>, pos: nat, done: ExprView) -> (
    ExprView,
    nat,
)
    decreases tokens.len() - pos, 50nat,
{
    if has_kind(tokens, pos, TokenKind::Dot) {
        match field_at(tokens, pos + 1) {
            Some(label) => spec_chain_rest(
                tokens,
                pos + 2,
                ExprView::FieldAccess {
                    location: span_union(done.location(), span_of(tokens, pos, pos + 2)),
                    label,
                    container: Box::new(done),
                },
            ),
            None => (done, pos),
        }
    } else if has_kind(tokens, pos, TokenKind::LeftBrace) {
        match forward(spec_record_update(tokens, pos, done), pos, tokens.len()) {
            Ok((next, p)) => spec_chain_rest(tokens, p, next),
            Err(_) => (done, pos),
        }
    } else if has_kind(tokens, pos, TokenKind::LeftParen) {
        match forward(spec_call(tokens, pos, done), pos, tokens.len()) {
            Ok((next, p)) => spec_chain_rest(tokens, p, next),
            Err(_) => (done, pos),
        }
    } else {
        (done, pos)
    }
}

/// `label: value` at `pos`, one field of a record update.
pub open spec fn spec_update_arg(tokens: Seq<(Lexeme, Span)>, pos: nat) -> Model<
    RecordUpdateArgView,
>
    decreases tokens.len() - pos, 35nat,
{
    match text_of(tokens, pos, TokenKind::Name) {
        Some(label) if has_kind(tokens, pos + 1, TokenKind::Colon) => match forward(
            spec_expr(tokens, pos + 2),
            pos,
            tokens.len(),
        ) {
            Ok((value, p)) => Ok(
                (RecordUpdateArgView { label, location: span_of(tokens, pos, p), value }, p),
            ),
            Err(e) => Err(e),
        },
        _ => Err(pos),
    }
}

/// The fields of a comma-separated list that goes on at `pos`, behind
/// those in `done`. A comma that no field follows is not consumed.
pub open spec fn spec_update_arg_list(
    tokens: Seq<(Lexeme, Span)>,
    pos: nat,
    done: Seq<RecordUpdateArgView>,
) -> (Seq<RecordUpdateArgView>, nat)
    decreases tokens.len() - pos, 36nat,
{
    let start = if done.len() == 0 {
        pos
    } else {
        pos + 1
    };
    if pos >= tokens.len() || (done.len() > 0 && !has_kind(tokens, pos, TokenKind::Comma)) {
        (done, pos)
    } else {
        match forward(spec_update_arg(tokens, start), pos, tokens.len()) {
            Ok((item, p)) => spec_update_arg_list(tokens, p, done.push(item)),
            Err(_) => (done, pos),
        }
    }
}

/// `{ ..base, label: value, .. }` at `pos`, which updates a record made by
/// `constructor`. A comma may follow the last field.
pub open spec fn spec_record_update(
    tokens: Seq<(Lexeme, Span)>,
    pos: nat,
    constructor: ExprView,
) -> Model<ExprView>
    decreases tokens.len() - pos, 5nat,
{
    if !has_kind(tokens, pos, TokenKind::LeftBrace) || !has_kind(
        tokens,
        pos + 1,
        TokenKind::DotDot,
    ) {
        Err(pos)
    } else {
        match forward(spec_expr(tokens, pos + 2), pos, tokens.len()) {
            Ok((base, p1)) => {
                let (arguments, p2) = if has_kind(tokens, p1, TokenKind::Comma) {
                    spec_update_arg_list(tokens, p1 + 1, Seq::empty())
                } else {
                    (Seq::empty(), p1)
                };
                let p3 = if arguments.len() > 0 && has_kind(tokens, p2, TokenKind::Comma) {
                    p2 + 1
                } else {
                    p2
                };
                if !has_kind(tokens, p3, TokenKind::RightBrace) {
                    Err(p3)
                } else {
                    let span = span_of(tokens, pos, p3 + 1);
                    Ok(
                        (
                            ExprView::RecordUpdate {
                                location: span_union(constructor.location(), span),
                                constructor: Box::new(constructor),
                                spread: RecordUpdateSpreadView {
                                    base: Box::new(base),
                                    location: span_union(span, base.location()),
                                },
                                arguments,
                            },
                            p3 + 1,
                        ),
                    )
                }
            },
            Err(e) => Err(e),
        }
    }
}

/// The name of the parameter that stands for the hole at the position
/// `index` of a call's arguments.
pub open spec fn capture_name(index: nat) -> Seq<char> {
    "_capture__"@ + decimal(index)
}

/// The parameter that stands for the hole at the position `index`.
pub open spec fn capture_param(index: nat) -> ArgView {
    ArgView {
        arg_name: ArgNameView::Named {
            name: capture_name(index),
            location: Span { start: 0, end: 0 },
        },
        location: Span { start: 0, end: 0 },
        annotation: None,
    }
}

/// The label of a call's argument where `label:` stands at `pos`, and the
/// position behind it.
pub open spec fn spec_label(tokens: Seq<(Lexeme, Span)>, pos: nat) -> (Option<Seq<char>>, nat) {
    match text_of(tokens, pos, TokenKind::Name) {
        Some(label) if has_kind(tokens, pos + 1, TokenKind::Colon) => (Some(label), pos + 2),
        _ => (None, pos),
    }
}

/// The argument at `pos` of a call, which is the argument number `index`:
/// an expression, or a hole `_name`, either of which a label may precede.
/// A hole becomes the variable of a new parameter, which is given too.
pub open spec fn spec_call_arg(tokens: Seq<(Lexeme, Span)>, pos: nat, index: nat) -> Model<
    (CallArgView<ExprView>, Option<ArgView>),
>
    decreases tokens.len() - pos, 35nat,
{
    let (label, p0) = spec_label(tokens, pos);
    match forward(spec_expr(tokens, p0), pos, tokens.len()) {
        Ok((value, p)) => Ok(
            ((CallArgView { label, location: span_of(tokens, pos, p), value }, None), p),
        ),
        Err(_) => if has_kind(tokens, p0, TokenKind::DiscardName) {
            let location = span_of(tokens, pos, p0 + 1);
            Ok(
                (
                    (
                        CallArgView {
                            label,
                            location,
                            value: ExprView::Var { location, name: capture_name(index) },
                        },
                        Some(capture_param(index)),
                    ),
                    p0 + 1,
                ),
            )
        } else {
            Err(p0)
        },
    }
}

/// The arguments of a comma-separated list that goes on at `pos`, behind
/// those in `done`, and the parameters for the holes among them, behind
/// those in `holes`. A comma that no argument follows is not consumed.
pub open spec fn spec_call_arg_list(
    tokens: Seq<(Lexeme, Span)>,
    pos: nat,
    done: Seq<CallArgView<ExprView>>,
    holes: Seq<ArgView>,
) -> (Seq<CallArgView<ExprView>>, Seq<ArgView>, nat)
    decreases tokens.len() - pos, 36nat,
{
    let start = if done.len() == 0 {
        pos
    } else {
        pos + 1
    };
    if pos >= tokens.len() || (done.len() > 0 && !has_kind(tokens, pos, TokenKind::Comma)) {
        (done, holes, pos)
    } else {
        match forward(spec_call_arg(tokens, start, done.len()), pos, tokens.len()) {
            Ok(((item, hole), p)) => spec_call_arg_list(
                tokens,
                p,
                done.push(item),
                match hole {
                    Some(h) => holes.push(h),
                    None => holes,
                },
            ),
            Err(_) => (done, holes, pos),
        }
    }
}

/// The call of `fun` on `arguments`, or, where some arguments are holes,
/// the anonymous function of the `holes` whose body is that call.
pub open spec fn call_or_capture(
    location: Span,
    fun: ExprView,
    arguments: Seq<CallArgView<ExprView>>,
    holes: Seq<ArgView>,
) -> ExprView {
    let call = ExprView::Call { location, fun: Box::new(fun), arguments };
    if holes.len() == 0 {
        call
    } else {
        ExprView::Fn {
            location,
            is_capture: true,
            arguments: holes,
            body: Box::new(call),
            return_annotation: None,
        }
    }
}

/// `( argument, argument, .. )` at `pos`, a call of `fun`. A comma may
/// follow the last argument.
pub open spec fn spec_call(tokens: Seq<(Lexeme, Span)>, pos: nat, fun: ExprView) -> Model<ExprView>
    decreases tokens.len() - pos, 5nat,
{
    if !has_kind(tokens, pos, TokenKind::LeftParen) {
        Err(pos)
    } else {
        let (arguments, holes, p) = spec_call_arg_list(
            tokens,
            pos + 1,
            Seq::empty(),
            Seq::empty(),
        );
        let p1 = if arguments.len() > 0 && has_kind(tokens, p, TokenKind::Comma) {
            p + 1
        } else {
            p
        };
        if !has_kind(tokens, p1, TokenKind::RightParen) {
            Err(p1)
        } else {
            Ok(
                (
                    call_or_capture(
                        span_union(fun.location(), span_of(tokens, pos, p1 + 1)),
                        fun,
                        arguments,
                        holes,
                    ),
                    p1 + 1,
                ),
            )
        }
    }
}

// ---------------------------------------------------------------------- atoms
/// A literal or a variable at `pos`.
pub open spec fn spec_leaf(tokens: Seq<(Lexeme, Span)>, pos: nat) -> Option<ExprView> {
    let location = span_of(tokens, pos, pos + 1);
    let text = tokens[pos as int].0.text;
    match tokens[pos as int].0.kind {
        TokenKind::String => Some(ExprView::String { location, value: text }),
        TokenKind::Int => Some(ExprView::Int { location, value: text }),
        TokenKind::Name => Some(ExprView::Var { location, name: text }),
        TokenKind::UpName => Some(ExprView::Var { location, name: text }),
        _ => None,
    }
}

/// An atom at `pos`: a literal, a variable, `todo`, a list, an anonymous
/// function, a block, `when`, `let`, `assert`, `check` or `if`.
pub open spec fn spec_unit(tokens: Seq<(Lexeme, Span)>, pos: nat) -> Model<ExprView>
    decreases tokens.len() - pos, 6nat,
{
    if pos >= tokens.len() {
        Err(pos)
    } else {
        match spec_leaf(tokens, pos) {
            Some(e) => Ok((e, pos + 1)),
            None => match tokens[pos as int].0.kind {
                TokenKind::Todo => Ok(spec_todo(tokens, pos)),
                TokenKind::LeftSquare => spec_list(tokens, pos),
                TokenKind::Fn => spec_anon_fn(tokens, pos),
                TokenKind::LeftBrace => spec_block(tokens, pos),
                TokenKind::When => spec_when(tokens, pos),
                TokenKind::Let => spec_assignment(
                    tokens,
                    pos,
                    AssignmentKind::Let,
                    TokenKind::Equal,
                ),
                TokenKind::Assert => spec_assignment(
                    tokens,
                    pos,
                    AssignmentKind::Assert,
                    TokenKind::Is,
                ),
                TokenKind::Check => spec_assignment(
                    tokens,
                    pos,
                    AssignmentKind::Check,
                    TokenKind::Is,
                ),
                TokenKind::If => spec_if(tokens, pos),
                _ => Err(pos),
            },
        }
    }
}

/// `todo` at `pos`, with the label `("text")` where that follows it.
pub open spec fn spec_todo(tokens: Seq<(Lexeme, Span)>, pos: nat) -> (ExprView, nat) {
    match text_of(tokens, pos + 2, TokenKind::String) {
        Some(label) if has_kind(tokens, pos + 1, TokenKind::LeftParen) && has_kind(
            tokens,
            pos + 3,
            TokenKind::RightParen,
        ) => (
            ExprView::Todo {
                kind: TodoKind::Keyword,
                location: span_of(tokens, pos, pos + 4),
                label: Some(label),
            },
            pos + 4,
        ),
        _ => (
            ExprView::Todo {
                kind: TodoKind::Keyword,
                location: tokens[pos as int].1,
                label: None,
            },
            pos + 1,
        ),
    }
}

/// `{ expressions }` at `pos`: the value is that of the expressions.
pub open spec fn spec_block(tokens: Seq<(Lexeme, Span)>, pos: nat) -> Model<ExprView>
    decreases tokens.len() - pos, 5nat,
{
    if !has_kind(tokens, pos, TokenKind::LeftBrace) {
        Err(pos)
    } else {
        match forward(spec_expr_seq(tokens, pos + 1), pos, tokens.len()) {
            Ok((body, p)) => if has_kind(tokens, p, TokenKind::RightBrace) {
                Ok((body, p + 1))
            } else {
                Err(p)
            },
            Err(e) => Err(e),
        }
    }
}

/// The expressions of a comma-separated list that goes on at `pos`, behind
/// those in `done`. A comma that no expression follows is not consumed.
pub open spec fn spec_expr_list(tokens: Seq<(Lexeme, Span)>, pos: nat, done: Seq<ExprView>) -> (
    Seq<ExprView>,
    nat,
)
    decreases tokens.len() - pos, 36nat,
{
    let start = if done.len() == 0 {
        pos
    } else {
        pos + 1
    };
    if pos >= tokens.len() || (done.len() > 0 && !has_kind(tokens, pos, TokenKind::Comma)) {
        (done, pos)
    } else {
        match forward(spec_expr(tokens, start), pos, tokens.len()) {
            Ok((item, p)) => spec_expr_list(tokens, p, done.push(item)),
            Err(_) => (done, pos),
        }
    }
}

/// What follows the elements of a list at `pos`: nothing; a comma; or a
/// comma, `..` and the expression of the tail.
pub open spec fn spec_tail(tokens: Seq<(Lexeme, Span)>, pos: nat) -> (Option<ExprView>, nat)
    decreases tokens.len() - pos, 35nat,
{
    if !has_kind(tokens, pos, TokenKind::Comma) {
        (None, pos)
    } else if !has_kind(tokens, pos + 1, TokenKind::DotDot) {
        (None, pos + 1)
    } else {
        match forward(spec_expr(tokens, pos + 2), pos, tokens.len()) {
            Ok((tail, p)) => (Some(tail), p),
            Err(_) => (None, pos + 1),
        }
    }
}

/// A list `[e, e, ..tail]` whose `[` stands at `pos`.
pub open spec fn spec_list(tokens: Seq<(Lexeme, Span)>, pos: nat) -> Model<ExprView>
    decreases tokens.len() - pos, 5nat,
{
    if !has_kind(tokens, pos, TokenKind::LeftSquare) {
        Err(pos)
    } else {
        let (elements, p) = spec_expr_list(tokens, pos + 1, Seq::empty());
        if !(pos < p <= tokens.len()) {
            Err(pos)
        } else {
            let (tail, p1) = spec_tail(tokens, p);
            if !has_kind(tokens, p1, TokenKind::RightSquare) {
                Err(p1)
            } else {
                Ok(
                    (
                        ExprView::List {
                            location: span_of(tokens, pos, p1 + 1),
                            elements,
                            tail: match tail {
                                Some(t) => Some(Box::new(t)),
                                None => None,
                            },
                        },
                        p1 + 1,
                    ),
                )
            }
        }
    }
}

/// `fn(params) [-> type] { body }` at `pos`, an anonymous function.
pub open spec fn spec_anon_fn(tokens: Seq<(Lexeme, Span)>, pos: nat) -> Model<ExprView>
    decreases tokens.len() - pos, 5nat,
{
    if !has_kind(tokens, pos, TokenKind::Fn) {
        Err(pos)
    } else {
        match forward(spec_params(tokens, pos + 1, false), pos, tokens.len()) {
            Ok((arguments, p1)) => {
                let (return_annotation, p2) = spec_opt_annotation(tokens, p1, TokenKind::RArrow);
                match forward(spec_block(tokens, p2), p2, tokens.len()) {
                    Ok((body, p3)) => Ok(
                        (
                            ExprView::Fn {
                                location: span_of(tokens, pos, p3),
                                is_capture: false,
                                arguments,
                                body: Box::new(body),
                                return_annotation,
                            },
                            p3,
                        ),
                    ),
                    Err(e) => Err(e),
                }
            },
            Err(e) => Err(e),
        }
    }
}

/// `let pattern [: type] = value`, or `assert` or `check` with `is` in the
/// place of `=`, at `pos`.
pub open spec fn spec_assignment(
    tokens: Seq<(Lexeme, Span)>,
    pos: nat,
    kind: AssignmentKind,
    intro: TokenKind,
) -> Model<ExprView>
    decreases tokens.len() - pos, 5nat,
{
    if pos >= tokens.len() {
        Err(pos)
    } else {
        match forward(spec_binding(tokens, pos + 1, intro), pos, tokens.len()) {
            Ok((binding, p)) => Ok(
                (
                    ExprView::Assignment {
                        location: span_of(tokens, pos, p),
                        value: Box::new(binding.value),
                        pattern: binding.pattern,
                        kind,
                        annotation: binding.annotation,
                    },
                    p,
                ),
            ),
            Err(e) => Err(e),
        }
    }
}

/// The alternatives of a clause from `pos` on, behind those in `done`:
/// each is `|` and one pattern or more, separated by commas.
pub open spec fn spec_alternatives(
    tokens: Seq<(Lexeme, Span)>,
    pos: nat,
    done: Seq<Seq<PatternView>>,
) -> (Seq<Seq<PatternView>>, nat)
    decreases tokens.len() - pos,
{
    if !has_kind(tokens, pos, TokenKind::Vbar) {
        (done, pos)
    } else {
        let (patterns, p) = spec_pattern_list(tokens, pos + 1, Seq::empty());
        if patterns.len() > 0 && pos < p <= tokens.len() {
            spec_alternatives(tokens, p, done.push(patterns))
        } else {
            (done, pos)
        }
    }
}

/// A clause of a `when` at `pos`: one pattern or more, separated by commas;
/// alternatives; `->`; and the expression of the clause.
pub open spec fn spec_clause(tokens: Seq<(Lexeme, Span)>, pos: nat) -> Model<ClauseView>
    decreases tokens.len() - pos, 36nat,
{
    let (pattern, p) = spec_pattern_list(tokens, pos, Seq::empty());
    if pattern.len() == 0 || !(pos < p <= tokens.len()) {
        Err(pos)
    } else {
        let (alternative_patterns, p1) = spec_alternatives(tokens, p, Seq::empty());
        if !has_kind(tokens, p1, TokenKind::RArrow) {
            Err(p1)
        } else if p1 < pos {
            Err(pos)
        } else {
            match forward(spec_expr(tokens, p1 + 1), p1, tokens.len()) {
                Ok((then_, p2)) => Ok(
                    (
                        ClauseView {
                            location: span_of(tokens, pos, p2),
                            pattern,
                            alternative_patterns,
                            guard: None,
                            then_,
                        },
                        p2,
                    ),
                ),
                Err(e) => Err(e),
            }
        }
    }
}

/// The clauses from `pos` on, behind those in `done`.
pub open spec fn spec_clauses(tokens: Seq<(Lexeme, Span)>, pos: nat, done: Seq<ClauseView>) -> (
    Seq<ClauseView>,
    nat,
)
    decreases tokens.len() - pos, 37nat,
{
    match forward(spec_clause(tokens, pos), pos, tokens.len()) {
        Ok((clause, p)) => spec_clauses(tokens, p, done.push(clause)),
        Err(_) => (done, pos),
    }
}

/// `when subjects is { clauses }` at `pos`. The subjects are separated by
/// commas; there may be none, and no clauses.
pub open spec fn spec_when(tokens: Seq<(Lexeme, Span)>, pos: nat) -> Model<ExprView>
    decreases tokens.len() - pos, 5nat,
{
    if !has_kind(tokens, pos, TokenKind::When) {
        Err(pos)
    } else {
        let (subjects, p) = spec_expr_list(tokens, pos + 1, Seq::empty());
        if !(pos < p <= tokens.len()) {
            Err(pos)
        } else if !has_kind(tokens, p, TokenKind::Is) {
            Err(p)
        } else if !has_kind(tokens, p + 1, TokenKind::LeftBrace) {
            Err(p + 1)
        } else {
            let (clauses, p1) = spec_clauses(tokens, p + 2, Seq::empty());
            if !has_kind(tokens, p1, TokenKind::RightBrace) {
                Err(p1)
            } else {
                Ok(
                    (
                        ExprView::When { location: span_of(tokens, pos, p1 + 1), subjects, clauses },
                        p1 + 1,
                    ),
                )
            }
        }
    }
}

/// A condition and the block that is evaluated where it holds, at `pos`.
pub open spec fn spec_branch(tokens: Seq<(Lexeme, Span)>, pos: nat) -> Model<IfBranchView>
    decreases tokens.len() - pos, 36nat,
{
    match forward(spec_expr(tokens, pos), pos, tokens.len()) {
        Ok((condition, p)) => match forward(spec_block(tokens, p), p, tokens.len()) {
            Ok((body, p1)) => Ok(
                (IfBranchView { condition, body, location: span_of(tokens, pos, p1) }, p1),
            ),
            Err(e) => Err(e),
        },
        Err(e) => Err(e),
    }
}

/// The branches `else if condition { .. }` from `pos` on, behind those in
/// `done`.
pub open spec fn spec_else_ifs(tokens: Seq<(Lexeme, Span)>, pos: nat, done: Seq<IfBranchView>) -> (
    Seq<IfBranchView>,
    nat,
)
    decreases tokens.len() - pos, 37nat,
{
    if has_kind(tokens, pos, TokenKind::Else) && has_kind(tokens, pos + 1, TokenKind::If) {
        match forward(spec_branch(tokens, pos + 2), pos, tokens.len()) {
            Ok((branch, p)) => spec_else_ifs(tokens, p, done.push(branch)),
            Err(_) => (done, pos),
        }
    } else {
        (done, pos)
    }
}

/// `if condition { .. } else if condition { .. } .. else { .. }` at `pos`.
pub open spec fn spec_if(tokens: Seq<(Lexeme, Span)>, pos: nat) -> Model<ExprView>
    decreases tokens.len() - pos, 5nat,
{
    if !has_kind(tokens, pos, TokenKind::If) {
        Err(pos)
    } else {
        match forward(spec_branch(tokens, pos + 1), pos, tokens.len()) {
            Ok((first, p)) => {
                let (rest, p1) = spec_else_ifs(tokens, p, Seq::empty());
                if !has_kind(tokens, p1, TokenKind::Else) {
                    Err(p1)
                } else if p1 < p {
                    Err(pos)
                } else {
                    match forward(spec_block(tokens, p1 + 1), p1, tokens.len()) {
                        Ok((final_else, p2)) => Ok(
                            (
                                ExprView::If {
                                    location: span_of(tokens, pos, p2),
                                    branches: Box::new(NonEmptyView { first, rest }),
                                    final_else: Box::new(final_else),
                                },
                                p2,
                            ),
                        ),
                        Err(e) => Err(e),
                    }
                }
            },
            Err(e) => Err(e),
        }
    }
}

// --------------------------------------------------------------------- places
/// Whether the span lies between the start of the token at `pos` and the
/// end of the last token before `end`.
pub open spec fn fits(span: Span, tokens: Seq<(Lexeme, Span)>, pos: nat, end: nat) -> bool {
    tokens[pos as int].1.start <= span.start <= span.end <= tokens[end - 1].1.end
}

/// Whether the expression was read from the tokens from `pos` up to `end`
/// of a stream whose tokens follow one another: every span in it is a
/// range of the text that the stream covers, and its value is written
/// within the text of these tokens.
pub open spec fn placed(e: ExprView, tokens: Seq<(Lexeme, Span)>, pos: nat, end: nat) -> bool {
    &&& e.spans_within(stream_end(tokens))
    &&& fits(e.location(), tokens, pos, end)
    &&& e.start() <= tokens[end - 1].1.end
}

/// The span of a run of tokens lies between its first and its last token.
pub proof fn fits_span(tokens: Seq<(Lexeme, Span)>, pos: nat, end: nat)
    requires
        well_formed(tokens),
        pos < end <= tokens.len(),
    ensures
        fits(span_of(tokens, pos, end), tokens, pos, end),
        span_of(tokens, pos, end).within(stream_end(tokens)),
{
    in_order(tokens, pos as int, end - 1);
}

/// What lies within a run of tokens lies within each run that holds it.
pub proof fn fits_wider(
    tokens: Seq<(Lexeme, Span)>,
    span: Span,
    pos: nat,
    end: nat,
    from: nat,
    to: nat,
)
    requires
        well_formed(tokens),
        fits(span, tokens, pos, end),
        from <= pos < end <= to <= tokens.len(),
    ensures
        fits(span, tokens, from, to),
        span.within(stream_end(tokens)),
{
    in_order(tokens, from as int, pos as int);
    in_order(tokens, end - 1, to - 1);
}

/// The union of two spans within a run of tokens lies within the run.
pub proof fn fits_union(tokens: Seq<(Lexeme, Span)>, a: Span, b: Span, pos: nat, end: nat)
    requires
        well_formed(tokens),
        fits(a, tokens, pos, end),
        fits(b, tokens, pos, end),
        pos < end <= tokens.len(),
    ensures
        fits(span_union(a, b), tokens, pos, end),
        span_union(a, b).within(stream_end(tokens)),
{
    in_order(tokens, pos as int, end - 1);
}

/// An expression that was read from a run of tokens was read from each
/// run that holds it.
pub proof fn placed_wider(
    e: ExprView,
    tokens: Seq<(Lexeme, Span)>,
    pos: nat,
    end: nat,
    from: nat,
    to: nat,
)
    requires
        well_formed(tokens),
        placed(e, tokens, pos, end),
        from <= pos < end <= to <= tokens.len(),
    ensures
        placed(e, tokens, from, to),
{
    fits_wider(tokens, e.location(), pos, end, from, to);
    in_order(tokens, end - 1, to - 1);
}

/// An expression whose location is the span of the tokens it was read
/// from, and which starts where its location does.
pub proof fn placed_whole(e: ExprView, tokens: Seq<(Lexeme, Span)>, pos: nat, end: nat)
    requires
        well_formed(tokens),
        pos < end <= tokens.len(),
        e.spans_within(stream_end(tokens)),
        e.location() == span_of(tokens, pos, end),
        e.start() == e.location().start,
    ensures
        placed(e, tokens, pos, end),
{
    fits_span(tokens, pos, end);
}

// ------------------------------------------------------------------- parsers
pub fn expr_seq_parser(tokens: &Vec<(Token, Span)>, pos: usize) -> (res: Parsed<UntypedExpr>)
    requires
        well_formed(tokens.deep_view()),
    ensures
        agrees(res, spec_expr_seq(tokens.deep_view(), pos as nat)),
        advances(res, pos, tokens@.len()),
        match res {
            Ok((e, end)) => placed(e.deep_view(), tokens.deep_view(), pos as nat, end as nat),
            Err(_) => true,
        },
    decreases tokens@.len() - pos, 40nat,
{
    if at_kind(tokens, pos, TokenKind::Try) {
        return try_parser(tokens, pos);
    }
    let (first, p0) = match expr_parser(tokens, pos) {
        Ok(r) => r,
        Err(e) => { return Err(e); },
    };
    let ghost first_view = first.deep_view();
    let mut done = first;
    let mut p = p0;
    loop
        invariant
            well_formed(tokens.deep_view()),
            pos < p0 <= p <= tokens@.len(),
            spec_seq_rest(tokens.deep_view(), p0 as nat, first_view) == spec_seq_rest(
                tokens.deep_view(),
                p as nat,
                done.deep_view(),
            ),
            placed(done.deep_view(), tokens.deep_view(), pos as nat, p as nat),
        ensures
            pos < p <= tokens@.len(),
            spec_seq_rest(tokens.deep_view(), p0 as nat, first_view) == (done.deep_view(), p as nat),
            placed(done.deep_view(), tokens.deep_view(), pos as nat, p as nat),
        decreases tokens@.len() - p,
    {
        let item = if at_kind(tokens, p, TokenKind::Try) {
            try_parser(tokens, p)
        } else {
            expr_parser(tokens, p)
        };
        match item {
            Ok((next, p2)) => {
                proof {
                    let t = tokens.deep_view();
                    in_order(t, p - 1, p as int);
                    in_order(t, p - 1, p2 - 1);
                    fits_wider(t, next.deep_view().location(), p as nat, p2 as nat, pos as nat, p2 as nat);
                }
                done = done.append_in_sequence(next);
                p = p2;
            },
            Err(_) => {
                break;
            },
        }
    }
    Ok((done, p))
}

fn binding(tokens: &Vec<(Token, Span)>, pos: usize, intro: TokenKind) -> (res: Parsed<Binding>)
    requires
        well_formed(tokens.deep_view()),
    ensures
        agrees(res, spec_binding(tokens.deep_view(), pos as nat, intro)),
        advances(res, pos, tokens@.len()),
        match res {
            Ok((b, _)) => b.deep_view().pattern.spans_within(stream_end(tokens.deep_view()))
                && b.deep_view().value.spans_within(stream_end(tokens.deep_view()))
                && annotation_within(b.deep_view().annotation, stream_end(tokens.deep_view())),
            Err(_) => true,
        },
    decreases tokens@.len() - pos, 38nat,
{
    let (pattern, p1) = match pattern_parser(tokens, pos) {
        Ok(r) => r,
        Err(e) => { return Err(e); },
    };
    let (annotation, p2) = opt_annotation(tokens, p1, TokenKind::Colon);
    if !at_kind(tokens, p2, intro) {
        return Err(p2);
    }
    match expr_parser(tokens, p2 + 1) {
        Ok((value, p3)) => Ok((Binding { pattern, annotation, value }, p3)),
        Err(e) => Err(e),
    }
}

fn try_parser(tokens: &Vec<(Token, Span)>, pos: usize) -> (res: Parsed<UntypedExpr>)
    requires
        well_formed(tokens.deep_view()),
    ensures
        agrees(res, spec_try(tokens.deep_view(), pos as nat)),
        advances(res, pos, tokens@.len()),
        match res {
            Ok((e, end)) => placed(e.deep_view(), tokens.deep_view(), pos as nat, end as nat),
            Err(_) => true,
        },
    decreases tokens@.len() - pos, 39nat,
{
    if !at_kind(tokens, pos, TokenKind::Try) {
        return Err(pos);
    }
    let (bound, p1) = match binding(tokens, pos + 1, TokenKind::Equal) {
        Ok(r) => r,
        Err(e) => { return Err(e); },
    };
    match expr_seq_parser(tokens, p1) {
        Ok((then_, p2)) => {
            proof {
                let t = tokens.deep_view();
                fits_wider(t, then_.deep_view().location(), p1 as nat, p2 as nat, pos as nat, p2 as nat);
                in_order(t, pos as int, p2 - 1);
            }
            Ok(
                (
                    UntypedExpr::try_then(
                        span_between(tokens, pos, p2),
                        bound.value,
                        bound.pattern,
                        then_,
                        bound.annotation,
                    ),
                    p2,
                ),
            )
        },
        Err(e) => Err(e),
    }
}

pub fn expr_parser(tokens: &Vec<(Token, Span)>, pos: usize) -> (res: Parsed<UntypedExpr>)
    requires
        well_formed(tokens.deep_view()),
    ensures
        agrees(res, spec_expr(tokens.deep_view(), pos as nat)),
        advances(res, pos, tokens@.len()),
        match res {
            Ok((e, end)) => placed(e.deep_view(), tokens.deep_view(), pos as nat, end as nat),
            Err(_) => true,
        },
    decreases tokens@.len() - pos, 30nat,
{
    let (first, p0) = match binary(tokens, pos, 3) {
        Ok(r) => r,
        Err(e) => { return Err(e); },
    };
    let ghost first_view = first.deep_view();
    let mut done = first;
    let mut p = p0;
    loop
        invariant
            well_formed(tokens.deep_view()),
            pos < p0 <= p <= tokens@.len(),
            spec_pipe_rest(tokens.deep_view(), p0 as nat, first_view) == spec_pipe_rest(
                tokens.deep_view(),
                p as nat,
                done.deep_view(),
            ),
            placed(done.deep_view(), tokens.deep_view(), pos as nat, p as nat),
        ensures
            pos < p <= tokens@.len(),
            spec_pipe_rest(tokens.deep_view(), p0 as nat, first_view) == (done.deep_view(), p as nat),
            placed(done.deep_view(), tokens.deep_view(), pos as nat, p as nat),
        decreases tokens@.len() - p,
    {
        if !at_kind(tokens, p, TokenKind::Pipe) {
            break;
        }
        match binary(tokens, p + 1, 3) {
            Ok((next, p2)) => {
                proof {
                    let t = tokens.deep_view();
                    fits_wider(
                        t,
                        next.deep_view().location(),
                        (p + 1) as nat,
                        p2 as nat,
                        pos as nat,
                        p2 as nat,
                    );
                }
                done = done.pipe_into(next);
                p = p2;
            },
            Err(_) => {
                break;
            },
        }
    }
    Ok((done, p))
}

fn operator(tokens: &Vec<(Token, Span)>, pos: usize, level: u8) -> (r: Option<BinOp>)
    ensures
        r == operator_at(tokens.deep_view(), pos as nat, level as nat),
        r is Some ==> pos < tokens@.len() && pos < usize::MAX,
{
    if pos >= tokens.len() {
        return None;
    }
    let kind = tokens[pos].0.kind();
    if level == 0 {
        if kind == TokenKind::Star {
            Some(BinOp::MultInt)
        } else if kind == TokenKind::Slash {
            Some(BinOp::DivInt)
        } else if kind == TokenKind::Percent {
            Some(BinOp::ModInt)
        } else {
            None
        }
    } else if level == 1 {
        if kind == TokenKind::Plus {
            Some(BinOp::AddInt)
        } else if kind == TokenKind::Minus {
            Some(BinOp::SubInt)
        } else {
            None
        }
    } else if level == 2 {
        if kind == TokenKind::EqualEqual {
            Some(BinOp::Eq)
        } else if kind == TokenKind::NotEqual {
            Some(BinOp::NotEq)
        } else if kind == TokenKind::Less {
            Some(BinOp::LtInt)
        } else if kind == TokenKind::Greater {
            Some(BinOp::GtInt)
        } else if kind == TokenKind::LessEqual {
            Some(BinOp::LtEqInt)
        } else if kind == TokenKind::GreaterEqual {
            Some(BinOp::GtEqInt)
        } else {
            None
        }
    } else if level == 3 {
        if kind == TokenKind::AmperAmper {
            Some(BinOp::And)
        } else if kind == TokenKind::VbarVbar {
            Some(BinOp::Or)
        } else {
            None
        }
    } else {
        None
    }
}

fn operand(tokens: &Vec<(Token, Span)>, pos: usize, level: u8) -> (res: Parsed<UntypedExpr>)
    requires
        well_formed(tokens.deep_view()),
    ensures
        agrees(res, spec_operand(tokens.deep_view(), pos as nat, level as nat)),
        advances(res, pos, tokens@.len()),
        match res {
            Ok((e, end)) => placed(e.deep_view(), tokens.deep_view(), pos as nat, end as nat),
            Err(_) => true,
        },
    decreases tokens@.len() - pos, 9 + 2 * level,
{
    if level == 0 {
        unary(tokens, pos)
    } else {
        binary(tokens, pos, level - 1)
    }
}

fn binary(tokens: &Vec<(Token, Span)>, pos: usize, level: u8) -> (res: Parsed<UntypedExpr>)
    requires
        well_formed(tokens.deep_view()),
    ensures
        agrees(res, spec_binary(tokens.deep_view(), pos as nat, level as nat)),
        advances(res, pos, tokens@.len()),
        match res {
            Ok((e, end)) => placed(e.deep_view(), tokens.deep_view(), pos as nat, end as nat),
            Err(_) => true,
        },
    decreases tokens@.len() - pos, 10 + 2 * level,
{
    let (first, p0) = match operand(tokens, pos, level) {
        Ok(r) => r,
        Err(e) => { return Err(e); },
    };
    let ghost first_view = first.deep_view();
    let mut done = first;
    let mut p = p0;
    loop
        invariant
            well_formed(tokens.deep_view()),
            pos < p0 <= p <= tokens@.len(),
            spec_binary_rest(tokens.deep_view(), p0 as nat, level as nat, first_view) == spec_binary_rest(
                tokens.deep_view(),
                p as nat,
                level as nat,
                done.deep_view(),
            ),
            placed(done.deep_view(), tokens.deep_view(), pos as nat, p as nat),
        ensures
            pos < p <= tokens@.len(),
            spec_binary_rest(tokens.deep_view(), p0 as nat, level as nat, first_view) == (
                done.deep_view(),
                p as nat,
            ),
            placed(done.deep_view(), tokens.deep_view(), pos as nat, p as nat),
        decreases tokens@.len() - p,
    {
        let name = match operator(tokens, p, level) {
            Some(name) => name,
            None => {
                break;
            },
        };
        match operand(tokens, p + 1, level) {
            Ok((right, p2)) => {
                let location = done.location().union(right.location());
                proof {
                    let t = tokens.deep_view();
                    fits_wider(t, done.deep_view().location(), pos as nat, p as nat, pos as nat, p2 as nat);
                    fits_wider(
                        t,
                        right.deep_view().location(),
                        (p + 1) as nat,
                        p2 as nat,
                        pos as nat,
                        p2 as nat,
                    );
                    fits_union(
                        t,
                        done.deep_view().location(),
                        right.deep_view().location(),
                        pos as nat,
                        p2 as nat,
                    );
                }
                done = UntypedExpr::binop(location, name, done, right);
                p = p2;
            },
            Err(_) => {
                break;
            },
        }
    }
    Ok((done, p))
}

fn unary(tokens: &Vec<(Token, Span)>, pos: usize) -> (res: Parsed<UntypedExpr>)
    requires
        well_formed(tokens.deep_view()),
    ensures
        agrees(res, spec_unary(tokens.deep_view(), pos as nat)),
        advances(res, pos, tokens@.len()),
        match res {
            Ok((e, end)) => placed(e.deep_view(), tokens.deep_view(), pos as nat, end as nat),
            Err(_) => true,
        },
    decreases tokens@.len() - pos, 8nat,
{
    if at_kind(tokens, pos, TokenKind::Bang) {
        match unary(tokens, pos + 1) {
            Ok((value, p)) => {
                let here = span_between(tokens, pos, pos + 1);
                let location = here.union(value.location());
                proof {
                    let t = tokens.deep_view();
                    fits_span(t, pos as nat, (pos + 1) as nat);
                    fits_wider(t, here, pos as nat, (pos + 1) as nat, pos as nat, p as nat);
                    fits_wider(
                        t,
                        value.deep_view().location(),
                        (pos + 1) as nat,
                        p as nat,
                        pos as nat,
                        p as nat,
                    );
                    fits_union(t, here, value.deep_view().location(), pos as nat, p as nat);
                }
                Ok((UntypedExpr::negate(location, value), p))
            },
            Err(e) => Err(e),
        }
    } else {
        chained(tokens, pos)
    }
}

fn field(tokens: &Vec<(Token, Span)>, pos: usize) -> (r: Option<String>)
    ensures
        r.deep_view() == field_at(tokens.deep_view(), pos as nat),
        r is Some ==> pos < tokens@.len() && pos < usize::MAX,
{
    match take_text(tokens, pos, TokenKind::Name) {
        Some(name) => Some(name),
        None => take_text(tokens, pos, TokenKind::UpName),
    }
}

fn chained(tokens: &Vec<(Token, Span)>, pos: usize) -> (res: Parsed<UntypedExpr>)
    requires
        well_formed(tokens.deep_view()),
    ensures
        agrees(res, spec_chained(tokens.deep_view(), pos as nat)),
        advances(res, pos, tokens@.len()),
        match res {
            Ok((e, end)) => placed(e.deep_view(), tokens.deep_view(), pos as nat, end as nat),
            Err(_) => true,
        },
    decreases tokens@.len() - pos, 7nat,
{
    let (first, p0) = match unit(tokens, pos) {
        Ok(r) => r,
        Err(e) => { return Err(e); },
    };
    let ghost first_view = first.deep_view();
    let mut done = first;
    let mut p = p0;
    loop
        invariant
            well_formed(tokens.deep_view()),
            pos < p0 <= p <= tokens@.len(),
            spec_chain_rest(tokens.deep_view(), p0 as nat, first_view) == spec_chain_rest(
                tokens.deep_view(),
                p as nat,
                done.deep_view(),
            ),
            placed(done.deep_view(), tokens.deep_view(), pos as nat, p as nat),
        ensures
            pos < p <= tokens@.len(),
            spec_chain_rest(tokens.deep_view(), p0 as nat, first_view) == (done.deep_view(), p as nat),
            placed(done.deep_view(), tokens.deep_view(), pos as nat, p as nat),
        decreases tokens@.len() - p,
    {
        if at_kind(tokens, p, TokenKind::Dot) {
            match field(tokens, p + 1) {
                Some(label) => {
                    let access = span_between(tokens, p, p + 2);
                    let location = done.location().union(access);
                    proof {
                        let t = tokens.deep_view();
                        fits_span(t, p as nat, (p + 2) as nat);
                        fits_wider(t, access, p as nat, (p + 2) as nat, pos as nat, (p + 2) as nat);
                        fits_wider(
                            t,
                            done.deep_view().location(),
                            pos as nat,
                            p as nat,
                            pos as nat,
                            (p + 2) as nat,
                        );
                        fits_union(t, done.deep_view().location(), access, pos as nat, (p + 2) as nat);
                    }
                    done = UntypedExpr::field_access(location, label, done);
                    p = p + 2;
                },
                None => {
                    break;
                },
            }
        } else if at_kind(tokens, p, TokenKind::LeftBrace) {
            match record_update(tokens, p, done, Ghost(pos as nat)) {
                Ok((next, p2)) => {
                    done = next;
                    p = p2;
                },
                Err(back) => {
                    done = back;
                    break;
                },
            }
        } else if at_kind(tokens, p, TokenKind::LeftParen) {
            match call(tokens, p, done, Ghost(pos as nat)) {
                Ok((next, p2)) => {
                    done = next;
                    p = p2;
                },
                Err(back) => {
                    done = back;
                    break;
                },
            }
        } else {
            break;
        }
    }
    Ok((done, p))
}

fn update_arg(tokens: &Vec<(Token, Span)>, pos: usize) -> (res: Parsed<UntypedRecordUpdateArg>)
    requires
        well_formed(tokens.deep_view()),
    ensures
        agrees(res, spec_update_arg(tokens.deep_view(), pos as nat)),
        advances(res, pos, tokens@.len()),
        match res {
            Ok((a, _)) => a.deep_view().location.within(stream_end(tokens.deep_view()))
                && a.deep_view().value.spans_within(stream_end(tokens.deep_view())),
            Err(_) => true,
        },
    decreases tokens@.len() - pos, 35nat,
{
    match take_text(tokens, pos, TokenKind::Name) {
        Some(label) => {
            if !at_kind(tokens, pos + 1, TokenKind::Colon) {
                return Err(pos);
            }
            match expr_parser(tokens, pos + 2) {
                Ok((value, p)) => Ok(
                    (
                        UntypedRecordUpdateArg {
                            label,
                            location: span_between(tokens, pos, p),
                            value,
                        },
                        p,
                    ),
                ),
                Err(e) => Err(e),
            }
        },
        None => Err(pos),
    }
}

/// The fields behind the comma of a record update.
fn update_args(tokens: &Vec<(Token, Span)>, pos: usize) -> (res: (
    Vec<UntypedRecordUpdateArg>,
    usize,
))
    requires
        well_formed(tokens.deep_view()),
        pos <= tokens@.len(),
    ensures
        (res.0.deep_view(), res.1 as nat) == spec_update_arg_list(
            tokens.deep_view(),
            pos as nat,
            Seq::empty(),
        ),
        res.0@.len() == res.0.deep_view().len(),
        pos <= res.1 <= tokens@.len(),
        update_args_within(res.0.deep_view(), stream_end(tokens.deep_view())),
    decreases tokens@.len() - pos, 37nat,
{
    let mut arguments: Vec<UntypedRecordUpdateArg> = no_items();
    let mut p: usize = pos;
    loop
        invariant
            well_formed(tokens.deep_view()),
            pos <= p <= tokens@.len(),
            spec_update_arg_list(tokens.deep_view(), pos as nat, Seq::empty())
                == spec_update_arg_list(tokens.deep_view(), p as nat, arguments.deep_view()),
            update_args_within(arguments.deep_view(), stream_end(tokens.deep_view())),
        ensures
            pos <= p <= tokens@.len(),
            spec_update_arg_list(tokens.deep_view(), pos as nat, Seq::empty()) == (
                arguments.deep_view(),
                p as nat,
            ),
            update_args_within(arguments.deep_view(), stream_end(tokens.deep_view())),
        decreases tokens@.len() - p,
    {
        if p >= tokens.len() || (arguments.len() > 0 && !at_kind(tokens, p, TokenKind::Comma)) {
            break;
        }
        let start = if arguments.len() == 0 {
            p
        } else {
            p + 1
        };
        match update_arg(tokens, start) {
            Ok((item, p2)) => {
                push_item(&mut arguments, item);
                p = p2;
            },
            Err(_) => {
                break;
            },
        }
    }
    (arguments, p)
}

/// On failure the constructor comes back with nothing consumed.
fn record_update(
    tokens: &Vec<(Token, Span)>,
    pos: usize,
    constructor: UntypedExpr,
    Ghost(first): Ghost<nat>,
) -> (res: Result<(UntypedExpr, usize), UntypedExpr>)
    requires
        well_formed(tokens.deep_view()),
        first < pos <= tokens@.len(),
        placed(constructor.deep_view(), tokens.deep_view(), first, pos as nat),
    ensures
        match res {
            Ok((next, p)) => forward(
                spec_record_update(tokens.deep_view(), pos as nat, constructor.deep_view()),
                pos as nat,
                tokens@.len(),
            ) == Ok::<(ExprView, nat), nat>((next.deep_view(), p as nat)) && pos < p
                <= tokens@.len() && placed(next.deep_view(), tokens.deep_view(), first, p as nat),
            Err(back) => forward(
                spec_record_update(tokens.deep_view(), pos as nat, constructor.deep_view()),
                pos as nat,
                tokens@.len(),
            ) is Err && back == constructor,
        },
    decreases tokens@.len() - pos, 5nat,
{
    if !at_kind(tokens, pos, TokenKind::LeftBrace) || !at_kind(tokens, pos + 1, TokenKind::DotDot) {
        return Err(constructor);
    }
    let (base, p1) = match expr_parser(tokens, pos + 2) {
        Ok(r) => r,
        Err(_) => { return Err(constructor); },
    };
    let (arguments, p) = if at_kind(tokens, p1, TokenKind::Comma) {
        update_args(tokens, p1 + 1)
    } else {
        (no_items(), p1)
    };
    let p3 = if arguments.len() > 0 && at_kind(tokens, p, TokenKind::Comma) {
        p + 1
    } else {
        p
    };
    if !at_kind(tokens, p3, TokenKind::RightBrace) {
        return Err(constructor);
    }
    let span = span_between(tokens, pos, p3 + 1);
    let location = constructor.location().union(span);
    let spread_location = span.union(base.location());
    proof {
        let t = tokens.deep_view();
        let end = (p3 + 1) as nat;
        fits_span(t, pos as nat, end);
        fits_wider(t, span, pos as nat, end, first, end);
        fits_wider(t, constructor.deep_view().location(), first, pos as nat, first, end);
        fits_union(t, constructor.deep_view().location(), span, first, end);
        fits_wider(t, base.deep_view().location(), (pos + 2) as nat, p1 as nat, first, end);
        fits_union(t, span, base.deep_view().location(), first, end);
    }
    let spread = RecordUpdateSpread { base: Box::new(base), location: spread_location };
    Ok((UntypedExpr::record_update(location, constructor, spread, arguments), p3 + 1))
}

/// The text `_capture__` followed by the decimal digits of `index`.
fn capture(index: usize) -> (s: String)
    ensures
        s@ == capture_name(index as nat),
{
    let mut s = "_capture__".to_owned();
    push_decimal(&mut s, index);
    s
}

fn label(tokens: &Vec<(Token, Span)>, pos: usize) -> (r: (Option<String>, usize))
    requires
        pos <= tokens@.len(),
    ensures
        (r.0.deep_view(), r.1 as nat) == spec_label(tokens.deep_view(), pos as nat),
        pos <= r.1 <= tokens@.len(),
{
    match take_text(tokens, pos, TokenKind::Name) {
        Some(label) => {
            if at_kind(tokens, pos + 1, TokenKind::Colon) {
                (Some(label), pos + 2)
            } else {
                (None, pos)
            }
        },
        None => (None, pos),
    }
}

fn call_arg(tokens: &Vec<(Token, Span)>, pos: usize, index: usize) -> (res: Parsed<
    (CallArg<UntypedExpr>, Option<Arg>),
>)
    requires
        well_formed(tokens.deep_view()),
        pos <= tokens@.len(),
    ensures
        agrees(res, spec_call_arg(tokens.deep_view(), pos as nat, index as nat)),
        advances(res, pos, tokens@.len()),
        match res {
            Ok(((a, hole), _)) => a.deep_view().location.within(stream_end(tokens.deep_view()))
                && a.deep_view().value.spans_within(stream_end(tokens.deep_view())) && match hole {
                Some(h) => h.deep_view().spans_within(stream_end(tokens.deep_view())),
                None => true,
            },
            Err(_) => true,
        },
    decreases tokens@.len() - pos, 35nat,
{
    let (label, p0) = label(tokens, pos);
    match expr_parser(tokens, p0) {
        Ok((value, p)) => Ok(
            ((CallArg { label, location: span_between(tokens, pos, p), value }, None), p),
        ),
        Err(_) => if at_kind(tokens, p0, TokenKind::DiscardName) {
            let location = span_between(tokens, pos, p0 + 1);
            let hole = Arg {
                arg_name: ArgName::Named { name: capture(index), location: Span::empty() },
                location: Span::empty(),
                annotation: None,
                tipo: (),
            };
            Ok(
                (
                    (
                        CallArg {
                            label,
                            location,
                            value: UntypedExpr::var(location, capture(index)),
                        },
                        Some(hole),
                    ),
                    p0 + 1,
                ),
            )
        } else {
            Err(p0)
        },
    }
}

/// The arguments of a call behind its `(`, and the parameters for the
/// holes among them.
fn call_args(tokens: &Vec<(Token, Span)>, pos: usize) -> (res: (
    Vec<CallArg<UntypedExpr>>,
    Vec<Arg>,
    usize,
))
    requires
        well_formed(tokens.deep_view()),
        pos <= tokens@.len(),
    ensures
        (res.0.deep_view(), res.1.deep_view(), res.2 as nat) == spec_call_arg_list(
            tokens.deep_view(),
            pos as nat,
            Seq::empty(),
            Seq::empty(),
        ),
        res.0@.len() == res.0.deep_view().len(),
        res.1@.len() == res.1.deep_view().len(),
        pos <= res.2 <= tokens@.len(),
        call_args_within(res.0.deep_view(), stream_end(tokens.deep_view())),
        args_within(res.1.deep_view(), stream_end(tokens.deep_view())),
    decreases tokens@.len() - pos, 37nat,
{
    let mut arguments: Vec<CallArg<UntypedExpr>> = no_items();
    let mut holes: Vec<Arg> = no_items();
    let mut p: usize = pos;
    loop
        invariant
            well_formed(tokens.deep_view()),
            pos <= p <= tokens@.len(),
            arguments@.len() == arguments.deep_view().len(),
            holes@.len() == holes.deep_view().len(),
            spec_call_arg_list(tokens.deep_view(), pos as nat, Seq::empty(), Seq::empty())
                == spec_call_arg_list(
                tokens.deep_view(),
                p as nat,
                arguments.deep_view(),
                holes.deep_view(),
            ),
            call_args_within(arguments.deep_view(), stream_end(tokens.deep_view())),
            args_within(holes.deep_view(), stream_end(tokens.deep_view())),
        ensures
            pos <= p <= tokens@.len(),
            arguments@.len() == arguments.deep_view().len(),
            holes@.len() == holes.deep_view().len(),
            spec_call_arg_list(tokens.deep_view(), pos as nat, Seq::empty(), Seq::empty()) == (
                arguments.deep_view(),
                holes.deep_view(),
                p as nat,
            ),
            call_args_within(arguments.deep_view(), stream_end(tokens.deep_view())),
            args_within(holes.deep_view(), stream_end(tokens.deep_view())),
        decreases tokens@.len() - p,
    {
        if p >= tokens.len() || (arguments.len() > 0 && !at_kind(tokens, p, TokenKind::Comma)) {
            break;
        }
        let start = if arguments.len() == 0 {
            p
        } else {
            p + 1
        };
        match call_arg(tokens, start, arguments.len()) {
            Ok(((item, hole), p2)) => {
                push_item(&mut arguments, item);
                match hole {
                    Some(h) => {
                        push_item(&mut holes, h);
                    },
                    None => {},
                }
                p = p2;
            },
            Err(_) => {
                break;
            },
        }
    }
    (arguments, holes, p)
}

/// On failure the function comes back with nothing consumed.
fn call(tokens: &Vec<(Token, Span)>, pos: usize, fun: UntypedExpr, Ghost(first): Ghost<nat>) -> (res:
    Result<(UntypedExpr, usize), UntypedExpr>)
    requires
        well_formed(tokens.deep_view()),
        first < pos <= tokens@.len(),
        placed(fun.deep_view(), tokens.deep_view(), first, pos as nat),
    ensures
        match res {
            Ok((next, p)) => forward(
                spec_call(tokens.deep_view(), pos as nat, fun.deep_view()),
                pos as nat,
                tokens@.len(),
            ) == Ok::<(ExprView, nat), nat>((next.deep_view(), p as nat)) && pos < p
                <= tokens@.len() && placed(next.deep_view(), tokens.deep_view(), first, p as nat),
            Err(back) => forward(
                spec_call(tokens.deep_view(), pos as nat, fun.deep_view()),
                pos as nat,
                tokens@.len(),
            ) is Err && back == fun,
        },
    decreases tokens@.len() - pos, 5nat,
{
    if !at_kind(tokens, pos, TokenKind::LeftParen) {
        return Err(fun);
    }
    let (arguments, holes, p) = call_args(tokens, pos + 1);
    let p1 = if arguments.len() > 0 && at_kind(tokens, p, TokenKind::Comma) {
        p + 1
    } else {
        p
    };
    if !at_kind(tokens, p1, TokenKind::RightParen) {
        return Err(fun);
    }
    let span = span_between(tokens, pos, p1 + 1);
    let location = fun.location().union(span);
    proof {
        let t = tokens.deep_view();
        let end = (p1 + 1) as nat;
        fits_span(t, pos as nat, end);
        fits_wider(t, span, pos as nat, end, first, end);
        fits_wider(t, fun.deep_view().location(), first, pos as nat, first, end);
        fits_union(t, fun.deep_view().location(), span, first, end);
    }
    let no_holes = holes.len() == 0;
    let made = UntypedExpr::call(location, fun, arguments);
    if no_holes {
        Ok((made, p1 + 1))
    } else {
        Ok((UntypedExpr::function(location, true, holes, made, None), p1 + 1))
    }
}

fn leaf(tokens: &Vec<(Token, Span)>, pos: usize) -> (res: Option<UntypedExpr>)
    requires
        well_formed(tokens.deep_view()),
        pos < tokens@.len(),
    ensures
        res.deep_view() == spec_leaf(tokens.deep_view(), pos as nat),
        match res {
            Some(e) => placed(e.deep_view(), tokens.deep_view(), pos as nat, (pos + 1) as nat),
            None => true,
        },
{
    let _ = tokens.len();
    let location = span_between(tokens, pos, pos + 1);
    let kind = tokens[pos].0.kind();
    let made = if kind == TokenKind::String {
        UntypedExpr::string(location, tokens[pos].0.text())
    } else if kind == TokenKind::Int {
        UntypedExpr::integer(location, tokens[pos].0.text())
    } else if kind == TokenKind::Name || kind == TokenKind::UpName {
        UntypedExpr::var(location, tokens[pos].0.text())
    } else {
        return None;
    };
    proof {
        placed_whole(made.deep_view(), tokens.deep_view(), pos as nat, (pos + 1) as nat);
    }
    Some(made)
}

fn unit(tokens: &Vec<(Token, Span)>, pos: usize) -> (res: Parsed<UntypedExpr>)
    requires
        well_formed(tokens.deep_view()),
    ensures
        agrees(res, spec_unit(tokens.deep_view(), pos as nat)),
        advances(res, pos, tokens@.len()),
        match res {
            Ok((e, end)) => placed(e.deep_view(), tokens.deep_view(), pos as nat, end as nat),
            Err(_) => true,
        },
    decreases tokens@.len() - pos, 6nat,
{
    if pos >= tokens.len() {
        return Err(pos);
    }
    match leaf(tokens, pos) {
        Some(e) => { return Ok((e, pos + 1)); },
        None => {},
    }
    match tokens[pos].0.kind() {
        TokenKind::Todo => Ok(todo_parser(tokens, pos)),
        TokenKind::LeftSquare => list(tokens, pos),
        TokenKind::Fn => anon_fn(tokens, pos),
        TokenKind::LeftBrace => block(tokens, pos),
        TokenKind::When => when(tokens, pos),
        TokenKind::Let => assignment(tokens, pos, AssignmentKind::Let, TokenKind::Equal),
        TokenKind::Assert => assignment(tokens, pos, AssignmentKind::Assert, TokenKind::Is),
        TokenKind::Check => assignment(tokens, pos, AssignmentKind::Check, TokenKind::Is),
        TokenKind::If => if_parser(tokens, pos),
        _ => Err(pos),
    }
}

fn todo_parser(tokens: &Vec<(Token, Span)>, pos: usize) -> (res: (UntypedExpr, usize))
    requires
        well_formed(tokens.deep_view()),
        pos < tokens@.len(),
    ensures
        (res.0.deep_view(), res.1 as nat) == spec_todo(tokens.deep_view(), pos as nat),
        pos < res.1 <= tokens@.len(),
        placed(res.0.deep_view(), tokens.deep_view(), pos as nat, res.1 as nat),
{
    let _ = tokens.len();
    let mut label: Option<String> = None;
    let mut end: usize = pos + 1;
    if at_kind(tokens, pos + 1, TokenKind::LeftParen) {
        match take_text(tokens, pos + 2, TokenKind::String) {
            Some(text) => {
                if at_kind(tokens, pos + 3, TokenKind::RightParen) {
                    label = Some(text);
                    end = pos + 4;
                }
            },
            None => {},
        }
    }
    let made = UntypedExpr::todo(TodoKind::Keyword, span_between(tokens, pos, end), label);
    proof {
        placed_whole(made.deep_view(), tokens.deep_view(), pos as nat, end as nat);
    }
    (made, end)
}

fn block(tokens: &Vec<(Token, Span)>, pos: usize) -> (res: Parsed<UntypedExpr>)
    requires
        well_formed(tokens.deep_view()),
    ensures
        agrees(res, spec_block(tokens.deep_view(), pos as nat)),
        advances(res, pos, tokens@.len()),
        match res {
            Ok((e, end)) => placed(e.deep_view(), tokens.deep_view(), pos as nat, end as nat),
            Err(_) => true,
        },
    decreases tokens@.len() - pos, 5nat,
{
    if !at_kind(tokens, pos, TokenKind::LeftBrace) {
        return Err(pos);
    }
    match expr_seq_parser(tokens, pos + 1) {
        Ok((body, p)) => if at_kind(tokens, p, TokenKind::RightBrace) {
            proof {
                placed_wider(
                    body.deep_view(),
                    tokens.deep_view(),
                    (pos + 1) as nat,
                    p as nat,
                    pos as nat,
                    (p + 1) as nat,
                );
            }
            Ok((body, p + 1))
        } else {
            Err(p)
        },
        Err(e) => Err(e),
    }
}

fn expr_list(tokens: &Vec<(Token, Span)>, pos: usize) -> (res: (Vec<UntypedExpr>, usize))
    requires
        well_formed(tokens.deep_view()),
        pos <= tokens@.len(),
    ensures
        (res.0.deep_view(), res.1 as nat) == spec_expr_list(
            tokens.deep_view(),
            pos as nat,
            Seq::empty(),
        ),
        pos <= res.1 <= tokens@.len(),
        exprs_within(res.0.deep_view(), stream_end(tokens.deep_view())),
    decreases tokens@.len() - pos, 36nat,
{
    let mut items: Vec<UntypedExpr> = no_items();
    let mut p: usize = pos;
    loop
        invariant
            well_formed(tokens.deep_view()),
            pos <= p <= tokens@.len(),
            spec_expr_list(tokens.deep_view(), pos as nat, Seq::empty()) == spec_expr_list(
                tokens.deep_view(),
                p as nat,
                items.deep_view(),
            ),
            exprs_within(items.deep_view(), stream_end(tokens.deep_view())),
        ensures
            pos <= p <= tokens@.len(),
            spec_expr_list(tokens.deep_view(), pos as nat, Seq::empty()) == (
                items.deep_view(),
                p as nat,
            ),
            exprs_within(items.deep_view(), stream_end(tokens.deep_view())),
        decreases tokens@.len() - p,
    {
        if p >= tokens.len() || (items.len() > 0 && !at_kind(tokens, p, TokenKind::Comma)) {
            break;
        }
        let start = if items.len() == 0 {
            p
        } else {
            p + 1
        };
        match expr_parser(tokens, start) {
            Ok((item, p2)) => {
                push_item(&mut items, item);
                p = p2;
            },
            Err(_) => {
                break;
            },
        }
    }
    (items, p)
}

fn tail(tokens: &Vec<(Token, Span)>, pos: usize) -> (res: (Option<UntypedExpr>, usize))
    requires
        well_formed(tokens.deep_view()),
        pos <= tokens@.len(),
    ensures
        (res.0.deep_view(), res.1 as nat) == spec_tail(tokens.deep_view(), pos as nat),
        pos <= res.1 <= tokens@.len(),
        match res.0 {
            Some(e) => e.deep_view().spans_within(stream_end(tokens.deep_view())),
            None => true,
        },
    decreases tokens@.len() - pos, 35nat,
{
    if !at_kind(tokens, pos, TokenKind::Comma) {
        (None, pos)
    } else if !at_kind(tokens, pos + 1, TokenKind::DotDot) {
        (None, pos + 1)
    } else {
        match expr_parser(tokens, pos + 2) {
            Ok((tail, p)) => (Some(tail), p),
            Err(_) => (None, pos + 1),
        }
    }
}

fn list(tokens: &Vec<(Token, Span)>, pos: usize) -> (res: Parsed<UntypedExpr>)
    requires
        well_formed(tokens.deep_view()),
    ensures
        agrees(res, spec_list(tokens.deep_view(), pos as nat)),
        advances(res, pos, tokens@.len()),
        match res {
            Ok((e, end)) => placed(e.deep_view(), tokens.deep_view(), pos as nat, end as nat),
            Err(_) => true,
        },
    decreases tokens@.len() - pos, 5nat,
{
    if !at_kind(tokens, pos, TokenKind::LeftSquare) {
        return Err(pos);
    }
    let (elements, p) = expr_list(tokens, pos + 1);
    let (tail, p1) = tail(tokens, p);
    if !at_kind(tokens, p1, TokenKind::RightSquare) {
        return Err(p1);
    }
    let made = UntypedExpr::list(span_between(tokens, pos, p1 + 1), elements, tail);
    proof {
        placed_whole(made.deep_view(), tokens.deep_view(), pos as nat, (p1 + 1) as nat);
    }
    Ok((made, p1 + 1))
}

fn anon_fn(tokens: &Vec<(Token, Span)>, pos: usize) -> (res: Parsed<UntypedExpr>)
    requires
        well_formed(tokens.deep_view()),
    ensures
        agrees(res, spec_anon_fn(tokens.deep_view(), pos as nat)),
        advances(res, pos, tokens@.len()),
        match res {
            Ok((e, end)) => placed(e.deep_view(), tokens.deep_view(), pos as nat, end as nat),
            Err(_) => true,
        },
    decreases tokens@.len() - pos, 5nat,
{
    if !at_kind(tokens, pos, TokenKind::Fn) {
        return Err(pos);
    }
    let (arguments, p1) = match params(tokens, pos + 1, false) {
        Ok(r) => r,
        Err(e) => { return Err(e); },
    };
    let (return_annotation, p2) = opt_annotation(tokens, p1, TokenKind::RArrow);
    match block(tokens, p2) {
        Ok((body, p3)) => {
            let made = UntypedExpr::function(
                span_between(tokens, pos, p3),
                false,
                arguments,
                body,
                return_annotation,
            );
            proof {
                placed_whole(made.deep_view(), tokens.deep_view(), pos as nat, p3 as nat);
            }
            Ok((made, p3))
        },
        Err(e) => Err(e),
    }
}

fn assignment(tokens: &Vec<(Token, Span)>, pos: usize, kind: AssignmentKind, intro: TokenKind) -> (res:
    Parsed<UntypedExpr>)
    requires
        well_formed(tokens.deep_view()),
    ensures
        agrees(res, spec_assignment(tokens.deep_view(), pos as nat, kind, intro)),
        advances(res, pos, tokens@.len()),
        match res {
            Ok((e, end)) => placed(e.deep_view(), tokens.deep_view(), pos as nat, end as nat),
            Err(_) => true,
        },
    decreases tokens@.len() - pos, 5nat,
{
    if pos >= tokens.len() {
        return Err(pos);
    }
    match binding(tokens, pos + 1, intro) {
        Ok((bound, p)) => {
            let made = UntypedExpr::assignment(
                span_between(tokens, pos, p),
                bound.value,
                bound.pattern,
                kind,
                bound.annotation,
            );
            proof {
                placed_whole(made.deep_view(), tokens.deep_view(), pos as nat, p as nat);
            }
            Ok((made, p))
        },
        Err(e) => Err(e),
    }
}

fn pattern_list(tokens: &Vec<(Token, Span)>, pos: usize) -> (res: (Vec<Pattern>, usize))
    requires
        well_formed(tokens.deep_view()),
        pos <= tokens@.len(),
    ensures
        (res.0.deep_view(), res.1 as nat) == spec_pattern_list(
            tokens.deep_view(),
            pos as nat,
            Seq::empty(),
        ),
        res.0@.len() == res.0.deep_view().len(),
        pos <= res.1 <= tokens@.len(),
        patterns_within(res.0.deep_view(), stream_end(tokens.deep_view())),
{
    let mut items: Vec<Pattern> = no_items();
    let mut p: usize = pos;
    loop
        invariant
            well_formed(tokens.deep_view()),
            pos <= p <= tokens@.len(),
            spec_pattern_list(tokens.deep_view(), pos as nat, Seq::empty()) == spec_pattern_list(
                tokens.deep_view(),
                p as nat,
                items.deep_view(),
            ),
            patterns_within(items.deep_view(), stream_end(tokens.deep_view())),
        ensures
            pos <= p <= tokens@.len(),
            spec_pattern_list(tokens.deep_view(), pos as nat, Seq::empty()) == (
                items.deep_view(),
                p as nat,
            ),
            patterns_within(items.deep_view(), stream_end(tokens.deep_view())),
        decreases tokens@.len() - p,
    {
        if p >= tokens.len() || (items.len() > 0 && !at_kind(tokens, p, TokenKind::Comma)) {
            break;
        }
        let start = if items.len() == 0 {
            p
        } else {
            p + 1
        };
        match pattern_parser(tokens, start) {
            Ok((item, p2)) => {
                push_item(&mut items, item);
                p = p2;
            },
            Err(_) => {
                break;
            },
        }
    }
    (items, p)
}

/// Whether every span in each of the lists of patterns is a range of a
/// text of `len` bytes.
pub open spec fn alternatives_within(items: Seq<Seq<PatternView>>, len: nat) -> bool {
    forall|j: int| 0 <= j < items.len() ==> patterns_within(#[trigger] items[j], len)
}

fn alternatives(tokens: &Vec<(Token, Span)>, pos: usize) -> (res: (Vec<Vec<Pattern>>, usize))
    requires
        well_formed(tokens.deep_view()),
        pos <= tokens@.len(),
    ensures
        (res.0.deep_view(), res.1 as nat) == spec_alternatives(
            tokens.deep_view(),
            pos as nat,
            Seq::empty(),
        ),
        pos <= res.1 <= tokens@.len(),
        alternatives_within(res.0.deep_view(), stream_end(tokens.deep_view())),
{
    let mut items: Vec<Vec<Pattern>> = no_items();
    let mut p: usize = pos;
    loop
        invariant
            well_formed(tokens.deep_view()),
            pos <= p <= tokens@.len(),
            spec_alternatives(tokens.deep_view(), pos as nat, Seq::empty()) == spec_alternatives(
                tokens.deep_view(),
                p as nat,
                items.deep_view(),
            ),
            alternatives_within(items.deep_view(), stream_end(tokens.deep_view())),
        ensures
            pos <= p <= tokens@.len(),
            spec_alternatives(tokens.deep_view(), pos as nat, Seq::empty()) == (
                items.deep_view(),
                p as nat,
            ),
            alternatives_within(items.deep_view(), stream_end(tokens.deep_view())),
        decreases tokens@.len() - p,
    {
        if !at_kind(tokens, p, TokenKind::Vbar) {
            break;
        }
        let (patterns, p2) = pattern_list(tokens, p + 1);
        if patterns.len() > 0 {
            push_item(&mut items, patterns);
            p = p2;
        } else {
            break;
        }
    }
    (items, p)
}

fn clause(tokens: &Vec<(Token, Span)>, pos: usize) -> (res: Parsed<Clause>)
    requires
        well_formed(tokens.deep_view()),
        pos <= tokens@.len(),
    ensures
        agrees(res, spec_clause(tokens.deep_view(), pos as nat)),
        advances(res, pos, tokens@.len()),
        match res {
            Ok((c, _)) => clause_within(c.deep_view(), stream_end(tokens.deep_view())),
            Err(_) => true,
        },
    decreases tokens@.len() - pos, 36nat,
{
    let (pattern, p) = pattern_list(tokens, pos);
    if pattern.len() == 0 || p <= pos {
        return Err(pos);
    }
    let (alternative_patterns, p1) = alternatives(tokens, p);
    if !at_kind(tokens, p1, TokenKind::RArrow) {
        return Err(p1);
    }
    match expr_parser(tokens, p1 + 1) {
        Ok((then_, p2)) => Ok(
            (
                Clause {
                    location: span_between(tokens, pos, p2),
                    pattern,
                    alternative_patterns,
                    guard: None,
                    then_,
                },
                p2,
            ),
        ),
        Err(e) => Err(e),
    }
}

fn clauses(tokens: &Vec<(Token, Span)>, pos: usize) -> (res: (Vec<Clause>, usize))
    requires
        well_formed(tokens.deep_view()),
        pos <= tokens@.len(),
    ensures
        (res.0.deep_view(), res.1 as nat) == spec_clauses(
            tokens.deep_view(),
            pos as nat,
            Seq::empty(),
        ),
        pos <= res.1 <= tokens@.len(),
        clauses_within(res.0.deep_view(), stream_end(tokens.deep_view())),
    decreases tokens@.len() - pos, 37nat,
{
    let mut items: Vec<Clause> = no_items();
    let mut p: usize = pos;
    loop
        invariant
            well_formed(tokens.deep_view()),
            pos <= p <= tokens@.len(),
            spec_clauses(tokens.deep_view(), pos as nat, Seq::empty()) == spec_clauses(
                tokens.deep_view(),
                p as nat,
                items.deep_view(),
            ),
            clauses_within(items.deep_view(), stream_end(tokens.deep_view())),
        ensures
            pos <= p <= tokens@.len(),
            spec_clauses(tokens.deep_view(), pos as nat, Seq::empty()) == (
                items.deep_view(),
                p as nat,
            ),
            clauses_within(items.deep_view(), stream_end(tokens.deep_view())),
        decreases tokens@.len() - p,
    {
        match clause(tokens, p) {
            Ok((item, p2)) => {
                push_item(&mut items, item);
                p = p2;
            },
            Err(_) => {
                break;
            },
        }
    }
    (items, p)
}

fn when(tokens: &Vec<(Token, Span)>, pos: usize) -> (res: Parsed<UntypedExpr>)
    requires
        well_formed(tokens.deep_view()),
    ensures
        agrees(res, spec_when(tokens.deep_view(), pos as nat)),
        advances(res, pos, tokens@.len()),
        match res {
            Ok((e, end)) => placed(e.deep_view(), tokens.deep_view(), pos as nat, end as nat),
            Err(_) => true,
        },
    decreases tokens@.len() - pos, 5nat,
{
    if !at_kind(tokens, pos, TokenKind::When) {
        return Err(pos);
    }
    let (subjects, p) = expr_list(tokens, pos + 1);
    if !at_kind(tokens, p, TokenKind::Is) {
        return Err(p);
    }
    if !at_kind(tokens, p + 1, TokenKind::LeftBrace) {
        return Err(p + 1);
    }
    let (clauses, p1) = clauses(tokens, p + 2);
    if !at_kind(tokens, p1, TokenKind::RightBrace) {
        return Err(p1);
    }
    let made = UntypedExpr::when(span_between(tokens, pos, p1 + 1), subjects, clauses);
    proof {
        placed_whole(made.deep_view(), tokens.deep_view(), pos as nat, (p1 + 1) as nat);
    }
    Ok((made, p1 + 1))
}

fn branch(tokens: &Vec<(Token, Span)>, pos: usize) -> (res: Parsed<IfBranch>)
    requires
        well_formed(tokens.deep_view()),
    ensures
        agrees(res, spec_branch(tokens.deep_view(), pos as nat)),
        advances(res, pos, tokens@.len()),
        match res {
            Ok((b, _)) => branch_within(b.deep_view(), stream_end(tokens.deep_view())),
            Err(_) => true,
        },
    decreases tokens@.len() - pos, 36nat,
{
    let (condition, p) = match expr_parser(tokens, pos) {
        Ok(r) => r,
        Err(e) => { return Err(e); },
    };
    match block(tokens, p) {
        Ok((body, p1)) => Ok(
            (IfBranch { condition, body, location: span_between(tokens, pos, p1) }, p1),
        ),
        Err(e) => Err(e),
    }
}

fn else_ifs(tokens: &Vec<(Token, Span)>, pos: usize) -> (res: (Vec<IfBranch>, usize))
    requires
        well_formed(tokens.deep_view()),
        pos <= tokens@.len(),
    ensures
        (res.0.deep_view(), res.1 as nat) == spec_else_ifs(
            tokens.deep_view(),
            pos as nat,
            Seq::empty(),
        ),
        pos <= res.1 <= tokens@.len(),
        branches_within(res.0.deep_view(), stream_end(tokens.deep_view())),
    decreases tokens@.len() - pos, 37nat,
{
    let mut rest: Vec<IfBranch> = no_items();
    let mut p: usize = pos;
    loop
        invariant
            well_formed(tokens.deep_view()),
            pos <= p <= tokens@.len(),
            spec_else_ifs(tokens.deep_view(), pos as nat, Seq::empty()) == spec_else_ifs(
                tokens.deep_view(),
                p as nat,
                rest.deep_view(),
            ),
            branches_within(rest.deep_view(), stream_end(tokens.deep_view())),
        ensures
            pos <= p <= tokens@.len(),
            spec_else_ifs(tokens.deep_view(), pos as nat, Seq::empty()) == (
                rest.deep_view(),
                p as nat,
            ),
            branches_within(rest.deep_view(), stream_end(tokens.deep_view())),
        decreases tokens@.len() - p,
    {
        if !(at_kind(tokens, p, TokenKind::Else) && at_kind(tokens, p + 1, TokenKind::If)) {
            break;
        }
        match branch(tokens, p + 2) {
            Ok((item, p2)) => {
                push_item(&mut rest, item);
                p = p2;
            },
            Err(_) => {
                break;
            },
        }
    }
    (rest, p)
}

#[verifier::rlimit(50)]
fn if_parser(tokens: &Vec<(Token, Span)>, pos: usize) -> (res: Parsed<UntypedExpr>)
    requires
        well_formed(tokens.deep_view()),
    ensures
        agrees(res, spec_if(tokens.deep_view(), pos as nat)),
        advances(res, pos, tokens@.len()),
        match res {
            Ok((e, end)) => placed(e.deep_view(), tokens.deep_view(), pos as nat, end as nat),
            Err(_) => true,
        },
    decreases tokens@.len() - pos, 5nat,
{
    if !at_kind(tokens, pos, TokenKind::If) {
        return Err(pos);
    }
    let (first, p0) = match branch(tokens, pos + 1) {
        Ok(r) => r,
        Err(e) => { return Err(e); },
    };
    let (rest, p) = else_ifs(tokens, p0);
    if !at_kind(tokens, p, TokenKind::Else) {
        return Err(p);
    }
    match block(tokens, p + 1) {
        Ok((final_else, p2)) => {
            let made = UntypedExpr::if_else(
                span_between(tokens, pos, p2),
                NonEmpty { first, rest },
                final_else,
            );
            proof {
                placed_whole(made.deep_view(), tokens.deep_view(), pos as nat, p2 as nat);
            }
            Ok((made, p2))
        },
        Err(e) => Err(e),
    }
}

} // verus!
