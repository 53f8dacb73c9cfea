//! The grammar of the definitions of a module.
use vstd::prelude::*;
use crate::list::{no_items, push_item};
use crate::lang::ast::{
    DataType,
    DataTypeView,
    RecordConstructor,
    RecordConstructorArg,
    RecordConstructorArgView,
    RecordConstructorView,
    Span,
    TypeAlias,
    TypeAliasView,
    UnqualifiedImport,
    UnqualifiedImportView,
    Use,
    UseView,
};
use crate::lang::expr::{
    DefinitionView,
    ExprView,
    Function,
    FunctionView,
    TodoKind,
    UntypedDefinition,
    UntypedExpr,
};
use crate::lang::parser::annotation::{opt_annotation, spec_opt_annotation, spec_type, type_parser};
use crate::lang::parser::argument::{params, spec_params};
use crate::lang::parser::expression::{expr_seq_parser, spec_expr_seq};
use crate::lang::parser::stream::{
    Model,
    Parsed,
    advances,
    agrees,
    at_kind,
    forward,
    furthest,
    has_kind,
    later,
    list_end,
    span_between,
    in_order,
    span_of,
    stream_end,
    spec_list_end,
    take_text,
    text_of,
    well_formed,
};
use crate::lang::parser::token::{Lexeme, Token, TokenKind};

verus! {

// -------------------------------------------------------------------- imports
/// The names of a list separated by `sep` that goes on at `pos`, behind
/// those in `done`. A separator that no name follows is not consumed.
pub open spec fn spec_name_list(
    tokens: Seq<(Lexeme, Span)>,
    pos: nat,
    sep: TokenKind,
    done: Seq<Seq<char>>,
) -> (Seq<Seq<char>>, nat)
    decreases tokens.len() - pos,
{
    let start = if done.len() == 0 {
        pos
    } else {
        pos + 1
    };
    if pos >= tokens.len() || (done.len() > 0 && !has_kind(tokens, pos, sep)) {
        (done, pos)
    } else {
        match text_of(tokens, start, TokenKind::Name) {
            Some(name) => spec_name_list(tokens, start + 1, sep, done.push(name)),
            None => (done, pos),
        }
    }
}

/// `as name` at `pos`, where the name has the kind `kind`; nothing, with
/// nothing consumed, where that does not follow.
pub open spec fn spec_alias(tokens: Seq<(Lexeme, Span)>, pos: nat, kind: TokenKind) -> (
    Option<Seq<char>>,
    nat,
) {
    match text_of(tokens, pos + 1, kind) {
        Some(name) if has_kind(tokens, pos, TokenKind::As) => (Some(name), pos + 2),
        _ => (None, pos),
    }
}

/// One imported name at `pos`: a value `name [as name]` or a type
/// `Name [as Name]`.
pub open spec fn spec_unqualified(tokens: Seq<(Lexeme, Span)>, pos: nat) -> Model<
    UnqualifiedImportView,
> {
    let kind = if has_kind(tokens, pos, TokenKind::Name) {
        TokenKind::Name
    } else {
        TokenKind::UpName
    };
    match text_of(tokens, pos, kind) {
        Some(name) => {
            let (as_name, p) = spec_alias(tokens, pos + 1, kind);
            Ok((UnqualifiedImportView { location: span_of(tokens, pos, p), name, as_name }, p))
        },
        None => Err(pos),
    }
}

/// The imported names of a comma-separated list that goes on at `pos`,
/// behind those in `done`.
pub open spec fn spec_unqualified_list(
    tokens: Seq<(Lexeme, Span)>,
    pos: nat,
    done: Seq<UnqualifiedImportView>,
) -> (Seq<UnqualifiedImportView>, nat)
    decreases tokens.len() - pos,
{
    let start = if done.len() == 0 {
        pos
    } else {
        pos + 1
    };
    if pos >= tokens.len() || (done.len() > 0 && !has_kind(tokens, pos, TokenKind::Comma)) {
        (done, pos)
    } else {
        match forward(spec_unqualified(tokens, start), pos, tokens.len()) {
            Ok((item, p)) => spec_unqualified_list(tokens, p, done.push(item)),
            Err(_) => (done, pos),
        }
    }
}

/// `.{ name, Name as Other, .. }` at `pos`; no names, with nothing
/// consumed, where that does not follow.
pub open spec fn spec_unqualified_imports(tokens: Seq<(Lexeme, Span)>, pos: nat) -> (
    Seq<UnqualifiedImportView>,
    nat,
) {
    if has_kind(tokens, pos, TokenKind::Dot) && has_kind(tokens, pos + 1, TokenKind::LeftBrace) {
        let (items, p) = spec_unqualified_list(tokens, pos + 2, Seq::empty());
        match spec_list_end(tokens, p, items.len() > 0, TokenKind::RightBrace) {
            Ok(p1) => (items, p1),
            Err(_) => (Seq::empty(), pos),
        }
    } else {
        (Seq::empty(), pos)
    }
}

/// `use path/of/module [.{ names }] [as name]` at `pos`.
pub open spec fn spec_import(tokens: Seq<(Lexeme, Span)>, pos: nat) -> Model<DefinitionView> {
    if !has_kind(tokens, pos, TokenKind::Use) {
        Err(pos)
    } else {
        let (module, p1) = spec_name_list(tokens, pos + 1, TokenKind::Slash, Seq::empty());
        let (unqualified, p2) = spec_unqualified_imports(tokens, p1);
        let (as_name, p3) = spec_alias(tokens, p2, TokenKind::Name);
        Ok(
            (
                DefinitionView::Use(
                    UseView { as_name, location: span_of(tokens, pos, p3), module, unqualified },
                ),
                p3,
            ),
        )
    }
}

// ----------------------------------------------------------------- data types
/// `pub` at `pos`.
pub open spec fn spec_pub(tokens: Seq<(Lexeme, Span)>, pos: nat) -> Model<()> {
    if has_kind(tokens, pos, TokenKind::Pub) {
        Ok(((), pos + 1))
    } else {
        Err(pos)
    }
}

/// `type Name` at `pos`, and the parameters `(a, b, ..)` where they follow.
pub open spec fn spec_type_name(tokens: Seq<(Lexeme, Span)>, pos: nat) -> Model<
    (Seq<char>, Option<Seq<Seq<char>>>),
> {
    match text_of(tokens, pos + 1, TokenKind::UpName) {
        Some(name) if has_kind(tokens, pos, TokenKind::Type) => {
            let (names, p) = spec_name_list(tokens, pos + 3, TokenKind::Comma, Seq::empty());
            match spec_list_end(tokens, p, names.len() > 0, TokenKind::RightParen) {
                Ok(p1) if has_kind(tokens, pos + 2, TokenKind::LeftParen) => Ok(
                    ((name, Some(names)), p1),
                ),
                _ => Ok(((name, None), pos + 2)),
            }
        },
        _ => Err(if has_kind(tokens, pos, TokenKind::Type) {
            pos + 1
        } else {
            pos
        }),
    }
}

/// The names in `parameters`, and none where there is no list.
pub open spec fn or_none(parameters: Option<Seq<Seq<char>>>) -> Seq<Seq<char>> {
    match parameters {
        Some(names) => names,
        None => Seq::empty(),
    }
}

/// A field of a constructor at `pos`: `label: type` where the fields are
/// labelled, and a type alone where they are not.
pub open spec fn spec_field(tokens: Seq<(Lexeme, Span)>, pos: nat, labelled: bool) -> Model<
    RecordConstructorArgView,
> {
    if !labelled {
        match spec_type(tokens, pos) {
            Ok((annotation, p)) => Ok(
                (
                    RecordConstructorArgView {
                        label: None,
                        annotation,
                        location: span_of(tokens, pos, p),
                        doc: None,
                    },
                    p,
                ),
            ),
            Err(e) => Err(e),
        }
    } else {
        match text_of(tokens, pos, TokenKind::Name) {
            Some(label) if has_kind(tokens, pos + 1, TokenKind::Colon) => match spec_type(
                tokens,
                pos + 2,
            ) {
                Ok((annotation, p)) => Ok(
                    (
                        RecordConstructorArgView {
                            label: Some(label),
                            annotation,
                            location: span_of(tokens, pos, p),
                            doc: None,
                        },
                        p,
                    ),
                ),
                Err(e) => Err(e),
            },
            _ => Err(pos),
        }
    }
}

/// The fields of a comma-separated list that goes on at `pos`, behind those
/// in `done`.
pub open spec fn spec_field_list(
    tokens: Seq<(Lexeme, Span)>,
    pos: nat,
    labelled: bool,
    done: Seq<RecordConstructorArgView>,
) -> (Seq<RecordConstructorArgView>, nat)
    decreases tokens.len() - pos,
{
    let start = if done.len() == 0 {
        pos
    } else {
        pos + 1
    };
    if pos >= tokens.len() || (done.len() > 0 && !has_kind(tokens, pos, TokenKind::Comma)) {
        (done, pos)
    } else {
        match forward(spec_field(tokens, start, labelled), pos, tokens.len()) {
            Ok((item, p)) => spec_field_list(tokens, p, labelled, done.push(item)),
            Err(_) => (done, pos),
        }
    }
}

/// The fields of a constructor at `pos`: labelled ones between braces,
/// others between parentheses. A comma may follow the last field.
pub open spec fn spec_fields(tokens: Seq<(Lexeme, Span)>, pos: nat, labelled: bool) -> Model<
    Seq<RecordConstructorArgView>,
> {
    let open = if labelled {
        TokenKind::LeftBrace
    } else {
        TokenKind::LeftParen
    };
    let close = if labelled {
        TokenKind::RightBrace
    } else {
        TokenKind::RightParen
    };
    if !has_kind(tokens, pos, open) {
        Err(pos)
    } else {
        let (items, p) = spec_field_list(tokens, pos + 1, labelled, Seq::empty());
        match spec_list_end(tokens, p, items.len() > 0, close) {
            Ok(p1) => Ok((items, p1)),
            Err(e) => Err(e),
        }
    }
}

/// The fields behind the name of a constructor where they follow at `pos`,
/// labelled or else not; no fields, with nothing consumed, where neither
/// follows.
pub open spec fn spec_opt_fields(tokens: Seq<(Lexeme, Span)>, pos: nat) -> (
    Seq<RecordConstructorArgView>,
    nat,
) {
    match forward(spec_fields(tokens, pos, true), pos, tokens.len()) {
        Ok(r) => r,
        Err(_) => match forward(spec_fields(tokens, pos, false), pos, tokens.len()) {
            Ok(r) => r,
            Err(_) => (Seq::empty(), pos),
        },
    }
}

/// A constructor at `pos`: its name and the fields behind it.
pub open spec fn spec_constructor(tokens: Seq<(Lexeme, Span)>, pos: nat) -> Model<
    RecordConstructorView,
> {
    match text_of(tokens, pos, TokenKind::UpName) {
        Some(name) => {
            let (arguments, p) = spec_opt_fields(tokens, pos + 1);
            Ok(
                (
                    RecordConstructorView {
                        location: span_of(tokens, pos, p),
                        name,
                        arguments,
                        documentation: None,
                        sugar: false,
                    },
                    p,
                ),
            )
        },
        None => Err(pos),
    }
}

/// The constructors from `pos` on, behind those in `done`.
pub open spec fn spec_constructor_list(
    tokens: Seq<(Lexeme, Span)>,
    pos: nat,
    done: Seq<RecordConstructorView>,
) -> (Seq<RecordConstructorView>, nat)
    decreases tokens.len() - pos,
{
    match forward(spec_constructor(tokens, pos), pos, tokens.len()) {
        Ok((item, p)) => spec_constructor_list(tokens, p, done.push(item)),
        Err(_) => (done, pos),
    }
}

/// The constructors of the type `owner` at `pos`: constructors between
/// braces, or else labelled fields alone, which make the one constructor of
/// a record, named like its type.
pub open spec fn spec_constructors(
    tokens: Seq<(Lexeme, Span)>,
    pos: nat,
    owner: Seq<char>,
) -> Model<Seq<RecordConstructorView>> {
    let (items, p) = spec_constructor_list(tokens, pos + 1, Seq::empty());
    if has_kind(tokens, pos, TokenKind::LeftBrace) && has_kind(tokens, p, TokenKind::RightBrace) {
        Ok((items, p + 1))
    } else {
        match spec_fields(tokens, pos, true) {
            Ok((arguments, p1)) => Ok(
                (
                    seq![
                        RecordConstructorView {
                            location: span_of(tokens, pos, p1),
                            name: owner,
                            arguments,
                            documentation: None,
                            sugar: true,
                        },
                    ],
                    p1,
                ),
            ),
            Err(e) => Err(
                if has_kind(tokens, pos, TokenKind::LeftBrace) {
                    furthest(p, e)
                } else {
                    e
                },
            ),
        }
    }
}

/// `[pub [opaque]] type Name[(a, ..)] { constructors }` at `pos`.
pub open spec fn spec_data(tokens: Seq<(Lexeme, Span)>, pos: nat) -> Model<DefinitionView> {
    let public = has_kind(tokens, pos, TokenKind::Pub);
    let opaque = public && has_kind(tokens, pos + 1, TokenKind::Opaque);
    let p0 = if opaque {
        pos + 2
    } else if public {
        pos + 1
    } else {
        pos
    };
    match spec_type_name(tokens, p0) {
        Ok(((name, parameters), p1)) => match spec_constructors(tokens, p1, name) {
            Ok((constructors, p2)) => Ok(
                (
                    DefinitionView::DataType(
                        DataTypeView {
                            constructors,
                            doc: None,
                            location: span_of(tokens, pos, p2),
                            name,
                            opaque,
                            parameters: or_none(parameters),
                            public,
                            typed_parameters: 0,
                        },
                    ),
                    p2,
                ),
            ),
            Err(e) => Err(e),
        },
        Err(e) => Err(e),
    }
}

/// `[pub] type Name[(a, ..)] = type` at `pos`.
pub open spec fn spec_type_alias(tokens: Seq<(Lexeme, Span)>, pos: nat) -> Model<DefinitionView> {
    let public = has_kind(tokens, pos, TokenKind::Pub);
    let p0 = if public {
        pos + 1
    } else {
        pos
    };
    match spec_type_name(tokens, p0) {
        Ok(((alias, parameters), p1)) => if !has_kind(tokens, p1, TokenKind::Equal) {
            Err(p1)
        } else {
            match spec_type(tokens, p1 + 1) {
                Ok((annotation, p2)) => Ok(
                    (
                        DefinitionView::TypeAlias(
                            TypeAliasView {
                                alias,
                                annotation,
                                doc: None,
                                location: span_of(tokens, pos, p2),
                                parameters: or_none(parameters),
                                public,
                            },
                        ),
                        p2,
                    ),
                ),
                Err(e) => Err(e),
            }
        },
        Err(e) => Err(e),
    }
}

// ------------------------------------------------------------------ functions
/// The body of a function between its braces at `pos`: the expressions,
/// or nothing, with nothing consumed, where none can be read.
pub open spec fn spec_body(tokens: Seq<(Lexeme, Span)>, pos: nat) -> (Option<ExprView>, nat) {
    match forward(spec_expr_seq(tokens, pos), pos, tokens.len()) {
        Ok((body, p)) => (Some(body), p),
        Err(_) => (None, pos),
    }
}

/// `[pub] fn name(params) [-> type] { body }` at `pos`. A function without
/// a body gets a `todo` in its place. The function's location ends with the
/// return type, or with the parameters where there is none.
pub open spec fn spec_fn(tokens: Seq<(Lexeme, Span)>, pos: nat) -> Model<DefinitionView> {
    let public = has_kind(tokens, pos, TokenKind::Pub);
    let p0 = if public {
        pos + 1
    } else {
        pos
    };
    match text_of(tokens, p0 + 1, TokenKind::Name) {
        Some(name) if has_kind(tokens, p0, TokenKind::Fn) => match spec_params(
            tokens,
            p0 + 2,
            true,
        ) {
            Ok((arguments, p1)) => {
                let (return_annotation, p2) = spec_opt_annotation(tokens, p1, TokenKind::RArrow);
                if !has_kind(tokens, p2, TokenKind::LeftBrace) {
                    Err(p2)
                } else {
                    let (body, p3) = spec_body(tokens, p2 + 1);
                    if !has_kind(tokens, p3, TokenKind::RightBrace) {
                        Err(p3)
                    } else {
                        let span = span_of(tokens, pos, p3 + 1);
                        Ok(
                            (
                                DefinitionView::Fn(
                                    FunctionView {
                                        arguments,
                                        body: match body {
                                            Some(b) => b,
                                            None => ExprView::Todo {
                                                kind: TodoKind::EmptyFunction,
                                                location: span,
                                                label: None,
                                            },
                                        },
                                        doc: None,
                                        location: Span {
                                            start: span.start,
                                            end: match return_annotation {
                                                Some(a) => a.location().end,
                                                None => span_of(tokens, p0 + 2, p1).end,
                                            },
                                        },
                                        name,
                                        public,
                                        return_annotation,
                                        end_position: (span.end - 1) as usize,
                                    },
                                ),
                                p3 + 1,
                            ),
                        )
                    }
                }
            },
            Err(e) => Err(e),
        },
        _ => Err(if has_kind(tokens, p0, TokenKind::Fn) {
            p0 + 1
        } else {
            p0
        }),
    }
}

// -------------------------------------------------------------------- modules
/// A definition at `pos`: an import, a data type, a type alias or a
/// function, tried in this order. Where none can be read, the failure is
/// the one that got furthest.
pub open spec fn spec_definition(tokens: Seq<(Lexeme, Span)>, pos: nat) -> Model<DefinitionView> {
    match spec_import(tokens, pos) {
        Ok(r) => Ok(r),
        Err(e1) => match spec_data(tokens, pos) {
            Ok(r) => Ok(r),
            Err(e2) => match spec_type_alias(tokens, pos) {
                Ok(r) => Ok(r),
                Err(e3) => match spec_fn(tokens, pos) {
                    Ok(r) => Ok(r),
                    Err(e4) => Err(furthest(furthest(e1, e2), furthest(e3, e4))),
                },
            },
        },
    }
}

/// The definitions from `pos` on, behind those in `done`.
pub open spec fn spec_definitions(
    tokens: Seq<(Lexeme, Span)>,
    pos: nat,
    done: Seq<DefinitionView>,
) -> (Seq<DefinitionView>, nat)
    decreases tokens.len() - pos,
{
    match forward(spec_definition(tokens, pos), pos, tokens.len()) {
        Ok((item, p)) => spec_definitions(tokens, p, done.push(item)),
        Err(_) => (done, pos),
    }
}

/// The definitions of a module: as many as can be read, which must leave
/// no token over. Where one is left over, the failure is that of the
/// definition that starts there.
pub open spec fn spec_module(tokens: Seq<(Lexeme, Span)>) -> Result<Seq<DefinitionView>, nat> {
    let (definitions, p) = spec_definitions(tokens, 0, Seq::empty());
    if p >= tokens.len() {
        Ok(definitions)
    } else {
        match spec_definition(tokens, p) {
            Ok(_) => Err(p),
            Err(e) => Err(e),
        }
    }
}

// --------------------------------------------------------------------- places
/// Whether every span in each of the definitions is a range of a text of
/// `len` bytes.
pub open spec fn definitions_within(items: Seq<DefinitionView>, len: nat) -> bool {
    forall|i: int| 0 <= i < items.len() ==> (#[trigger] items[i]).spans_within(len)
}

pub open spec fn imports_within(items: Seq<UnqualifiedImportView>, len: nat) -> bool {
    forall|i: int| 0 <= i < items.len() ==> (#[trigger] items[i]).location.within(len)
}

pub open spec fn fields_within(items: Seq<RecordConstructorArgView>, len: nat) -> bool {
    forall|i: int| 0 <= i < items.len() ==> (#[trigger] items[i]).spans_within(len)
}

pub open spec fn constructors_within(items: Seq<RecordConstructorView>, len: nat) -> bool {
    forall|i: int| 0 <= i < items.len() ==> (#[trigger] items[i]).spans_within(len)
}

// -------------------------------------------------------------------- parsers
fn name_list(tokens: &Vec<(Token, Span)>, pos: usize, sep: TokenKind) -> (res: (Vec<String>, usize))
    requires
        pos <= tokens@.len(),
    ensures
        (res.0.deep_view(), res.1 as nat) == spec_name_list(
            tokens.deep_view(),
            pos as nat,
            sep,
            Seq::empty(),
        ),
        res.0@.len() == res.0.deep_view().len(),
        pos <= res.1 <= tokens@.len(),
{
    let mut items: Vec<String> = no_items();
    let mut p: usize = pos;
    loop
        invariant
            pos <= p <= tokens@.len(),
            spec_name_list(tokens.deep_view(), pos as nat, sep, Seq::empty()) == spec_name_list(
                tokens.deep_view(),
                p as nat,
                sep,
                items.deep_view(),
            ),
        ensures
            pos <= p <= tokens@.len(),
            spec_name_list(tokens.deep_view(), pos as nat, sep, Seq::empty()) == (
                items.deep_view(),
                p as nat,
            ),
        decreases tokens@.len() - p,
    {
        if p >= tokens.len() || (items.len() > 0 && !at_kind(tokens, p, sep)) {
            break;
        }
        let start = if items.len() == 0 {
            p
        } else {
            p + 1
        };
        match take_text(tokens, start, TokenKind::Name) {
            Some(name) => {
                push_item(&mut items, name);
                p = start + 1;
            },
            None => {
                break;
            },
        }
    }
    (items, p)
}

fn alias(tokens: &Vec<(Token, Span)>, pos: usize, kind: TokenKind) -> (res: (Option<String>, usize))
    requires
        pos <= tokens@.len(),
    ensures
        (res.0.deep_view(), res.1 as nat) == spec_alias(tokens.deep_view(), pos as nat, kind),
        pos <= res.1 <= tokens@.len(),
{
    if at_kind(tokens, pos, TokenKind::As) {
        match take_text(tokens, pos + 1, kind) {
            Some(name) => (Some(name), pos + 2),
            None => (None, pos),
        }
    } else {
        (None, pos)
    }
}

fn unqualified(tokens: &Vec<(Token, Span)>, pos: usize) -> (res: Parsed<UnqualifiedImport>)
    ensures
        agrees(res, spec_unqualified(tokens.deep_view(), pos as nat)),
        advances(res, pos, tokens@.len()),
        well_formed(tokens.deep_view()) ==> match res {
            Ok((u, _)) => u.deep_view().location.within(stream_end(tokens.deep_view())),
            Err(_) => true,
        },
{
    let kind = if at_kind(tokens, pos, TokenKind::Name) {
        TokenKind::Name
    } else {
        TokenKind::UpName
    };
    match take_text(tokens, pos, kind) {
        Some(name) => {
            let (as_name, p) = alias(tokens, pos + 1, kind);
            Ok((UnqualifiedImport { location: span_between(tokens, pos, p), name, as_name }, p))
        },
        None => Err(pos),
    }
}

fn unqualified_imports(tokens: &Vec<(Token, Span)>, pos: usize) -> (res: (
    Vec<UnqualifiedImport>,
    usize,
))
    requires
        pos <= tokens@.len(),
    ensures
        (res.0.deep_view(), res.1 as nat) == spec_unqualified_imports(
            tokens.deep_view(),
            pos as nat,
        ),
        pos <= res.1 <= tokens@.len(),
        well_formed(tokens.deep_view()) ==> imports_within(res.0.deep_view(), stream_end(tokens.deep_view())),
{
    if !(at_kind(tokens, pos, TokenKind::Dot) && at_kind(tokens, pos + 1, TokenKind::LeftBrace)) {
        return (no_items(), pos);
    }
    let first = pos + 2;
    let mut items: Vec<UnqualifiedImport> = no_items();
    let mut p: usize = first;
    loop
        invariant
            pos < first <= p <= tokens@.len(),
            spec_unqualified_list(tokens.deep_view(), first as nat, Seq::empty())
                == spec_unqualified_list(tokens.deep_view(), p as nat, items.deep_view()),
            well_formed(tokens.deep_view()) ==> imports_within(items.deep_view(), stream_end(tokens.deep_view())),
        ensures
            pos < p <= tokens@.len(),
            well_formed(tokens.deep_view()) ==> imports_within(items.deep_view(), stream_end(tokens.deep_view())),
            spec_unqualified_list(tokens.deep_view(), first as nat, Seq::empty()) == (
                items.deep_view(),
                p as nat,
            ),
        decreases tokens@.len() - p,
    {
        if p >= tokens.len() || (items.len() > 0 && !at_kind(tokens, p, TokenKind::Comma)) {
            break;
        }
        let start = if items.len() == 0 {
            p
        } else {
            p + 1
        };
        match unqualified(tokens, start) {
            Ok((item, p2)) => {
                push_item(&mut items, item);
                p = p2;
            },
            Err(_) => {
                break;
            },
        }
    }
    match list_end(tokens, p, items.len() > 0, TokenKind::RightBrace) {
        Ok(p1) => (items, p1),
        Err(_) => (no_items(), pos),
    }
}

pub fn import_parser(tokens: &Vec<(Token, Span)>, pos: usize) -> (res: Parsed<UntypedDefinition>)
    ensures
        agrees(res, spec_import(tokens.deep_view(), pos as nat)),
        advances(res, pos, tokens@.len()),
        well_formed(tokens.deep_view()) ==> match res {
            Ok((d, _)) => d.deep_view().spans_within(stream_end(tokens.deep_view())),
            Err(_) => true,
        },
{
    if !at_kind(tokens, pos, TokenKind::Use) {
        return Err(pos);
    }
    let (module, p1) = name_list(tokens, pos + 1, TokenKind::Slash);
    let (unqualified, p2) = unqualified_imports(tokens, p1);
    let (as_name, p3) = alias(tokens, p2, TokenKind::Name);
    Ok(
        (
            UntypedDefinition::Use(
                Use {
                    as_name,
                    location: span_between(tokens, pos, p3),
                    module,
                    package: (),
                    unqualified,
                },
            ),
            p3,
        ),
    )
}

pub fn pub_parser(tokens: &Vec<(Token, Span)>, pos: usize) -> (res: Parsed<()>)
    ensures
        agrees(res, spec_pub(tokens.deep_view(), pos as nat)),
        advances(res, pos, tokens@.len()),
{
    if at_kind(tokens, pos, TokenKind::Pub) {
        Ok(((), pos + 1))
    } else {
        Err(pos)
    }
}

pub fn type_name_with_args(tokens: &Vec<(Token, Span)>, pos: usize) -> (res: Parsed<
    (String, Option<Vec<String>>),
>)
    ensures
        agrees(res, spec_type_name(tokens.deep_view(), pos as nat)),
        advances(res, pos, tokens@.len()),
{
    if !at_kind(tokens, pos, TokenKind::Type) {
        return Err(pos);
    }
    let name = match take_text(tokens, pos + 1, TokenKind::UpName) {
        Some(name) => name,
        None => { return Err(pos + 1); },
    };
    if at_kind(tokens, pos + 2, TokenKind::LeftParen) {
        let (names, p) = name_list(tokens, pos + 3, TokenKind::Comma);
        match list_end(tokens, p, names.len() > 0, TokenKind::RightParen) {
            Ok(p1) => { return Ok(((name, Some(names)), p1)); },
            Err(_) => {},
        }
    }
    Ok(((name, None), pos + 2))
}

fn field(tokens: &Vec<(Token, Span)>, pos: usize, labelled: bool) -> (res: Parsed<
    RecordConstructorArg,
>)
    ensures
        agrees(res, spec_field(tokens.deep_view(), pos as nat, labelled)),
        advances(res, pos, tokens@.len()),
        well_formed(tokens.deep_view()) ==> match res {
            Ok((f, _)) => f.deep_view().spans_within(stream_end(tokens.deep_view())),
            Err(_) => true,
        },
{
    if !labelled {
        return match type_parser(tokens, pos) {
            Ok((annotation, p)) => Ok(
                (
                    RecordConstructorArg {
                        label: None,
                        annotation,
                        location: span_between(tokens, pos, p),
                        tipo: (),
                        doc: None,
                    },
                    p,
                ),
            ),
            Err(e) => Err(e),
        };
    }
    match take_text(tokens, pos, TokenKind::Name) {
        Some(label) => {
            if !at_kind(tokens, pos + 1, TokenKind::Colon) {
                return Err(pos);
            }
            match type_parser(tokens, pos + 2) {
                Ok((annotation, p)) => Ok(
                    (
                        RecordConstructorArg {
                            label: Some(label),
                            annotation,
                            location: span_between(tokens, pos, p),
                            tipo: (),
                            doc: None,
                        },
                        p,
                    ),
                ),
                Err(e) => Err(e),
            }
        },
        None => Err(pos),
    }
}

fn fields(tokens: &Vec<(Token, Span)>, pos: usize, labelled: bool) -> (res: Parsed<
    Vec<RecordConstructorArg>,
>)
    ensures
        agrees(res, spec_fields(tokens.deep_view(), pos as nat, labelled)),
        advances(res, pos, tokens@.len()),
        well_formed(tokens.deep_view()) ==> match res {
            Ok((items, _)) => fields_within(items.deep_view(), stream_end(tokens.deep_view())),
            Err(_) => true,
        },
{
    let open = if labelled {
        TokenKind::LeftBrace
    } else {
        TokenKind::LeftParen
    };
    let close = if labelled {
        TokenKind::RightBrace
    } else {
        TokenKind::RightParen
    };
    if !at_kind(tokens, pos, open) {
        return Err(pos);
    }
    let mut items: Vec<RecordConstructorArg> = no_items();
    let mut p: usize = pos + 1;
    loop
        invariant
            pos < p <= tokens@.len(),
            spec_field_list(tokens.deep_view(), (pos + 1) as nat, labelled, Seq::empty())
                == spec_field_list(tokens.deep_view(), p as nat, labelled, items.deep_view()),
            well_formed(tokens.deep_view()) ==> fields_within(items.deep_view(), stream_end(tokens.deep_view())),
        ensures
            pos < p <= tokens@.len(),
            well_formed(tokens.deep_view()) ==> fields_within(items.deep_view(), stream_end(tokens.deep_view())),
            spec_field_list(tokens.deep_view(), (pos + 1) as nat, labelled, Seq::empty()) == (
                items.deep_view(),
                p as nat,
            ),
        decreases tokens@.len() - p,
    {
        if p >= tokens.len() || (items.len() > 0 && !at_kind(tokens, p, TokenKind::Comma)) {
            break;
        }
        let start = if items.len() == 0 {
            p
        } else {
            p + 1
        };
        match field(tokens, start, labelled) {
            Ok((item, p2)) => {
                push_item(&mut items, item);
                p = p2;
            },
            Err(_) => {
                break;
            },
        }
    }
    match list_end(tokens, p, items.len() > 0, close) {
        Ok(p1) => Ok((items, p1)),
        Err(e) => Err(e),
    }
}

/// The labelled fields of a constructor, between braces.
pub fn labeled_constructor_type_args(tokens: &Vec<(Token, Span)>, pos: usize) -> (res: Parsed<
    Vec<RecordConstructorArg>,
>)
    ensures
        agrees(res, spec_fields(tokens.deep_view(), pos as nat, true)),
        advances(res, pos, tokens@.len()),
        well_formed(tokens.deep_view()) ==> match res {
            Ok((items, _)) => fields_within(items.deep_view(), stream_end(tokens.deep_view())),
            Err(_) => true,
        },
{
    fields(tokens, pos, true)
}

fn opt_fields(tokens: &Vec<(Token, Span)>, pos: usize) -> (res: (Vec<RecordConstructorArg>, usize))
    requires
        pos <= tokens@.len(),
    ensures
        (res.0.deep_view(), res.1 as nat) == spec_opt_fields(tokens.deep_view(), pos as nat),
        pos <= res.1 <= tokens@.len(),
        well_formed(tokens.deep_view()) ==> fields_within(res.0.deep_view(), stream_end(tokens.deep_view())),
{
    match fields(tokens, pos, true) {
        Ok(r) => { return r; },
        Err(_) => {},
    }
    match fields(tokens, pos, false) {
        Ok(r) => r,
        Err(_) => (no_items(), pos),
    }
}

fn constructor(tokens: &Vec<(Token, Span)>, pos: usize) -> (res: Parsed<RecordConstructor>)
    ensures
        agrees(res, spec_constructor(tokens.deep_view(), pos as nat)),
        advances(res, pos, tokens@.len()),
        well_formed(tokens.deep_view()) ==> match res {
            Ok((c, _)) => c.deep_view().spans_within(stream_end(tokens.deep_view())),
            Err(_) => true,
        },
{
    match take_text(tokens, pos, TokenKind::UpName) {
        Some(name) => {
            let (arguments, p) = opt_fields(tokens, pos + 1);
            Ok(
                (
                    RecordConstructor {
                        location: span_between(tokens, pos, p),
                        name,
                        arguments,
                        documentation: None,
                        sugar: false,
                    },
                    p,
                ),
            )
        },
        None => Err(pos),
    }
}

fn constructors(tokens: &Vec<(Token, Span)>, pos: usize, owner: &String) -> (res: Parsed<
    Vec<RecordConstructor>,
>)
    requires
        pos <= tokens@.len(),
    ensures
        agrees(res, spec_constructors(tokens.deep_view(), pos as nat, owner@)),
        advances(res, pos, tokens@.len()),
        well_formed(tokens.deep_view()) ==> match res {
            Ok((items, _)) => constructors_within(items.deep_view(), stream_end(tokens.deep_view())),
            Err(_) => true,
        },
{
    let mut first_failure: usize = pos;
    if at_kind(tokens, pos, TokenKind::LeftBrace) {
        let mut items: Vec<RecordConstructor> = no_items();
        let mut p: usize = pos + 1;
        loop
            invariant
                pos < p <= tokens@.len(),
                spec_constructor_list(tokens.deep_view(), (pos + 1) as nat, Seq::empty())
                    == spec_constructor_list(tokens.deep_view(), p as nat, items.deep_view()),
                well_formed(tokens.deep_view()) ==> constructors_within(items.deep_view(), stream_end(tokens.deep_view())),
            ensures
                pos < p <= tokens@.len(),
                well_formed(tokens.deep_view()) ==> constructors_within(items.deep_view(), stream_end(tokens.deep_view())),
                spec_constructor_list(tokens.deep_view(), (pos + 1) as nat, Seq::empty()) == (
                    items.deep_view(),
                    p as nat,
                ),
            decreases tokens@.len() - p,
        {
            match constructor(tokens, p) {
                Ok((item, p2)) => {
                    push_item(&mut items, item);
                    p = p2;
                },
                Err(_) => {
                    break;
                },
            }
        }
        if at_kind(tokens, p, TokenKind::RightBrace) {
            return Ok((items, p + 1));
        }
        first_failure = p;
    }
    match fields(tokens, pos, true) {
        Ok((arguments, p1)) => {
            let mut one: Vec<RecordConstructor> = no_items();
            push_item(
                &mut one,
                RecordConstructor {
                    location: span_between(tokens, pos, p1),
                    name: owner.clone(),
                    arguments,
                    documentation: None,
                    sugar: true,
                },
            );
            assert(one.deep_view() =~= seq![one@[0].deep_view()]);
            Ok((one, p1))
        },
        Err(e) => Err(later(first_failure, e)),
    }
}

fn or_empty(parameters: Option<Vec<String>>) -> (r: Vec<String>)
    ensures
        r.deep_view() == or_none(parameters.deep_view()),
{
    match parameters {
        Some(names) => names,
        None => no_items(),
    }
}

pub fn data_parser(tokens: &Vec<(Token, Span)>, pos: usize) -> (res: Parsed<UntypedDefinition>)
    ensures
        agrees(res, spec_data(tokens.deep_view(), pos as nat)),
        advances(res, pos, tokens@.len()),
        well_formed(tokens.deep_view()) ==> match res {
            Ok((d, _)) => d.deep_view().spans_within(stream_end(tokens.deep_view())),
            Err(_) => true,
        },
{
    let public = at_kind(tokens, pos, TokenKind::Pub);
    let opaque = public && at_kind(tokens, pos + 1, TokenKind::Opaque);
    let p0 = if opaque {
        pos + 2
    } else if public {
        pos + 1
    } else {
        pos
    };
    let ((name, parameters), p1) = match type_name_with_args(tokens, p0) {
        Ok(r) => r,
        Err(e) => { return Err(e); },
    };
    match constructors(tokens, p1, &name) {
        Ok((constructors, p2)) => Ok(
            (
                UntypedDefinition::DataType(
                    DataType {
                        constructors,
                        doc: None,
                        location: span_between(tokens, pos, p2),
                        name,
                        opaque,
                        parameters: or_empty(parameters),
                        public,
                        typed_parameters: Vec::new(),
                    },
                ),
                p2,
            ),
        ),
        Err(e) => Err(e),
    }
}

pub fn type_alias_parser(tokens: &Vec<(Token, Span)>, pos: usize) -> (res: Parsed<
    UntypedDefinition,
>)
    ensures
        agrees(res, spec_type_alias(tokens.deep_view(), pos as nat)),
        advances(res, pos, tokens@.len()),
        well_formed(tokens.deep_view()) ==> match res {
            Ok((d, _)) => d.deep_view().spans_within(stream_end(tokens.deep_view())),
            Err(_) => true,
        },
{
    let public = at_kind(tokens, pos, TokenKind::Pub);
    let p0 = if public {
        pos + 1
    } else {
        pos
    };
    let ((alias, parameters), p1) = match type_name_with_args(tokens, p0) {
        Ok(r) => r,
        Err(e) => { return Err(e); },
    };
    if !at_kind(tokens, p1, TokenKind::Equal) {
        return Err(p1);
    }
    match type_parser(tokens, p1 + 1) {
        Ok((annotation, p2)) => Ok(
            (
                UntypedDefinition::TypeAlias(
                    TypeAlias {
                        alias,
                        annotation,
                        doc: None,
                        location: span_between(tokens, pos, p2),
                        parameters: or_empty(parameters),
                        public,
                        tipo: (),
                    },
                ),
                p2,
            ),
        ),
        Err(e) => Err(e),
    }
}

fn body(tokens: &Vec<(Token, Span)>, pos: usize) -> (res: (Option<UntypedExpr>, usize))
    requires
        well_formed(tokens.deep_view()),
        pos <= tokens@.len(),
    ensures
        (res.0.deep_view(), res.1 as nat) == spec_body(tokens.deep_view(), pos as nat),
        pos <= res.1 <= tokens@.len(),
        match res.0 {
            Some(e) => e.deep_view().spans_within(stream_end(tokens.deep_view())),
            None => true,
        },
{
    match expr_seq_parser(tokens, pos) {
        Ok((body, p)) => (Some(body), p),
        Err(_) => (None, pos),
    }
}

pub fn fn_parser(tokens: &Vec<(Token, Span)>, pos: usize) -> (res: Parsed<UntypedDefinition>)
    requires
        well_formed(tokens.deep_view()),
    ensures
        agrees(res, spec_fn(tokens.deep_view(), pos as nat)),
        advances(res, pos, tokens@.len()),
        match res {
            Ok((d, _)) => d.deep_view().spans_within(stream_end(tokens.deep_view())),
            Err(_) => true,
        },
{
    let public = at_kind(tokens, pos, TokenKind::Pub);
    let p0 = if public {
        pos + 1
    } else {
        pos
    };
    if !at_kind(tokens, p0, TokenKind::Fn) {
        return Err(p0);
    }
    let name = match take_text(tokens, p0 + 1, TokenKind::Name) {
        Some(name) => name,
        None => { return Err(p0 + 1); },
    };
    let (arguments, p1) = match params(tokens, p0 + 2, true) {
        Ok(r) => r,
        Err(e) => { return Err(e); },
    };
    let args_span = span_between(tokens, p0 + 2, p1);
    let (return_annotation, p2) = opt_annotation(tokens, p1, TokenKind::RArrow);
    if !at_kind(tokens, p2, TokenKind::LeftBrace) {
        return Err(p2);
    }
    let (body, p3) = body(tokens, p2 + 1);
    if !at_kind(tokens, p3, TokenKind::RightBrace) {
        return Err(p3);
    }
    let span = span_between(tokens, pos, p3 + 1);
    let end = match &return_annotation {
        Some(a) => a.location().end,
        None => args_span.end,
    };
    proof {
        let t = tokens.deep_view();
        in_order(t, pos as int, p3 as int);
        in_order(t, pos as int, p1 - 1);
        in_order(t, pos as int, p2 - 1);
        in_order(t, p2 - 1, p3 as int);
    }
    Ok(
        (
            UntypedDefinition::Fn(
                Function {
                    arguments,
                    body: match body {
                        Some(b) => b,
                        None => UntypedExpr::todo(TodoKind::EmptyFunction, span, None),
                    },
                    doc: None,
                    location: Span { start: span.start, end },
                    name,
                    public,
                    return_annotation,
                    return_type: (),
                    end_position: span.end - 1,
                },
            ),
            p3 + 1,
        ),
    )
}

/// A definition of a module.
pub fn definition(tokens: &Vec<(Token, Span)>, pos: usize) -> (res: Parsed<UntypedDefinition>)
    requires
        well_formed(tokens.deep_view()),
    ensures
        agrees(res, spec_definition(tokens.deep_view(), pos as nat)),
        advances(res, pos, tokens@.len()),
        match res {
            Ok((d, _)) => d.deep_view().spans_within(stream_end(tokens.deep_view())),
            Err(_) => true,
        },
{
    let e1 = match import_parser(tokens, pos) {
        Ok(r) => { return Ok(r); },
        Err(e) => e,
    };
    let e2 = match data_parser(tokens, pos) {
        Ok(r) => { return Ok(r); },
        Err(e) => e,
    };
    let e3 = match type_alias_parser(tokens, pos) {
        Ok(r) => { return Ok(r); },
        Err(e) => e,
    };
    let e4 = match fn_parser(tokens, pos) {
        Ok(r) => { return Ok(r); },
        Err(e) => e,
    };
    Err(later(later(e1, e2), later(e3, e4)))
}

/// The definitions of a module, which must cover the whole token stream.
pub fn module_parser(tokens: &Vec<(Token, Span)>) -> (res: Result<Vec<UntypedDefinition>, usize>)
    requires
        well_formed(tokens.deep_view()),
    ensures
        match res {
            Ok(definitions) => spec_module(tokens.deep_view()) == Ok::<Seq<DefinitionView>, nat>(
                definitions.deep_view(),
            ) && definitions_within(definitions.deep_view(), stream_end(tokens.deep_view())),
            Err(e) => spec_module(tokens.deep_view()) == Err::<Seq<DefinitionView>, nat>(e as nat)
                && e <= tokens@.len(),
        },
{
    let mut items: Vec<UntypedDefinition> = no_items();
    let mut p: usize = 0;
    loop
        invariant
            well_formed(tokens.deep_view()),
            p <= tokens@.len(),
            spec_definitions(tokens.deep_view(), 0, Seq::empty()) == spec_definitions(
                tokens.deep_view(),
                p as nat,
                items.deep_view(),
            ),
            definitions_within(items.deep_view(), stream_end(tokens.deep_view())),
        decreases tokens@.len() - p,
    {
        match definition(tokens, p) {
            Ok((item, p2)) => {
                push_item(&mut items, item);
                p = p2;
            },
            Err(e) => {
                if p >= tokens.len() {
                    return Ok(items);
                } else {
                    return Err(e);
                }
            },
        }
    }
}

} // verus!
