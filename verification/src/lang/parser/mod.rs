//! From source text to the untyped syntax tree.
use vstd::prelude::*;
use vstd::string::StringSliceAdditionalSpecFns;
use crate::lang::parser::stream::stream_end;
use crate::lang::ast::{ModuleKind, Span};
use crate::lang::expr::{DefinitionView, UntypedModule};
use crate::lang::parser::definition::{definitions_within, module_parser, spec_module};
use crate::lang::parser::error::{ErrorKind, ParseError};
use crate::lang::parser::extra::{
    ModuleExtra,
    ModuleExtraView,
    extra_of,
    selected,
    selected_is_token,
    selected_well_formed,
    split,
};
use crate::lang::parser::lexer::{byte_span, lexer, tokens_of};
use crate::text::decode;

pub mod annotation;
pub mod argument;
pub mod definition;
pub mod error;
pub mod expression;
pub mod extra;
pub mod lexer;
pub mod pattern;
pub mod stream;
pub mod token;

verus! {

/// What the text `chars` parses to: the definitions of the module and the
/// places of its comments and empty lines; or the failure of the lexer, at
/// the character where no token starts; or that of the grammar, at the
/// token where no definition can go on, or at the end of the text.
pub open spec fn parsed(chars: Seq<char>) -> Result<(Seq<DefinitionView>, ModuleExtraView), ParseError> {
    match tokens_of(chars) {
        Err(at) => Err(
            ParseError { kind: ErrorKind::UnexpectedCharacter, span: byte_span(chars, at, at + 1) },
        ),
        Ok(tokens) => {
            let code = selected(tokens, false);
            match spec_module(code) {
                Ok(definitions) => Ok((definitions, extra_of(tokens))),
                Err(at) => Err(
                    if at < code.len() {
                        ParseError { kind: ErrorKind::UnexpectedToken, span: code[at as int].1 }
                    } else {
                        ParseError {
                            kind: ErrorKind::UnexpectedEnd,
                            span: byte_span(chars, chars.len(), chars.len()),
                        }
                    },
                ),
            }
        },
    }
}

/// The number of bytes of the text up to the end of its last token that
/// is no comment and no empty line.
pub open spec fn covered(chars: Seq<char>) -> nat {
    match tokens_of(chars) {
        Ok(tokens) => stream_end(selected(tokens, false)),
        Err(_) => 0,
    }
}

/// Parses the source of a module of the kind `kind`. The module has no
/// name and no documentation yet.
pub fn module(src: &str, kind: ModuleKind) -> (res: Result<
    (UntypedModule, ModuleExtra),
    Vec<ParseError>,
>)
    ensures
        match res {
            Ok((module, extra)) => parsed(src@) == Ok::<
                (Seq<DefinitionView>, ModuleExtraView),
                ParseError,
            >((module.definitions.deep_view(), extra.deep_view())) && module.kind == kind
                && module.name@.len() == 0 && module.docs@.len() == 0 && definitions_within(
                module.definitions.deep_view(),
                covered(src@),
            ) && covered(src@) <= src.spec_bytes().len(),
            Err(errors) => errors@.len() == 1 && parsed(src@) == Err::<
                (Seq<DefinitionView>, ModuleExtraView),
                ParseError,
            >(errors@[0]),
        },
{
    let (chars, offsets) = decode(src);
    let count = chars.len();
    let tokens = match lexer(&chars, &offsets) {
        Ok(tokens) => tokens,
        Err(at) => {
            let mut errors: Vec<ParseError> = Vec::new();
            errors.push(
                ParseError {
                    kind: ErrorKind::UnexpectedCharacter,
                    span: Span { start: offsets[at], end: offsets[at + 1] },
                },
            );
            return Err(errors);
        },
    };
    let (code, extra) = split(&tokens);
    proof {
        selected_well_formed(tokens.deep_view(), false);
        let all = tokens.deep_view();
        let seen = selected(all, false);
        if seen.len() > 0 {
            let i = selected_is_token(all, false, seen.len() - 1);
            assert(all[i].1 == tokens@[i].1);
        }
    }
    match module_parser(&code) {
        Ok(definitions) => Ok(
            (
                UntypedModule {
                    name: String::new(),
                    docs: Vec::new(),
                    type_info: (),
                    definitions,
                    kind,
                },
                extra,
            ),
        ),
        Err(at) => {
            let mut errors: Vec<ParseError> = Vec::new();
            if at < code.len() {
                errors.push(ParseError { kind: ErrorKind::UnexpectedToken, span: code[at].1 });
            } else {
                let end = offsets[count];
                errors.push(
                    ParseError { kind: ErrorKind::UnexpectedEnd, span: Span { start: end, end } },
                );
            }
            Err(errors)
        },
    }
}

} // verus!
