use aiken::lang::ast::{ArgName, ModuleKind, NonEmpty, Span};
use aiken::lang::expr::UntypedExpr;
use aiken::lang::parser::expression::expr_parser;
use aiken::lang::parser::extra::{split, ModuleExtra};
use aiken::lang::parser::lexer::{lexer, token_of};
use aiken::lang::parser::module;
use aiken::lang::parser::token::{Token, TokenKind};
use aiken::text::{collect, decode, has_word, push_decimal, same_text, utf8_width};
use aiken::uplc::ast::{Constant, Name, NamedDeBruijn, Program, Term, Unique};
use aiken::uplc::builtins::DefaultFunction;
use aiken::uplc::parser::{program, term, ParseError};

fn lex(src: &str) -> Vec<(Token, Span)> {
    let (chars, offsets) = decode(src);
    lexer(&chars, &offsets).unwrap()
}

fn closed(src: &str) -> Program<NamedDeBruijn> {
    program(src).unwrap().to_named_debruijn().unwrap()
}

#[test]
fn trivia_does_not_overlap_tokens() {
    let src = "//// top\n\n/// doc\nfn a() { // inside\n  1 // after\n}\n\n// end";
    let tokens = lex(src);
    let (code, extra) = split(&tokens);
    let trivia: Vec<Span> = extra
        .comments
        .iter()
        .chain(&extra.doc_comments)
        .chain(&extra.module_comments)
        .copied()
        .collect();
    assert_eq!(extra.comments.len(), 3);
    assert_eq!(extra.doc_comments.len(), 1);
    assert_eq!(extra.module_comments.len(), 1);
    assert_eq!(extra.empty_lines.len(), 2);
    for span in &trivia {
        for (_, token) in &code {
            assert!(span.end <= token.start || token.end <= span.start);
        }
    }
    for line in &extra.empty_lines {
        for (_, token) in &code {
            assert!(!(token.start <= *line && *line < token.end));
        }
    }
    for window in extra.comments.windows(2) {
        assert!(window[0].start < window[1].start);
    }
    assert_eq!(code.len() + trivia.len() + extra.empty_lines.len(), tokens.len());
    assert!(code.iter().all(|(token, _)| !token.kind().is_trivia()));
}

#[test]
fn every_span_of_a_module_slices_the_source() {
    let src = "pub fn f(a: List(Int), b) -> Int {\n  let [x, ..] = a\n  when x is {\n    1 | 2 -> g(_, b)\n    _ -> if x > 3 { x |> h } else { todo }\n  }\n}\n";
    let (parsed, _) = module(src, ModuleKind::Lib).unwrap();
    let text = format!("{:?}", parsed);
    // every span that the tree prints is `Span { start: a, end: b }`
    let mut seen = 0;
    for part in text.split("Span { start: ").skip(1) {
        let (start, rest) = part.split_once(", end: ").unwrap();
        let (end, _) = rest.split_once(" }").unwrap();
        let start: usize = start.parse().unwrap();
        let end: usize = end.parse().unwrap();
        assert!(start <= end && end <= src.len());
        assert!(src.is_char_boundary(start) && src.is_char_boundary(end));
        seen += 1;
    }
    assert!(seen > 20);
}

#[test]
fn application_agrees_with_substitution() {
    let (applied, _, _) =
        closed("(program 1.0.0 [ (lam x [ (builtin addInteger) x ]) (con integer 1) ])").eval();
    let (substituted, _, _) =
        closed("(program 1.0.0 [ (builtin addInteger) (con integer 1) ])").eval();
    assert_eq!(applied, substituted);
    let (applied, applied_cost, _) = closed(
        "(program 1.0.0 [ (lam x [ [ (builtin addInteger) x ] x ]) (con integer 4) ])",
    )
    .eval();
    let (substituted, cost, _) = closed(
        "(program 1.0.0 [ [ (builtin addInteger) (con integer 4) ] (con integer 4) ])",
    )
    .eval();
    assert_eq!(applied, Ok(Term::Constant(Constant::Integer(8))));
    assert_eq!(applied, substituted);
    // the application, the function and two variables in the place of two constants
    assert_eq!(applied_cost.cpu - cost.cpu, 3 * 23000);
}

#[test]
fn uniques_stand_one_to_one_for_texts() {
    fn names(term: &Term<Name>, into: &mut Vec<(String, Unique)>) {
        match term {
            Term::Var(name) => into.push((name.text.clone(), name.unique)),
            Term::Lambda { parameter_name, body } => {
                into.push((parameter_name.text.clone(), parameter_name.unique));
                names(body, into);
            }
            Term::Apply { function, argument } => {
                names(function, into);
                names(argument, into);
            }
            Term::Delay(body) | Term::Force(body) => names(body, into),
            _ => {}
        }
    }
    let parsed = term("(lam a [ (lam b [ a (lam a [ a b ]) ]) (delay [ c a ]) ])").unwrap();
    let mut found = Vec::new();
    names(&parsed, &mut found);
    assert_eq!(found.len(), 8);
    for (text, unique) in &found {
        for (other_text, other_unique) in &found {
            assert_eq!(text == other_text, unique == other_unique);
        }
    }
}

#[test]
fn names_and_spaces_are_those_of_unicode() {
    let parsed = term("(lam\u{2003}\u{e9}1\u{a0}\u{e9}1)").unwrap();
    match parsed {
        Term::Lambda { parameter_name, body } => {
            assert_eq!(parameter_name.text, "\u{e9}1");
            assert_eq!(*body, Term::Var(Name { text: "\u{e9}1".to_string(), unique: Unique::new(0) }));
        }
        other => panic!("not a lambda: {:?}", other),
    }
    assert_eq!(term("(lam x_y x_y)"), Err(ParseError::UnexpectedParse));
    assert_eq!(term("(lam-x x)"), Err(ParseError::UnexpectedParse));
    assert!(term("\n\t (error\u{3000})").is_ok());
}

#[test]
fn holes_are_numbered_in_decimal() {
    let tokens = lex("f(a, a, a, a, a, a, a, a, a, a, _, a, _)");
    let (parsed, _) = expr_parser(&tokens, 0).unwrap();
    match parsed {
        UntypedExpr::Fn { is_capture: true, arguments, .. } => {
            assert_eq!(
                arguments[0].arg_name,
                ArgName::Named { name: "_capture__10".to_string(), location: Span::empty() }
            );
            assert_eq!(
                arguments[1].arg_name,
                ArgName::Named { name: "_capture__12".to_string(), location: Span::empty() }
            );
        }
        other => panic!("not a capture: {:?}", other),
    }
    let mut text = String::from("n");
    push_decimal(&mut text, 0);
    push_decimal(&mut text, 9);
    push_decimal(&mut text, 120045);
    assert_eq!(text, "n09120045");
}

#[test]
fn texts_are_read_as_characters_with_byte_offsets() {
    let (chars, offsets) = decode("a\u{e9}\u{20ac}\u{1f600}b");
    assert_eq!(chars, vec!['a', '\u{e9}', '\u{20ac}', '\u{1f600}', 'b']);
    assert_eq!(offsets, vec![0, 1, 3, 6, 10, 11]);
    assert_eq!(*offsets.last().unwrap(), "a\u{e9}\u{20ac}\u{1f600}b".len());
    for c in ['a', '\u{7f}', '\u{80}', '\u{7ff}', '\u{800}', '\u{ffff}', '\u{10000}', '\u{10ffff}'] {
        assert_eq!(utf8_width(c), c.len_utf8());
    }
    assert_eq!(collect(&chars, 1, 3), "\u{e9}\u{20ac}");
    assert!(has_word(&chars, 4, "b"));
    assert!(!has_word(&chars, 4, "bc"));
    assert!(!has_word(&chars, 9, "b"));
    assert!(same_text(&chars, 0, 1, "a"));
    assert!(!same_text(&chars, 0, 2, "a"));
}

#[test]
fn lexer_reads_escapes_and_empty_lines() {
    let tokens = lex("\"a\\\"b\\\\c\\t\\/\"\n\n\n\nx\n \ny");
    assert_eq!(
        tokens,
        vec![
            (Token::String { value: "a\"b\\c\t/".to_string() }, Span { start: 0, end: 13 }),
            (Token::EmptyLine, Span { start: 13, end: 15 }),
            (Token::EmptyLine, Span { start: 15, end: 17 }),
            (Token::Name { name: "x".to_string() }, Span { start: 17, end: 18 }),
            (Token::Name { name: "y".to_string() }, Span { start: 21, end: 22 }),
        ]
    );
    let (chars, offsets) = decode("\"bad \\q\"");
    assert_eq!(lexer(&chars, &offsets), Err(0));
}

#[test]
fn tokens_know_their_kind_and_text() {
    let name = token_of(TokenKind::Name, "abc".to_string());
    assert_eq!(name, Token::Name { name: "abc".to_string() });
    assert_eq!(name.kind(), TokenKind::Name);
    assert_eq!(name.text(), "abc");
    let comma = token_of(TokenKind::Comma, "ignored".to_string());
    assert_eq!(comma, Token::Comma);
    assert_eq!(comma.text(), "");
    assert!(TokenKind::Comment.is_trivia());
    assert!(TokenKind::EmptyLine.is_trivia());
    assert!(!TokenKind::Slash.is_trivia());
}

#[test]
fn spans_and_lists() {
    let a = Span::new(3, 5);
    let b = Span { start: 4, end: 9 };
    assert_eq!(a.union(b), Span { start: 3, end: 9 });
    assert_eq!(b.union(a), Span { start: 3, end: 9 });
    assert_eq!(Span::empty(), Span { start: 0, end: 0 });
    let mut list = NonEmpty::new(1);
    assert_eq!(*list.last(), 1);
    assert_eq!(list.len(), 1);
    list.push(2);
    list.push(3);
    assert_eq!(*list.last(), 3);
    assert_eq!(list.len(), 3);
    assert_eq!(list.first, 1);
    assert_eq!(ModuleExtra::new(), ModuleExtra::default());
}

#[test]
fn builtins_have_names_arities_and_forces() {
    let chars: Vec<char> = "ifThenElse".chars().collect();
    assert_eq!(DefaultFunction::from_chars(&chars, 0, chars.len()), Some(DefaultFunction::IfThenElse));
    assert_eq!(DefaultFunction::from_chars(&chars, 0, 2), None);
    assert_eq!(DefaultFunction::IfThenElse.arity(), 3);
    assert_eq!(DefaultFunction::IfThenElse.force_count(), 1);
    assert_eq!(DefaultFunction::AddInteger.arity(), 2);
    assert_eq!(DefaultFunction::AddInteger.force_count(), 0);
    assert_eq!(DefaultFunction::FstPair.force_count(), 2);
    assert_eq!(DefaultFunction::ChooseData.arity(), 6);
    let mut seen = Vec::new();
    for i in 0..28 {
        let fun = DefaultFunction::at(i);
        let name: Vec<char> = fun.name().chars().collect();
        assert_eq!(DefaultFunction::from_chars(&name, 0, name.len()), Some(fun));
        assert!(!seen.contains(&fun));
        seen.push(fun);
    }
}
