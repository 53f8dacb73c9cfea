use aiken::lang::ast::{
    Annotation, ArgName, ModuleKind, Pattern, RecordConstructor, Span,
};
use aiken::lang::expr::{
    AssignmentKind, BinOp, TodoKind, UntypedDefinition, UntypedExpr,
};
use aiken::lang::parser::annotation::type_parser;
use aiken::lang::parser::argument::{anon_fn_param_parser, fn_param_parser};
use aiken::lang::parser::definition::{
    data_parser, fn_parser, import_parser, labeled_constructor_type_args, pub_parser,
    type_alias_parser, type_name_with_args,
};
use aiken::lang::parser::error::{ErrorKind, ParseError};
use aiken::lang::parser::expression::{expr_parser, expr_seq_parser};
use aiken::lang::parser::lexer::lexer;
use aiken::text::decode;
use aiken::lang::parser::module;
use aiken::lang::parser::pattern::pattern_parser;
use aiken::lang::parser::token::Token;

fn tokens_of(src: &str) -> Vec<(Token, Span)> {
    let (chars, offsets) = decode(src);
    lexer(&chars, &offsets).unwrap()
}

fn expr_of(src: &str) -> UntypedExpr {
    let tokens = tokens_of(src);
    let (expr, end) = expr_parser(&tokens, 0).unwrap();
    assert_eq!(end, tokens.len());
    expr
}

fn seq_of(src: &str) -> UntypedExpr {
    let tokens = tokens_of(src);
    let (expr, end) = expr_seq_parser(&tokens, 0).unwrap();
    assert_eq!(end, tokens.len());
    expr
}

fn definitions_of(src: &str) -> Vec<UntypedDefinition> {
    module(src, ModuleKind::Lib).unwrap().0.definitions
}

fn var(name: &str, start: usize, end: usize) -> UntypedExpr {
    UntypedExpr::Var { location: Span { start, end }, name: name.to_string() }
}

fn int_lit(value: &str, start: usize, end: usize) -> UntypedExpr {
    UntypedExpr::Int { location: Span { start, end }, value: value.to_string() }
}

#[test]
fn lexes_tokens_with_byte_spans() {
    let tokens = tokens_of("let x1 = \"h\\n\" |> f // c");
    assert_eq!(
        tokens,
        vec![
            (Token::Let, Span { start: 0, end: 3 }),
            (Token::Name { name: "x1".to_string() }, Span { start: 4, end: 6 }),
            (Token::Equal, Span { start: 7, end: 8 }),
            (Token::String { value: "h\n".to_string() }, Span { start: 9, end: 14 }),
            (Token::Pipe, Span { start: 15, end: 17 }),
            (Token::Name { name: "f".to_string() }, Span { start: 18, end: 19 }),
            (Token::Comment, Span { start: 20, end: 24 }),
        ]
    );
}

#[test]
fn lexes_names_by_their_first_character() {
    assert_eq!(
        tokens_of("abc Abc _abc _ when whenever 12"),
        vec![
            (Token::Name { name: "abc".to_string() }, Span { start: 0, end: 3 }),
            (Token::UpName { name: "Abc".to_string() }, Span { start: 4, end: 7 }),
            (Token::DiscardName { name: "_abc".to_string() }, Span { start: 8, end: 12 }),
            (Token::DiscardName { name: "_".to_string() }, Span { start: 13, end: 14 }),
            (Token::When, Span { start: 15, end: 19 }),
            (Token::Name { name: "whenever".to_string() }, Span { start: 20, end: 28 }),
            (Token::Int { value: "12".to_string() }, Span { start: 29, end: 31 }),
        ]
    );
}

#[test]
fn lexes_punctuation_longest_first() {
    let kinds: Vec<Token> = tokens_of("== = .. . != ! <= < >= > -> - |> || | && + * / % , : ( ) [ ] { }")
        .into_iter()
        .map(|(t, _)| t)
        .collect();
    assert_eq!(
        kinds,
        vec![
            Token::EqualEqual,
            Token::Equal,
            Token::DotDot,
            Token::Dot,
            Token::NotEqual,
            Token::Bang,
            Token::LessEqual,
            Token::Less,
            Token::GreaterEqual,
            Token::Greater,
            Token::RArrow,
            Token::Minus,
            Token::Pipe,
            Token::VbarVbar,
            Token::Vbar,
            Token::AmperAmper,
            Token::Plus,
            Token::Star,
            Token::Slash,
            Token::Percent,
            Token::Comma,
            Token::Colon,
            Token::LeftParen,
            Token::RightParen,
            Token::LeftSquare,
            Token::RightSquare,
            Token::LeftBrace,
            Token::RightBrace,
        ]
    );
}

#[test]
fn lexer_counts_bytes_not_characters() {
    let tokens = tokens_of("\"é\" x");
    assert_eq!(
        tokens,
        vec![
            (Token::String { value: "é".to_string() }, Span { start: 0, end: 4 }),
            (Token::Name { name: "x".to_string() }, Span { start: 5, end: 6 }),
        ]
    );
}

#[test]
fn lexer_fails_at_the_unexpected_character() {
    let (chars, offsets) = decode("a é b");
    assert_eq!(lexer(&chars, &offsets), Err(2));
    let (chars, offsets) = decode("a & b");
    assert_eq!(lexer(&chars, &offsets), Err(2));
    let (chars, offsets) = decode("x \"open");
    assert_eq!(lexer(&chars, &offsets), Err(2));
    assert_eq!(
        module("fn a() { § }", ModuleKind::Lib),
        Err(vec![ParseError {
            kind: ErrorKind::UnexpectedCharacter,
            span: Span { start: 9, end: 11 },
        }])
    );
}

#[test]
fn module_collects_trivia() {
    let src = "//// module\n/// doc\nfn a() {\n  // note\n  1\n}\n\nfn b() { 2 }";
    let (parsed, extra) = module(src, ModuleKind::Script).unwrap();
    assert_eq!(parsed.kind, ModuleKind::Script);
    assert_eq!(parsed.name, "");
    assert!(parsed.docs.is_empty());
    assert_eq!(parsed.definitions.len(), 2);
    assert_eq!(extra.module_comments, vec![Span { start: 0, end: 11 }]);
    assert_eq!(extra.doc_comments, vec![Span { start: 12, end: 19 }]);
    assert_eq!(extra.comments, vec![Span { start: 31, end: 38 }]);
    assert_eq!(extra.empty_lines, vec![44]);
    for comment in extra.comments.iter().chain(&extra.doc_comments).chain(&extra.module_comments) {
        assert!(src[comment.start..comment.end].starts_with("//"));
    }
}

#[test]
fn parses_public_identity_function() {
    let definitions = definitions_of("pub fn id(x) { x }");
    assert_eq!(definitions.len(), 1);
    match &definitions[0] {
        UntypedDefinition::Fn(function) => {
            assert!(function.public);
            assert_eq!(function.name, "id");
            assert_eq!(function.arguments.len(), 1);
            assert_eq!(
                function.arguments[0].arg_name,
                ArgName::Named { name: "x".to_string(), location: Span { start: 10, end: 11 } }
            );
            assert_eq!(function.arguments[0].annotation, None);
            assert_eq!(function.body, var("x", 15, 16));
            assert_eq!(function.return_annotation, None);
            assert_eq!(function.location, Span { start: 0, end: 12 });
            assert_eq!(function.end_position, 17);
        }
        other => panic!("not a function: {:?}", other),
    }
}

#[test]
fn parses_function_without_body_as_todo() {
    let definitions = definitions_of("fn later(a: Int, b named) -> Bool {}");
    match &definitions[0] {
        UntypedDefinition::Fn(function) => {
            assert!(!function.public);
            assert_eq!(
                function.body,
                UntypedExpr::Todo {
                    kind: TodoKind::EmptyFunction,
                    location: Span { start: 0, end: 36 },
                    label: None,
                }
            );
            assert_eq!(
                function.arguments[1].arg_name,
                ArgName::NamedLabeled {
                    name: "named".to_string(),
                    label: "b".to_string(),
                    location: Span { start: 17, end: 24 },
                }
            );
            assert_eq!(
                function.return_annotation,
                Some(Annotation::Constructor {
                    location: Span { start: 29, end: 33 },
                    module: None,
                    name: "Bool".to_string(),
                    arguments: vec![],
                })
            );
            assert_eq!(function.location, Span { start: 0, end: 33 });
        }
        other => panic!("not a function: {:?}", other),
    }
}

#[test]
fn parses_capture_of_a_hole() {
    let parsed = expr_of("f(1, _, 3)");
    match parsed {
        UntypedExpr::Fn { is_capture, arguments, body, return_annotation, .. } => {
            assert!(is_capture);
            assert_eq!(return_annotation, None);
            assert_eq!(arguments.len(), 1);
            assert_eq!(
                arguments[0].arg_name,
                ArgName::Named { name: "_capture__1".to_string(), location: Span::empty() }
            );
            assert_eq!(arguments[0].location, Span::empty());
            match *body {
                UntypedExpr::Call { fun, arguments, .. } => {
                    assert_eq!(*fun, var("f", 0, 1));
                    assert_eq!(arguments.len(), 3);
                    assert_eq!(arguments[0].value, int_lit("1", 2, 3));
                    assert_eq!(arguments[1].value, var("_capture__1", 5, 6));
                    assert_eq!(arguments[2].value, int_lit("3", 8, 9));
                    assert!(arguments.iter().all(|a| a.label.is_none()));
                }
                other => panic!("not a call: {:?}", other),
            }
        }
        other => panic!("not a capture: {:?}", other),
    }
}

#[test]
fn parses_two_holes_in_their_order() {
    match expr_of("f(_, a, label: _,)") {
        UntypedExpr::Fn { is_capture: true, arguments, body, .. } => {
            assert_eq!(arguments.len(), 2);
            assert_eq!(
                arguments[0].arg_name,
                ArgName::Named { name: "_capture__0".to_string(), location: Span::empty() }
            );
            assert_eq!(
                arguments[1].arg_name,
                ArgName::Named { name: "_capture__2".to_string(), location: Span::empty() }
            );
            match *body {
                UntypedExpr::Call { arguments, .. } => {
                    assert_eq!(arguments[2].label, Some("label".to_string()));
                }
                other => panic!("not a call: {:?}", other),
            }
        }
        other => panic!("not a capture: {:?}", other),
    }
}

#[test]
fn parses_call_without_holes_as_call() {
    match expr_of("f(1, x: 2)") {
        UntypedExpr::Call { location, fun, arguments } => {
            assert_eq!(location, Span { start: 0, end: 10 });
            assert_eq!(*fun, var("f", 0, 1));
            assert_eq!(arguments[1].label, Some("x".to_string()));
            assert_eq!(arguments[1].location, Span { start: 5, end: 9 });
        }
        other => panic!("not a call: {:?}", other),
    }
}

fn constructors_of(src: &str) -> (String, Vec<RecordConstructor>) {
    match definitions_of(src).remove(0) {
        UntypedDefinition::DataType(data) => (data.name, data.constructors),
        other => panic!("not a data type: {:?}", other),
    }
}

#[test]
fn record_sugar_names_the_constructor_like_the_type() {
    let (long_name, long) = constructors_of("type Point { Point { x: Int, y: Int } }");
    let (short_name, short) = constructors_of("type Point { x: Int, y: Int }");
    assert_eq!(long_name, short_name);
    assert_eq!(long.len(), 1);
    assert_eq!(short.len(), 1);
    assert_eq!(long[0].name, "Point");
    assert_eq!(short[0].name, "Point");
    assert!(!long[0].sugar);
    assert!(short[0].sugar);
    assert_eq!(long[0].arguments.len(), 2);
    assert_eq!(short[0].arguments.len(), 2);
    for (a, b) in long[0].arguments.iter().zip(short[0].arguments.iter()) {
        assert_eq!(a.label, b.label);
        match (&a.annotation, &b.annotation) {
            (
                Annotation::Constructor { name: left, module: None, arguments: la, .. },
                Annotation::Constructor { name: right, module: None, arguments: ra, .. },
            ) => {
                assert_eq!(left, "Int");
                assert_eq!(left, right);
                assert!(la.is_empty() && ra.is_empty());
            }
            other => panic!("not constructors: {:?}", other),
        }
    }
    assert_eq!(long[0].arguments[0].label, Some("x".to_string()));
    assert_eq!(long[0].arguments[1].label, Some("y".to_string()));
}

#[test]
fn parses_data_type_with_parameters_and_visibility() {
    match definitions_of("pub opaque type Box(a, b,) { Full(a, List(b)) Empty }").remove(0) {
        UntypedDefinition::DataType(data) => {
            assert!(data.public);
            assert!(data.opaque);
            assert_eq!(data.parameters, vec!["a".to_string(), "b".to_string()]);
            assert_eq!(data.constructors.len(), 2);
            assert_eq!(data.constructors[0].name, "Full");
            assert_eq!(data.constructors[0].arguments.len(), 2);
            assert_eq!(data.constructors[0].arguments[0].label, None);
            assert_eq!(data.constructors[1].name, "Empty");
            assert!(data.constructors[1].arguments.is_empty());
        }
        other => panic!("not a data type: {:?}", other),
    }
}

#[test]
fn parses_type_alias_and_import() {
    let definitions =
        definitions_of("use std/list.{map, List as L,} as l\npub type Id(a) = fn(a) -> a");
    match &definitions[0] {
        UntypedDefinition::Use(import) => {
            assert_eq!(import.module, vec!["std".to_string(), "list".to_string()]);
            assert_eq!(import.as_name, Some("l".to_string()));
            assert_eq!(import.unqualified.len(), 2);
            assert_eq!(import.unqualified[0].name, "map");
            assert_eq!(import.unqualified[0].as_name, None);
            assert_eq!(import.unqualified[1].name, "List");
            assert_eq!(import.unqualified[1].as_name, Some("L".to_string()));
            assert_eq!(import.location, Span { start: 0, end: 35 });
        }
        other => panic!("not an import: {:?}", other),
    }
    match &definitions[1] {
        UntypedDefinition::TypeAlias(alias) => {
            assert!(alias.public);
            assert_eq!(alias.alias, "Id");
            assert_eq!(alias.parameters, vec!["a".to_string()]);
            assert!(matches!(alias.annotation, Annotation::Fn { .. }));
        }
        other => panic!("not an alias: {:?}", other),
    }
}

#[test]
fn product_binds_stronger_than_sum() {
    assert_eq!(
        expr_of("1 + 2 * 3"),
        UntypedExpr::BinOp {
            location: Span { start: 0, end: 9 },
            name: BinOp::AddInt,
            left: Box::new(int_lit("1", 0, 1)),
            right: Box::new(UntypedExpr::BinOp {
                location: Span { start: 4, end: 9 },
                name: BinOp::MultInt,
                left: Box::new(int_lit("2", 4, 5)),
                right: Box::new(int_lit("3", 8, 9)),
            }),
        }
    );
}

#[test]
fn operators_associate_to_the_left() {
    assert_eq!(
        expr_of("a - b - c"),
        UntypedExpr::BinOp {
            location: Span { start: 0, end: 9 },
            name: BinOp::SubInt,
            left: Box::new(UntypedExpr::BinOp {
                location: Span { start: 0, end: 5 },
                name: BinOp::SubInt,
                left: Box::new(var("a", 0, 1)),
                right: Box::new(var("b", 4, 5)),
            }),
            right: Box::new(var("c", 8, 9)),
        }
    );
}

#[test]
fn comparison_and_logic_levels() {
    match expr_of("a < b && !c || d >= e") {
        UntypedExpr::BinOp { name: BinOp::Or, left, right, .. } => {
            assert!(matches!(*right, UntypedExpr::BinOp { name: BinOp::GtEqInt, .. }));
            match *left {
                UntypedExpr::BinOp { name: BinOp::And, left, right, .. } => {
                    assert!(matches!(*left, UntypedExpr::BinOp { name: BinOp::LtInt, .. }));
                    assert_eq!(
                        *right,
                        UntypedExpr::Negate {
                            location: Span { start: 9, end: 11 },
                            value: Box::new(var("c", 10, 11)),
                        }
                    );
                }
                other => panic!("not a conjunction: {:?}", other),
            }
        }
        other => panic!("not a disjunction: {:?}", other),
    }
}

#[test]
fn pipeline_collects_its_stages() {
    match expr_of("a |> b |> c + 1") {
        UntypedExpr::PipeLine { expressions } => {
            assert_eq!(expressions.first, var("a", 0, 1));
            assert_eq!(expressions.rest.len(), 2);
            assert_eq!(expressions.rest[0], var("b", 5, 6));
            assert!(matches!(expressions.rest[1], UntypedExpr::BinOp { name: BinOp::AddInt, .. }));
            assert_eq!(expressions.len(), 3);
        }
        other => panic!("not a pipeline: {:?}", other),
    }
}

#[test]
fn sequence_is_flat_and_left_associative() {
    match seq_of("a b c") {
        UntypedExpr::Sequence { location, expressions } => {
            assert_eq!(location, Span { start: 0, end: 5 });
            assert_eq!(expressions, vec![var("a", 0, 1), var("b", 2, 3), var("c", 4, 5)]);
        }
        other => panic!("not a sequence: {:?}", other),
    }
    assert_eq!(
        var("a", 0, 1).append_in_sequence(var("b", 2, 3)).append_in_sequence(var("c", 4, 5)),
        seq_of("a b c")
    );
}

#[test]
fn try_takes_the_rest_as_continuation() {
    match seq_of("a try x = f() b c") {
        UntypedExpr::Sequence { expressions, .. } => {
            assert_eq!(expressions.len(), 2);
            match &expressions[1] {
                UntypedExpr::Try { pattern, then_, annotation, .. } => {
                    assert!(matches!(pattern, Pattern::Var { .. }));
                    assert_eq!(*annotation, None);
                    assert!(matches!(**then_, UntypedExpr::Sequence { .. }));
                }
                other => panic!("not a try: {:?}", other),
            }
        }
        other => panic!("not a sequence: {:?}", other),
    }
}

#[test]
fn assignments_keep_their_kind() {
    for (src, kind) in [
        ("let x: Int = 1", AssignmentKind::Let),
        ("assert Some(x) is y", AssignmentKind::Assert),
        ("check [a, ..] is y", AssignmentKind::Check),
    ] {
        match expr_of(src) {
            UntypedExpr::Assignment { kind: found, .. } => assert_eq!(found, kind),
            other => panic!("not an assignment: {:?}", other),
        }
    }
}

#[test]
fn list_pattern_tail_defaults_to_discard() {
    let tokens = tokens_of("[a, ..]");
    let (pattern, _) = pattern_parser(&tokens, 0).unwrap();
    assert_eq!(
        pattern,
        Pattern::List {
            location: Span { start: 0, end: 7 },
            elements: vec![Pattern::Var { location: Span { start: 1, end: 2 }, name: "a".to_string() }],
            tail: Some(Box::new(Pattern::Discard {
                name: "_".to_string(),
                location: Span { start: 6, end: 7 },
            })),
        }
    );
}

#[test]
fn constructor_patterns_are_records_or_tuples() {
    let tokens = tokens_of("m.Point { x, y: 1, .. } as p");
    let (pattern, end) = pattern_parser(&tokens, 0).unwrap();
    assert_eq!(end, tokens.len());
    match pattern {
        Pattern::Assign { name, pattern, .. } => {
            assert_eq!(name, "p");
            match *pattern {
                Pattern::Constructor { is_record, with_spread, module, name, arguments, .. } => {
                    assert!(is_record);
                    assert!(with_spread);
                    assert_eq!(module, Some("m".to_string()));
                    assert_eq!(name, "Point");
                    assert_eq!(arguments[0].label, Some("x".to_string()));
                    assert_eq!(arguments[1].label, Some("y".to_string()));
                }
                other => panic!("not a constructor: {:?}", other),
            }
        }
        other => panic!("not an assign: {:?}", other),
    }
    let tokens = tokens_of("Some(x)");
    match pattern_parser(&tokens, 0).unwrap().0 {
        Pattern::Constructor { is_record, with_spread, arguments, .. } => {
            assert!(!is_record);
            assert!(!with_spread);
            assert_eq!(arguments[0].label, None);
        }
        other => panic!("not a constructor: {:?}", other),
    }
}

#[test]
fn when_and_if_parse() {
    match expr_of("when a, b is { 1, x | 2, y -> x  _, _ -> 0 }") {
        UntypedExpr::When { subjects, clauses, .. } => {
            assert_eq!(subjects.len(), 2);
            assert_eq!(clauses.len(), 2);
            assert_eq!(clauses[0].pattern.len(), 2);
            assert_eq!(clauses[0].alternative_patterns.len(), 1);
            assert_eq!(clauses[0].guard, None);
            assert_eq!(clauses[1].alternative_patterns.len(), 0);
        }
        other => panic!("not a when: {:?}", other),
    }
    match expr_of("when is { }") {
        UntypedExpr::When { subjects, clauses, .. } => {
            assert!(subjects.is_empty());
            assert!(clauses.is_empty());
        }
        other => panic!("not a when: {:?}", other),
    }
    match expr_of("if a { 1 } else if b { 2 } else { 3 }") {
        UntypedExpr::If { branches, final_else, .. } => {
            assert_eq!(branches.len(), 2);
            assert_eq!(branches.first.location, Span { start: 3, end: 10 });
            assert_eq!(*final_else, int_lit("3", 34, 35));
        }
        other => panic!("not an if: {:?}", other),
    }
}

#[test]
fn chains_of_field_access_and_record_update() {
    match expr_of("a.b.C") {
        UntypedExpr::FieldAccess { label, container, location } => {
            assert_eq!(label, "C");
            assert_eq!(location, Span { start: 0, end: 5 });
            assert!(matches!(*container, UntypedExpr::FieldAccess { .. }));
        }
        other => panic!("not a field access: {:?}", other),
    }
    match expr_of("Point { ..p, x: 1, }") {
        UntypedExpr::RecordUpdate { constructor, spread, arguments, .. } => {
            assert_eq!(*constructor, var("Point", 0, 5));
            assert_eq!(*spread.base, var("p", 10, 11));
            assert_eq!(arguments.len(), 1);
            assert_eq!(arguments[0].label, "x");
        }
        other => panic!("not a record update: {:?}", other),
    }
}

#[test]
fn todo_and_lists_and_anonymous_functions() {
    assert_eq!(
        expr_of("todo(\"later\")"),
        UntypedExpr::Todo {
            kind: TodoKind::Keyword,
            location: Span { start: 0, end: 13 },
            label: Some("later".to_string()),
        }
    );
    match expr_of("[1, 2, ..rest]") {
        UntypedExpr::List { elements, tail, .. } => {
            assert_eq!(elements.len(), 2);
            assert_eq!(tail, Some(Box::new(var("rest", 9, 13))));
        }
        other => panic!("not a list: {:?}", other),
    }
    match expr_of("fn(a, _b: Int) -> Int { a }") {
        UntypedExpr::Fn { is_capture, arguments, return_annotation, .. } => {
            assert!(!is_capture);
            assert_eq!(arguments.len(), 2);
            assert!(matches!(arguments[1].arg_name, ArgName::Discard { .. }));
            assert!(return_annotation.is_some());
        }
        other => panic!("not a function: {:?}", other),
    }
}

#[test]
fn parse_error_points_at_the_offending_token() {
    assert_eq!(
        module("fn a( { }", ModuleKind::Lib),
        Err(vec![ParseError { kind: ErrorKind::UnexpectedToken, span: Span { start: 6, end: 7 } }])
    );
    assert_eq!(
        module("fn a() { 1 ", ModuleKind::Lib),
        Err(vec![ParseError { kind: ErrorKind::UnexpectedEnd, span: Span { start: 11, end: 11 } }])
    );
    assert_eq!(
        module("fn a() { 1 } 2", ModuleKind::Lib),
        Err(vec![ParseError { kind: ErrorKind::UnexpectedToken, span: Span { start: 13, end: 14 } }])
    );
}

#[test]
fn spans_slice_the_source() {
    let src = "pub fn area(w: Int, h: Int) -> Int { w * h }";
    match &definitions_of(src)[0] {
        UntypedDefinition::Fn(function) => {
            assert_eq!(&src[function.location.start..function.location.end], "pub fn area(w: Int, h: Int) -> Int");
            let body = function.body.location();
            assert_eq!(&src[body.start..body.end], "w * h");
            let first = function.arguments[0].location;
            assert_eq!(&src[first.start..first.end], "w: Int");
            assert_eq!(&src[function.end_position..function.end_position + 1], "}");
        }
        other => panic!("not a function: {:?}", other),
    }
}

#[test]
fn single_parsers_start_anywhere_in_the_stream() {
    let tokens = tokens_of("pub type Pair(a, b) { fst: a, snd: b }");
    assert_eq!(pub_parser(&tokens, 0), Ok(((), 1)));
    assert_eq!(pub_parser(&tokens, 1), Err(1));
    assert_eq!(
        type_name_with_args(&tokens, 1),
        Ok((("Pair".to_string(), Some(vec!["a".to_string(), "b".to_string()])), 8))
    );
    assert_eq!(type_name_with_args(&tokens, 0), Err(0));
    let (fields, end) = labeled_constructor_type_args(&tokens, 8).unwrap();
    assert_eq!(end, tokens.len());
    assert_eq!(fields.len(), 2);
    assert_eq!(fields[1].label, Some("snd".to_string()));
    assert_eq!(fields[1].location, Span { start: 30, end: 36 });
    assert_eq!(labeled_constructor_type_args(&tokens, 7), Err(7));
    assert!(data_parser(&tokens, 0).is_ok());
    assert_eq!(type_alias_parser(&tokens, 0), Err(8));
    assert_eq!(import_parser(&tokens, 0), Err(0));
    assert_eq!(fn_parser(&tokens, 0), Err(1));

    let tokens = tokens_of("m.Option(fn(_a, Int,) -> b)");
    let (annotation, end) = type_parser(&tokens, 0).unwrap();
    assert_eq!(end, tokens.len());
    match annotation {
        Annotation::Constructor { module, name, arguments, location } => {
            assert_eq!(module, Some("m".to_string()));
            assert_eq!(name, "Option");
            assert_eq!(location, Span { start: 0, end: 27 });
            match &arguments[0] {
                Annotation::Fn { arguments, ret, .. } => {
                    assert!(matches!(arguments[0], Annotation::Hole { .. }));
                    assert!(matches!(**ret, Annotation::Var { .. }));
                }
                other => panic!("not a function type: {:?}", other),
            }
        }
        other => panic!("not a constructor: {:?}", other),
    }
    assert_eq!(type_parser(&tokens, 1), Err(1));

    let tokens = tokens_of("label _unused: Int, _, a b, c");
    let (param, end) = fn_param_parser(&tokens, 0).unwrap();
    assert_eq!(end, 4);
    assert_eq!(
        param.arg_name,
        ArgName::LabeledDiscard {
            label: "label".to_string(),
            name: "_unused".to_string(),
            location: Span { start: 0, end: 13 },
        }
    );
    assert_eq!(param.location, Span { start: 0, end: 18 });
    assert!(matches!(fn_param_parser(&tokens, 5).unwrap().0.arg_name, ArgName::Discard { .. }));
    assert!(matches!(
        fn_param_parser(&tokens, 7).unwrap().0.arg_name,
        ArgName::NamedLabeled { .. }
    ));
    let (param, end) = anon_fn_param_parser(&tokens, 7).unwrap();
    assert_eq!(end, 8);
    assert_eq!(
        param.arg_name,
        ArgName::Named { name: "a".to_string(), location: Span { start: 23, end: 24 } }
    );
    assert_eq!(anon_fn_param_parser(&tokens, 4), Err(4));
    assert_eq!(anon_fn_param_parser(&tokens, 11), Err(11));
}
