use aiken::uplc::ast::{Constant, Name, Term, Unique};
use aiken::uplc::builtins::DefaultFunction;
use aiken::uplc::parser::{program, term, ParseError, ParserState};

#[test]
fn parse_program() {
    let code = r#"
        (program 11.22.33
            (con integer 11)
        )
        "#;
    let result = program(code);

    assert!(result.is_ok());

    let program = result.unwrap();

    assert_eq!(program.version, (11, 22, 33));
}

#[test]
fn parse_program_term() {
    let program = program("(program 11.22.33 (con integer 11))").unwrap();
    assert_eq!(program.term, Term::Constant(Constant::Integer(11)));
}

#[test]
fn intern_gives_known_names_their_unique() {
    let mut state = ParserState::new();
    let x = state.intern("x");
    let y = state.intern("y");
    let again = state.intern("x");
    assert_eq!(x, Unique::new(0));
    assert_eq!(y, Unique::new(1));
    assert_eq!(again, x);
    assert_eq!(state.current, Unique::new(2));
}

#[test]
fn parse_lambda_shares_uniques() {
    let parsed = term("(lam x [x (lam y x)])").unwrap();
    match parsed {
        Term::Lambda { parameter_name, body } => {
            assert_eq!(parameter_name.text, "x");
            assert_eq!(parameter_name.unique, Unique::new(0));
            match *body {
                Term::Apply { function, argument } => {
                    match *function {
                        Term::Var(name) => {
                            assert_eq!(name.text, "x");
                            assert_eq!(name.unique, Unique::new(0));
                        }
                        other => panic!("not a variable: {:?}", other),
                    }
                    match *argument {
                        Term::Lambda { parameter_name, body } => {
                            assert_eq!(parameter_name.unique, Unique::new(1));
                            assert_eq!(
                                *body,
                                Term::Var(Name { text: "x".to_string(), unique: Unique::new(0) })
                            );
                        }
                        other => panic!("not a lambda: {:?}", other),
                    }
                }
                other => panic!("not an application: {:?}", other),
            }
        }
        other => panic!("not a lambda: {:?}", other),
    }
}

#[test]
fn names_are_equal_by_unique() {
    let a = Name { text: "a".to_string(), unique: Unique::new(3) };
    let b = Name { text: "b".to_string(), unique: Unique::new(3) };
    let c = Name { text: "a".to_string(), unique: Unique::new(4) };
    assert!(a == b);
    assert!(a != c);
}

#[test]
fn parse_constants() {
    assert_eq!(term("(con unit ())").unwrap(), Term::Constant(Constant::Unit));
    assert_eq!(term("(con bool True)").unwrap(), Term::Constant(Constant::Bool(true)));
    assert_eq!(term("(con bool False)").unwrap(), Term::Constant(Constant::Bool(false)));
    assert_eq!(
        term("(con string \"abc9\")").unwrap(),
        Term::Constant(Constant::String("abc9".to_string()))
    );
    assert_eq!(
        term("(con bytestring #00ffAb10)").unwrap(),
        Term::Constant(Constant::ByteString(vec![0x00, 0xff, 0xab, 0x10]))
    );
    assert_eq!(term("(con integer 0042)").unwrap(), Term::Constant(Constant::Integer(42)));
}

#[test]
fn parse_bytestring_with_odd_digits_fails() {
    assert_eq!(term("(con bytestring #abc)"), Err(ParseError::UnexpectedParse));
}

#[test]
fn parse_integer_too_large_fails() {
    assert_eq!(
        term("(con integer 99999999999999999999999999999999)"),
        Err(ParseError::UnexpectedParse)
    );
    assert_eq!(
        term("(con integer 9223372036854775807)").unwrap(),
        Term::Constant(Constant::Integer(isize::MAX))
    );
}

#[test]
fn parse_forms() {
    assert_eq!(term("(error )").unwrap(), Term::<Name>::Error);
    assert_eq!(term("(error)"), Err(ParseError::UnexpectedParse));
    assert_eq!(
        term("(builtin addInteger)").unwrap(),
        Term::<Name>::Builtin(DefaultFunction::AddInteger)
    );
    assert_eq!(term("(builtin noSuchThing)"), Err(ParseError::UnexpectedParse));
    assert_eq!(
        term("(force (delay (con unit ())))").unwrap(),
        Term::<Name>::Force(Box::new(Term::Delay(Box::new(Term::Constant(Constant::Unit)))))
    );
    assert_eq!(term("(delayx)"), Err(ParseError::UnexpectedParse));
}

#[test]
fn parse_application_with_spaces() {
    let parsed = term("[ (lam x x) (con integer 42) ]").unwrap();
    match parsed {
        Term::Apply { function, argument } => {
            assert!(matches!(*function, Term::Lambda { .. }));
            assert_eq!(*argument, Term::Constant(Constant::Integer(42)));
        }
        other => panic!("not an application: {:?}", other),
    }
    assert_eq!(term("[(lam x x)(con integer 42)]"), Err(ParseError::UnexpectedParse));
}

#[test]
fn parse_program_needs_version_and_parentheses() {
    assert!(program("program 1.0.0 (error )").is_err());
    assert!(program("(program 1.0 (error ))").is_err());
    assert!(program("(program 1.0.0(error ))").is_err());
    assert!(program("(program 1.0.0 (error )").is_err());
    assert!(program("  (program 1.0.0 (error ) )  trailing").is_ok());
}
