use aiken::cmd::eval::{evaluate_program, run, Failure};
use aiken::uplc::ast::{Constant, DeBruijn, Name, NamedDeBruijn, Program, Term, Unique};
use aiken::uplc::builtins::DefaultFunction;
use aiken::uplc::debruijn;
use aiken::uplc::machine::cost_model::ExBudget;
use aiken::uplc::machine::error::{Error, Reason, Type};
use aiken::uplc::machine::run_term;
use aiken::uplc::parser::{program, term, ParseError};

fn closed(src: &str) -> Program<NamedDeBruijn> {
    program(src).unwrap().to_named_debruijn().unwrap()
}

fn eval(src: &str) -> (Result<Term<NamedDeBruijn>, Error>, ExBudget, Vec<String>) {
    closed(src).eval()
}

fn integer(i: isize) -> Term<NamedDeBruijn> {
    Term::Constant(Constant::Integer(i))
}

const STEP_CPU: i64 = 23000;
const STEP_MEM: i64 = 100;
const START: i64 = 100;

#[test]
fn eval_constant_program() {
    let parsed = program("(program 11.22.33 (con integer 11))").unwrap();
    assert_eq!(parsed.version, (11, 22, 33));
    let (result, cost, logs) = parsed.to_named_debruijn().unwrap().eval();
    assert_eq!(result, Ok(integer(11)));
    assert!(cost.cpu > 0 && cost.mem > 0);
    assert_eq!(cost, ExBudget { mem: START + STEP_MEM, cpu: START + STEP_CPU });
    assert!(logs.is_empty());
}

#[test]
fn eval_identity_application() {
    let (result, cost, _) = eval("(program 1.0.0 [ (lam x x) (con integer 42) ])");
    assert_eq!(result, Ok(integer(42)));
    assert_eq!(cost, ExBudget { mem: START + 4 * STEP_MEM, cpu: START + 4 * STEP_CPU });
}

#[test]
fn eval_force_delay() {
    let (result, cost, _) = eval("(program 1.0.0 (force (delay (con unit ()))))");
    assert_eq!(result, Ok(Term::Constant(Constant::Unit)));
    let (plain, plain_cost, _) = eval("(program 1.0.0 (con unit ()))");
    assert_eq!(plain, result);
    assert_eq!(cost.cpu - plain_cost.cpu, 2 * STEP_CPU);
    assert_eq!(cost.mem - plain_cost.mem, 2 * STEP_MEM);
}

#[test]
fn eval_error_term() {
    let (result, cost, logs) = eval("(program 1.0.0 (error ))");
    assert_eq!(result, Err(Error::UserError));
    assert!(cost.cpu >= STEP_CPU);
    assert_eq!(cost, ExBudget { mem: START + STEP_MEM, cpu: START + STEP_CPU });
    assert!(logs.is_empty());
}

#[test]
fn eval_is_deterministic() {
    let src = "(program 1.0.0 [ [ (builtin addInteger) (con integer 2) ] (con integer 3) ])";
    assert_eq!(eval(src), eval(src));
}

#[test]
fn eval_add_integer_charges_the_builtin() {
    let (result, cost, _) =
        eval("(program 1.0.0 [ [ (builtin addInteger) (con integer 2) ] (con integer 3) ])");
    assert_eq!(result, Ok(integer(5)));
    assert_eq!(
        cost,
        ExBudget {
            mem: START + 5 * STEP_MEM + 1 + 2,
            cpu: START + 5 * STEP_CPU + 205665 + 812 * 2,
        }
    );
    let whole = ExBudget::default();
    assert!(0 <= cost.cpu && cost.cpu <= whole.cpu);
    assert!(0 <= cost.mem && cost.mem <= whole.mem);
}

#[test]
fn eval_integer_functions() {
    for (src, expected) in [
        ("[ [ (builtin subtractInteger) (con integer 2) ] (con integer 3) ]", integer(-1)),
        ("[ [ (builtin multiplyInteger) (con integer 6) ] (con integer 7) ]", integer(42)),
        (
            "[ [ (builtin equalsInteger) (con integer 6) ] (con integer 7) ]",
            Term::Constant(Constant::Bool(false)),
        ),
        (
            "[ [ (builtin lessThanInteger) (con integer 6) ] (con integer 7) ]",
            Term::Constant(Constant::Bool(true)),
        ),
        (
            "[ [ (builtin lessThanEqualsInteger) (con integer 7) ] (con integer 7) ]",
            Term::Constant(Constant::Bool(true)),
        ),
    ] {
        let (result, _, _) = eval(&format!("(program 1.0.0 {})", src));
        assert_eq!(result, Ok(expected));
    }
}

#[test]
fn eval_overflow_is_a_builtin_failure() {
    let (result, _, _) = eval(
        "(program 1.0.0 [ [ (builtin addInteger) (con integer 9223372036854775807) ] (con integer 1) ])",
    );
    assert_eq!(result, Err(Error::BuiltinFailure(DefaultFunction::AddInteger, Reason::Overflow)));
}

#[test]
fn eval_bytestring_and_string_functions() {
    for (src, expected) in [
        (
            "[ [ (builtin appendByteString) (con bytestring #0102) ] (con bytestring #ff) ]",
            Term::Constant(Constant::ByteString(vec![1, 2, 255])),
        ),
        (
            "[ [ (builtin consByteString) (con integer 65) ] (con bytestring #ff) ]",
            Term::Constant(Constant::ByteString(vec![65, 255])),
        ),
        ("[ (builtin lengthOfByteString) (con bytestring #010203) ]", integer(3)),
        ("[ [ (builtin indexByteString) (con bytestring #010203) ] (con integer 2) ]", integer(3)),
        (
            "[ [ (builtin equalsByteString) (con bytestring #0102) ] (con bytestring #0102) ]",
            Term::Constant(Constant::Bool(true)),
        ),
        (
            "[ [ (builtin lessThanByteString) (con bytestring #0102) ] (con bytestring #0103) ]",
            Term::Constant(Constant::Bool(true)),
        ),
        (
            "[ [ (builtin lessThanByteString) (con bytestring #0102) ] (con bytestring #01) ]",
            Term::Constant(Constant::Bool(false)),
        ),
        (
            "[ [ (builtin lessThanEqualsByteString) (con bytestring #01) ] (con bytestring #01) ]",
            Term::Constant(Constant::Bool(true)),
        ),
        (
            "[ [ (builtin appendString) (con string \"ab\") ] (con string \"cd\") ]",
            Term::Constant(Constant::String("abcd".to_string())),
        ),
        (
            "[ [ (builtin equalsString) (con string \"ab\") ] (con string \"cd\") ]",
            Term::Constant(Constant::Bool(false)),
        ),
    ] {
        let (result, _, _) = eval(&format!("(program 1.0.0 {})", src));
        assert_eq!(result, Ok(expected), "{}", src);
    }
    let (result, _, _) = eval(
        "(program 1.0.0 [ [ (builtin indexByteString) (con bytestring #0102) ] (con integer 2) ])",
    );
    assert_eq!(
        result,
        Err(Error::BuiltinFailure(DefaultFunction::IndexByteString, Reason::IndexOutOfRange))
    );
    let (result, _, _) = eval(
        "(program 1.0.0 [ [ (builtin consByteString) (con integer 256) ] (con bytestring #02) ])",
    );
    assert_eq!(
        result,
        Err(Error::BuiltinFailure(DefaultFunction::ConsByteString, Reason::Overflow))
    );
}

#[test]
fn eval_trace_logs_in_order() {
    let (result, _, logs) = eval(
        "(program 1.0.0 [ [ (force (builtin trace)) (con string \"one\") ] [ [ (force (builtin trace)) (con string \"two\") ] (con integer 1) ] ])",
    );
    assert_eq!(result, Ok(integer(1)));
    // the argument of the outer trace is evaluated before the outer trace is called
    assert_eq!(logs, vec!["two".to_string(), "one".to_string()]);
}

#[test]
fn eval_if_then_else_and_choose_unit() {
    let (result, _, _) = eval(
        "(program 1.0.0 [ [ [ (force (builtin ifThenElse)) (con bool False) ] (con integer 1) ] (con integer 2) ])",
    );
    assert_eq!(result, Ok(integer(2)));
    let (result, _, _) = eval(
        "(program 1.0.0 [ [ (force (builtin chooseUnit)) (con unit ()) ] (con integer 9) ])",
    );
    assert_eq!(result, Ok(integer(9)));
}

#[test]
fn eval_type_mismatch_names_both_types() {
    let (result, _, _) =
        eval("(program 1.0.0 [ [ (builtin addInteger) (con unit ()) ] (con integer 3) ])");
    assert_eq!(result, Err(Error::TypeMismatch(Type::Integer, Type::Unit)));
    let (result, _, _) = eval("(program 1.0.0 [ (con integer 3) (con integer 3) ])");
    assert_eq!(result, Err(Error::TypeMismatch(Type::Function, Type::Integer)));
    let (result, _, _) = eval("(program 1.0.0 (force (con integer 3)))");
    assert_eq!(result, Err(Error::TypeMismatch(Type::Delay, Type::Integer)));
    let (result, _, _) = eval("(program 1.0.0 [ (force (force (builtin fstPair))) (con integer 3) ])");
    assert_eq!(result, Err(Error::TypeMismatch(Type::Pair, Type::Integer)));
}

#[test]
fn eval_forces_of_builtins_are_counted() {
    let (result, _, _) =
        eval("(program 1.0.0 [ (builtin trace) (con string \"x\") ])");
    assert_eq!(result, Err(Error::BuiltinFailure(DefaultFunction::Trace, Reason::MissingForce)));
    let (result, _, _) = eval("(program 1.0.0 (force (builtin addInteger)))");
    assert_eq!(
        result,
        Err(Error::BuiltinFailure(DefaultFunction::AddInteger, Reason::UnexpectedForce))
    );
}

#[test]
fn eval_free_variable() {
    let free = Program {
        version: (1, 0, 0),
        term: Term::Var(NamedDeBruijn { text: "x".to_string(), index: DeBruijn::new(5) }),
    };
    let (result, _, _) = free.eval();
    assert_eq!(result, Err(Error::FreeVariable(5)));
    assert_eq!(
        program("(program 1.0.0 x)").unwrap().to_named_debruijn(),
        Err(debruijn::Error::FreeUnique(Unique::new(0)))
    );
}

#[test]
fn eval_discharges_closures_and_partial_applications() {
    let (result, _, _) = eval("(program 1.0.0 [ (lam x (lam y x)) (con integer 7) ])");
    assert_eq!(
        result,
        Ok(Term::Lambda {
            parameter_name: NamedDeBruijn { text: "y".to_string(), index: DeBruijn::new(0) },
            body: Box::new(integer(7)),
        })
    );
    let (result, _, _) = eval("(program 1.0.0 [ (builtin addInteger) (con integer 1) ])");
    assert_eq!(
        result,
        Ok(Term::Apply {
            function: Box::new(Term::Builtin(DefaultFunction::AddInteger)),
            argument: Box::new(integer(1)),
        })
    );
    let (result, _, _) = eval("(program 1.0.0 (force (builtin ifThenElse)))");
    assert_eq!(
        result,
        Ok(Term::Force(Box::new(Term::Builtin(DefaultFunction::IfThenElse))))
    );
    let (result, _, _) = eval("(program 1.0.0 [ (lam x (delay x)) (con integer 7) ])");
    assert_eq!(result, Ok(Term::Delay(Box::new(integer(7)))));
}

#[test]
fn run_out_of_budget_keeps_what_is_left() {
    let closed = closed("(program 1.0.0 [ (lam x x) (con integer 42) ])");
    let finished = run_term(&closed.term, ExBudget { mem: 1000, cpu: 50000 });
    assert_eq!(finished.result, Err(Error::OutOfBudget));
    assert_eq!(finished.remaining, ExBudget { mem: 1000 - 300, cpu: 50000 - 100 - 2 * 23000 });
    let finished = run_term(&closed.term, ExBudget { mem: 50, cpu: 50000 });
    assert_eq!(finished.result, Err(Error::OutOfBudget));
    assert_eq!(finished.remaining, ExBudget { mem: 50, cpu: 50000 });
    let finished = run_term(&closed.term, ExBudget { mem: 500, cpu: 92100 });
    assert_eq!(finished.result, Ok(integer(42)));
    assert_eq!(finished.remaining, ExBudget { mem: 0, cpu: 0 });
}

#[test]
fn apply_term_nests_to_the_left() {
    let applied = closed("(program 1.0.0 (lam x (lam y x)))")
        .apply_term(integer(1))
        .apply_term(integer(2));
    assert_eq!(applied.version, (1, 0, 0));
    match &applied.term {
        Term::Apply { function, argument } => {
            assert_eq!(**argument, integer(2));
            assert!(matches!(**function, Term::Apply { .. }));
        }
        other => panic!("not an application: {:?}", other),
    }
    let (result, _, _) = applied.eval();
    assert_eq!(result, Ok(integer(1)));
}

#[test]
fn names_to_indices_and_back() {
    let named = term("(lam a (lam b [a b]))").unwrap();
    let mut scope = Vec::new();
    let indexed = named.to_named_debruijn(&mut scope).unwrap();
    assert!(scope.is_empty());
    let text = |t: &str, i: usize| NamedDeBruijn { text: t.to_string(), index: DeBruijn::new(i) };
    assert_eq!(
        indexed,
        Term::Lambda {
            parameter_name: text("a", 0),
            body: Box::new(Term::Lambda {
                parameter_name: text("b", 0),
                body: Box::new(Term::Apply {
                    function: Box::new(Term::Var(text("a", 2))),
                    argument: Box::new(Term::Var(text("b", 1))),
                }),
            }),
        }
    );
    let indexed_again = indexed.duplicate();
    assert_eq!(indexed_again, indexed);
    let back = indexed.to_name(0).unwrap();
    assert_eq!(back, term("(lam a (lam b [a b]))").unwrap());
    match &back {
        Term::Lambda { parameter_name, .. } => {
            assert_eq!(parameter_name.text, "a");
            assert_eq!(parameter_name.unique, Unique::new(0));
        }
        other => panic!("not a lambda: {:?}", other),
    }
    let bare = indexed_again.to_debruijn();
    assert!(matches!(bare, Term::Lambda { parameter_name: DeBruijn(0), .. }));
    let open = Term::Var(text("x", 1));
    assert_eq!(open.to_name(0), Err(debruijn::Error::FreeIndex(DeBruijn::new(1))));
    let _unused: Option<Name> = None;
}

#[test]
fn command_applies_arguments_and_evaluates() {
    let args = vec!["(con integer 1)".to_string(), "(con integer 2)".to_string()];
    let evaluation = run("(program 1.0.0 (builtin addInteger))", &args).unwrap();
    assert_eq!(evaluation.result, Ok(integer(3)));
    let whole = ExBudget::default();
    assert_eq!(evaluation.cost.cpu + evaluation.budget.cpu, whole.cpu);
    assert_eq!(evaluation.cost.mem + evaluation.budget.mem, whole.mem);
    assert!(evaluation.logs.is_empty());
    assert_eq!(evaluation, evaluate_program(&closed(
        "(program 1.0.0 [ [ (builtin addInteger) (con integer 1) ] (con integer 2) ])"
    )));
}

#[test]
fn command_reports_what_cannot_be_evaluated() {
    let none: Vec<String> = vec![];
    assert_eq!(
        run("(program 1.0 (error ))", &none),
        Err(Failure::Program(ParseError::UnexpectedParse))
    );
    assert_eq!(
        run("(program 1.0.0 y)", &none),
        Err(Failure::Names(debruijn::Error::FreeUnique(Unique::new(0))))
    );
    let args = vec!["(con integer 1)".to_string(), "(con".to_string()];
    assert_eq!(
        run("(program 1.0.0 (error ))", &args),
        Err(Failure::Argument(1, ParseError::UnexpectedParse))
    );
    let args = vec!["z".to_string()];
    assert_eq!(
        run("(program 1.0.0 (error ))", &args),
        Err(Failure::Names(debruijn::Error::FreeUnique(Unique::new(0))))
    );
}

#[test]
fn indices_survive_a_change_of_names() {
    let indexed = closed("(program 1.0.0 (lam a (lam b [a b])))").term;
    let bare = indexed.duplicate().to_debruijn();
    let shown = bare.to_fake_named_debruijn().to_named_debruijn();
    assert_eq!(shown.duplicate().to_debruijn(), indexed.duplicate().to_debruijn());
    match &shown {
        Term::Lambda { parameter_name, .. } => assert_eq!(parameter_name.text, "i"),
        other => panic!("not a lambda: {:?}", other),
    }
    let (result, _, _) = Program { version: (1, 0, 0), term: shown }
        .apply_term(integer(1))
        .apply_term(integer(2))
        .eval();
    // `a` is bound to 1, which is no function to apply to `b`
    assert_eq!(result, Err(Error::TypeMismatch(Type::Function, Type::Integer)));
}
