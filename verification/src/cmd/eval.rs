//! The command that evaluates a program of Untyped Plutus Core.
use std::path::PathBuf;
use vstd::prelude::*;
use crate::uplc::ast::{NamedDeBruijn, NamedDeBruijnView, Program, ProgramView, Term, TermView};
use crate::uplc::debruijn;
use crate::uplc::debruijn::indexed;
use crate::uplc::machine::cost_model::{ExBudget, default_budget};
use crate::uplc::machine::error::Error;
use crate::uplc::machine::value::Code;
use crate::uplc::machine::{Outcome, evaluate};
use crate::uplc::parser::{ParseError, program, program_of, term, term_of};

verus! {

/// `std::path::PathBuf`, which the library carries and never looks into.
#[verifier::external_type_specification]
#[verifier::external_body]
pub struct ExPathBuf(std::path::PathBuf);

/// What the command is called with.
pub struct Args {
    /// The file that holds the program.
    pub script: PathBuf,
    /// Whether the file holds the program in its binary form.
    pub flat: bool,
    /// The terms to apply the program to, in their textual form.
    pub args: Vec<String>,
}

/// Why there is nothing to evaluate.
#[derive(Clone, Copy, Debug, PartialEq, Eq, Structural)]
pub enum Failure {
    /// The text is no program.
    Program(ParseError),
    /// The argument of this number, counted from 0, is no term.
    Argument(usize, ParseError),
    /// A variable of the program or of an argument has no binder.
    Names(debruijn::Error),
}

/// What an evaluation gave.
#[derive(Debug, PartialEq)]
pub struct Evaluation {
    pub result: Result<Term<NamedDeBruijn>, Error>,
    /// What the evaluation consumed.
    pub cost: ExBudget,
    /// What it left of the default budget.
    pub budget: ExBudget,
    pub logs: Vec<String>,
}

/// The program applied to the first `n` of the arguments, one after the
/// other. An argument is parsed on its own, and must be closed: each of
/// its variables stands under a binder of the argument.
pub open spec fn with_arguments(
    program: ProgramView<NamedDeBruijnView>,
    args: Seq<Seq<char>>,
    n: nat,
) -> Result<ProgramView<NamedDeBruijnView>, Failure>
    decreases n,
{
    if n == 0 || n > args.len() {
        Ok(program)
    } else {
        match with_arguments(program, args, (n - 1) as nat) {
            Err(e) => Err(e),
            Ok(applied) => match term_of(args[n - 1]) {
                None => Err(Failure::Argument((n - 1) as usize, ParseError::UnexpectedParse)),
                Some(argument) => match indexed(argument, Seq::empty()) {
                    Err(e) => Err(Failure::Names(e)),
                    Ok(closed) => Ok(
                        ProgramView {
                            version: applied.version,
                            term: TermView::Apply {
                                function: Box::new(applied.term),
                                argument: Box::new(closed),
                            },
                        },
                    ),
                },
            },
        }
    }
}

/// The program that the text `code` writes, applied to the arguments.
pub open spec fn prepared(code: Seq<char>, args: Seq<Seq<char>>) -> Result<
    ProgramView<NamedDeBruijnView>,
    Failure,
> {
    match program_of(code) {
        None => Err(Failure::Program(ParseError::UnexpectedParse)),
        Some(parsed) => match indexed(parsed.term, Seq::empty()) {
            Err(e) => Err(Failure::Names(e)),
            Ok(closed) => with_arguments(
                ProgramView { version: parsed.version, term: closed },
                args,
                args.len(),
            ),
        },
    }
}

/// Applies `program` to the arguments, each of which is parsed as a term.
pub fn apply_arguments(program: Program<NamedDeBruijn>, args: &Vec<String>) -> (r: Result<
    Program<NamedDeBruijn>,
    Failure,
>)
    ensures
        match r {
            Ok(applied) => with_arguments(program.deep_view(), args.deep_view(), args@.len())
                == Ok::<ProgramView<NamedDeBruijnView>, Failure>(applied.deep_view()),
            Err(e) => with_arguments(program.deep_view(), args.deep_view(), args@.len())
                == Err::<ProgramView<NamedDeBruijnView>, Failure>(e),
        },
{
    let ghost start = program.deep_view();
    let ghost texts = args.deep_view();
    let mut applied = program;
    let mut i: usize = 0;
    while i < args.len()
        invariant
            i <= args@.len(),
            start == program.deep_view(),
            texts == args.deep_view(),
            texts.len() == args@.len(),
            with_arguments(start, texts, i as nat) == Ok::<
                ProgramView<NamedDeBruijnView>,
                Failure,
            >(applied.deep_view()),
        decreases args@.len() - i,
    {
        assert(texts[i as int] == args@[i as int]@);
        let parsed = match term(args[i].as_str()) {
            Ok(parsed) => parsed,
            Err(e) => {
                proof {
                    assert(term_of(texts[i as int]) is None);
                    assert(with_arguments(start, texts, (i + 1) as nat) == Err::<
                        ProgramView<NamedDeBruijnView>,
                        Failure,
                    >(Failure::Argument(i, e)));
                    failure_stays(start, texts, (i + 1) as nat, args@.len() as nat);
                }
                return Err(Failure::Argument(i, e));
            },
        };
        let mut scope = Vec::new();
        let closed = match parsed.to_named_debruijn(&mut scope) {
            Ok(closed) => closed,
            Err(e) => {
                proof {
                    assert(term_of(texts[i as int]) is Some);
                    assert(with_arguments(start, texts, (i + 1) as nat) == Err::<
                        ProgramView<NamedDeBruijnView>,
                        Failure,
                    >(Failure::Names(e)));
                    failure_stays(start, texts, (i + 1) as nat, args@.len() as nat);
                }
                return Err(Failure::Names(e));
            },
        };
        applied = applied.apply_term(closed);
        i += 1;
    }
    Ok(applied)
}

/// Once an argument failed, more arguments change nothing.
proof fn failure_stays(
    program: ProgramView<NamedDeBruijnView>,
    args: Seq<Seq<char>>,
    n: nat,
    m: nat,
)
    requires
        with_arguments(program, args, n) is Err,
        n <= m <= args.len(),
    ensures
        with_arguments(program, args, m) == with_arguments(program, args, n),
    decreases m - n,
{
    if n < m {
        failure_stays(program, args, n, (m - 1) as nat);
    }
}

/// Evaluates `program` under the default budget.
pub fn evaluate_program(program: &Program<NamedDeBruijn>) -> (r: Evaluation)
    ensures
        ({
            let outcome = evaluate(program.term.deep_view(), default_budget());
            &&& match r.result {
                Ok(term) => outcome.result == Ok::<Code, Error>(term.deep_view()),
                Err(error) => outcome.result == Err::<Code, Error>(error),
            }
            &&& r.budget == outcome.remaining
            &&& r.cost.mem == default_budget().mem - outcome.remaining.mem
            &&& r.cost.cpu == default_budget().cpu - outcome.remaining.cpu
            &&& r.logs.deep_view() == outcome.logs
        }),
        0 <= r.cost.mem <= default_budget().mem,
        0 <= r.cost.cpu <= default_budget().cpu,
{
    let (result, cost, logs) = program.eval();
    let whole = ExBudget::default();
    Evaluation {
        result,
        cost,
        budget: ExBudget { mem: whole.mem - cost.mem, cpu: whole.cpu - cost.cpu },
        logs,
    }
}

/// What the evaluation of the program `prepared` gives.
pub open spec fn evaluated(prepared: Result<ProgramView<NamedDeBruijnView>, Failure>) -> Result<
    Outcome,
    Failure,
> {
    match prepared {
        Ok(program) => Ok(evaluate(program.term, default_budget())),
        Err(e) => Err(e),
    }
}

/// Parses the program that `code` writes, applies it to the arguments and
/// evaluates it under the default budget.
pub fn run(code: &str, args: &Vec<String>) -> (r: Result<Evaluation, Failure>)
    ensures
        match r {
            Ok(evaluation) => match evaluated(prepared(code@, args.deep_view())) {
                Ok(outcome) => {
                    &&& match evaluation.result {
                        Ok(term) => outcome.result == Ok::<Code, Error>(term.deep_view()),
                        Err(error) => outcome.result == Err::<Code, Error>(error),
                    }
                    &&& evaluation.budget == outcome.remaining
                    &&& evaluation.cost.mem == default_budget().mem - outcome.remaining.mem
                    &&& evaluation.cost.cpu == default_budget().cpu - outcome.remaining.cpu
                    &&& evaluation.logs.deep_view() == outcome.logs
                },
                Err(_) => false,
            },
            Err(e) => evaluated(prepared(code@, args.deep_view())) == Err::<Outcome, Failure>(e),
        },
{
    let parsed = match program(code) {
        Ok(parsed) => parsed,
        Err(e) => { return Err(Failure::Program(e)); },
    };
    let closed = match parsed.to_named_debruijn() {
        Ok(closed) => closed,
        Err(e) => { return Err(Failure::Names(e)); },
    };
    let applied = match apply_arguments(closed, args) {
        Ok(applied) => applied,
        Err(e) => { return Err(e); },
    };
    Ok(evaluate_program(&applied))
}

} // verus!
