//! What holds of every evaluation.
use vstd::prelude::*;
use crate::uplc::ast::TermView;
use crate::uplc::machine::cost_model::{Cost, ExBudget, startup_cost, step_cost};
use crate::uplc::machine::value::{Code, FrameView, ValueView};
use crate::uplc::machine::{ControlView, Progress, State, evaluate, run, step, steps_come_nearer};

verus! {

/// The machine at `term` in `env`.
pub open spec fn at(
    term: Code,
    env: Seq<ValueView>,
    stack: Seq<FrameView>,
    budget: ExBudget,
    logs: Seq<Seq<char>>,
) -> State {
    State { control: ControlView::Compute(term, env), stack, budget, logs }
}

/// What is left of `budget` after `n` steps on terms.
pub open spec fn after_steps(budget: ExBudget, n: nat) -> ExBudget {
    budget.minus(Cost { mem: n * step_cost().mem, cpu: n * step_cost().cpu })
}

/// Whether `budget` affords `n` steps on terms.
pub open spec fn affords_steps(budget: ExBudget, n: nat) -> bool {
    budget.valid() && budget.affords(Cost { mem: n * step_cost().mem, cpu: n * step_cost().cpu })
}

/// A run is the run from the state that one step leads to.
pub proof fn run_unfolds(state: State, next: State)
    requires
        state.budget.valid(),
        step(state) == Progress::Next(next),
    ensures
        run(state) == run(next),
        next.budget.valid(),
{
    steps_come_nearer(state);
}

/// To force a delayed term is to evaluate the term, at the cost of two
/// more steps: wherever the machine stands, with a budget that affords the
/// two steps, it ends as it does on the term alone with the budget that
/// the two steps leave.
pub proof fn force_of_delay(
    term: Code,
    env: Seq<ValueView>,
    stack: Seq<FrameView>,
    budget: ExBudget,
    logs: Seq<Seq<char>>,
)
    requires
        affords_steps(budget, 2),
    ensures
        run(at(TermView::Force(Box::new(TermView::Delay(Box::new(term)))), env, stack, budget, logs))
            == run(at(term, env, stack, after_steps(budget, 2), logs)),
{
    let delayed = TermView::Delay(Box::new(term));
    let s0 = at(TermView::Force(Box::new(delayed)), env, stack, budget, logs);
    let waiting = stack.push(FrameView::Force);
    let s1 = at(delayed, env, waiting, after_steps(budget, 1), logs);
    let s2 = State {
        control: ControlView::Return(ValueView::Delay(term, env)),
        stack: waiting,
        budget: after_steps(budget, 2),
        logs,
    };
    let s3 = at(term, env, stack, after_steps(budget, 2), logs);
    assert(waiting.drop_last() =~= stack);
    assert(step(s0) == Progress::Next(s1));
    run_unfolds(s0, s1);
    assert(step(s1) == Progress::Next(s2));
    run_unfolds(s1, s2);
    assert(step(s2) == Progress::Next(s3));
    run_unfolds(s2, s3);
}

/// The evaluation of a forced delayed term is the evaluation of the term
/// with the budget that two steps leave.
pub proof fn evaluate_force_of_delay(term: Code, budget: ExBudget)
    requires
        budget.valid(),
        budget.affords(startup_cost()),
        affords_steps(budget.minus(startup_cost()), 2),
    ensures
        evaluate(TermView::Force(Box::new(TermView::Delay(Box::new(term)))), budget) == evaluate(
            term,
            after_steps(budget, 2),
        ),
{
    force_of_delay(term, Seq::empty(), Seq::empty(), budget.minus(startup_cost()), Seq::empty());
    assert(after_steps(budget.minus(startup_cost()), 2) == after_steps(budget, 2).minus(
        startup_cost(),
    ));
}

/// Whether the term is a value as it stands: a constant, a function, a
/// delayed term or a built-in function.
pub open spec fn is_value(term: Code) -> bool {
    term is Constant || term is Lambda || term is Delay || term is Builtin
}

/// The value that a term that is a value stands for in `env`.
pub open spec fn value_of(term: Code, env: Seq<ValueView>) -> ValueView
    recommends
        is_value(term),
{
    match term {
        TermView::Constant(c) => ValueView::Con(c),
        TermView::Lambda { parameter_name, body } => ValueView::Lambda {
            parameter_name,
            body: *body,
            env,
        },
        TermView::Delay(body) => ValueView::Delay(*body, env),
        TermView::Builtin(fun) => ValueView::Builtin {
            fun,
            forces: fun.spec_force_count(),
            args: Seq::empty(),
        },
        _ => arbitrary(),
    }
}

/// To apply a function to a term that is a value is to evaluate the body
/// of the function with its parameter bound to that value, at the cost of
/// three more steps.
pub proof fn application_binds(
    parameter_name: crate::uplc::ast::NamedDeBruijnView,
    body: Code,
    argument: Code,
    env: Seq<ValueView>,
    stack: Seq<FrameView>,
    budget: ExBudget,
    logs: Seq<Seq<char>>,
)
    requires
        is_value(argument),
        affords_steps(budget, 3),
    ensures
        run(
            at(
                TermView::Apply {
                    function: Box::new(TermView::Lambda { parameter_name, body: Box::new(body) }),
                    argument: Box::new(argument),
                },
                env,
                stack,
                budget,
                logs,
            ),
        ) == run(
            at(body, seq![value_of(argument, env)] + env, stack, after_steps(budget, 3), logs),
        ),
{
    let function = TermView::Lambda { parameter_name, body: Box::new(body) };
    let closure = ValueView::Lambda { parameter_name, body, env };
    let s0 = at(
        TermView::Apply { function: Box::new(function), argument: Box::new(argument) },
        env,
        stack,
        budget,
        logs,
    );
    let with_arg = stack.push(FrameView::Arg(env, argument));
    let s1 = at(function, env, with_arg, after_steps(budget, 1), logs);
    let s2 = State {
        control: ControlView::Return(closure),
        stack: with_arg,
        budget: after_steps(budget, 2),
        logs,
    };
    let with_fun = stack.push(FrameView::Fun(closure));
    let s3 = at(argument, env, with_fun, after_steps(budget, 2), logs);
    let s4 = State {
        control: ControlView::Return(value_of(argument, env)),
        stack: with_fun,
        budget: after_steps(budget, 3),
        logs,
    };
    let s5 = at(body, seq![value_of(argument, env)] + env, stack, after_steps(budget, 3), logs);
    assert(with_arg.drop_last() =~= stack);
    assert(with_fun.drop_last() =~= stack);
    assert(step(s0) == Progress::Next(s1));
    run_unfolds(s0, s1);
    assert(step(s1) == Progress::Next(s2));
    run_unfolds(s1, s2);
    assert(step(s2) == Progress::Next(s3));
    run_unfolds(s2, s3);
    assert(step(s3) == Progress::Next(s4));
    run_unfolds(s3, s4);
    assert(step(s4) == Progress::Next(s5));
    run_unfolds(s4, s5);
}

} // verus!
