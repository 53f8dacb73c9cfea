//! The machine that evaluates terms under a budget.
pub mod cost_model;
pub mod discharge;
pub mod error;
pub mod laws;
pub mod runtime;
pub mod value;

use std::rc::Rc;
use vstd::prelude::*;
use crate::list::{no_items, pop_item, push_item};
use crate::uplc::ast::{NamedDeBruijn, Program, Term, TermView};
use crate::uplc::builtins::DefaultFunction;
use crate::uplc::machine::cost_model::{
    ExBudget,
    builtin_cost,
    default_budget,
    parameters,
    spec_parameters,
    startup_cost,
    step_cost,
};
use crate::uplc::machine::discharge::{discharge, discharge_value};
use crate::uplc::machine::error::{Error, Reason, Type};
use crate::uplc::machine::runtime::{call, call_builtin, sizes, type_of};
use crate::uplc::machine::value::{
    Code,
    Env,
    Frame,
    FrameView,
    Value,
    ValueView,
    share,
    total_size,
};

verus! {

// ---------------------------------------------------------------------- model
/// What the machine is at: a term to evaluate in an environment, or a
/// value to hand to what waits for it.
pub enum ControlView {
    Compute(Code, Seq<ValueView>),
    Return(ValueView),
}

/// The machine between two steps. The frame that waits for the next value
/// is the last of the stack.
pub struct State {
    pub control: ControlView,
    pub stack: Seq<FrameView>,
    pub budget: ExBudget,
    pub logs: Seq<Seq<char>>,
}

/// How an evaluation ends: with a term or an error, with what is left of
/// the budget, and with the lines that were logged, the first one first.
pub struct Outcome {
    pub result: Result<Code, Error>,
    pub remaining: ExBudget,
    pub logs: Seq<Seq<char>>,
}

pub enum Progress {
    Next(State),
    Done(Outcome),
}

pub open spec fn failed(error: Error, budget: ExBudget, logs: Seq<Seq<char>>) -> Progress {
    Progress::Done(Outcome { result: Err(error), remaining: budget, logs })
}

pub open spec fn returning(
    value: ValueView,
    stack: Seq<FrameView>,
    budget: ExBudget,
    logs: Seq<Seq<char>>,
) -> Progress {
    Progress::Next(State { control: ControlView::Return(value), stack, budget, logs })
}

pub open spec fn computing(
    term: Code,
    env: Seq<ValueView>,
    stack: Seq<FrameView>,
    budget: ExBudget,
    logs: Seq<Seq<char>>,
) -> Progress {
    Progress::Next(State { control: ControlView::Compute(term, env), stack, budget, logs })
}

/// One step on a term: the step is paid for, then a variable gives the
/// value it is bound to; a delayed term, a function, a constant and a
/// built-in function are values; an application evaluates its function
/// first and a force its term, while a frame waits; `error` fails.
pub open spec fn compute(
    term: Code,
    env: Seq<ValueView>,
    stack: Seq<FrameView>,
    budget: ExBudget,
    logs: Seq<Seq<char>>,
) -> Progress {
    if !budget.affords(step_cost()) {
        failed(Error::OutOfBudget, budget, logs)
    } else {
        let left = budget.minus(step_cost());
        match term {
            TermView::Var(name) => if 1 <= name.index.0 <= env.len() {
                returning(env[name.index.0 - 1], stack, left, logs)
            } else {
                failed(Error::FreeVariable(name.index.0), left, logs)
            },
            TermView::Delay(body) => returning(ValueView::Delay(*body, env), stack, left, logs),
            TermView::Lambda { parameter_name, body } => returning(
                ValueView::Lambda { parameter_name, body: *body, env },
                stack,
                left,
                logs,
            ),
            TermView::Apply { function, argument } => computing(
                *function,
                env,
                stack.push(FrameView::Arg(env, *argument)),
                left,
                logs,
            ),
            TermView::Constant(c) => returning(ValueView::Con(c), stack, left, logs),
            TermView::Force(body) => computing(*body, env, stack.push(FrameView::Force), left, logs),
            TermView::Error => failed(Error::UserError, left, logs),
            TermView::Builtin(fun) => returning(
                ValueView::Builtin {
                    fun,
                    forces: fun.spec_force_count(),
                    args: Seq::empty(),
                },
                stack,
                left,
                logs,
            ),
        }
    }
}

/// The built-in function `fun`, forced as often as it asks for, takes
/// `args`, the last of which is new. With fewer arguments than it takes it
/// stays a value; with all of them it is paid for and called, and a line
/// that it writes goes to the log.
pub open spec fn saturate(
    fun: DefaultFunction,
    args: Seq<ValueView>,
    stack: Seq<FrameView>,
    budget: ExBudget,
    logs: Seq<Seq<char>>,
) -> Progress {
    if args.len() < fun.spec_arity() {
        returning(ValueView::Builtin { fun, forces: 0, args }, stack, budget, logs)
    } else if !budget.affords(builtin_cost(fun, total_size(args))) {
        failed(Error::OutOfBudget, budget, logs)
    } else {
        let left = budget.minus(builtin_cost(fun, total_size(args)));
        match call(fun, args) {
            Ok(returned) => returning(
                returned.value,
                stack,
                left,
                match returned.log {
                    Some(line) => logs.push(line),
                    None => logs,
                },
            ),
            Err(error) => failed(error, left, logs),
        }
    }
}

/// The function `function` is applied to `argument`.
pub open spec fn apply(
    function: ValueView,
    argument: ValueView,
    stack: Seq<FrameView>,
    budget: ExBudget,
    logs: Seq<Seq<char>>,
) -> Progress {
    match function {
        ValueView::Lambda { body, env, .. } => computing(
            body,
            seq![argument] + env,
            stack,
            budget,
            logs,
        ),
        ValueView::Builtin { fun, forces, args } => if forces > 0 {
            failed(Error::BuiltinFailure(fun, Reason::MissingForce), budget, logs)
        } else if args.len() >= fun.spec_arity() {
            failed(Error::TypeMismatch(Type::Function, function.type_of()), budget, logs)
        } else {
            saturate(fun, args.push(argument), stack, budget, logs)
        },
        _ => failed(Error::TypeMismatch(Type::Function, function.type_of()), budget, logs),
    }
}

/// The value `value` is forced.
pub open spec fn force(
    value: ValueView,
    stack: Seq<FrameView>,
    budget: ExBudget,
    logs: Seq<Seq<char>>,
) -> Progress {
    match value {
        ValueView::Delay(body, env) => computing(body, env, stack, budget, logs),
        ValueView::Builtin { fun, forces, args } => if forces > 0 {
            returning(
                ValueView::Builtin { fun, forces: (forces - 1) as nat, args },
                stack,
                budget,
                logs,
            )
        } else {
            failed(Error::BuiltinFailure(fun, Reason::UnexpectedForce), budget, logs)
        },
        _ => failed(Error::TypeMismatch(Type::Delay, value.type_of()), budget, logs),
    }
}

/// One step on a value: with no frame left the evaluation ends with the
/// term of the value; else the last frame takes the value.
pub open spec fn give(
    value: ValueView,
    stack: Seq<FrameView>,
    budget: ExBudget,
    logs: Seq<Seq<char>>,
) -> Progress {
    if stack.len() == 0 {
        Progress::Done(Outcome { result: Ok(discharge(value)), remaining: budget, logs })
    } else {
        let rest = stack.drop_last();
        match stack.last() {
            FrameView::Arg(env, argument) => computing(
                argument,
                env,
                rest.push(FrameView::Fun(value)),
                budget,
                logs,
            ),
            FrameView::Fun(function) => apply(function, value, rest, budget, logs),
            FrameView::Force => force(value, rest, budget, logs),
        }
    }
}

/// One step of the machine.
pub open spec fn step(state: State) -> Progress {
    match state.control {
        ControlView::Compute(term, env) => compute(
            term,
            env,
            state.stack,
            state.budget,
            state.logs,
        ),
        ControlView::Return(value) => give(value, state.stack, state.budget, state.logs),
    }
}

/// What bounds the steps that the machine makes without paying.
pub open spec fn rank(state: State) -> nat {
    match state.control {
        ControlView::Compute(..) => 2 * state.stack.len(),
        ControlView::Return(_) => 2 * state.stack.len() + 1,
    }
}

/// Whether the step from `state` to `next` brings the evaluation nearer
/// to its end: processor time was paid, or else a frame was used up.
pub open spec fn nearer(state: State, next: State) -> bool {
    0 <= next.budget.cpu <= state.budget.cpu && (next.budget.cpu < state.budget.cpu || rank(next)
        < rank(state))
}

/// The machine runs from `state` to its end, step by step.
pub open spec fn run(state: State) -> Outcome
    decreases state.budget.cpu, rank(state),
{
    match step(state) {
        Progress::Done(outcome) => outcome,
        Progress::Next(next) => if nearer(state, next) {
            run(next)
        } else {
            Outcome { result: Err(Error::OutOfBudget), remaining: state.budget, logs: state.logs }
        },
    }
}

/// The evaluation of `term` under `budget`: the machine is started, which
/// has its cost, and runs on the term with no variable bound.
pub open spec fn evaluate(term: Code, budget: ExBudget) -> Outcome {
    if !budget.affords(startup_cost()) {
        Outcome { result: Err(Error::OutOfBudget), remaining: budget, logs: Seq::empty() }
    } else {
        run(
            State {
                control: ControlView::Compute(term, Seq::empty()),
                stack: Seq::empty(),
                budget: budget.minus(startup_cost()),
                logs: Seq::empty(),
            },
        )
    }
}

/// Every step of a machine with a valid budget brings it nearer to its
/// end, and leaves the budget valid.
pub proof fn steps_come_nearer(state: State)
    requires
        state.budget.valid(),
    ensures
        match step(state) {
            Progress::Next(next) => nearer(state, next) && next.budget.valid() && next.budget.mem
                <= state.budget.mem,
            Progress::Done(outcome) => outcome.remaining.valid() && outcome.remaining.mem
                <= state.budget.mem && outcome.remaining.cpu <= state.budget.cpu,
        },
{
    match state.control {
        ControlView::Compute(term, env) => {},
        ControlView::Return(value) => {
            if state.stack.len() > 0 {
                let rest = state.stack.drop_last();
                match state.stack.last() {
                    FrameView::Fun(function) => {
                        match function {
                            ValueView::Builtin { fun, forces, args } => {
                                let p = spec_parameters(fun);
                                let size = total_size(args.push(value));
                                assert(p.cpu_slope * size >= 0 && p.mem_slope * size >= 0)
                                    by (nonlinear_arith)
                                    requires
                                        p.cpu_slope >= 0,
                                        p.mem_slope >= 0,
                                        size >= 0,
                                ;
                            },
                            _ => {},
                        }
                    },
                    _ => {},
                }
            }
        },
    }
}

/// An evaluation leaves at most the budget that it started with, and
/// never less than nothing: what it consumed is not negative and not more
/// than the budget.
pub proof fn run_stays_within_budget(state: State)
    requires
        state.budget.valid(),
    ensures
        run(state).remaining.valid(),
        run(state).remaining.mem <= state.budget.mem,
        run(state).remaining.cpu <= state.budget.cpu,
    decreases state.budget.cpu, rank(state),
{
    steps_come_nearer(state);
    match step(state) {
        Progress::Done(outcome) => {},
        Progress::Next(next) => {
            run_stays_within_budget(next);
        },
    }
}

} // verus!

verus! {

// -------------------------------------------------------------------- machine
pub enum Control<'a> {
    Compute(&'a Term<NamedDeBruijn>, Env<'a>),
    Return(Rc<Value<'a>>),
}

impl<'a> DeepView for Control<'a> {
    type V = ControlView;

    open spec fn deep_view(&self) -> ControlView {
        match self {
            Control::Compute(term, env) => ControlView::Compute(term.deep_view(), env.deep_view()),
            Control::Return(value) => ControlView::Return(value.deep_view()),
        }
    }
}

pub struct Machine<'a> {
    pub control: Control<'a>,
    pub stack: Vec<Frame<'a>>,
    pub budget: ExBudget,
    pub logs: Vec<String>,
}

impl<'a> DeepView for Machine<'a> {
    type V = State;

    open spec fn deep_view(&self) -> State {
        State {
            control: self.control.deep_view(),
            stack: self.stack.deep_view(),
            budget: self.budget,
            logs: self.logs.deep_view(),
        }
    }
}

/// What an evaluation gives: the term or the error, what is left of the
/// budget, and the log.
pub struct Finished {
    pub result: Result<Term<NamedDeBruijn>, Error>,
    pub remaining: ExBudget,
    pub logs: Vec<String>,
}

impl DeepView for Finished {
    type V = Outcome;

    open spec fn deep_view(&self) -> Outcome {
        Outcome {
            result: match self.result {
                Ok(term) => Ok(term.deep_view()),
                Err(error) => Err(error),
            },
            remaining: self.remaining,
            logs: self.logs.deep_view(),
        }
    }
}

pub enum Progressed<'a> {
    Next(Machine<'a>),
    Done(Finished),
}

impl<'a> DeepView for Progressed<'a> {
    type V = Progress;

    open spec fn deep_view(&self) -> Progress {
        match self {
            Progressed::Next(machine) => Progress::Next(machine.deep_view()),
            Progressed::Done(finished) => Progress::Done(finished.deep_view()),
        }
    }
}

fn fail<'a>(error: Error, budget: ExBudget, logs: Vec<String>) -> (r: Progressed<'a>)
    ensures
        r.deep_view() == failed(error, budget, logs.deep_view()),
{
    Progressed::Done(Finished { result: Err(error), remaining: budget, logs })
}

fn hand<'a>(value: Rc<Value<'a>>, stack: Vec<Frame<'a>>, budget: ExBudget, logs: Vec<String>) -> (r:
    Progressed<'a>)
    ensures
        r.deep_view() == returning(
            value.deep_view(),
            stack.deep_view(),
            budget,
            logs.deep_view(),
        ),
{
    Progressed::Next(Machine { control: Control::Return(value), stack, budget, logs })
}

fn go<'a>(
    term: &'a Term<NamedDeBruijn>,
    env: Env<'a>,
    stack: Vec<Frame<'a>>,
    budget: ExBudget,
    logs: Vec<String>,
) -> (r: Progressed<'a>)
    ensures
        r.deep_view() == computing(
            term.deep_view(),
            env.deep_view(),
            stack.deep_view(),
            budget,
            logs.deep_view(),
        ),
{
    Progressed::Next(Machine { control: Control::Compute(term, env), stack, budget, logs })
}

fn compute_step<'a>(
    term: &'a Term<NamedDeBruijn>,
    env: Env<'a>,
    stack: Vec<Frame<'a>>,
    budget: ExBudget,
    logs: Vec<String>,
) -> (r: Progressed<'a>)
    requires
        budget.valid(),
    ensures
        r.deep_view() == compute(
            term.deep_view(),
            env.deep_view(),
            stack.deep_view(),
            budget,
            logs.deep_view(),
        ),
{
    let mut budget = budget;
    let mut stack = stack;
    if !budget.spend(100, 23000) {
        return fail(Error::OutOfBudget, budget, logs);
    }
    match term {
        Term::Var(name) => match env.lookup(name.index.inner()) {
            Some(value) => hand(value, stack, budget, logs),
            None => fail(Error::FreeVariable(name.index.inner()), budget, logs),
        },
        Term::Delay(body) => hand(Rc::new(Value::Delay(body, env)), stack, budget, logs),
        Term::Lambda { parameter_name, body } => hand(
            Rc::new(Value::Lambda { parameter_name, body, env }),
            stack,
            budget,
            logs,
        ),
        Term::Apply { function, argument } => {
            push_item(&mut stack, Frame::Arg(env.share(), argument));
            go(function, env, stack, budget, logs)
        },
        Term::Constant(c) => hand(Rc::new(Value::Con(c.duplicate())), stack, budget, logs),
        Term::Force(body) => {
            push_item(&mut stack, Frame::Force);
            go(body, env, stack, budget, logs)
        },
        Term::Error => fail(Error::UserError, budget, logs),
        Term::Builtin(fun) => hand(
            Rc::new(Value::builtin(*fun, fun.force_count(), no_items())),
            stack,
            budget,
            logs,
        ),
    }
}

/// Spends what the function `fun` costs on arguments of the size `size`.
fn charge(budget: &mut ExBudget, fun: DefaultFunction, size: u128) -> (spent: bool)
    requires
        old(budget).valid(),
    ensures
        spent == old(budget).affords(builtin_cost(fun, size as nat)),
        spent ==> *final(budget) == old(budget).minus(builtin_cost(fun, size as nat)),
        !spent ==> *final(budget) == *old(budget),
        final(budget).valid(),
{
    let p = parameters(fun);
    let mem = match (p.mem_slope as u128).checked_mul(size) {
        Some(grown) => match (p.mem_base as u128).checked_add(grown) {
            Some(sum) => sum,
            None => { return false; },
        },
        None => { return false; },
    };
    let cpu = match (p.cpu_slope as u128).checked_mul(size) {
        Some(grown) => match (p.cpu_base as u128).checked_add(grown) {
            Some(sum) => sum,
            None => { return false; },
        },
        None => { return false; },
    };
    if mem > i64::MAX as u128 || cpu > i64::MAX as u128 {
        return false;
    }
    budget.spend(mem as u64, cpu as u64)
}

fn saturate_step<'a>(
    fun: DefaultFunction,
    args: Vec<Rc<Value<'a>>>,
    stack: Vec<Frame<'a>>,
    budget: ExBudget,
    logs: Vec<String>,
) -> (r: Progressed<'a>)
    requires
        budget.valid(),
        args@.len() <= fun.spec_arity(),
    ensures
        r.deep_view() == saturate(
            fun,
            args.deep_view(),
            stack.deep_view(),
            budget,
            logs.deep_view(),
        ),
{
    let mut budget = budget;
    let mut logs = logs;
    if args.len() < fun.arity() {
        return hand(Rc::new(Value::builtin(fun, 0, args)), stack, budget, logs);
    }
    let size = sizes(&args);
    if !charge(&mut budget, fun, size) {
        return fail(Error::OutOfBudget, budget, logs);
    }
    match call_builtin(fun, &args) {
        Ok((value, line)) => {
            match line {
                Some(line) => {
                    push_item(&mut logs, line);
                },
                None => {},
            }
            hand(value, stack, budget, logs)
        },
        Err(error) => fail(error, budget, logs),
    }
}

fn apply_step<'a>(
    function: Rc<Value<'a>>,
    argument: Rc<Value<'a>>,
    stack: Vec<Frame<'a>>,
    budget: ExBudget,
    logs: Vec<String>,
) -> (r: Progressed<'a>)
    requires
        budget.valid(),
    ensures
        r.deep_view() == apply(
            function.deep_view(),
            argument.deep_view(),
            stack.deep_view(),
            budget,
            logs.deep_view(),
        ),
{
    match &*function {
        Value::Lambda { body, env, .. } => go(body, env.bind(argument), stack, budget, logs),
        Value::Builtin { fun, forces, args } => {
            if *forces > 0 {
                return fail(Error::BuiltinFailure(*fun, Reason::MissingForce), budget, logs);
            }
            if args.len() >= fun.arity() {
                return fail(
                    Error::TypeMismatch(Type::Function, type_of(&function)),
                    budget,
                    logs,
                );
            }
            let ghost taken = function.deep_view()->Builtin_args;
            let mut all: Vec<Rc<Value<'a>>> = no_items();
            let mut i: usize = 0;
            while i < args.len()
                invariant
                    i <= args@.len(),
                    taken.len() == args@.len(),
                    forall|j: int| 0 <= j < args@.len() ==> taken[j] == args@[j].deep_view(),
                    all.deep_view() == taken.take(i as int),
                decreases args@.len() - i,
            {
                push_item(&mut all, share(&args[i]));
                i += 1;
                assert(all.deep_view() =~= taken.take(i as int));
            }
            assert(taken.take(taken.len() as int) =~= taken);
            push_item(&mut all, argument);
            saturate_step(*fun, all, stack, budget, logs)
        },
        _ => fail(Error::TypeMismatch(Type::Function, type_of(&function)), budget, logs),
    }
}

fn force_step<'a>(
    value: Rc<Value<'a>>,
    stack: Vec<Frame<'a>>,
    budget: ExBudget,
    logs: Vec<String>,
) -> (r: Progressed<'a>)
    requires
        budget.valid(),
    ensures
        r.deep_view() == force(value.deep_view(), stack.deep_view(), budget, logs.deep_view()),
{
    match &*value {
        Value::Delay(body, env) => go(body, env.share(), stack, budget, logs),
        Value::Builtin { fun, forces, args } => {
            if *forces == 0 {
                return fail(Error::BuiltinFailure(*fun, Reason::UnexpectedForce), budget, logs);
            }
            let ghost taken = value.deep_view()->Builtin_args;
            let mut all: Vec<Rc<Value<'a>>> = no_items();
            let mut i: usize = 0;
            while i < args.len()
                invariant
                    i <= args@.len(),
                    taken.len() == args@.len(),
                    forall|j: int| 0 <= j < args@.len() ==> taken[j] == args@[j].deep_view(),
                    all.deep_view() == taken.take(i as int),
                decreases args@.len() - i,
            {
                push_item(&mut all, share(&args[i]));
                i += 1;
                assert(all.deep_view() =~= taken.take(i as int));
            }
            assert(taken.take(taken.len() as int) =~= taken);
            hand(Rc::new(Value::builtin(*fun, *forces - 1, all)), stack, budget, logs)
        },
        _ => fail(Error::TypeMismatch(Type::Delay, type_of(&value)), budget, logs),
    }
}

fn give_step<'a>(
    value: Rc<Value<'a>>,
    stack: Vec<Frame<'a>>,
    budget: ExBudget,
    logs: Vec<String>,
) -> (r: Progressed<'a>)
    requires
        budget.valid(),
    ensures
        r.deep_view() == give(value.deep_view(), stack.deep_view(), budget, logs.deep_view()),
{
    let mut stack = stack;
    match pop_item(&mut stack) {
        None => Progressed::Done(
            Finished { result: Ok(discharge_value(&value)), remaining: budget, logs },
        ),
        Some(Frame::Arg(env, argument)) => {
            push_item(&mut stack, Frame::Fun(value));
            go(argument, env, stack, budget, logs)
        },
        Some(Frame::Fun(function)) => apply_step(function, value, stack, budget, logs),
        Some(Frame::Force) => force_step(value, stack, budget, logs),
    }
}

/// One step of the machine.
pub fn step_machine<'a>(machine: Machine<'a>) -> (r: Progressed<'a>)
    requires
        machine.budget.valid(),
    ensures
        r.deep_view() == step(machine.deep_view()),
{
    let Machine { control, stack, budget, logs } = machine;
    match control {
        Control::Compute(term, env) => compute_step(term, env, stack, budget, logs),
        Control::Return(value) => give_step(value, stack, budget, logs),
    }
}

/// Evaluates `term` under `budget`.
pub fn run_term<'a>(term: &'a Term<NamedDeBruijn>, budget: ExBudget) -> (r: Finished)
    requires
        budget.valid(),
    ensures
        r.deep_view() == evaluate(term.deep_view(), budget),
        r.remaining.valid(),
        r.remaining.mem <= budget.mem,
        r.remaining.cpu <= budget.cpu,
{
    let mut left = budget;
    if !left.spend(100, 100) {
        return Finished { result: Err(Error::OutOfBudget), remaining: left, logs: no_items() };
    }
    let mut machine = Machine {
        control: Control::Compute(term, Env::Empty),
        stack: no_items(),
        budget: left,
        logs: no_items(),
    };
    let ghost start = machine.deep_view();
    loop
        invariant
            machine.budget.valid(),
            machine.budget.mem <= budget.mem,
            machine.budget.cpu <= budget.cpu,
            run(machine.deep_view()) == run(start),
            evaluate(term.deep_view(), budget) == run(start),
        decreases machine.budget.cpu, rank(machine.deep_view()),
    {
        proof {
            steps_come_nearer(machine.deep_view());
        }
        match step_machine(machine) {
            Progressed::Done(finished) => {
                return finished;
            },
            Progressed::Next(next) => {
                machine = next;
            },
        }
    }
}

impl Program<NamedDeBruijn> {
    /// Evaluates the program under the default budget. Gives the term or
    /// the error, what the evaluation consumed, and the log.
    pub fn eval(&self) -> (r: (Result<Term<NamedDeBruijn>, Error>, ExBudget, Vec<String>))
        ensures
            ({
                let outcome = evaluate(self.term.deep_view(), default_budget());
                &&& match r.0 {
                    Ok(term) => outcome.result == Ok::<Code, Error>(term.deep_view()),
                    Err(error) => outcome.result == Err::<Code, Error>(error),
                }
                &&& r.1.mem == default_budget().mem - outcome.remaining.mem
                &&& r.1.cpu == default_budget().cpu - outcome.remaining.cpu
                &&& r.2.deep_view() == outcome.logs
            }),
            0 <= r.1.mem <= default_budget().mem,
            0 <= r.1.cpu <= default_budget().cpu,
    {
        let budget = ExBudget::default();
        let finished = run_term(&self.term, budget);
        let consumed = ExBudget {
            mem: budget.mem - finished.remaining.mem,
            cpu: budget.cpu - finished.remaining.cpu,
        };
        (finished.result, consumed, finished.logs)
    }
}

} // verus!
