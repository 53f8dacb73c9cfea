//! From the value that an evaluation ends with back to a term.
use vstd::prelude::*;
use crate::uplc::ast::{NamedDeBruijn, Term, TermView};
use crate::uplc::machine::value::{Code, Env, Value, ValueView};

verus! {

/// `term` under `n` forces.
pub open spec fn forced(term: Code, n: nat) -> Code
    decreases n,
{
    if n == 0 {
        term
    } else {
        TermView::Force(Box::new(forced(term, (n - 1) as nat)))
    }
}

/// The number of nodes of the term.
pub open spec fn code_size(term: Code) -> nat
    decreases term,
{
    match term {
        TermView::Delay(body) => 1 + code_size(*body),
        TermView::Lambda { body, .. } => 1 + code_size(*body),
        TermView::Apply { function, argument } => 1 + code_size(*function) + code_size(*argument),
        TermView::Force(body) => 1 + code_size(*body),
        _ => 1,
    }
}

/// One more than `depth`, as far as the machine counts.
pub open spec fn deeper(depth: usize) -> usize {
    if depth < usize::MAX {
        (depth + 1) as usize
    } else {
        depth
    }
}

/// The term that the value stands for: a constant is itself; a delayed
/// term and a function are their term, with the values of their
/// environment in the place of its variables; a built-in function is
/// itself under the forces it has taken, applied to the arguments it has
/// taken.
pub open spec fn discharge(value: ValueView) -> Code
    decreases value, 0nat,
{
    match value {
        ValueView::Con(c) => TermView::Constant(c),
        ValueView::Delay(body, env) => TermView::Delay(Box::new(with_env(body, env, 0))),
        ValueView::Lambda { parameter_name, body, env } => TermView::Lambda {
            parameter_name,
            body: Box::new(with_env(body, env, 1)),
        },
        ValueView::Builtin { fun, forces, args } => applied(
            forced(
                TermView::Builtin(fun),
                if forces <= fun.spec_force_count() {
                    (fun.spec_force_count() - forces) as nat
                } else {
                    0
                },
            ),
            args,
            args.len(),
        ),
    }
}

/// `term` applied to the terms of the first `n` of `args`, one after the
/// other.
pub open spec fn applied(term: Code, args: Seq<ValueView>, n: nat) -> Code
    decreases args, n,
{
    if n == 0 || n > args.len() {
        term
    } else {
        TermView::Apply {
            function: Box::new(applied(term, args, (n - 1) as nat)),
            argument: Box::new(discharge(args[n - 1])),
        }
    }
}

/// `term`, which stands under `depth` binders of its own, with the terms
/// of the values of `env` in the place of the variables that `env` binds.
pub open spec fn with_env(term: Code, env: Seq<ValueView>, depth: usize) -> Code
    decreases env, code_size(term),
{
    match term {
        TermView::Var(name) => if depth < name.index.0 && name.index.0 - depth <= env.len() {
            discharge(env[name.index.0 - depth - 1])
        } else {
            term
        },
        TermView::Delay(body) => TermView::Delay(Box::new(with_env(*body, env, depth))),
        TermView::Lambda { parameter_name, body } => TermView::Lambda {
            parameter_name,
            body: Box::new(with_env(*body, env, deeper(depth))),
        },
        TermView::Apply { function, argument } => TermView::Apply {
            function: Box::new(with_env(*function, env, depth)),
            argument: Box::new(with_env(*argument, env, depth)),
        },
        TermView::Force(body) => TermView::Force(Box::new(with_env(*body, env, depth))),
        _ => term,
    }
}

pub fn discharge_value<'a>(value: &Value<'a>) -> (term: Term<NamedDeBruijn>)
    ensures
        term.deep_view() == discharge(value.deep_view()),
    decreases value.deep_view(), 0nat,
{
    match value {
        Value::Con(c) => Term::Constant(c.duplicate()),
        Value::Delay(body, env) => Term::Delay(Box::new(substitute(body, env, 0))),
        Value::Lambda { parameter_name, body, env } => Term::Lambda {
            parameter_name: parameter_name.duplicate(),
            body: Box::new(substitute(body, env, 1)),
        },
        Value::Builtin { fun, forces, args } => {
            let mut term: Term<NamedDeBruijn> = Term::Builtin(*fun);
            let count = fun.force_count();
            let taken = if *forces <= count {
                count - *forces
            } else {
                0
            };
            let mut k: usize = 0;
            while k < taken
                invariant
                    k <= taken,
                    term.deep_view() == forced(TermView::Builtin(*fun), k as nat),
                decreases taken - k,
            {
                term = Term::Force(Box::new(term));
                k += 1;
            }
            let ghost base = term.deep_view();
            let ghost all = value.deep_view()->Builtin_args;
            let mut i: usize = 0;
            while i < args.len()
                invariant
                    i <= args@.len(),
                    all.len() == args@.len(),
                    value.deep_view() is Builtin,
                    all == value.deep_view()->Builtin_args,
                    forall|j: int| 0 <= j < args@.len() ==> all[j] == args@[j].deep_view(),
                    term.deep_view() == applied(base, all, i as nat),
                decreases args@.len() - i,
            {
                assert(all[i as int] == args@[i as int].deep_view());
                let argument = discharge_value(&args[i]);
                term = Term::Apply { function: Box::new(term), argument: Box::new(argument) };
                i += 1;
            }
            term
        },
    }
}

pub fn substitute<'a>(term: &Term<NamedDeBruijn>, env: &Env<'a>, depth: usize) -> (r: Term<
    NamedDeBruijn,
>)
    ensures
        r.deep_view() == with_env(term.deep_view(), env.deep_view(), depth),
    decreases env.deep_view(), code_size(term.deep_view()),
{
    match term {
        Term::Var(name) => {
            let index = name.index.inner();
            if depth < index {
                match env.lookup(index - depth) {
                    Some(value) => discharge_value(&value),
                    None => term.duplicate(),
                }
            } else {
                term.duplicate()
            }
        },
        Term::Delay(body) => Term::Delay(Box::new(substitute(body, env, depth))),
        Term::Lambda { parameter_name, body } => {
            let inner = if depth < usize::MAX {
                depth + 1
            } else {
                depth
            };
            Term::Lambda {
                parameter_name: parameter_name.duplicate(),
                body: Box::new(substitute(body, env, inner)),
            }
        },
        Term::Apply { function, argument } => Term::Apply {
            function: Box::new(substitute(function, env, depth)),
            argument: Box::new(substitute(argument, env, depth)),
        },
        Term::Force(body) => Term::Force(Box::new(substitute(body, env, depth))),
        _ => term.duplicate(),
    }
}

} // verus!
