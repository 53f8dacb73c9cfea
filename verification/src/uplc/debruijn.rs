//! From one way to name variables to another.
use vstd::prelude::*;
use crate::uplc::ast::{
    DeBruijn,
    FakeNamedDeBruijn,
    Name,
    NameView,
    NamedDeBruijn,
    NamedDeBruijnView,
    Program,
    Term,
    TermView,
    Unique,
};

verus! {

#[derive(Clone, Copy, Debug, PartialEq, Eq, Structural)]
pub enum Error {
    /// A variable with this unique stands under no binder of it.
    FreeUnique(Unique),
    /// A variable has this index, which reaches beyond the binders it
    /// stands under, or is none.
    FreeIndex(DeBruijn),
    /// The binders are nested deeper than there are uniques.
    TooDeep,
}

/// `index`, where there is one, grown by `by`.
pub open spec fn shifted(index: Option<nat>, by: nat) -> Option<nat> {
    match index {
        Some(i) => Some(i + by),
        None => None,
    }
}

/// The index of the variable `unique` under the binders `scope`, the
/// innermost of which is the last: 1 for the innermost, and nothing where
/// none of them binds it.
pub open spec fn index_of(scope: Seq<Unique>, unique: Unique) -> Option<nat>
    decreases scope.len(),
{
    if scope.len() == 0 {
        None
    } else if scope.last() == unique {
        Some(1)
    } else {
        shifted(index_of(scope.drop_last(), unique), 1)
    }
}

/// The term with each variable named by the index of its binder. The
/// parameter of a function gets the index 0. The first variable without a
/// binder is the error.
pub open spec fn indexed(term: TermView<NameView>, scope: Seq<Unique>) -> Result<
    TermView<NamedDeBruijnView>,
    Error,
>
    decreases term,
{
    match term {
        TermView::Var(name) => match index_of(scope, name.unique) {
            Some(i) => Ok(
                TermView::Var(NamedDeBruijnView { text: name.text, index: DeBruijn(i as usize) }),
            ),
            None => Err(Error::FreeUnique(name.unique)),
        },
        TermView::Delay(body) => match indexed(*body, scope) {
            Ok(b) => Ok(TermView::Delay(Box::new(b))),
            Err(e) => Err(e),
        },
        TermView::Lambda { parameter_name, body } => match indexed(
            *body,
            scope.push(parameter_name.unique),
        ) {
            Ok(b) => Ok(
                TermView::Lambda {
                    parameter_name: NamedDeBruijnView {
                        text: parameter_name.text,
                        index: DeBruijn(0),
                    },
                    body: Box::new(b),
                },
            ),
            Err(e) => Err(e),
        },
        TermView::Apply { function, argument } => match indexed(*function, scope) {
            Ok(f) => match indexed(*argument, scope) {
                Ok(a) => Ok(TermView::Apply { function: Box::new(f), argument: Box::new(a) }),
                Err(e) => Err(e),
            },
            Err(e) => Err(e),
        },
        TermView::Constant(c) => Ok(TermView::Constant(c)),
        TermView::Force(body) => match indexed(*body, scope) {
            Ok(b) => Ok(TermView::Force(Box::new(b))),
            Err(e) => Err(e),
        },
        TermView::Error => Ok(TermView::Error),
        TermView::Builtin(fun) => Ok(TermView::Builtin(fun)),
    }
}

/// The term with each variable named by the level of its binder, which is
/// the number of binders around that binder, where the term stands under
/// `depth` binders. The first variable whose index reaches beyond the
/// binders is the error.
pub open spec fn levelled(term: TermView<NamedDeBruijnView>, depth: nat) -> Result<
    TermView<NameView>,
    Error,
>
    decreases term,
{
    match term {
        TermView::Var(name) => if 1 <= name.index.0 <= depth {
            Ok(
                TermView::Var(
                    NameView { text: name.text, unique: Unique((depth - name.index.0) as isize) },
                ),
            )
        } else {
            Err(Error::FreeIndex(name.index))
        },
        TermView::Delay(body) => match levelled(*body, depth) {
            Ok(b) => Ok(TermView::Delay(Box::new(b))),
            Err(e) => Err(e),
        },
        TermView::Lambda { parameter_name, body } => match levelled(*body, depth + 1) {
            _ if depth >= isize::MAX => Err(Error::TooDeep),
            Ok(b) => Ok(
                TermView::Lambda {
                    parameter_name: NameView {
                        text: parameter_name.text,
                        unique: Unique(depth as isize),
                    },
                    body: Box::new(b),
                },
            ),
            Err(e) => Err(e),
        },
        TermView::Apply { function, argument } => match levelled(*function, depth) {
            Ok(f) => match levelled(*argument, depth) {
                Ok(a) => Ok(TermView::Apply { function: Box::new(f), argument: Box::new(a) }),
                Err(e) => Err(e),
            },
            Err(e) => Err(e),
        },
        TermView::Constant(c) => Ok(TermView::Constant(c)),
        TermView::Force(body) => match levelled(*body, depth) {
            Ok(b) => Ok(TermView::Force(Box::new(b))),
            Err(e) => Err(e),
        },
        TermView::Error => Ok(TermView::Error),
        TermView::Builtin(fun) => Ok(TermView::Builtin(fun)),
    }
}

/// The term with the texts of its variables left out.
pub open spec fn unnamed(term: TermView<NamedDeBruijnView>) -> TermView<DeBruijn>
    decreases term,
{
    match term {
        TermView::Var(name) => TermView::Var(name.index),
        TermView::Delay(body) => TermView::Delay(Box::new(unnamed(*body))),
        TermView::Lambda { parameter_name, body } => TermView::Lambda {
            parameter_name: parameter_name.index,
            body: Box::new(unnamed(*body)),
        },
        TermView::Apply { function, argument } => TermView::Apply {
            function: Box::new(unnamed(*function)),
            argument: Box::new(unnamed(*argument)),
        },
        TermView::Constant(c) => TermView::Constant(c),
        TermView::Force(body) => TermView::Force(Box::new(unnamed(*body))),
        TermView::Error => TermView::Error,
        TermView::Builtin(fun) => TermView::Builtin(fun),
    }
}

fn find(scope: &Vec<Unique>, unique: Unique) -> (r: Option<usize>)
    ensures
        match r {
            Some(i) => index_of(scope@, unique) == Some(i as nat),
            None => index_of(scope@, unique) is None,
        },
{
    let mut n: usize = scope.len();
    assert(scope@.take(n as int) =~= scope@);
    while n > 0
        invariant
            n <= scope@.len(),
            index_of(scope@, unique) == shifted(
                index_of(scope@.take(n as int), unique),
                (scope@.len() - n) as nat,
            ),
        decreases n,
    {
        if scope[n - 1].unique() == unique.unique() {
            assert(scope@.take(n as int).last() == unique);
            return Some(scope.len() - n + 1);
        }
        proof {
            assert(scope@.take(n as int).drop_last() =~= scope@.take(n - 1));
        }
        n -= 1;
    }
    None
}

impl Term<Name> {
    /// The term with each variable named by the index of its binder, where
    /// the term stands under the binders `scope`.
    pub fn to_named_debruijn(self, scope: &mut Vec<Unique>) -> (r: Result<
        Term<NamedDeBruijn>,
        Error,
    >)
        ensures
            final(scope)@ == old(scope)@,
            match r {
                Ok(term) => indexed(self.deep_view(), old(scope)@) == Ok::<
                    TermView<NamedDeBruijnView>,
                    Error,
                >(term.deep_view()),
                Err(e) => indexed(self.deep_view(), old(scope)@) == Err::<
                    TermView<NamedDeBruijnView>,
                    Error,
                >(e),
            },
        decreases self,
    {
        match self {
            Term::Var(name) => match find(scope, name.unique) {
                Some(i) => Ok(Term::Var(NamedDeBruijn { text: name.text, index: DeBruijn(i) })),
                None => Err(Error::FreeUnique(name.unique)),
            },
            Term::Delay(body) => match (*body).to_named_debruijn(scope) {
                Ok(b) => Ok(Term::Delay(Box::new(b))),
                Err(e) => Err(e),
            },
            Term::Lambda { parameter_name, body } => {
                scope.push(parameter_name.unique);
                let converted = (*body).to_named_debruijn(scope);
                scope.pop();
                assert(scope@ =~= old(scope)@);
                match converted {
                    Ok(b) => Ok(
                        Term::Lambda {
                            parameter_name: NamedDeBruijn {
                                text: parameter_name.text,
                                index: DeBruijn(0),
                            },
                            body: Box::new(b),
                        },
                    ),
                    Err(e) => Err(e),
                }
            },
            Term::Apply { function, argument } => {
                let f = match (*function).to_named_debruijn(scope) {
                    Ok(f) => f,
                    Err(e) => { return Err(e); },
                };
                match (*argument).to_named_debruijn(scope) {
                    Ok(a) => Ok(Term::Apply { function: Box::new(f), argument: Box::new(a) }),
                    Err(e) => Err(e),
                }
            },
            Term::Constant(c) => Ok(Term::Constant(c)),
            Term::Force(body) => match (*body).to_named_debruijn(scope) {
                Ok(b) => Ok(Term::Force(Box::new(b))),
                Err(e) => Err(e),
            },
            Term::Error => Ok(Term::Error),
            Term::Builtin(fun) => Ok(Term::Builtin(fun)),
        }
    }
}

impl Term<NamedDeBruijn> {
    /// The term with each variable named by the level of its binder, where
    /// the term stands under `depth` binders.
    pub fn to_name(self, depth: usize) -> (r: Result<Term<Name>, Error>)
        requires
            depth <= isize::MAX,
        ensures
            match r {
                Ok(term) => levelled(self.deep_view(), depth as nat) == Ok::<
                    TermView<NameView>,
                    Error,
                >(term.deep_view()),
                Err(e) => levelled(self.deep_view(), depth as nat) == Err::<
                    TermView<NameView>,
                    Error,
                >(e),
            },
        decreases self,
    {
        match self {
            Term::Var(name) => {
                let index = name.index.inner();
                if 1 <= index && index <= depth {
                    Ok(
                        Term::Var(
                            Name { text: name.text, unique: Unique((depth - index) as isize) },
                        ),
                    )
                } else {
                    Err(Error::FreeIndex(name.index))
                }
            },
            Term::Delay(body) => match (*body).to_name(depth) {
                Ok(b) => Ok(Term::Delay(Box::new(b))),
                Err(e) => Err(e),
            },
            Term::Lambda { parameter_name, body } => {
                if depth >= isize::MAX as usize {
                    return Err(Error::TooDeep);
                }
                match (*body).to_name(depth + 1) {
                    Ok(b) => Ok(
                        Term::Lambda {
                            parameter_name: Name {
                                text: parameter_name.text,
                                unique: Unique(depth as isize),
                            },
                            body: Box::new(b),
                        },
                    ),
                    Err(e) => Err(e),
                }
            },
            Term::Apply { function, argument } => {
                let f = match (*function).to_name(depth) {
                    Ok(f) => f,
                    Err(e) => { return Err(e); },
                };
                match (*argument).to_name(depth) {
                    Ok(a) => Ok(Term::Apply { function: Box::new(f), argument: Box::new(a) }),
                    Err(e) => Err(e),
                }
            },
            Term::Constant(c) => Ok(Term::Constant(c)),
            Term::Force(body) => match (*body).to_name(depth) {
                Ok(b) => Ok(Term::Force(Box::new(b))),
                Err(e) => Err(e),
            },
            Term::Error => Ok(Term::Error),
            Term::Builtin(fun) => Ok(Term::Builtin(fun)),
        }
    }

    /// The term with the texts of its variables left out.
    pub fn to_debruijn(self) -> (r: Term<DeBruijn>)
        ensures
            r.deep_view() == unnamed(self.deep_view()),
        decreases self,
    {
        match self {
            Term::Var(name) => Term::Var(name.index),
            Term::Delay(body) => Term::Delay(Box::new((*body).to_debruijn())),
            Term::Lambda { parameter_name, body } => Term::Lambda {
                parameter_name: parameter_name.index,
                body: Box::new((*body).to_debruijn()),
            },
            Term::Apply { function, argument } => Term::Apply {
                function: Box::new((*function).to_debruijn()),
                argument: Box::new((*argument).to_debruijn()),
            },
            Term::Constant(c) => Term::Constant(c),
            Term::Force(body) => Term::Force(Box::new((*body).to_debruijn())),
            Term::Error => Term::Error,
            Term::Builtin(fun) => Term::Builtin(fun),
        }
    }
}

impl Term<FakeNamedDeBruijn> {
    /// The same term, its variables taken for what they are.
    pub fn to_named_debruijn(self) -> (r: Term<NamedDeBruijn>)
        ensures
            r.deep_view() == self.deep_view(),
        decreases self,
    {
        match self {
            Term::Var(name) => Term::Var(name.0),
            Term::Delay(body) => Term::Delay(Box::new((*body).to_named_debruijn())),
            Term::Lambda { parameter_name, body } => Term::Lambda {
                parameter_name: parameter_name.0,
                body: Box::new((*body).to_named_debruijn()),
            },
            Term::Apply { function, argument } => Term::Apply {
                function: Box::new((*function).to_named_debruijn()),
                argument: Box::new((*argument).to_named_debruijn()),
            },
            Term::Constant(c) => Term::Constant(c),
            Term::Force(body) => Term::Force(Box::new((*body).to_named_debruijn())),
            Term::Error => Term::Error,
            Term::Builtin(fun) => Term::Builtin(fun),
        }
    }
}

/// The term with each variable given the text `i` for show.
pub open spec fn shown(term: TermView<DeBruijn>) -> TermView<NamedDeBruijnView>
    decreases term,
{
    match term {
        TermView::Var(index) => TermView::Var(NamedDeBruijnView { text: "i"@, index }),
        TermView::Delay(body) => TermView::Delay(Box::new(shown(*body))),
        TermView::Lambda { parameter_name, body } => TermView::Lambda {
            parameter_name: NamedDeBruijnView { text: "i"@, index: parameter_name },
            body: Box::new(shown(*body)),
        },
        TermView::Apply { function, argument } => TermView::Apply {
            function: Box::new(shown(*function)),
            argument: Box::new(shown(*argument)),
        },
        TermView::Constant(c) => TermView::Constant(c),
        TermView::Force(body) => TermView::Force(Box::new(shown(*body))),
        TermView::Error => TermView::Error,
        TermView::Builtin(fun) => TermView::Builtin(fun),
    }
}

/// To give the variables of a term a text and to leave the texts out
/// again changes nothing: the indices are kept.
pub proof fn indices_are_kept(term: TermView<DeBruijn>)
    ensures
        unnamed(shown(term)) == term,
    decreases term,
{
    match term {
        TermView::Delay(body) => indices_are_kept(*body),
        TermView::Lambda { parameter_name, body } => indices_are_kept(*body),
        TermView::Apply { function, argument } => {
            indices_are_kept(*function);
            indices_are_kept(*argument);
        },
        TermView::Force(body) => indices_are_kept(*body),
        _ => {},
    }
}

impl Term<DeBruijn> {
    /// The term with each variable given the text `i` for show.
    pub fn to_fake_named_debruijn(self) -> (r: Term<FakeNamedDeBruijn>)
        ensures
            r.deep_view() == shown(self.deep_view()),
        decreases self,
    {
        match self {
            Term::Var(index) => Term::Var(
                FakeNamedDeBruijn(NamedDeBruijn { text: "i".to_owned(), index }),
            ),
            Term::Delay(body) => Term::Delay(Box::new((*body).to_fake_named_debruijn())),
            Term::Lambda { parameter_name, body } => Term::Lambda {
                parameter_name: FakeNamedDeBruijn(
                    NamedDeBruijn { text: "i".to_owned(), index: parameter_name },
                ),
                body: Box::new((*body).to_fake_named_debruijn()),
            },
            Term::Apply { function, argument } => Term::Apply {
                function: Box::new((*function).to_fake_named_debruijn()),
                argument: Box::new((*argument).to_fake_named_debruijn()),
            },
            Term::Constant(c) => Term::Constant(c),
            Term::Force(body) => Term::Force(Box::new((*body).to_fake_named_debruijn())),
            Term::Error => Term::Error,
            Term::Builtin(fun) => Term::Builtin(fun),
        }
    }
}

impl Program<Name> {
    /// The program with each variable named by the index of its binder.
    pub fn to_named_debruijn(self) -> (r: Result<Program<NamedDeBruijn>, Error>)
        ensures
            match r {
                Ok(program) => indexed(self.term.deep_view(), Seq::empty()) == Ok::<
                    TermView<NamedDeBruijnView>,
                    Error,
                >(program.term.deep_view()) && program.version == self.version,
                Err(e) => indexed(self.term.deep_view(), Seq::empty()) == Err::<
                    TermView<NamedDeBruijnView>,
                    Error,
                >(e),
            },
    {
        let mut scope: Vec<Unique> = Vec::new();
        match self.term.to_named_debruijn(&mut scope) {
            Ok(term) => Ok(Program { version: self.version, term }),
            Err(e) => Err(e),
        }
    }
}

impl Program<FakeNamedDeBruijn> {
    /// The same program, its variables taken for what they are.
    pub fn to_named_debruijn(self) -> (r: Program<NamedDeBruijn>)
        ensures
            r.deep_view() == self.deep_view(),
    {
        Program { version: self.version, term: self.term.to_named_debruijn() }
    }
}

} // verus!
