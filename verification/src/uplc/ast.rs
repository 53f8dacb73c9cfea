//! The terms of Untyped Plutus Core, over several ways to name variables.
use vstd::prelude::*;
use vstd::std_specs::cmp::PartialEqSpecImpl;
use crate::uplc::builtins::DefaultFunction;

verus! {

/// What tells one variable from another after the names were interned.
#[derive(Clone, Copy, Debug, PartialEq, Eq, Structural)]
pub struct Unique(pub isize);

impl DeepView for Unique {
    type V = Unique;

    open spec fn deep_view(&self) -> Unique {
        *self
    }
}

impl Unique {
    pub fn new(unique: isize) -> (r: Unique)
        ensures
            r == Unique(unique),
    {
        Unique(unique)
    }

    pub fn unique(&self) -> (r: isize)
        ensures
            r == self.0,
    {
        self.0
    }

    pub fn increment(&mut self)
        requires
            old(self).0 < isize::MAX,
        ensures
            final(self).0 == old(self).0 + 1,
    {
        self.0 = self.0 + 1;
    }
}

/// A variable by its text and its unique. Two names are the same variable
/// where their uniques are equal, whatever their texts.
#[derive(Debug)]
pub struct Name {
    pub text: String,
    pub unique: Unique,
}

pub struct NameView {
    pub text: Seq<char>,
    pub unique: Unique,
}

impl DeepView for Name {
    type V = NameView;

    open spec fn deep_view(&self) -> NameView {
        NameView { text: self.text@, unique: self.unique }
    }
}

impl PartialEq for Name {
    fn eq(&self, other: &Name) -> (r: bool) {
        self.unique.0 == other.unique.0
    }
}

impl PartialEqSpecImpl for Name {
    open spec fn obeys_eq_spec() -> bool {
        true
    }

    open spec fn eq_spec(&self, other: &Name) -> bool {
        self.unique.0 == other.unique.0
    }
}

/// The number of binders between a variable and its own, counted from 1.
#[derive(Clone, Copy, Debug, PartialEq, Eq, Structural)]
pub struct DeBruijn(pub usize);

impl DeepView for DeBruijn {
    type V = DeBruijn;

    open spec fn deep_view(&self) -> DeBruijn {
        *self
    }
}

impl DeBruijn {
    pub fn new(index: usize) -> (r: DeBruijn)
        ensures
            r == DeBruijn(index),
    {
        DeBruijn(index)
    }

    pub fn inner(&self) -> (r: usize)
        ensures
            r == self.0,
    {
        self.0
    }
}

/// A variable by its index, with the text it had in the source.
#[derive(Debug, PartialEq)]
pub struct NamedDeBruijn {
    pub text: String,
    pub index: DeBruijn,
}

pub struct NamedDeBruijnView {
    pub text: Seq<char>,
    pub index: DeBruijn,
}

impl DeepView for NamedDeBruijn {
    type V = NamedDeBruijnView;

    open spec fn deep_view(&self) -> NamedDeBruijnView {
        NamedDeBruijnView { text: self.text@, index: self.index }
    }
}

/// A variable that was read by its index alone and given a text for show.
#[derive(Debug, PartialEq)]
pub struct FakeNamedDeBruijn(pub NamedDeBruijn);

impl DeepView for FakeNamedDeBruijn {
    type V = NamedDeBruijnView;

    open spec fn deep_view(&self) -> NamedDeBruijnView {
        self.0.deep_view()
    }
}

#[derive(Debug, PartialEq)]
pub enum Constant {
    Integer(isize),
    ByteString(Vec<u8>),
    String(String),
    Unit,
    Bool(bool),
}

pub enum ConstantView {
    Integer(int),
    ByteString(Seq<u8>),
    String(Seq<char>),
    Unit,
    Bool(bool),
}

impl DeepView for Constant {
    type V = ConstantView;

    open spec fn deep_view(&self) -> ConstantView {
        match self {
            Constant::Integer(i) => ConstantView::Integer(*i as int),
            Constant::ByteString(b) => ConstantView::ByteString(b@),
            Constant::String(s) => ConstantView::String(s@),
            Constant::Unit => ConstantView::Unit,
            Constant::Bool(b) => ConstantView::Bool(*b),
        }
    }
}

impl Constant {
    /// A copy of the constant.
    pub fn duplicate(&self) -> (r: Constant)
        ensures
            r.deep_view() == self.deep_view(),
    {
        match self {
            Constant::Integer(i) => Constant::Integer(*i),
            Constant::ByteString(b) => {
                let mut bytes: Vec<u8> = Vec::new();
                let mut i: usize = 0;
                while i < b.len()
                    invariant
                        i <= b@.len(),
                        bytes@ == b@.take(i as int),
                    decreases b@.len() - i,
                {
                    bytes.push(b[i]);
                    i += 1;
                    assert(bytes@ =~= b@.take(i as int));
                }
                assert(b@.take(b@.len() as int) =~= b@);
                Constant::ByteString(bytes)
            },
            Constant::String(s) => Constant::String(s.clone()),
            Constant::Unit => Constant::Unit,
            Constant::Bool(b) => Constant::Bool(*b),
        }
    }
}

#[derive(Debug, PartialEq)]
#[allow(inconsistent_fields)]
pub enum Term<T> {
    Var(T),
    Delay(Box<Term<T>>),
    Lambda { parameter_name: T, body: Box<Term<T>> },
    Apply { function: Box<Term<T>>, argument: Box<Term<T>> },
    Constant(Constant),
    Force(Box<Term<T>>),
    Error,
    Builtin(DefaultFunction),
}

#[allow(inconsistent_fields)]
pub enum TermView<V> {
    Var(V),
    Delay(Box<TermView<V>>),
    Lambda { parameter_name: V, body: Box<TermView<V>> },
    Apply { function: Box<TermView<V>>, argument: Box<TermView<V>> },
    Constant(ConstantView),
    Force(Box<TermView<V>>),
    Error,
    Builtin(DefaultFunction),
}

pub open spec fn term_view<T: DeepView>(t: Term<T>) -> TermView<T::V>
    decreases t,
{
    match t {
        Term::Var(name) => TermView::Var(name.deep_view()),
        Term::Delay(body) => TermView::Delay(Box::new(term_view(*body))),
        Term::Lambda { parameter_name, body } => TermView::Lambda {
            parameter_name: parameter_name.deep_view(),
            body: Box::new(term_view(*body)),
        },
        Term::Apply { function, argument } => TermView::Apply {
            function: Box::new(term_view(*function)),
            argument: Box::new(term_view(*argument)),
        },
        Term::Constant(c) => TermView::Constant(c.deep_view()),
        Term::Force(body) => TermView::Force(Box::new(term_view(*body))),
        Term::Error => TermView::Error,
        Term::Builtin(fun) => TermView::Builtin(fun),
    }
}

impl<T: DeepView> DeepView for Term<T> {
    type V = TermView<T::V>;

    open spec fn deep_view(&self) -> TermView<T::V> {
        term_view(*self)
    }
}

/// A term with the version of the language that it is written in.
#[derive(Debug, PartialEq)]
pub struct Program<T> {
    pub version: (usize, usize, usize),
    pub term: Term<T>,
}

pub struct ProgramView<V> {
    pub version: (usize, usize, usize),
    pub term: TermView<V>,
}

impl<T: DeepView> DeepView for Program<T> {
    type V = ProgramView<T::V>;

    open spec fn deep_view(&self) -> ProgramView<T::V> {
        ProgramView { version: self.version, term: self.term.deep_view() }
    }
}

impl<T: DeepView> Program<T> {
    /// The program that applies this one to `term`.
    pub fn apply_term(self, term: Term<T>) -> (r: Program<T>)
        ensures
            r.deep_view() == (ProgramView {
                version: self.version,
                term: TermView::Apply {
                    function: Box::new(self.term.deep_view()),
                    argument: Box::new(term.deep_view()),
                },
            }),
    {
        Program {
            version: self.version,
            term: Term::Apply { function: Box::new(self.term), argument: Box::new(term) },
        }
    }
}

impl NamedDeBruijn {
    /// A copy of the variable.
    pub fn duplicate(&self) -> (r: NamedDeBruijn)
        ensures
            r.deep_view() == self.deep_view(),
    {
        NamedDeBruijn { text: self.text.clone(), index: self.index }
    }
}

impl Term<NamedDeBruijn> {
    /// A copy of the term.
    pub fn duplicate(&self) -> (r: Term<NamedDeBruijn>)
        ensures
            r.deep_view() == self.deep_view(),
        decreases self,
    {
        match self {
            Term::Var(name) => Term::Var(name.duplicate()),
            Term::Delay(body) => Term::Delay(Box::new(body.duplicate())),
            Term::Lambda { parameter_name, body } => Term::Lambda {
                parameter_name: parameter_name.duplicate(),
                body: Box::new(body.duplicate()),
            },
            Term::Apply { function, argument } => Term::Apply {
                function: Box::new(function.duplicate()),
                argument: Box::new(argument.duplicate()),
            },
            Term::Constant(c) => Term::Constant(c.duplicate()),
            Term::Force(body) => Term::Force(Box::new(body.duplicate())),
            Term::Error => Term::Error,
            Term::Builtin(fun) => Term::Builtin(*fun),
        }
    }
}

} // verus!
