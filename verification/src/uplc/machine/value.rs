//! The values of the machine and the environments that bind them.
use std::rc::Rc;
use vstd::prelude::*;
use crate::uplc::ast::{
    Constant,
    ConstantView,
    NamedDeBruijn,
    NamedDeBruijnView,
    Term,
    TermView,
};
use crate::uplc::builtins::DefaultFunction;
use crate::uplc::machine::error::Type;

verus! {

/// `Rc::clone`: another pointer to the same value.
#[verifier::external_body]
pub(crate) fn share<T>(rc: &Rc<T>) -> (r: Rc<T>)
    ensures
        r == *rc,
{
    rc.clone()
}

/// The values that variables are bound to, the innermost binder first.
pub enum Env<'a> {
    Empty,
    Bound(Rc<Binding<'a>>),
}

pub struct Binding<'a> {
    pub value: Rc<Value<'a>>,
    pub outer: Env<'a>,
}

#[allow(inconsistent_fields)]
pub enum Value<'a> {
    Con(Constant),
    Delay(&'a Term<NamedDeBruijn>, Env<'a>),
    Lambda { parameter_name: &'a NamedDeBruijn, body: &'a Term<NamedDeBruijn>, env: Env<'a> },
    Builtin { fun: DefaultFunction, forces: usize, args: Vec<Rc<Value<'a>>> },
}

pub type Code = TermView<NamedDeBruijnView>;

#[allow(inconsistent_fields)]
pub enum ValueView {
    Con(ConstantView),
    Delay(Code, Seq<ValueView>),
    Lambda { parameter_name: NamedDeBruijnView, body: Code, env: Seq<ValueView> },
    Builtin { fun: DefaultFunction, forces: nat, args: Seq<ValueView> },
}

pub open spec fn env_view(env: Env) -> Seq<ValueView>
    decreases env,
{
    match env {
        Env::Empty => Seq::empty(),
        Env::Bound(binding) => seq![value_view(*binding.value)] + env_view(binding.outer),
    }
}

pub open spec fn value_view(value: Value) -> ValueView
    decreases value,
{
    match value {
        Value::Con(c) => ValueView::Con(c.deep_view()),
        Value::Delay(body, env) => ValueView::Delay(body.deep_view(), env_view(env)),
        Value::Lambda { parameter_name, body, env } => ValueView::Lambda {
            parameter_name: parameter_name.deep_view(),
            body: body.deep_view(),
            env: env_view(env),
        },
        Value::Builtin { fun, forces, args } => ValueView::Builtin {
            fun,
            forces: forces as nat,
            args: Seq::new(
                args@.len(),
                |i: int|
                    if 0 <= i < args@.len() {
                        value_view(*args@[i])
                    } else {
                        arbitrary()
                    },
            ),
        },
    }
}

impl<'a> DeepView for Value<'a> {
    type V = ValueView;

    open spec fn deep_view(&self) -> ValueView {
        value_view(*self)
    }
}

impl<'a> DeepView for Env<'a> {
    type V = Seq<ValueView>;

    open spec fn deep_view(&self) -> Seq<ValueView> {
        env_view(*self)
    }
}

impl<'a> Env<'a> {
    /// Another handle on the same environment.
    pub fn share(&self) -> (r: Env<'a>)
        ensures
            r == *self,
    {
        match self {
            Env::Empty => Env::Empty,
            Env::Bound(binding) => Env::Bound(share(binding)),
        }
    }

    /// The environment that binds `value` inside this one.
    pub fn bind(&self, value: Rc<Value<'a>>) -> (r: Env<'a>)
        ensures
            r.deep_view() == seq![value.deep_view()] + self.deep_view(),
    {
        Env::Bound(Rc::new(Binding { value, outer: self.share() }))
    }

    /// The value that the variable of the index `index` is bound to.
    pub fn lookup(&self, index: usize) -> (r: Option<Rc<Value<'a>>>)
        ensures
            match r {
                Some(value) => 1 <= index <= self.deep_view().len() && value.deep_view()
                    == self.deep_view()[index - 1],
                None => index == 0 || index > self.deep_view().len(),
            },
        decreases self,
    {
        match self {
            Env::Empty => None,
            Env::Bound(binding) => {
                if index == 0 {
                    None
                } else if index == 1 {
                    Some(share(&binding.value))
                } else {
                    binding.outer.lookup(index - 1)
                }
            },
        }
    }
}

impl<'a> Value<'a> {
    /// A built-in function that still asks for `forces` forces and has
    /// taken `args`.
    pub fn builtin(fun: DefaultFunction, forces: usize, args: Vec<Rc<Value<'a>>>) -> (r: Value<'a>)
        ensures
            r.deep_view() == (ValueView::Builtin {
                fun,
                forces: forces as nat,
                args: args.deep_view(),
            }),
    {
        let ghost view = args.deep_view();
        let r = Value::Builtin { fun, forces, args };
        assert(r.deep_view()->Builtin_args =~= view);
        r
    }
}

impl ValueView {
    pub open spec fn type_of(self) -> Type {
        match self {
            ValueView::Con(ConstantView::Integer(_)) => Type::Integer,
            ValueView::Con(ConstantView::ByteString(_)) => Type::ByteString,
            ValueView::Con(ConstantView::String(_)) => Type::String,
            ValueView::Con(ConstantView::Unit) => Type::Unit,
            ValueView::Con(ConstantView::Bool(_)) => Type::Bool,
            ValueView::Delay(..) => Type::Delay,
            ValueView::Lambda { .. } => Type::Function,
            ValueView::Builtin { .. } => Type::Function,
        }
    }

    /// The size by which a built-in function is charged for the value: an
    /// integer counts 1, a byte string 1 for each 8 bytes it starts, a
    /// string its length, and anything else 1.
    pub open spec fn size(self) -> nat {
        match self {
            ValueView::Con(ConstantView::ByteString(b)) => b.len() / 8 + 1,
            ValueView::Con(ConstantView::String(s)) => s.len(),
            _ => 1,
        }
    }
}

/// The sizes of the values, added up.
pub open spec fn total_size(values: Seq<ValueView>) -> nat
    decreases values.len(),
{
    if values.len() == 0 {
        0
    } else {
        total_size(values.drop_last()) + values.last().size()
    }
}

/// What the machine goes on with when it has a value.
pub enum Frame<'a> {
    /// The value is a function: evaluate its argument, the term, in the
    /// environment.
    Arg(Env<'a>, &'a Term<NamedDeBruijn>),
    /// The value is the argument of this function.
    Fun(Rc<Value<'a>>),
    /// Force the value.
    Force,
}

pub enum FrameView {
    Arg(Seq<ValueView>, Code),
    Fun(ValueView),
    Force,
}

impl<'a> DeepView for Frame<'a> {
    type V = FrameView;

    open spec fn deep_view(&self) -> FrameView {
        match self {
            Frame::Arg(env, term) => FrameView::Arg(env.deep_view(), term.deep_view()),
            Frame::Fun(value) => FrameView::Fun(value.deep_view()),
            Frame::Force => FrameView::Force,
        }
    }
}

} // verus!
