//! What the built-in functions compute.
use std::rc::Rc;
use vstd::prelude::*;
use vstd::string::StringExecFns;
use crate::uplc::ast::{Constant, ConstantView};
use crate::uplc::builtins::DefaultFunction;
use crate::uplc::machine::error::{Error, Reason, Type};
use crate::uplc::machine::value::{Value, ValueView, share, total_size};

verus! {

/// What a built-in function gives: a value, and a line for the log where
/// the function writes one.
pub struct Returned {
    pub value: ValueView,
    pub log: Option<Seq<char>>,
}

pub open spec fn integer_of(v: ValueView) -> Result<int, Error> {
    match v {
        ValueView::Con(ConstantView::Integer(i)) => Ok(i),
        _ => Err(Error::TypeMismatch(Type::Integer, v.type_of())),
    }
}

pub open spec fn bytes_of(v: ValueView) -> Result<Seq<u8>, Error> {
    match v {
        ValueView::Con(ConstantView::ByteString(b)) => Ok(b),
        _ => Err(Error::TypeMismatch(Type::ByteString, v.type_of())),
    }
}

pub open spec fn string_of(v: ValueView) -> Result<Seq<char>, Error> {
    match v {
        ValueView::Con(ConstantView::String(s)) => Ok(s),
        _ => Err(Error::TypeMismatch(Type::String, v.type_of())),
    }
}

pub open spec fn bool_of(v: ValueView) -> Result<bool, Error> {
    match v {
        ValueView::Con(ConstantView::Bool(b)) => Ok(b),
        _ => Err(Error::TypeMismatch(Type::Bool, v.type_of())),
    }
}

pub open spec fn unit_of(v: ValueView) -> Result<(), Error> {
    match v {
        ValueView::Con(ConstantView::Unit) => Ok(()),
        _ => Err(Error::TypeMismatch(Type::Unit, v.type_of())),
    }
}

/// Whether `i` is a machine integer.
pub open spec fn fits(i: int) -> bool {
    isize::MIN <= i <= isize::MAX
}

/// What an integer function gives on `a` and `b`: an integer, or a truth
/// value for a comparison.
pub open spec fn integer_result(fun: DefaultFunction, a: int, b: int) -> Result<
    ConstantView,
    Reason,
> {
    let number = match fun {
        DefaultFunction::AddInteger => a + b,
        DefaultFunction::SubtractInteger => a - b,
        _ => a * b,
    };
    match fun {
        DefaultFunction::EqualsInteger => Ok(ConstantView::Bool(a == b)),
        DefaultFunction::LessThanInteger => Ok(ConstantView::Bool(a < b)),
        DefaultFunction::LessThanEqualsInteger => Ok(ConstantView::Bool(a <= b)),
        _ => if fits(number) {
            Ok(ConstantView::Integer(number))
        } else {
            Err(Reason::Overflow)
        },
    }
}

/// Whether `a` comes before `b` in the order of a dictionary.
pub open spec fn bytes_less(a: Seq<u8>, b: Seq<u8>) -> bool
    decreases a.len(),
{
    if b.len() == 0 {
        false
    } else if a.len() == 0 {
        true
    } else if a[0] != b[0] {
        a[0] < b[0]
    } else {
        bytes_less(a.drop_first(), b.drop_first())
    }
}

/// What a function of two byte strings gives on `a` and `b`.
pub open spec fn bytes_result(fun: DefaultFunction, a: Seq<u8>, b: Seq<u8>) -> ConstantView {
    match fun {
        DefaultFunction::AppendByteString => ConstantView::ByteString(a + b),
        DefaultFunction::EqualsByteString => ConstantView::Bool(a == b),
        DefaultFunction::LessThanByteString => ConstantView::Bool(bytes_less(a, b)),
        _ => ConstantView::Bool(a == b || bytes_less(a, b)),
    }
}

pub open spec fn plain(c: ConstantView) -> Result<Returned, Error> {
    Ok(Returned { value: ValueView::Con(c), log: None })
}

/// What the function `fun` gives on as many arguments as it takes. An
/// argument of another type than the function takes is a mismatch, the
/// first such argument counts. Pairs, lists and data are no values of this
/// machine, so the functions on them never find the argument they take.
pub open spec fn call(fun: DefaultFunction, args: Seq<ValueView>) -> Result<Returned, Error> {
    match fun {
        DefaultFunction::AddInteger
        | DefaultFunction::SubtractInteger
        | DefaultFunction::MultiplyInteger
        | DefaultFunction::EqualsInteger
        | DefaultFunction::LessThanInteger
        | DefaultFunction::LessThanEqualsInteger => match (
            integer_of(args[0]),
            integer_of(args[1]),
        ) {
            (Err(e), _) => Err(e),
            (_, Err(e)) => Err(e),
            (Ok(a), Ok(b)) => match integer_result(fun, a, b) {
                Ok(c) => plain(c),
                Err(reason) => Err(Error::BuiltinFailure(fun, reason)),
            },
        },
        DefaultFunction::AppendByteString
        | DefaultFunction::EqualsByteString
        | DefaultFunction::LessThanByteString
        | DefaultFunction::LessThanEqualsByteString => match (
            bytes_of(args[0]),
            bytes_of(args[1]),
        ) {
            (Err(e), _) => Err(e),
            (_, Err(e)) => Err(e),
            (Ok(a), Ok(b)) => plain(bytes_result(fun, a, b)),
        },
        DefaultFunction::ConsByteString => match (integer_of(args[0]), bytes_of(args[1])) {
            (Err(e), _) => Err(e),
            (_, Err(e)) => Err(e),
            (Ok(byte), Ok(b)) => if 0 <= byte <= 255 {
                plain(ConstantView::ByteString(seq![byte as u8] + b))
            } else {
                Err(Error::BuiltinFailure(fun, Reason::Overflow))
            },
        },
        DefaultFunction::LengthOfByteString => match bytes_of(args[0]) {
            Err(e) => Err(e),
            Ok(b) => if fits(b.len() as int) {
                plain(ConstantView::Integer(b.len() as int))
            } else {
                Err(Error::BuiltinFailure(fun, Reason::Overflow))
            },
        },
        DefaultFunction::IndexByteString => match (bytes_of(args[0]), integer_of(args[1])) {
            (Err(e), _) => Err(e),
            (_, Err(e)) => Err(e),
            (Ok(b), Ok(i)) => if 0 <= i < b.len() {
                plain(ConstantView::Integer(b[i] as int))
            } else {
                Err(Error::BuiltinFailure(fun, Reason::IndexOutOfRange))
            },
        },
        DefaultFunction::AppendString => match (string_of(args[0]), string_of(args[1])) {
            (Err(e), _) => Err(e),
            (_, Err(e)) => Err(e),
            (Ok(a), Ok(b)) => plain(ConstantView::String(a + b)),
        },
        DefaultFunction::EqualsString => match (string_of(args[0]), string_of(args[1])) {
            (Err(e), _) => Err(e),
            (_, Err(e)) => Err(e),
            (Ok(a), Ok(b)) => plain(ConstantView::Bool(a == b)),
        },
        DefaultFunction::IfThenElse => match bool_of(args[0]) {
            Err(e) => Err(e),
            Ok(condition) => Ok(
                Returned {
                    value: if condition {
                        args[1]
                    } else {
                        args[2]
                    },
                    log: None,
                },
            ),
        },
        DefaultFunction::ChooseUnit => match unit_of(args[0]) {
            Err(e) => Err(e),
            Ok(_) => Ok(Returned { value: args[1], log: None }),
        },
        DefaultFunction::Trace => match string_of(args[0]) {
            Err(e) => Err(e),
            Ok(line) => Ok(Returned { value: args[1], log: Some(line) }),
        },
        DefaultFunction::FstPair | DefaultFunction::SndPair => Err(
            Error::TypeMismatch(Type::Pair, args[0].type_of()),
        ),
        DefaultFunction::ChooseList
        | DefaultFunction::HeadList
        | DefaultFunction::TailList
        | DefaultFunction::NullList => Err(Error::TypeMismatch(Type::List, args[0].type_of())),
        DefaultFunction::ChooseData
        | DefaultFunction::UnIData
        | DefaultFunction::UnBData
        | DefaultFunction::EqualsData => Err(Error::TypeMismatch(Type::Data, args[0].type_of())),
    }
}

// ----------------------------------------------------------------- executable
pub fn type_of(v: &Value) -> (t: Type)
    ensures
        t == v.deep_view().type_of(),
{
    match v {
        Value::Con(Constant::Integer(_)) => Type::Integer,
        Value::Con(Constant::ByteString(_)) => Type::ByteString,
        Value::Con(Constant::String(_)) => Type::String,
        Value::Con(Constant::Unit) => Type::Unit,
        Value::Con(Constant::Bool(_)) => Type::Bool,
        Value::Delay(..) => Type::Delay,
        Value::Lambda { .. } => Type::Function,
        Value::Builtin { .. } => Type::Function,
    }
}

fn integer(v: &Value) -> (r: Result<isize, Error>)
    ensures
        match r {
            Ok(i) => integer_of(v.deep_view()) == Ok::<int, Error>(i as int),
            Err(e) => integer_of(v.deep_view()) == Err::<int, Error>(e),
        },
{
    match v {
        Value::Con(Constant::Integer(i)) => Ok(*i),
        _ => Err(Error::TypeMismatch(Type::Integer, type_of(v))),
    }
}

fn bytes<'b>(v: &'b Value) -> (r: Result<&'b Vec<u8>, Error>)
    ensures
        match r {
            Ok(b) => bytes_of(v.deep_view()) == Ok::<Seq<u8>, Error>(b@),
            Err(e) => bytes_of(v.deep_view()) == Err::<Seq<u8>, Error>(e),
        },
{
    match v {
        Value::Con(Constant::ByteString(b)) => Ok(b),
        _ => Err(Error::TypeMismatch(Type::ByteString, type_of(v))),
    }
}

fn string<'b>(v: &'b Value) -> (r: Result<&'b String, Error>)
    ensures
        match r {
            Ok(s) => string_of(v.deep_view()) == Ok::<Seq<char>, Error>(s@),
            Err(e) => string_of(v.deep_view()) == Err::<Seq<char>, Error>(e),
        },
{
    match v {
        Value::Con(Constant::String(s)) => Ok(s),
        _ => Err(Error::TypeMismatch(Type::String, type_of(v))),
    }
}

fn integer_op(fun: DefaultFunction, a: isize, b: isize) -> (r: Result<Constant, Reason>)
    ensures
        match r {
            Ok(c) => integer_result(fun, a as int, b as int) == Ok::<ConstantView, Reason>(
                c.deep_view(),
            ),
            Err(e) => integer_result(fun, a as int, b as int) == Err::<ConstantView, Reason>(e),
        },
{
    match fun {
        DefaultFunction::EqualsInteger => Ok(Constant::Bool(a == b)),
        DefaultFunction::LessThanInteger => Ok(Constant::Bool(a < b)),
        DefaultFunction::LessThanEqualsInteger => Ok(Constant::Bool(a <= b)),
        DefaultFunction::AddInteger => match a.checked_add(b) {
            Some(n) => Ok(Constant::Integer(n)),
            None => Err(Reason::Overflow),
        },
        DefaultFunction::SubtractInteger => match a.checked_sub(b) {
            Some(n) => Ok(Constant::Integer(n)),
            None => Err(Reason::Overflow),
        },
        _ => match a.checked_mul(b) {
            Some(n) => Ok(Constant::Integer(n)),
            None => Err(Reason::Overflow),
        },
    }
}

fn truth(v: &Value) -> (r: Result<bool, Error>)
    ensures
        match r {
            Ok(b) => bool_of(v.deep_view()) == Ok::<bool, Error>(b),
            Err(e) => bool_of(v.deep_view()) == Err::<bool, Error>(e),
        },
{
    match v {
        Value::Con(Constant::Bool(b)) => Ok(*b),
        _ => Err(Error::TypeMismatch(Type::Bool, type_of(v))),
    }
}

fn unit(v: &Value) -> (r: Result<(), Error>)
    ensures
        match r {
            Ok(_) => unit_of(v.deep_view()) == Ok::<(), Error>(()),
            Err(e) => unit_of(v.deep_view()) == Err::<(), Error>(e),
        },
{
    match v {
        Value::Con(Constant::Unit) => Ok(()),
        _ => Err(Error::TypeMismatch(Type::Unit, type_of(v))),
    }
}

fn append_bytes(a: &Vec<u8>, b: &Vec<u8>) -> (r: Vec<u8>)
    ensures
        r@ == a@ + b@,
{
    let mut r: Vec<u8> = Vec::new();
    let mut i: usize = 0;
    while i < a.len()
        invariant
            i <= a@.len(),
            r@ == a@.take(i as int),
        decreases a@.len() - i,
    {
        r.push(a[i]);
        i += 1;
        assert(r@ =~= a@.take(i as int));
    }
    assert(a@.take(a@.len() as int) =~= a@);
    let mut j: usize = 0;
    while j < b.len()
        invariant
            j <= b@.len(),
            r@ == a@ + b@.take(j as int),
        decreases b@.len() - j,
    {
        r.push(b[j]);
        j += 1;
        assert(r@ =~= a@ + b@.take(j as int));
    }
    assert(b@.take(b@.len() as int) =~= b@);
    r
}

fn same_bytes(a: &Vec<u8>, b: &Vec<u8>) -> (r: bool)
    ensures
        r == (a@ == b@),
{
    if a.len() != b.len() {
        return false;
    }
    let mut i: usize = 0;
    while i < a.len()
        invariant
            a@.len() == b@.len(),
            i <= a@.len(),
            a@.take(i as int) == b@.take(i as int),
        decreases a@.len() - i,
    {
        if a[i] != b[i] {
            return false;
        }
        i += 1;
        assert(a@.take(i as int) =~= a@.take(i - 1).push(a@[i - 1]));
        assert(b@.take(i as int) =~= b@.take(i - 1).push(b@[i - 1]));
    }
    assert(a@.take(a@.len() as int) =~= a@);
    assert(b@.take(b@.len() as int) =~= b@);
    true
}

fn less_bytes(a: &Vec<u8>, b: &Vec<u8>) -> (r: bool)
    ensures
        r == bytes_less(a@, b@),
{
    let mut i: usize = 0;
    assert(a@.skip(0) =~= a@);
    assert(b@.skip(0) =~= b@);
    loop
        invariant
            i <= a@.len(),
            i <= b@.len(),
            bytes_less(a@, b@) == bytes_less(a@.skip(i as int), b@.skip(i as int)),
        decreases a@.len() - i,
    {
        if i >= b.len() {
            return false;
        }
        if i >= a.len() {
            return true;
        }
        assert(a@.skip(i as int)[0] == a@[i as int]);
        assert(b@.skip(i as int)[0] == b@[i as int]);
        if a[i] != b[i] {
            return a[i] < b[i];
        }
        assert(a@.skip(i as int).drop_first() =~= a@.skip(i + 1));
        assert(b@.skip(i as int).drop_first() =~= b@.skip(i + 1));
        i += 1;
    }
}

fn bytes_op(fun: DefaultFunction, a: &Vec<u8>, b: &Vec<u8>) -> (c: Constant)
    ensures
        c.deep_view() == bytes_result(fun, a@, b@),
{
    match fun {
        DefaultFunction::AppendByteString => Constant::ByteString(append_bytes(a, b)),
        DefaultFunction::EqualsByteString => Constant::Bool(same_bytes(a, b)),
        DefaultFunction::LessThanByteString => Constant::Bool(less_bytes(a, b)),
        _ => Constant::Bool(same_bytes(a, b) || less_bytes(a, b)),
    }
}

fn constant<'a>(c: Constant) -> (r: Result<(Rc<Value<'a>>, Option<String>), Error>)
    ensures
        agrees(r, plain(c.deep_view())),
{
    Ok((Rc::new(Value::Con(c)), None))
}

/// Whether what a built-in function gave is what it is to give.
pub open spec fn agrees(
    r: Result<(Rc<Value>, Option<String>), Error>,
    model: Result<Returned, Error>,
) -> bool {
    match r {
        Ok((value, log)) => model == Ok::<Returned, Error>(
            Returned { value: value.deep_view(), log: log.deep_view() },
        ),
        Err(e) => model == Err::<Returned, Error>(e),
    }
}

/// Calls the function `fun` on as many arguments as it takes.
pub fn call_builtin<'a>(fun: DefaultFunction, args: &Vec<Rc<Value<'a>>>) -> (r: Result<
    (Rc<Value<'a>>, Option<String>),
    Error,
>)
    requires
        args@.len() == fun.spec_arity(),
    ensures
        agrees(r, call(fun, args.deep_view())),
{
    assert(forall|i: int| 0 <= i < args@.len() ==> args.deep_view()[i] == args@[i].deep_view());
    match fun {
        DefaultFunction::AddInteger
        | DefaultFunction::SubtractInteger
        | DefaultFunction::MultiplyInteger
        | DefaultFunction::EqualsInteger
        | DefaultFunction::LessThanInteger
        | DefaultFunction::LessThanEqualsInteger => {
            let a = match integer(&args[0]) {
                Ok(a) => a,
                Err(e) => { return Err(e); },
            };
            let b = match integer(&args[1]) {
                Ok(b) => b,
                Err(e) => { return Err(e); },
            };
            match integer_op(fun, a, b) {
                Ok(c) => constant(c),
                Err(reason) => Err(Error::BuiltinFailure(fun, reason)),
            }
        },
        DefaultFunction::AppendByteString
        | DefaultFunction::EqualsByteString
        | DefaultFunction::LessThanByteString
        | DefaultFunction::LessThanEqualsByteString => {
            let a = match bytes(&args[0]) {
                Ok(a) => a,
                Err(e) => { return Err(e); },
            };
            let b = match bytes(&args[1]) {
                Ok(b) => b,
                Err(e) => { return Err(e); },
            };
            constant(bytes_op(fun, a, b))
        },
        DefaultFunction::ConsByteString => {
            let byte = match integer(&args[0]) {
                Ok(a) => a,
                Err(e) => { return Err(e); },
            };
            let b = match bytes(&args[1]) {
                Ok(b) => b,
                Err(e) => { return Err(e); },
            };
            if 0 <= byte && byte <= 255 {
                let mut first: Vec<u8> = Vec::new();
                first.push(byte as u8);
                assert(first@ =~= seq![byte as u8]);
                constant(Constant::ByteString(append_bytes(&first, b)))
            } else {
                Err(Error::BuiltinFailure(fun, Reason::Overflow))
            }
        },
        DefaultFunction::LengthOfByteString => {
            let b = match bytes(&args[0]) {
                Ok(b) => b,
                Err(e) => { return Err(e); },
            };
            if b.len() > isize::MAX as usize {
                Err(Error::BuiltinFailure(fun, Reason::Overflow))
            } else {
                constant(Constant::Integer(b.len() as isize))
            }
        },
        DefaultFunction::IndexByteString => {
            let b = match bytes(&args[0]) {
                Ok(b) => b,
                Err(e) => { return Err(e); },
            };
            let i = match integer(&args[1]) {
                Ok(i) => i,
                Err(e) => { return Err(e); },
            };
            if 0 <= i && (i as usize) < b.len() {
                constant(Constant::Integer(b[i as usize] as isize))
            } else {
                Err(Error::BuiltinFailure(fun, Reason::IndexOutOfRange))
            }
        },
        DefaultFunction::AppendString => {
            let a = match string(&args[0]) {
                Ok(a) => a,
                Err(e) => { return Err(e); },
            };
            let b = match string(&args[1]) {
                Ok(b) => b,
                Err(e) => { return Err(e); },
            };
            let mut joined = a.clone();
            joined.append(b.as_str());
            constant(Constant::String(joined))
        },
        DefaultFunction::EqualsString => {
            let a = match string(&args[0]) {
                Ok(a) => a,
                Err(e) => { return Err(e); },
            };
            let b = match string(&args[1]) {
                Ok(b) => b,
                Err(e) => { return Err(e); },
            };
            let same = *a == *b;
            constant(Constant::Bool(same))
        },
        DefaultFunction::IfThenElse => match truth(&args[0]) {
            Err(e) => Err(e),
            Ok(condition) => if condition {
                Ok((share(&args[1]), None))
            } else {
                Ok((share(&args[2]), None))
            },
        },
        DefaultFunction::ChooseUnit => match unit(&args[0]) {
            Err(e) => Err(e),
            Ok(_) => Ok((share(&args[1]), None)),
        },
        DefaultFunction::Trace => match string(&args[0]) {
            Err(e) => Err(e),
            Ok(line) => Ok((share(&args[1]), Some(line.clone()))),
        },
        DefaultFunction::FstPair | DefaultFunction::SndPair => Err(
            Error::TypeMismatch(Type::Pair, type_of(&args[0])),
        ),
        DefaultFunction::ChooseList
        | DefaultFunction::HeadList
        | DefaultFunction::TailList
        | DefaultFunction::NullList => Err(Error::TypeMismatch(Type::List, type_of(&args[0]))),
        DefaultFunction::ChooseData
        | DefaultFunction::UnIData
        | DefaultFunction::UnBData
        | DefaultFunction::EqualsData => Err(Error::TypeMismatch(Type::Data, type_of(&args[0]))),
    }
}

/// The size by which a built-in function is charged for the value.
pub fn size(v: &Value) -> (n: usize)
    ensures
        n == v.deep_view().size(),
{
    match v {
        Value::Con(Constant::ByteString(b)) => b.len() / 8 + 1,
        Value::Con(Constant::String(s)) => s.as_str().unicode_len(),
        _ => 1,
    }
}

/// The sizes of the values, added up.
pub fn sizes(args: &Vec<Rc<Value>>) -> (n: u128)
    requires
        args@.len() <= 6,
    ensures
        n == total_size(args.deep_view()),
{
    let mut n: u128 = 0;
    let mut i: usize = 0;
    let ghost all = args.deep_view();
    assert(all.take(0) =~= Seq::empty());
    while i < args.len()
        invariant
            i <= args@.len() <= 6,
            all == args.deep_view(),
            n == total_size(all.take(i as int)),
            n <= i * usize::MAX,
        decreases args@.len() - i,
    {
        assert(all.take(i + 1).drop_last() =~= all.take(i as int));
        assert(all.take(i + 1).last() == args@[i as int].deep_view());
        n = n + size(&args[i]) as u128;
        i += 1;
    }
    assert(all.take(i as int) =~= all);
    n
}

} // verus!
