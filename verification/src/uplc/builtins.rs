//! The built-in functions of Untyped Plutus Core.
use vstd::prelude::*;

verus! {

#[derive(Clone, Copy, Debug, PartialEq, Eq, Structural)]
pub enum DefaultFunction {
    // Integers
    AddInteger,
    SubtractInteger,
    MultiplyInteger,
    EqualsInteger,
    LessThanInteger,
    LessThanEqualsInteger,
    // Byte strings
    AppendByteString,
    ConsByteString,
    LengthOfByteString,
    IndexByteString,
    EqualsByteString,
    LessThanByteString,
    LessThanEqualsByteString,
    // Strings
    AppendString,
    EqualsString,
    // Control
    IfThenElse,
    ChooseUnit,
    Trace,
    // Pairs
    FstPair,
    SndPair,
    // Lists
    ChooseList,
    HeadList,
    TailList,
    NullList,
    // Data
    ChooseData,
    UnIData,
    UnBData,
    EqualsData,
}

impl DeepView for DefaultFunction {
    type V = DefaultFunction;

    open spec fn deep_view(&self) -> DefaultFunction {
        *self
    }
}

/// The name by which the textual form calls a built-in function.
pub open spec fn spec_name(fun: DefaultFunction) -> Seq<char> {
    match fun {
        DefaultFunction::AddInteger => "addInteger"@,
        DefaultFunction::SubtractInteger => "subtractInteger"@,
        DefaultFunction::MultiplyInteger => "multiplyInteger"@,
        DefaultFunction::EqualsInteger => "equalsInteger"@,
        DefaultFunction::LessThanInteger => "lessThanInteger"@,
        DefaultFunction::LessThanEqualsInteger => "lessThanEqualsInteger"@,
        DefaultFunction::AppendByteString => "appendByteString"@,
        DefaultFunction::ConsByteString => "consByteString"@,
        DefaultFunction::LengthOfByteString => "lengthOfByteString"@,
        DefaultFunction::IndexByteString => "indexByteString"@,
        DefaultFunction::EqualsByteString => "equalsByteString"@,
        DefaultFunction::LessThanByteString => "lessThanByteString"@,
        DefaultFunction::LessThanEqualsByteString => "lessThanEqualsByteString"@,
        DefaultFunction::AppendString => "appendString"@,
        DefaultFunction::EqualsString => "equalsString"@,
        DefaultFunction::IfThenElse => "ifThenElse"@,
        DefaultFunction::ChooseUnit => "chooseUnit"@,
        DefaultFunction::Trace => "trace"@,
        DefaultFunction::FstPair => "fstPair"@,
        DefaultFunction::SndPair => "sndPair"@,
        DefaultFunction::ChooseList => "chooseList"@,
        DefaultFunction::HeadList => "headList"@,
        DefaultFunction::TailList => "tailList"@,
        DefaultFunction::NullList => "nullList"@,
        DefaultFunction::ChooseData => "chooseData"@,
        DefaultFunction::UnIData => "unIData"@,
        DefaultFunction::UnBData => "unBData"@,
        DefaultFunction::EqualsData => "equalsData"@,
    }
}

/// The built-in function number `i` of the enumeration.
pub open spec fn nth(i: nat) -> DefaultFunction {
    if i == 0 {
        DefaultFunction::AddInteger
    } else if i == 1 {
        DefaultFunction::SubtractInteger
    } else if i == 2 {
        DefaultFunction::MultiplyInteger
    } else if i == 3 {
        DefaultFunction::EqualsInteger
    } else if i == 4 {
        DefaultFunction::LessThanInteger
    } else if i == 5 {
        DefaultFunction::LessThanEqualsInteger
    } else if i == 6 {
        DefaultFunction::AppendByteString
    } else if i == 7 {
        DefaultFunction::ConsByteString
    } else if i == 8 {
        DefaultFunction::LengthOfByteString
    } else if i == 9 {
        DefaultFunction::IndexByteString
    } else if i == 10 {
        DefaultFunction::EqualsByteString
    } else if i == 11 {
        DefaultFunction::LessThanByteString
    } else if i == 12 {
        DefaultFunction::LessThanEqualsByteString
    } else if i == 13 {
        DefaultFunction::AppendString
    } else if i == 14 {
        DefaultFunction::EqualsString
    } else if i == 15 {
        DefaultFunction::IfThenElse
    } else if i == 16 {
        DefaultFunction::ChooseUnit
    } else if i == 17 {
        DefaultFunction::Trace
    } else if i == 18 {
        DefaultFunction::FstPair
    } else if i == 19 {
        DefaultFunction::SndPair
    } else if i == 20 {
        DefaultFunction::ChooseList
    } else if i == 21 {
        DefaultFunction::HeadList
    } else if i == 22 {
        DefaultFunction::TailList
    } else if i == 23 {
        DefaultFunction::NullList
    } else if i == 24 {
        DefaultFunction::ChooseData
    } else if i == 25 {
        DefaultFunction::UnIData
    } else if i == 26 {
        DefaultFunction::UnBData
    } else {
        DefaultFunction::EqualsData
    }
}

/// How many built-in functions there are.
pub open spec fn count() -> nat {
    28
}

/// The first built-in function from number `from` on whose name is `text`.
pub open spec fn named_from(text: Seq<char>, from: nat) -> Option<DefaultFunction>
    decreases count() - from,
{
    if from >= count() {
        None
    } else if spec_name(nth(from)) == text {
        Some(nth(from))
    } else {
        named_from(text, from + 1)
    }
}

/// The built-in function whose name is `text`.
pub open spec fn named(text: Seq<char>) -> Option<DefaultFunction> {
    named_from(text, 0)
}

impl DefaultFunction {
    /// How many arguments the function takes.
    pub open spec fn spec_arity(self) -> nat {
        match self {
            DefaultFunction::LengthOfByteString => 1,
            DefaultFunction::FstPair => 1,
            DefaultFunction::SndPair => 1,
            DefaultFunction::HeadList => 1,
            DefaultFunction::TailList => 1,
            DefaultFunction::NullList => 1,
            DefaultFunction::UnIData => 1,
            DefaultFunction::UnBData => 1,
            DefaultFunction::IfThenElse => 3,
            DefaultFunction::ChooseList => 3,
            DefaultFunction::ChooseData => 6,
            _ => 2,
        }
    }

    /// How many times the function must be forced before it takes arguments.
    pub open spec fn spec_force_count(self) -> nat {
        match self {
            DefaultFunction::IfThenElse => 1,
            DefaultFunction::ChooseUnit => 1,
            DefaultFunction::Trace => 1,
            DefaultFunction::FstPair => 2,
            DefaultFunction::SndPair => 2,
            DefaultFunction::ChooseList => 2,
            DefaultFunction::HeadList => 1,
            DefaultFunction::TailList => 1,
            DefaultFunction::NullList => 1,
            DefaultFunction::ChooseData => 1,
            _ => 0,
        }
    }

    pub fn arity(self) -> (n: usize)
        ensures
            n == self.spec_arity(),
            1 <= n <= 6,
    {
        match self {
            DefaultFunction::LengthOfByteString => 1,
            DefaultFunction::FstPair => 1,
            DefaultFunction::SndPair => 1,
            DefaultFunction::HeadList => 1,
            DefaultFunction::TailList => 1,
            DefaultFunction::NullList => 1,
            DefaultFunction::UnIData => 1,
            DefaultFunction::UnBData => 1,
            DefaultFunction::IfThenElse => 3,
            DefaultFunction::ChooseList => 3,
            DefaultFunction::ChooseData => 6,
            _ => 2,
        }
    }

    pub fn force_count(self) -> (n: usize)
        ensures
            n == self.spec_force_count(),
            n <= 2,
    {
        match self {
            DefaultFunction::IfThenElse => 1,
            DefaultFunction::ChooseUnit => 1,
            DefaultFunction::Trace => 1,
            DefaultFunction::FstPair => 2,
            DefaultFunction::SndPair => 2,
            DefaultFunction::ChooseList => 2,
            DefaultFunction::HeadList => 1,
            DefaultFunction::TailList => 1,
            DefaultFunction::NullList => 1,
            DefaultFunction::ChooseData => 1,
            _ => 0,
        }
    }

    /// The name by which the textual form calls the function.
    pub fn name(self) -> (s: &'static str)
        ensures
            s@ == spec_name(self),
    {
        match self {
            DefaultFunction::AddInteger => "addInteger",
            DefaultFunction::SubtractInteger => "subtractInteger",
            DefaultFunction::MultiplyInteger => "multiplyInteger",
            DefaultFunction::EqualsInteger => "equalsInteger",
            DefaultFunction::LessThanInteger => "lessThanInteger",
            DefaultFunction::LessThanEqualsInteger => "lessThanEqualsInteger",
            DefaultFunction::AppendByteString => "appendByteString",
            DefaultFunction::ConsByteString => "consByteString",
            DefaultFunction::LengthOfByteString => "lengthOfByteString",
            DefaultFunction::IndexByteString => "indexByteString",
            DefaultFunction::EqualsByteString => "equalsByteString",
            DefaultFunction::LessThanByteString => "lessThanByteString",
            DefaultFunction::LessThanEqualsByteString => "lessThanEqualsByteString",
            DefaultFunction::AppendString => "appendString",
            DefaultFunction::EqualsString => "equalsString",
            DefaultFunction::IfThenElse => "ifThenElse",
            DefaultFunction::ChooseUnit => "chooseUnit",
            DefaultFunction::Trace => "trace",
            DefaultFunction::FstPair => "fstPair",
            DefaultFunction::SndPair => "sndPair",
            DefaultFunction::ChooseList => "chooseList",
            DefaultFunction::HeadList => "headList",
            DefaultFunction::TailList => "tailList",
            DefaultFunction::NullList => "nullList",
            DefaultFunction::ChooseData => "chooseData",
            DefaultFunction::UnIData => "unIData",
            DefaultFunction::UnBData => "unBData",
            DefaultFunction::EqualsData => "equalsData",
        }
    }

    /// The built-in function number `i` of the enumeration.
    pub fn at(i: usize) -> (fun: DefaultFunction)
        ensures
            fun == nth(i as nat),
    {
        if i == 0 {
            DefaultFunction::AddInteger
        } else if i == 1 {
            DefaultFunction::SubtractInteger
        } else if i == 2 {
            DefaultFunction::MultiplyInteger
        } else if i == 3 {
            DefaultFunction::EqualsInteger
        } else if i == 4 {
            DefaultFunction::LessThanInteger
        } else if i == 5 {
            DefaultFunction::LessThanEqualsInteger
        } else if i == 6 {
            DefaultFunction::AppendByteString
        } else if i == 7 {
            DefaultFunction::ConsByteString
        } else if i == 8 {
            DefaultFunction::LengthOfByteString
        } else if i == 9 {
            DefaultFunction::IndexByteString
        } else if i == 10 {
            DefaultFunction::EqualsByteString
        } else if i == 11 {
            DefaultFunction::LessThanByteString
        } else if i == 12 {
            DefaultFunction::LessThanEqualsByteString
        } else if i == 13 {
            DefaultFunction::AppendString
        } else if i == 14 {
            DefaultFunction::EqualsString
        } else if i == 15 {
            DefaultFunction::IfThenElse
        } else if i == 16 {
            DefaultFunction::ChooseUnit
        } else if i == 17 {
            DefaultFunction::Trace
        } else if i == 18 {
            DefaultFunction::FstPair
        } else if i == 19 {
            DefaultFunction::SndPair
        } else if i == 20 {
            DefaultFunction::ChooseList
        } else if i == 21 {
            DefaultFunction::HeadList
        } else if i == 22 {
            DefaultFunction::TailList
        } else if i == 23 {
            DefaultFunction::NullList
        } else if i == 24 {
            DefaultFunction::ChooseData
        } else if i == 25 {
            DefaultFunction::UnIData
        } else if i == 26 {
            DefaultFunction::UnBData
        } else {
            DefaultFunction::EqualsData
        }
    }

    /// The built-in function whose name is the text of `chars` from `from`
    /// up to `to`.
    pub fn from_chars(chars: &Vec<char>, from: usize, to: usize) -> (r: Option<DefaultFunction>)
        requires
            from <= to <= chars@.len(),
        ensures
            r == named(chars@.subrange(from as int, to as int)),
    {
        let mut i: usize = 0;
        while i < 28
            invariant
                i <= 28,
                from <= to <= chars@.len(),
                named(chars@.subrange(from as int, to as int)) == named_from(
                    chars@.subrange(from as int, to as int),
                    i as nat,
                ),
            decreases 28 - i,
        {
            let fun = DefaultFunction::at(i);
            if crate::text::same_text(chars, from, to, fun.name()) {
                return Some(fun);
            }
            i += 1;
        }
        None
    }
}

} // verus!
